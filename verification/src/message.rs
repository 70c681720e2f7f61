//! Messages and the envelopes that carry them to an actor.
use vstd::prelude::*;

verus! {

/// The sending half of a one-shot channel, through which the answer to a
/// message goes back to the sender.
#[verifier::external_type_specification]
#[verifier::external_body]
#[verifier::reject_recursive_types(T)]
pub struct ExOneshotSender<T>(futures::sync::oneshot::Sender<T>);

/// A message that an actor of type `R` can receive: any value that can be sent
/// to another thread.
pub trait Message<R>: Send {

}

impl<A, M> Message<A> for M where M: Send {

}

/// What handling an envelope did.
#[derive(Clone, Copy, Debug, PartialEq, Eq, Structural)]
pub enum Delivery {
    /// The envelope had already been handled: nothing was done.
    Empty,
    /// The message was handed to the actor; nobody waits for an answer.
    Handled,
    /// The message was handed to the actor and a sender waits for its answer.
    Answered,
}

/// A message for an actor, together with the channel of its answer, if the
/// sender waits for one. `R` is the type of the answer.
#[verifier::reject_recursive_types(R)]
pub struct EnvelopeInner<M, R> {
    tx: Option<futures::sync::oneshot::Sender<R>>,
    msg: Option<M>,
}

impl<M, R> EnvelopeInner<M, R> {
    /// The message that is still to be handled, if any.
    pub closed spec fn message(self) -> Option<M> {
        self.msg
    }

    /// The channel through which the answer is still owed, if any.
    pub closed spec fn responder(self) -> Option<futures::sync::oneshot::Sender<R>> {
        self.tx
    }

    /// Whether an answer is still owed to a sender.
    pub open spec fn has_responder(self) -> bool {
        self.responder() is Some
    }

    /// The envelope once it has been handled: empty if it held a message, and
    /// unchanged otherwise.
    pub closed spec fn handled(self) -> Self {
        if self.msg is Some {
            EnvelopeInner { tx: None, msg: None }
        } else {
            self
        }
    }

    /// What handling this envelope does.
    pub open spec fn delivery(self) -> Delivery {
        if self.message() is None {
            Delivery::Empty
        } else if self.has_responder() {
            Delivery::Answered
        } else {
            Delivery::Handled
        }
    }

    /// An envelope whose answer goes back through `tx`.
    pub fn boxed_new(msg: M, tx: futures::sync::oneshot::Sender<R>) -> (e: Box<EnvelopeInner<M, R>>)
        ensures
            e.message() == Some(msg),
            e.responder() == Some(tx),
    {
        Box::new(EnvelopeInner { tx: Some(tx), msg: Some(msg) })
    }

    /// An envelope whose answer is dropped.
    pub fn boxed_new_without_response(msg: M) -> (e: Box<EnvelopeInner<M, R>>)
        ensures
            e.message() == Some(msg),
            e.responder() is None,
    {
        Box::new(EnvelopeInner { tx: None, msg: Some(msg) })
    }

    /// Hands the message to `handler`, which stands for the actor, and
    /// returns what it did, the handler's answer and the channel through
    /// which that answer is owed, if a sender waits for one; the caller sends
    /// the answer there. An envelope is handled at most once: once the
    /// message is taken, a further call does nothing and returns nothing.
    pub fn handle<F>(&mut self, handler: F) -> (r: (
        Delivery,
        Option<R>,
        Option<futures::sync::oneshot::Sender<R>>,
    )) where F: FnOnce(M) -> R
        requires
            old(self).message() matches Some(m) ==> handler.requires((m,)),
        ensures
            r.0 == old(self).delivery(),
            old(self).message() matches Some(m) ==> (r.1 matches Some(answer) && handler.ensures(
                (m,),
                answer,
            )),
            old(self).message() is None ==> r.1 is None,
            r.2 == (if old(self).message() is Some {
                old(self).responder()
            } else {
                None
            }),
            *final(self) == old(self).handled(),
            final(self).message() is None,
            old(self).message() is Some ==> final(self).responder() is None,
            old(self).message() is None ==> *final(self) == *old(self),
    {
        match self.msg.take() {
            Some(msg) => {
                let answer = handler(msg);
                let responder = self.tx.take();
                let delivery = match &responder {
                    Some(_) => Delivery::Answered,
                    None => Delivery::Handled,
                };
                (delivery, Some(answer), responder)
            },
            None => (Delivery::Empty, None, None),
        }
    }
}

/// Handling an envelope a second time does nothing: the message reaches the
/// actor at most once, and its responder is handed out at most once.
pub proof fn lemma_handled_at_most_once<M, R>(e: EnvelopeInner<M, R>)
    ensures
        e.handled().delivery() == Delivery::Empty,
        e.handled().handled() == e.handled(),
        e.handled().message() is None,
{
}

/// A message sent with a waiting sender hands out its responder the first
/// time it is handled, and one sent without is handled without an answer.
pub proof fn lemma_answer_iff_responder<M, R>(e: EnvelopeInner<M, R>)
    requires
        e.message() is Some,
    ensures
        e.delivery() == Delivery::Answered <==> e.has_responder(),
        e.delivery() == Delivery::Handled <==> !e.has_responder(),
{
}

} // verus!
