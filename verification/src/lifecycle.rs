//! The decisions an actor's context takes while it runs.
//!
//! An actor runs in a loop on a thread pool. Each round it looks at its
//! mailbox and at the signal that its last address sends when it is dropped,
//! and decides: hand a message to the actor, go idle (tell the actor that the
//! mailbox is exhausted and wait for either event), or stop. The waiting and
//! the polling are done by the runtime; what to do with what they report is
//! decided here, as a state machine over [`Phase`].
use vstd::prelude::*;

verus! {

/// What a poll of the actor's mailbox reported.
pub enum MailboxPoll<M> {
    /// A message was ready.
    Message(M),
    /// Every sender is gone: no message can arrive any more.
    Closed,
    /// No message is ready yet.
    Empty,
}

/// What a poll of the stop signal reported.
#[derive(Clone, Copy, Debug, PartialEq, Eq, Structural)]
pub enum StopSignal {
    /// The last address still exists.
    Pending,
    /// The last address was dropped and signalled the actor.
    Fired,
    /// The signalling end was dropped without a signal; this counts as a stop.
    Dropped,
}

/// What the blocking wait for "a message or the stop signal" returned.
pub enum WaitOutcome<M> {
    /// A message arrived first.
    Message(M),
    /// The merged stream of both events ended.
    Ended,
    /// The stop signal arrived first.
    Signalled,
    /// The signalling end was dropped without a signal.
    SignalDropped,
}

/// What the runtime has to do next.
pub enum Step<M> {
    /// Hand this message to the actor, then report back with `after_handle`.
    Handle(M),
    /// The mailbox is empty: poll the stop signal and report with
    /// `after_signal_poll`.
    PollSignal,
    /// Tell the actor that its mailbox is exhausted, wait for a message or
    /// the stop signal, and report the outcome with `after_wait`.
    Exhaust,
    /// The actor is done: leave the loop and drop the context.
    Stop,
}

/// Where the loop stands.
#[derive(Clone, Copy, Debug, PartialEq, Eq, Structural)]
pub enum Phase {
    /// About to poll the mailbox.
    Polling,
    /// The mailbox was empty; about to poll the stop signal.
    CheckingSignal,
    /// A message is being handled by the actor.
    Handling,
    /// The actor was told that its mailbox is exhausted; waiting for an event.
    Waiting,
    /// The loop has ended.
    Stopped,
}

/// The step that one round of polling ends with: the mailbox is polled first,
/// and the stop signal only when the mailbox is empty. A ready message always
/// wins over the stop signal, so messages that reached the mailbox before the
/// last address was dropped are still handled.
pub open spec fn poll_step<M>(mailbox: MailboxPoll<M>, signal: StopSignal) -> Step<M> {
    match mailbox {
        MailboxPoll::Message(m) => Step::Handle(m),
        MailboxPoll::Closed => Step::Stop,
        MailboxPoll::Empty => if signal == StopSignal::Pending {
            Step::Exhaust
        } else {
            Step::Stop
        },
    }
}

/// The step taken after waiting: only a message keeps the actor alive.
pub open spec fn wait_step<M>(outcome: WaitOutcome<M>) -> Step<M> {
    match outcome {
        WaitOutcome::Message(m) => Step::Handle(m),
        _ => Step::Stop,
    }
}

/// The phase the loop is in once the runtime carries out `step`.
pub open spec fn phase_after<M>(step: Step<M>) -> Phase {
    match step {
        Step::Handle(_) => Phase::Handling,
        Step::PollSignal => Phase::CheckingSignal,
        Step::Exhaust => Phase::Waiting,
        Step::Stop => Phase::Stopped,
    }
}

/// The loop state of one actor's context.
pub struct Lifecycle {
    phase: Phase,
}

impl View for Lifecycle {
    type V = Phase;

    closed spec fn view(&self) -> Phase {
        self.phase
    }
}

impl Lifecycle {
    /// A loop that has not polled yet.
    pub fn new() -> (l: Lifecycle)
        ensures
            l@ == Phase::Polling,
    {
        Lifecycle { phase: Phase::Polling }
    }

    /// The current phase.
    pub fn phase(&self) -> (p: Phase)
        ensures
            p == self@,
    {
        self.phase
    }

    /// Whether the loop has ended.
    pub fn is_stopped(&self) -> (b: bool)
        ensures
            b == (self@ == Phase::Stopped),
    {
        match self.phase {
            Phase::Stopped => true,
            _ => false,
        }
    }

    /// Decides what to do with one poll of the mailbox. A ready message is
    /// handed to the actor at once; a closed mailbox ends the loop; only an
    /// empty one leads to a look at the stop signal.
    pub fn after_mailbox_poll<M>(&mut self, mailbox: MailboxPoll<M>) -> (step: Step<M>)
        requires
            old(self)@ == Phase::Polling,
        ensures
            final(self)@ == phase_after(step),
            mailbox is Empty ==> step is PollSignal,
            !(mailbox is Empty) ==> forall|signal: StopSignal| step == poll_step(mailbox, signal),
            mailbox matches MailboxPoll::Message(m) ==> step == Step::Handle(m),
            mailbox is Closed ==> step is Stop,
    {
        match mailbox {
            MailboxPoll::Message(m) => {
                self.phase = Phase::Handling;
                Step::Handle(m)
            },
            MailboxPoll::Closed => {
                self.phase = Phase::Stopped;
                Step::Stop
            },
            MailboxPoll::Empty => {
                self.phase = Phase::CheckingSignal;
                Step::PollSignal
            },
        }
    }

    /// Decides what to do with a poll of the stop signal, made because the
    /// mailbox was empty: stop once the last address is gone, and otherwise
    /// tell the actor that its mailbox is exhausted and wait.
    pub fn after_signal_poll<M>(&mut self, signal: StopSignal) -> (step: Step<M>)
        requires
            old(self)@ == Phase::CheckingSignal,
        ensures
            step == poll_step(MailboxPoll::<M>::Empty, signal),
            final(self)@ == phase_after(step),
            step is Exhaust <==> signal == StopSignal::Pending,
            step is Stop <==> signal != StopSignal::Pending,
    {
        match signal {
            StopSignal::Pending => {
                self.phase = Phase::Waiting;
                Step::Exhaust
            },
            StopSignal::Fired => {
                self.phase = Phase::Stopped;
                Step::Stop
            },
            StopSignal::Dropped => {
                self.phase = Phase::Stopped;
                Step::Stop
            },
        }
    }

    /// Decides what to do with the outcome of the wait that follows an
    /// exhausted mailbox. It never asks to exhaust again.
    pub fn after_wait<M>(&mut self, outcome: WaitOutcome<M>) -> (step: Step<M>)
        requires
            old(self)@ == Phase::Waiting,
        ensures
            step == wait_step(outcome),
            final(self)@ == phase_after(step),
            outcome matches WaitOutcome::Message(m) ==> step == Step::Handle(m),
            !(outcome is Message) ==> step is Stop,
            !(step is Exhaust) && !(step is PollSignal),
    {
        match outcome {
            WaitOutcome::Message(m) => {
                self.phase = Phase::Handling;
                Step::Handle(m)
            },
            WaitOutcome::Ended => {
                self.phase = Phase::Stopped;
                Step::Stop
            },
            WaitOutcome::Signalled => {
                self.phase = Phase::Stopped;
                Step::Stop
            },
            WaitOutcome::SignalDropped => {
                self.phase = Phase::Stopped;
                Step::Stop
            },
        }
    }

    /// Records that the actor has handled the message of the last step.
    pub fn after_handle(&mut self)
        requires
            old(self)@ == Phase::Handling,
        ensures
            final(self)@ == Phase::Polling,
    {
        self.phase = Phase::Polling;
    }
}

/// The steps of a run of polls, each handled message followed by the next
/// poll, up to the first poll that does not hand a message to the actor.
pub open spec fn poll_run<M>(polls: Seq<(MailboxPoll<M>, StopSignal)>) -> Seq<Step<M>>
    decreases polls.len(),
{
    if polls.len() == 0 {
        Seq::empty()
    } else {
        let step = poll_step(polls[0].0, polls[0].1);
        if step is Handle {
            seq![step] + poll_run(polls.drop_first())
        } else {
            seq![step]
        }
    }
}

/// The polls that see the messages of `queued` one after another, with the
/// stop signal in the states of `signals`, and then an empty mailbox with the
/// stop signal in state `last`.
pub open spec fn draining_polls<M>(
    queued: Seq<M>,
    signals: Seq<StopSignal>,
    last: StopSignal,
) -> Seq<(MailboxPoll<M>, StopSignal)> {
    Seq::new(queued.len(), |i: int| (MailboxPoll::Message(queued[i]), signals[i])).push(
        (MailboxPoll::Empty, last),
    )
}

/// Messages that are in the mailbox are handled in the order in which they
/// are polled, whatever the stop signal says meanwhile; once the mailbox is
/// empty the actor stops if its last address is gone, and otherwise goes idle
/// (it is told that its mailbox is exhausted) and waits.
pub proof fn lemma_queued_messages_come_first<M>(
    queued: Seq<M>,
    signals: Seq<StopSignal>,
    last: StopSignal,
)
    requires
        signals.len() == queued.len(),
    ensures
        poll_run(draining_polls(queued, signals, last)) == queued.map_values(
            |m: M| Step::Handle(m),
        ).push(if last == StopSignal::Pending { Step::Exhaust } else { Step::Stop }),
    decreases queued.len(),
{
    let polls = draining_polls(queued, signals, last);
    let end: Step<M> = if last == StopSignal::Pending { Step::Exhaust } else { Step::Stop };
    if queued.len() == 0 {
        assert(polls =~= seq![(MailboxPoll::<M>::Empty, last)]);
        assert(polls.drop_first() =~= Seq::<(MailboxPoll<M>, StopSignal)>::empty());
        assert(queued.map_values(|m: M| Step::Handle(m)).push(end) =~= seq![end]);
    } else {
        let rest_q = queued.drop_first();
        let rest_s = signals.drop_first();
        lemma_queued_messages_come_first(rest_q, rest_s, last);
        assert(polls.drop_first() =~= draining_polls(rest_q, rest_s, last));
        assert(polls[0] == (MailboxPoll::Message(queued[0]), signals[0]));
        assert(queued.map_values(|m: M| Step::Handle(m)).push(end) =~= seq![
            Step::Handle(queued[0]),
        ] + rest_q.map_values(|m: M| Step::Handle(m)).push(end));
    }
}

/// Once the last address is gone, an actor with an empty mailbox stops and is
/// not told that its mailbox is exhausted, whether it notices while polling or
/// while waiting.
pub proof fn lemma_signal_stops_idle_actor<M>(signal: StopSignal, outcome: WaitOutcome<M>)
    requires
        signal != StopSignal::Pending,
        !(outcome is Message),
    ensures
        poll_step(MailboxPoll::<M>::Empty, signal) is Stop,
        phase_after(poll_step(MailboxPoll::<M>::Empty, signal)) == Phase::Stopped,
        wait_step(outcome) is Stop,
        phase_after(wait_step(outcome)) == Phase::Stopped,
{
}

} // verus!
