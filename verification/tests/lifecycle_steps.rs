use pool_actors::lifecycle::{Lifecycle, MailboxPoll, Phase, Step, StopSignal, WaitOutcome};

#[test]
fn new_loop_polls_first() {
    let l = Lifecycle::new();
    assert_eq!(l.phase(), Phase::Polling);
    assert!(!l.is_stopped());
}

#[test]
fn ready_message_is_handled() {
    let mut l = Lifecycle::new();
    let step = l.after_mailbox_poll(MailboxPoll::Message(7u32));
    assert!(matches!(step, Step::Handle(7)));
    assert_eq!(l.phase(), Phase::Handling);
    l.after_handle();
    assert_eq!(l.phase(), Phase::Polling);
}

#[test]
fn closed_mailbox_stops() {
    let mut l = Lifecycle::new();
    let step = l.after_mailbox_poll(MailboxPoll::<u8>::Closed);
    assert!(matches!(step, Step::Stop));
    assert!(l.is_stopped());
    assert_eq!(l.phase(), Phase::Stopped);
}

#[test]
fn empty_mailbox_leads_to_the_signal() {
    let mut l = Lifecycle::new();
    let step = l.after_mailbox_poll(MailboxPoll::<u8>::Empty);
    assert!(matches!(step, Step::PollSignal));
    assert_eq!(l.phase(), Phase::CheckingSignal);
}

fn checking_signal() -> Lifecycle {
    let mut l = Lifecycle::new();
    assert!(matches!(l.after_mailbox_poll(MailboxPoll::<u8>::Empty), Step::PollSignal));
    l
}

#[test]
fn pending_signal_exhausts() {
    let mut l = checking_signal();
    let step = l.after_signal_poll::<u8>(StopSignal::Pending);
    assert!(matches!(step, Step::Exhaust));
    assert_eq!(l.phase(), Phase::Waiting);
}

#[test]
fn fired_or_dropped_signal_stops() {
    for signal in [StopSignal::Fired, StopSignal::Dropped] {
        let mut l = checking_signal();
        let step = l.after_signal_poll::<u8>(signal);
        assert!(matches!(step, Step::Stop));
        assert!(l.is_stopped());
    }
}

fn waiting_loop() -> Lifecycle {
    let mut l = checking_signal();
    assert!(matches!(l.after_signal_poll::<u8>(StopSignal::Pending), Step::Exhaust));
    l
}

#[test]
fn message_after_wait_is_handled() {
    let mut l = waiting_loop();
    let step = l.after_wait(WaitOutcome::Message(5u8));
    assert!(matches!(step, Step::Handle(5)));
    assert_eq!(l.phase(), Phase::Handling);
}

#[test]
fn anything_else_after_wait_stops() {
    for outcome in [WaitOutcome::<u8>::Ended, WaitOutcome::Signalled, WaitOutcome::SignalDropped] {
        let mut l = waiting_loop();
        let step = l.after_wait(outcome);
        assert!(matches!(step, Step::Stop));
        assert_eq!(l.phase(), Phase::Stopped);
    }
}

/// Runs the loop over a queue of messages with the stop signal fixed to
/// `signal`, and returns the handled messages and the final step's kind.
fn drain(mut queue: Vec<u32>, signal: StopSignal) -> (Vec<u32>, &'static str) {
    let mut l = Lifecycle::new();
    queue.reverse();
    let mut handled = Vec::new();
    loop {
        let poll = match queue.pop() {
            Some(m) => MailboxPoll::Message(m),
            None => MailboxPoll::Empty,
        };
        let mut step = l.after_mailbox_poll(poll);
        if let Step::PollSignal = step {
            step = l.after_signal_poll(signal);
        }
        match step {
            Step::Handle(m) => {
                handled.push(m);
                l.after_handle();
            }
            Step::Exhaust => return (handled, "exhaust"),
            Step::Stop => return (handled, "stop"),
            Step::PollSignal => return (handled, "poll signal twice"),
        }
    }
}

#[test]
fn queued_messages_are_drained_before_stopping() {
    assert_eq!(drain(vec![1, 2, 3], StopSignal::Fired), (vec![1, 2, 3], "stop"));
    assert_eq!(drain(vec![4], StopSignal::Dropped), (vec![4], "stop"));
}

#[test]
fn queued_messages_are_drained_before_going_idle() {
    assert_eq!(drain(vec![1, 2, 3], StopSignal::Pending), (vec![1, 2, 3], "exhaust"));
    assert_eq!(drain(vec![], StopSignal::Pending), (vec![], "exhaust"));
}

#[test]
fn idle_actor_waits_then_handles_then_polls_again() {
    let mut l = waiting_loop();
    assert!(matches!(l.after_wait(WaitOutcome::Message(9u8)), Step::Handle(9)));
    l.after_handle();
    assert!(matches!(l.after_mailbox_poll(MailboxPoll::<u8>::Empty), Step::PollSignal));
    assert!(matches!(l.after_signal_poll::<u8>(StopSignal::Fired), Step::Stop));
    assert!(l.is_stopped());
}
