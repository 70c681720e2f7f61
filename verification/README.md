# pool_actors

Actors that run on a `tokio-threadpool` pool and are reached through
addresses (futures 0.1 channels).

- `src/` is the verified core, checked by Verus:
  - `lifecycle.rs`: the decisions of an actor's run loop, as a state machine
    over the outcomes of polling the mailbox, the stop signal and the blocking
    wait; with the proof that queued messages are handled, in order, before the
    actor stops or goes idle.
  - `message.rs`: the `Message` trait and the envelope that carries a message
    and the channel of its answer; an envelope is handled at most once.
  - `actor.rs`: `ActorBuilder`.
- `app/` is the runtime around it: the `Actor` and `Handles` traits,
  addresses, contexts, delayed messages and the loop that the thread pool
  runs. It polls the channels and hands what it sees to `Lifecycle`.
- `tests/` exercises the verified core with real channels.
