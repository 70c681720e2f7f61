//! The settings an actor is started with.
use vstd::prelude::*;

verus! {

/// Builder for an actor: the settings that `start_actor` takes. It holds no
/// setting yet, so all builders are equal.
#[derive(Debug, PartialEq, Eq, Structural, Clone, Hash)]
pub struct ActorBuilder {}

impl Default for ActorBuilder {
    fn default() -> (b: ActorBuilder)
        ensures
            b == (ActorBuilder {}),
    {
        ActorBuilder {}
    }
}

} // verus!
