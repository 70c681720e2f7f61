//! A small actor library: actors run on a thread pool and are reached through
//! addresses; this crate holds the verified parts of it.
pub mod actor;
pub mod lifecycle;
pub mod message;

pub use actor::ActorBuilder;
pub use message::Message;
