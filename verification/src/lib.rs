//! Shared explorer logic: the resource bag, the explorer's responses to the
//! orchestrator, and a channel pair that logs every message event.

pub mod resource;
pub mod bag;
pub mod channel;
pub mod protocol;
pub mod traffic;
pub mod explorer;
pub mod logged_channel;
