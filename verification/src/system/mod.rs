//! What the overlay asks of the system around it: launching commands,
//! registering itself, and finding its own processes. The calls are the
//! host's; the decisions about texts and codes are made here.

pub mod executor;
pub mod explorer;
pub mod registry;
