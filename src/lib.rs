//! A terminal slideshow core: a growing set of ready images shared between a
//! background acquisition task and a foreground render loop, with the decisions
//! of both loops and of the shutdown handshake stated as verified state machines.

pub mod ready_set;
pub mod renderer;
pub mod acquirer;
pub mod shutdown;
pub mod layout;
pub mod launch;
pub mod laws;
