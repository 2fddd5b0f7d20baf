//! A shareable front end for a consensus-engine task: each call is packed into a
//! message with its own single-use reply channel and pushed onto the engine's
//! mailbox; the replies that come back are turned into typed results here.
use vstd::prelude::*;

pub mod channel;
pub mod error;
pub mod handle;
pub mod message;
pub mod types;

verus! {

} // verus!
