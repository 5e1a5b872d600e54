//! Relay and client logic for a long-running generative-media service.
//!
//! The relay half translates caller requests into provider submissions,
//! maps provider errors to stable categories, and normalizes poll
//! responses into a tri-state reply. The client half decides, from each
//! poll reply, whether to keep waiting, finish with a result locator, or
//! abort with a message.

use vstd::prelude::*;

pub mod client;
pub mod files;
pub mod keys;
pub mod mime;
pub mod provider;
pub mod relay;
pub mod stub;
pub mod text;
pub mod types;

verus! {

} // verus!
