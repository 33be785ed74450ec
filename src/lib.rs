//! A real-time audio routing engine: device discovery, duplex format
//! negotiation, the session lifecycle and the sample transport between an
//! input and an output device.
use vstd::prelude::*;

pub mod cmd;
pub mod config;
pub mod device;
pub mod ring;
pub mod session;
pub mod transport;

verus! {

} // verus!
