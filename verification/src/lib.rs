//! Decision logic of a relay agent that polls a local OCR service and forwards
//! each payload to a remote froggi instance.
//!
//! The crate holds no I/O. A driver performs the requests, reads the operator's
//! lines and keeps the clock; it hands every outcome to one of the two state
//! machines here and carries out the action that comes back.

pub mod bootstrap;
pub mod cadence;
pub mod config;
pub mod relay;
pub mod status;
pub mod text;
pub mod url;
