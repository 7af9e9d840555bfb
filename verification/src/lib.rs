//! Inspection of a microcontroller firmware image through its debug metadata:
//! reading named variables and measuring per-task stack margins.
//!
//! The library holds the decisions; the device and the debug-info database
//! stay with the caller, who performs each [`protocol::Action`] it is handed
//! and reports the outcome as a [`protocol::Event`].

pub mod error;
pub mod protocol;
pub mod region;
pub mod scan;
pub mod text;
pub mod margin;
pub mod readvar;
