//! Reading global variables.
//!
//! A variable is read inside a bracket: the device is halted, exactly the
//! variable's bytes are read, and the device is let run again, whether the
//! read succeeded or not. Listing the variables needs no device at all.

pub mod laws;
pub mod machine;
