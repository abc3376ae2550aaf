//! The operands of CEC messages and their byte encodings.

pub mod bitfield;
pub mod buffer;
pub mod codes;
pub mod features;
pub mod flags;
pub mod scalar;
pub mod service;
pub mod timer;
