//! Interfacing with the HDMI CEC (Consumer Electronics Control) subsystem:
//! the wire format of CEC messages and their operands, and the data types of
//! the kernel interface.

pub mod error;

pub use error::{Error, Range, RxError, TxError};
pub use address::{FollowerMode, InitiatorMode, LogicalAddress, LogicalAddressType, PhysicalAddress, Timeout};
pub mod codec;
pub mod operand;
pub mod address;
pub mod sys;
pub mod cdc;
pub mod message;
pub mod mode;
pub mod device;
pub mod edid;
pub mod daemon;
