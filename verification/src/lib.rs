//! Binary codec for the control messages that establish and acknowledge a
//! bidirectional data channel (DCEP-style): typed values for the two control
//! messages, decode from and encode to byte buffers, and a layered error
//! taxonomy describing every way parsing can fail.

pub mod buffer;
pub mod channel_type;
pub mod data_channel_ack;
pub mod data_channel_open;
pub mod decimal;
pub mod error;
pub mod message;
pub mod message_type;
