//! The DATA_CHANNEL_ACK payload: the zero-length acknowledgment that follows
//! its message-type byte. It has no fields, occupies no bytes on the wire,
//! and can fail neither to decode nor to encode.

use vstd::prelude::*;

use crate::buffer::bytes_data;
use crate::buffer::sink_data;

verus! {

/// The acknowledgment of a channel-establishment request: a unit value.
#[derive(PartialEq, Eq, Structural, Clone, Copy, Debug)]
pub struct DataChannelAck;

impl DataChannelAck {
    /// Decodes a DATA_CHANNEL_ACK payload: consumes no bytes and always
    /// succeeds, leaving the buffer as it was.
    pub fn unmarshal_from(_buf: &mut bytes::Bytes) -> (r: DataChannelAck)
        ensures
            r == DataChannelAck,
            bytes_data(*final(_buf)) == bytes_data(*old(_buf)),
    {
        DataChannelAck
    }

    /// Encodes a DATA_CHANNEL_ACK payload: writes no bytes, leaves the sink
    /// as it was, and returns zero.
    pub fn marshal_to(&self, _buf: &mut bytes::BytesMut) -> (r: usize)
        ensures
            r == 0,
            sink_data(*final(_buf)) == sink_data(*old(_buf)),
    {
        0
    }

    /// Number of bytes this payload occupies on the wire: none.
    pub fn marshal_size(&self) -> (r: usize)
        ensures
            r == 0,
    {
        0
    }
}

} // verus!
