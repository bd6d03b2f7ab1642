//! The channel-type byte of a DATA_CHANNEL_OPEN message: the reliability and
//! ordering policy requested for the channel, one byte on the wire.

use vstd::prelude::*;

use crate::buffer;
use crate::buffer::bytes_data;
use crate::buffer::sink_data;
use crate::error::ChannelTypeError;

verus! {

/// Reliability/ordering policy of a data channel, as carried by the second
/// byte of a DATA_CHANNEL_OPEN message.
#[derive(PartialEq, Eq, Structural, Clone, Copy, Debug)]
pub enum ChannelType {
    Reliable,
    ReliableUnordered,
    PartialReliableRexmit,
    PartialReliableRexmitUnordered,
    PartialReliableTimed,
    PartialReliableTimedUnordered,
}

/// The wire code of each channel type.
pub open spec fn channel_type_byte(c: ChannelType) -> u8 {
    match c {
        ChannelType::Reliable => 0x00,
        ChannelType::ReliableUnordered => 0x80,
        ChannelType::PartialReliableRexmit => 0x01,
        ChannelType::PartialReliableRexmitUnordered => 0x81,
        ChannelType::PartialReliableTimed => 0x02,
        ChannelType::PartialReliableTimedUnordered => 0x82,
    }
}

/// The channel type a wire byte stands for, if any.
pub open spec fn channel_type_of(b: u8) -> Option<ChannelType> {
    if b == 0x00 {
        Some(ChannelType::Reliable)
    } else if b == 0x80 {
        Some(ChannelType::ReliableUnordered)
    } else if b == 0x01 {
        Some(ChannelType::PartialReliableRexmit)
    } else if b == 0x81 {
        Some(ChannelType::PartialReliableRexmitUnordered)
    } else if b == 0x02 {
        Some(ChannelType::PartialReliableTimed)
    } else if b == 0x82 {
        Some(ChannelType::PartialReliableTimedUnordered)
    } else {
        None
    }
}

/// Decoding the byte an encoder wrote gives the channel type back.
pub proof fn lemma_channel_type_byte_roundtrip(c: ChannelType)
    ensures
        channel_type_of(channel_type_byte(c)) == Some(c),
{
}

/// What decoding a channel type from the bytes `s` returns: the type named
/// by the first byte, a short-buffer error when there is none, an
/// invalid-type error naming the byte when it matches no variant.
pub open spec fn channel_type_decode_spec(s: Seq<u8>) -> Result<ChannelType, ChannelTypeError> {
    if s.len() < 1 {
        Err(ChannelTypeError::UnexpectedEndOfBuffer { expected: 1, actual: s.len() as usize })
    } else {
        match channel_type_of(s[0]) {
            Some(c) => Ok(c),
            None => Err(ChannelTypeError::InvalidChannelType { invalid_type: s[0] }),
        }
    }
}

impl ChannelType {
    /// Reads one byte from the buffer and returns the channel type it names.
    /// Succeeds exactly when a byte is there and matches a variant, consuming
    /// that byte; on failure the buffer position is unspecified.
    pub fn unmarshal_from(buf: &mut bytes::Bytes) -> (r: Result<ChannelType, ChannelTypeError>)
        ensures
            match r {
                Ok(c) => channel_type_decode_spec(bytes_data(*old(buf))) == Ok::<
                    ChannelType,
                    ChannelTypeError,
                >(c) && bytes_data(*final(buf)) == bytes_data(*old(buf)).skip(1),
                Err(e) => channel_type_decode_spec(bytes_data(*old(buf))) == Err::<
                    ChannelType,
                    ChannelTypeError,
                >(e),
            },
    {
        let rem = buffer::remaining(buf);
        if rem < 1 {
            return Err(ChannelTypeError::UnexpectedEndOfBuffer { expected: 1, actual: rem });
        }
        let b = buffer::get_u8(buf);
        if b == 0x00 {
            Ok(ChannelType::Reliable)
        } else if b == 0x80 {
            Ok(ChannelType::ReliableUnordered)
        } else if b == 0x01 {
            Ok(ChannelType::PartialReliableRexmit)
        } else if b == 0x81 {
            Ok(ChannelType::PartialReliableRexmitUnordered)
        } else if b == 0x02 {
            Ok(ChannelType::PartialReliableTimed)
        } else if b == 0x82 {
            Ok(ChannelType::PartialReliableTimedUnordered)
        } else {
            Err(ChannelTypeError::InvalidChannelType { invalid_type: b })
        }
    }

    /// Appends this type's wire code, exactly one byte, to the sink and
    /// returns how many bytes it wrote. Cannot fail.
    pub fn marshal_to(&self, buf: &mut bytes::BytesMut) -> (r: Result<usize, ChannelTypeError>)
        requires
            sink_data(*old(buf)).len() + 1 <= (isize::MAX as usize),
        ensures
            r == Ok::<usize, ChannelTypeError>(1),
            sink_data(*final(buf)) == sink_data(*old(buf)).push(channel_type_byte(*self)),
    {
        let b: u8 = match self {
            ChannelType::Reliable => 0x00,
            ChannelType::ReliableUnordered => 0x80,
            ChannelType::PartialReliableRexmit => 0x01,
            ChannelType::PartialReliableRexmitUnordered => 0x81,
            ChannelType::PartialReliableTimed => 0x02,
            ChannelType::PartialReliableTimedUnordered => 0x82,
        };
        buffer::put_u8(buf, b);
        Ok(1)
    }

    /// Number of bytes this value occupies on the wire: always one.
    pub fn marshal_size(&self) -> (r: usize)
        ensures
            r == 1,
    {
        1
    }
}

} // verus!
