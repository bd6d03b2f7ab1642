//! The message-type byte: the first byte of every control message, naming
//! which payload follows.

use vstd::prelude::*;

use crate::buffer;
use crate::buffer::bytes_data;
use crate::buffer::sink_data;
use crate::error::MessageTypeError;

verus! {

/// Which control message a buffer holds, as named by its first byte.
#[derive(PartialEq, Eq, Structural, Clone, Copy, Debug)]
pub enum MessageType {
    DataChannelAck,
    DataChannelOpen,
}

/// The wire code of each message type.
pub open spec fn message_type_byte(t: MessageType) -> u8 {
    match t {
        MessageType::DataChannelAck => 0x02,
        MessageType::DataChannelOpen => 0x03,
    }
}

/// The message type a wire byte stands for, if any.
pub open spec fn message_type_of(b: u8) -> Option<MessageType> {
    if b == 0x02 {
        Some(MessageType::DataChannelAck)
    } else if b == 0x03 {
        Some(MessageType::DataChannelOpen)
    } else {
        None
    }
}

/// Decoding the byte an encoder wrote gives the message type back.
pub proof fn lemma_message_type_byte_roundtrip(t: MessageType)
    ensures
        message_type_of(message_type_byte(t)) == Some(t),
{
}

/// What decoding a message type from the bytes `s` returns: the type named
/// by the first byte, a short-buffer error when there is none, an
/// invalid-type error naming the byte when it matches no variant.
pub open spec fn message_type_decode_spec(s: Seq<u8>) -> Result<MessageType, MessageTypeError> {
    if s.len() < 1 {
        Err(MessageTypeError::UnexpectedEndOfBuffer { expected: 1, actual: s.len() as usize })
    } else {
        match message_type_of(s[0]) {
            Some(t) => Ok(t),
            None => Err(MessageTypeError::InvalidMessageType { invalid_type: s[0] }),
        }
    }
}

impl MessageType {
    /// Reads one byte from the buffer and returns the message type it names.
    /// Succeeds exactly when a byte is there and matches a variant, consuming
    /// that byte; on failure the buffer position is unspecified.
    pub fn unmarshal_from(buf: &mut bytes::Bytes) -> (r: Result<MessageType, MessageTypeError>)
        ensures
            match r {
                Ok(t) => message_type_decode_spec(bytes_data(*old(buf))) == Ok::<
                    MessageType,
                    MessageTypeError,
                >(t) && bytes_data(*final(buf)) == bytes_data(*old(buf)).skip(1),
                Err(e) => message_type_decode_spec(bytes_data(*old(buf))) == Err::<
                    MessageType,
                    MessageTypeError,
                >(e),
            },
    {
        let rem = buffer::remaining(buf);
        if rem < 1 {
            return Err(MessageTypeError::UnexpectedEndOfBuffer { expected: 1, actual: rem });
        }
        let b = buffer::get_u8(buf);
        if b == 0x02 {
            Ok(MessageType::DataChannelAck)
        } else if b == 0x03 {
            Ok(MessageType::DataChannelOpen)
        } else {
            Err(MessageTypeError::InvalidMessageType { invalid_type: b })
        }
    }

    /// Appends this type's wire code, exactly one byte, to the sink and
    /// returns how many bytes it wrote. Cannot fail.
    pub fn marshal_to(&self, buf: &mut bytes::BytesMut) -> (r: Result<usize, MessageTypeError>)
        requires
            sink_data(*old(buf)).len() + 1 <= (isize::MAX as usize),
        ensures
            r == Ok::<usize, MessageTypeError>(1),
            sink_data(*final(buf)) == sink_data(*old(buf)).push(message_type_byte(*self)),
    {
        let b: u8 = match self {
            MessageType::DataChannelAck => 0x02,
            MessageType::DataChannelOpen => 0x03,
        };
        buffer::put_u8(buf, b);
        Ok(1)
    }

    /// Number of bytes this value occupies on the wire: always one.
    pub fn marshal_size(&self) -> (r: usize)
        ensures
            r == 1,
    {
        1
    }
}

} // verus!
