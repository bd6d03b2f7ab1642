//! Layered error taxonomy of the codec: one error kind per parsing stage,
//! outer kinds wrapping inner kinds without losing the original cause.

use vstd::prelude::*;
use vstd::string::StringExecFns;

use crate::decimal::dec_chars;
use crate::decimal::usize_dec;
use crate::message_type::MessageType;

verus! {

/// Failure while decoding the channel-type byte.
#[derive(PartialEq, Eq, Structural, Clone, Debug)]
pub enum ChannelTypeError {
    /// The buffer held fewer bytes than the field needs.
    UnexpectedEndOfBuffer { expected: usize, actual: usize },
    /// The byte matches no known channel type.
    InvalidChannelType { invalid_type: u8 },
}

/// Failure while decoding a DATA_CHANNEL_OPEN payload.
#[derive(PartialEq, Eq, Structural, Clone, Debug)]
pub enum DataChannelOpenError {
    /// The buffer held fewer bytes than the field needs.
    UnexpectedEndOfBuffer { expected: usize, actual: usize },
    /// The declared label and protocol lengths disagree with the bytes
    /// actually left in the buffer.
    ExpectedAndActualLengthMismatch { expected: usize, actual: usize },
    /// The payload carried a payload protocol identifier outside the
    /// recognized set.
    InvalidPayloadProtocolIdentifier,
    /// The channel-type byte could not be decoded.
    ChannelType(ChannelTypeError),
}

/// Failure while decoding the message-type byte.
#[derive(PartialEq, Eq, Structural, Clone, Debug)]
pub enum MessageTypeError {
    /// The buffer held fewer bytes than the field needs.
    UnexpectedEndOfBuffer { expected: usize, actual: usize },
    /// The byte matches no known message type.
    InvalidMessageType { invalid_type: u8 },
}

/// Failure while decoding a whole message: either the message-type stage or
/// the DATA_CHANNEL_OPEN payload stage failed.
#[derive(PartialEq, Eq, Structural, Clone, Debug)]
pub enum MessageError {
    /// The buffer held fewer bytes than the field needs.
    UnexpectedEndOfBuffer { expected: usize, actual: usize },
    /// Declared and actual lengths disagree.
    ExpectedAndActualLengthMismatch { expected: usize, actual: usize },
    /// The message carried a payload protocol identifier outside the
    /// recognized set.
    InvalidPayloadProtocolIdentifier,
    /// The message-type byte could not be decoded.
    MessageType(MessageTypeError),
    /// The DATA_CHANNEL_OPEN payload could not be decoded.
    DataChannelOpen(DataChannelOpenError),
}

/// Top-level error a data-channel caller consumes.
#[derive(PartialEq, Eq, Structural, Clone, Debug)]
pub enum DataChannelError {
    /// A parsed message type the caller cannot handle in its current state.
    InvalidMessageType { invalid_type: MessageType },
    /// A payload protocol identifier, as carried out of band by the
    /// transport, outside the recognized set.
    InvalidPayloadProtocolIdentifier { invalid_identifier: u32 },
    /// A message failed to decode.
    Message(MessageError),
}

/// The text of a short-buffer diagnostic, with the two counts in decimal.
pub open spec fn short_buffer_chars(expected: usize, actual: usize) -> Seq<char> {
    "Marshal buffer was too short: (expected: "@ + dec_chars(expected as int) + ", actual: "@
        + dec_chars(actual as int) + ")\n"@
}

/// The text of a length-mismatch diagnostic, with the two counts in decimal.
pub open spec fn length_mismatch_chars(expected: usize, actual: usize) -> Seq<char> {
    "Expected and actual length do not match: (expected: "@ + dec_chars(expected as int)
        + ", actual: "@ + dec_chars(actual as int) + ")\n"@
}

/// Builds a short-buffer diagnostic line.
fn short_buffer_message(expected: usize, actual: usize) -> (r: String)
    ensures
        r@ == short_buffer_chars(expected, actual),
{
    let mut s = String::from_str("Marshal buffer was too short: (expected: ");
    let e = usize_dec(expected);
    s.append(e.as_str());
    s.append(", actual: ");
    let a = usize_dec(actual);
    s.append(a.as_str());
    s.append(")\n");
    proof {
        assert(s@ =~= short_buffer_chars(expected, actual));
    }
    s
}

/// Builds a length-mismatch diagnostic line.
fn length_mismatch_message(expected: usize, actual: usize) -> (r: String)
    ensures
        r@ == length_mismatch_chars(expected, actual),
{
    let mut s = String::from_str("Expected and actual length do not match: (expected: ");
    let e = usize_dec(expected);
    s.append(e.as_str());
    s.append(", actual: ");
    let a = usize_dec(actual);
    s.append(a.as_str());
    s.append(")\n");
    proof {
        assert(s@ =~= length_mismatch_chars(expected, actual));
    }
    s
}

/// The text a `ChannelTypeError` describes itself with.
pub open spec fn channel_type_error_chars(e: ChannelTypeError) -> Seq<char> {
    match e {
        ChannelTypeError::UnexpectedEndOfBuffer { expected, actual } => short_buffer_chars(
            expected,
            actual,
        ),
        ChannelTypeError::InvalidChannelType { invalid_type } => "Invalid channel type: "@
            + dec_chars(invalid_type as int) + "\n"@,
    }
}

/// The text a `DataChannelOpenError` describes itself with; a wrapped
/// channel-type failure keeps its own text.
pub open spec fn data_channel_open_error_chars(e: DataChannelOpenError) -> Seq<char> {
    match e {
        DataChannelOpenError::UnexpectedEndOfBuffer { expected, actual } => short_buffer_chars(
            expected,
            actual,
        ),
        DataChannelOpenError::ExpectedAndActualLengthMismatch {
            expected,
            actual,
        } => length_mismatch_chars(expected, actual),
        DataChannelOpenError::InvalidPayloadProtocolIdentifier => "DataChannel message payload protocol identifier is value we can't handle\n"@,
        DataChannelOpenError::ChannelType(inner) => channel_type_error_chars(inner),
    }
}

/// The text a `MessageTypeError` describes itself with.
pub open spec fn message_type_error_chars(e: MessageTypeError) -> Seq<char> {
    match e {
        MessageTypeError::UnexpectedEndOfBuffer { expected, actual } => short_buffer_chars(
            expected,
            actual,
        ),
        MessageTypeError::InvalidMessageType { invalid_type } => "Invalid message type: "@
            + dec_chars(invalid_type as int) + "\n"@,
    }
}

/// The text a `MessageError` describes itself with; wrapped stage failures
/// keep their own text.
pub open spec fn message_error_chars(e: MessageError) -> Seq<char> {
    match e {
        MessageError::UnexpectedEndOfBuffer { expected, actual } => short_buffer_chars(
            expected,
            actual,
        ),
        MessageError::ExpectedAndActualLengthMismatch { expected, actual } => length_mismatch_chars(
            expected,
            actual,
        ),
        MessageError::InvalidPayloadProtocolIdentifier => "DataChannel message payload protocol identifier is value we can't handle\n"@,
        MessageError::MessageType(inner) => message_type_error_chars(inner),
        MessageError::DataChannelOpen(inner) => data_channel_open_error_chars(inner),
    }
}

/// The text a `DataChannelError` describes itself with; a wrapped message
/// failure keeps its own text.
pub open spec fn data_channel_error_chars(e: DataChannelError) -> Seq<char> {
    match e {
        DataChannelError::InvalidMessageType { invalid_type } => "Invalid message type: "@ + (
        match invalid_type {
            MessageType::DataChannelAck => "DataChannelAck"@,
            MessageType::DataChannelOpen => "DataChannelOpen"@,
        }) + "\n"@,
        DataChannelError::InvalidPayloadProtocolIdentifier {
            invalid_identifier,
        } => "Invalid payload protocol identifier: "@ + dec_chars(invalid_identifier as int)
            + "\n"@,
        DataChannelError::Message(inner) => message_error_chars(inner),
    }
}

impl ChannelTypeError {
    /// Describes the error as one line of text.
    pub fn message(&self) -> (r: String)
        ensures
            r@ == channel_type_error_chars(*self),
    {
        match self {
            ChannelTypeError::UnexpectedEndOfBuffer { expected, actual } => short_buffer_message(
                *expected,
                *actual,
            ),
            ChannelTypeError::InvalidChannelType { invalid_type } => {
                let mut s = String::from_str("Invalid channel type: ");
                let b = usize_dec(*invalid_type as usize);
                s.append(b.as_str());
                s.append("\n");
                proof {
                    assert(s@ =~= channel_type_error_chars(*self));
                }
                s
            },
        }
    }
}

impl DataChannelOpenError {
    /// Describes the error as one line of text; a wrapped channel-type
    /// failure keeps its own text.
    pub fn message(&self) -> (r: String)
        ensures
            r@ == data_channel_open_error_chars(*self),
    {
        match self {
            DataChannelOpenError::UnexpectedEndOfBuffer {
                expected,
                actual,
            } => short_buffer_message(*expected, *actual),
            DataChannelOpenError::ExpectedAndActualLengthMismatch {
                expected,
                actual,
            } => length_mismatch_message(*expected, *actual),
            DataChannelOpenError::InvalidPayloadProtocolIdentifier => String::from_str(
                "DataChannel message payload protocol identifier is value we can't handle\n",
            ),
            DataChannelOpenError::ChannelType(inner) => inner.message(),
        }
    }
}

impl MessageTypeError {
    /// Describes the error as one line of text.
    pub fn message(&self) -> (r: String)
        ensures
            r@ == message_type_error_chars(*self),
    {
        match self {
            MessageTypeError::UnexpectedEndOfBuffer { expected, actual } => short_buffer_message(
                *expected,
                *actual,
            ),
            MessageTypeError::InvalidMessageType { invalid_type } => {
                let mut s = String::from_str("Invalid message type: ");
                let b = usize_dec(*invalid_type as usize);
                s.append(b.as_str());
                s.append("\n");
                proof {
                    assert(s@ =~= message_type_error_chars(*self));
                }
                s
            },
        }
    }
}

impl MessageError {
    /// Describes the error as one line of text; wrapped stage failures keep
    /// their own text.
    pub fn message(&self) -> (r: String)
        ensures
            r@ == message_error_chars(*self),
    {
        match self {
            MessageError::UnexpectedEndOfBuffer { expected, actual } => short_buffer_message(
                *expected,
                *actual,
            ),
            MessageError::ExpectedAndActualLengthMismatch {
                expected,
                actual,
            } => length_mismatch_message(*expected, *actual),
            MessageError::InvalidPayloadProtocolIdentifier => String::from_str(
                "DataChannel message payload protocol identifier is value we can't handle\n",
            ),
            MessageError::MessageType(inner) => inner.message(),
            MessageError::DataChannelOpen(inner) => inner.message(),
        }
    }
}

impl DataChannelError {
    /// Describes the error as one line of text; a wrapped message failure
    /// keeps its own text.
    pub fn message(&self) -> (r: String)
        ensures
            r@ == data_channel_error_chars(*self),
    {
        match self {
            DataChannelError::InvalidMessageType { invalid_type } => {
                let mut s = String::from_str("Invalid message type: ");
                match invalid_type {
                    MessageType::DataChannelAck => s.append("DataChannelAck"),
                    MessageType::DataChannelOpen => s.append("DataChannelOpen"),
                }
                s.append("\n");
                proof {
                    assert(s@ =~= data_channel_error_chars(*self));
                }
                s
            },
            DataChannelError::InvalidPayloadProtocolIdentifier { invalid_identifier } => {
                let mut s = String::from_str("Invalid payload protocol identifier: ");
                let b = usize_dec(*invalid_identifier as usize);
                s.append(b.as_str());
                s.append("\n");
                proof {
                    assert(s@ =~= data_channel_error_chars(*self));
                }
                s
            },
            DataChannelError::Message(inner) => inner.message(),
        }
    }
}

/// Whether a message decode error reports a buffer that ran out before a
/// field could be read, at whichever stage it was noticed.
pub open spec fn is_short_buffer_error(e: MessageError) -> bool {
    match e {
        MessageError::UnexpectedEndOfBuffer { .. } => true,
        MessageError::MessageType(MessageTypeError::UnexpectedEndOfBuffer { .. }) => true,
        MessageError::DataChannelOpen(DataChannelOpenError::UnexpectedEndOfBuffer { .. }) => true,
        MessageError::DataChannelOpen(
            DataChannelOpenError::ChannelType(ChannelTypeError::UnexpectedEndOfBuffer { .. }),
        ) => true,
        _ => false,
    }
}

/// Whether a message decode error reports declared lengths that disagree
/// with the bytes actually present.
pub open spec fn is_length_mismatch_error(e: MessageError) -> bool {
    match e {
        MessageError::ExpectedAndActualLengthMismatch { .. } => true,
        MessageError::DataChannelOpen(
            DataChannelOpenError::ExpectedAndActualLengthMismatch { .. },
        ) => true,
        _ => false,
    }
}

impl From<ChannelTypeError> for DataChannelOpenError {
    /// Wraps a channel-type failure losslessly under its own variant.
    fn from(e: ChannelTypeError) -> (r: DataChannelOpenError) {
        DataChannelOpenError::ChannelType(e)
    }
}

impl vstd::std_specs::convert::FromSpecImpl<ChannelTypeError> for DataChannelOpenError {
    open spec fn obeys_from_spec() -> bool {
        true
    }

    open spec fn from_spec(e: ChannelTypeError) -> DataChannelOpenError {
        DataChannelOpenError::ChannelType(e)
    }
}

impl From<MessageTypeError> for MessageError {
    /// Wraps a message-type failure losslessly under its own variant.
    fn from(e: MessageTypeError) -> (r: MessageError) {
        MessageError::MessageType(e)
    }
}

impl vstd::std_specs::convert::FromSpecImpl<MessageTypeError> for MessageError {
    open spec fn obeys_from_spec() -> bool {
        true
    }

    open spec fn from_spec(e: MessageTypeError) -> MessageError {
        MessageError::MessageType(e)
    }
}

impl From<DataChannelOpenError> for MessageError {
    /// Wraps an open-payload failure losslessly under its own variant.
    fn from(e: DataChannelOpenError) -> (r: MessageError) {
        MessageError::DataChannelOpen(e)
    }
}

impl vstd::std_specs::convert::FromSpecImpl<DataChannelOpenError> for MessageError {
    open spec fn obeys_from_spec() -> bool {
        true
    }

    open spec fn from_spec(e: DataChannelOpenError) -> MessageError {
        MessageError::DataChannelOpen(e)
    }
}

impl From<MessageError> for DataChannelError {
    /// Wraps a message failure losslessly under its own variant.
    fn from(e: MessageError) -> (r: DataChannelError) {
        DataChannelError::Message(e)
    }
}

impl vstd::std_specs::convert::FromSpecImpl<MessageError> for DataChannelError {
    open spec fn obeys_from_spec() -> bool {
        true
    }

    open spec fn from_spec(e: MessageError) -> DataChannelError {
        DataChannelError::Message(e)
    }
}

} // verus!
