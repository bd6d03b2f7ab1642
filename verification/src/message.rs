//! The message envelope: a control message is its message-type byte followed
//! by the matching payload. Decoding reads the type byte and dispatches to
//! the payload decoder; encoding recomputes the type byte from the active
//! variant and then writes the payload.

use vstd::prelude::*;

pub use crate::data_channel_ack::DataChannelAck;
pub use crate::data_channel_open::DataChannelOpen;
pub use crate::message_type::MessageType;

use crate::buffer;
use crate::buffer::bytes_data;
use crate::buffer::sink_data;
use crate::data_channel_open::DataChannelOpenModel;
use crate::data_channel_open::open_decode_spec;
use crate::data_channel_open::open_encoding;
use crate::data_channel_open::open_valid;
use crate::buffer::u16_bytes;
use crate::buffer::u16_of;
use crate::buffer::u32_bytes;
use crate::channel_type::channel_type_byte;
use crate::channel_type::channel_type_decode_spec;
use crate::error::MessageError;
use crate::error::is_length_mismatch_error;
use crate::error::is_short_buffer_error;
use crate::message_type::message_type_byte;
use crate::message_type::message_type_decode_spec;

verus! {

/// A parsed control message: the acknowledgment, or a channel-establishment
/// request with its payload.
#[derive(Clone, Debug)]
pub enum Message {
    DataChannelAck,
    DataChannelOpen(DataChannelOpen),
}

/// Mathematical model of a control message.
pub ghost enum MessageModel {
    DataChannelAck,
    DataChannelOpen(DataChannelOpenModel),
}

impl View for Message {
    type V = MessageModel;

    open spec fn view(&self) -> MessageModel {
        match self {
            Message::DataChannelAck => MessageModel::DataChannelAck,
            Message::DataChannelOpen(o) => MessageModel::DataChannelOpen(o@),
        }
    }
}

impl PartialEq for Message {
    /// Value equality: the same variant with an equal payload.
    fn eq(&self, other: &Message) -> (r: bool) {
        match (self, other) {
            (Message::DataChannelAck, Message::DataChannelAck) => true,
            (Message::DataChannelOpen(a), Message::DataChannelOpen(b)) => a == b,
            _ => false,
        }
    }
}

impl vstd::std_specs::cmp::PartialEqSpecImpl for Message {
    open spec fn obeys_eq_spec() -> bool {
        true
    }

    open spec fn eq_spec(&self, other: &Message) -> bool {
        self@ == other@
    }
}

impl Eq for Message {

}

/// The message type that names a message's active variant.
pub open spec fn message_type_of_message(m: MessageModel) -> MessageType {
    match m {
        MessageModel::DataChannelAck => MessageType::DataChannelAck,
        MessageModel::DataChannelOpen(_) => MessageType::DataChannelOpen,
    }
}

/// A message is encodable exactly when its payload is.
pub open spec fn message_valid(m: MessageModel) -> bool {
    match m {
        MessageModel::DataChannelAck => true,
        MessageModel::DataChannelOpen(o) => open_valid(o),
    }
}

/// The bytes a message occupies on the wire: its type byte, recomputed from
/// the active variant, followed by the payload's encoding.
pub open spec fn message_encoding(m: MessageModel) -> Seq<u8> {
    match m {
        MessageModel::DataChannelAck => seq![message_type_byte(MessageType::DataChannelAck)],
        MessageModel::DataChannelOpen(o) => seq![
            message_type_byte(MessageType::DataChannelOpen),
        ] + open_encoding(o),
    }
}

/// The number of bytes a message occupies on the wire: one for the type
/// byte, plus the payload's fixed header and byte sequences.
pub open spec fn message_wire_size(m: MessageModel) -> int {
    match m {
        MessageModel::DataChannelAck => 1,
        MessageModel::DataChannelOpen(o) => 12 + o.label.len() as int + o.protocol.len() as int,
    }
}

/// What decoding a message from the bytes `s` returns: the acknowledgment on
/// the ack type byte (any trailing bytes are left for the caller), an open
/// payload decoded from everything after the open type byte, or the error of
/// the stage that failed, wrapped under that stage's variant.
pub open spec fn message_decode_spec(s: Seq<u8>) -> Result<MessageModel, MessageError> {
    match message_type_decode_spec(s) {
        Err(e) => Err(MessageError::MessageType(e)),
        Ok(MessageType::DataChannelAck) => Ok(MessageModel::DataChannelAck),
        Ok(MessageType::DataChannelOpen) => match open_decode_spec(s.skip(1)) {
            Ok(o) => Ok(MessageModel::DataChannelOpen(o)),
            Err(e) => Err(MessageError::DataChannelOpen(e)),
        },
    }
}

impl Message {
    /// Decodes one control message from the buffer. Returns exactly what
    /// `message_decode_spec` says of the bytes the buffer held; on success
    /// the message's bytes are consumed (an acknowledgment leaves any
    /// trailing bytes, an open payload claims the whole buffer), on failure
    /// the buffer position is unspecified.
    pub fn unmarshal_from(buf: &mut bytes::Bytes) -> (r: Result<Message, MessageError>)
        ensures
            match r {
                Ok(m) => message_decode_spec(bytes_data(*old(buf))) == Ok::<
                    MessageModel,
                    MessageError,
                >(m@) && message_valid(m@) && (m@ is DataChannelAck ==> bytes_data(*final(buf))
                    == bytes_data(*old(buf)).skip(1)) && (m@ is DataChannelOpen ==> bytes_data(
                    *final(buf),
                ).len() == 0),
                Err(e) => message_decode_spec(bytes_data(*old(buf))) == Err::<
                    MessageModel,
                    MessageError,
                >(e),
            },
    {
        let message_type = match MessageType::unmarshal_from(buf) {
            Ok(t) => t,
            Err(e) => {
                return Err(MessageError::MessageType(e));
            },
        };
        match message_type {
            MessageType::DataChannelAck => Ok(Message::DataChannelAck),
            MessageType::DataChannelOpen => {
                match DataChannelOpen::unmarshal_from(buf) {
                    Ok(o) => {
                        proof {
                            lemma_open_decode_valid(bytes_data(*old(buf)).skip(1));
                        }
                        Ok(Message::DataChannelOpen(o))
                    },
                    Err(e) => Err(MessageError::DataChannelOpen(e)),
                }
            },
        }
    }

    /// Appends the message's wire bytes, exactly `message_encoding(self@)`,
    /// to the sink: the type byte recomputed from the active variant, then
    /// the payload. Returns how many bytes it wrote. Cannot fail.
    pub fn marshal_to(&self, buf: &mut bytes::BytesMut) -> (r: Result<usize, MessageError>)
        requires
            message_valid(self@),
            sink_data(*old(buf)).len() + message_encoding(self@).len() <= (isize::MAX as usize),
        ensures
            r == Ok::<usize, MessageError>((message_encoding(self@).len() as usize)),
            sink_data(*final(buf)) == sink_data(*old(buf)) + message_encoding(self@),
    {
        proof {
            lemma_message_encoding_len(self@);
        }
        let mut bytes_written: usize = 0;
        bytes_written = bytes_written + (match self.message_type().marshal_to(buf) {
            Ok(n) => n,
            Err(e) => {
                return Err(MessageError::MessageType(e));
            },
        });
        bytes_written = bytes_written + (match self {
            Message::DataChannelAck => 0,
            Message::DataChannelOpen(open) => {
                match open.marshal_to(buf) {
                    Ok(n) => n,
                    Err(e) => {
                        return Err(MessageError::DataChannelOpen(e));
                    },
                }
            },
        });
        proof {
            assert(sink_data(*buf) =~= sink_data(*old(buf)) + message_encoding(self@));
        }
        Ok(bytes_written)
    }

    /// Number of bytes the message occupies on the wire: the type byte plus
    /// the active payload's size.
    pub fn marshal_size(&self) -> (r: usize)
        requires
            message_valid(self@),
        ensures
            r == message_encoding(self@).len(),
            r == message_wire_size(self@),
    {
        proof {
            lemma_message_encoding_len(self@);
        }
        let type_size = self.message_type().marshal_size();
        let data_size = match self {
            Message::DataChannelAck => 0,
            Message::DataChannelOpen(info) => info.marshal_size(),
        };
        type_size + data_size
    }

    /// The message type of the active variant.
    pub fn message_type(&self) -> (t: MessageType)
        ensures
            t == message_type_of_message(self@),
    {
        match self {
            Message::DataChannelAck => MessageType::DataChannelAck,
            Message::DataChannelOpen(_) => MessageType::DataChannelOpen,
        }
    }
}

/// A payload that decoded successfully fits back on the wire: its label and
/// protocol lengths came out of 16-bit fields.
pub proof fn lemma_open_decode_valid(s: Seq<u8>)
    ensures
        open_decode_spec(s) is Ok ==> open_valid(open_decode_spec(s)->Ok_0),
{
}

/// Size consistency: a message's encoding is exactly `message_wire_size`
/// bytes long — one type byte, and for an open payload the 11-byte fixed
/// header plus the label and protocol bytes.
pub proof fn lemma_message_encoding_len(m: MessageModel)
    ensures
        message_encoding(m).len() == message_wire_size(m),
{
}

/// Round trip of the message codec: decoding the bytes the encoder wrote for
/// any encodable message gives that message back.
pub proof fn lemma_message_roundtrip(m: MessageModel)
    requires
        message_valid(m),
    ensures
        message_decode_spec(message_encoding(m)) == Ok::<MessageModel, MessageError>(m),
{
    let s = message_encoding(m);
    match m {
        MessageModel::DataChannelAck => {
            assert(s[0] == 0x02);
        },
        MessageModel::DataChannelOpen(o) => {
            assert(s[0] == 0x03);
            crate::data_channel_open::lemma_open_roundtrip(o);
            assert(s.skip(1) =~= open_encoding(o));
        },
    }
}

/// Short-buffer rejection: decoding any strict prefix of a valid message's
/// encoding fails — it never yields a message — and the error reports either
/// a buffer that ran out under a field, or, once the prefix already holds
/// the whole fixed header of an open payload, declared lengths that the
/// remaining bytes cannot satisfy.
pub proof fn lemma_prefix_rejected(m: MessageModel, n: int)
    requires
        message_valid(m),
        0 <= n < message_encoding(m).len(),
    ensures
        message_decode_spec(message_encoding(m).take(n)) is Err,
        is_short_buffer_error(message_decode_spec(message_encoding(m).take(n))->Err_0)
            || is_length_mismatch_error(message_decode_spec(message_encoding(m).take(n))->Err_0),
        n < 12 ==> is_short_buffer_error(message_decode_spec(message_encoding(m).take(n))->Err_0),
        n >= 12 ==> is_length_mismatch_error(
            message_decode_spec(message_encoding(m).take(n))->Err_0,
        ),
{
    let s = message_encoding(m).take(n);
    if n == 0 {
        assert(s.len() == 0);
    } else {
        match m {
            MessageModel::DataChannelAck => {
                assert(false);
            },
            MessageModel::DataChannelOpen(o) => {
                lemma_message_encoding_len(m);
                let opn = open_encoding(o);
                let ll = o.label.len() as int;
                let pl = o.protocol.len() as int;
                crate::data_channel_open::lemma_open_encoding_len(o);
                assert(s[0] == 0x03);
                let q = s.skip(1);
                assert(q =~= opn.take(n - 1));
                let k = n - 1;
                if k == 0 {
                    assert(channel_type_decode_spec(q) is Err);
                } else {
                    crate::channel_type::lemma_channel_type_byte_roundtrip(o.channel_type);
                    assert(q[0] == channel_type_byte(o.channel_type));
                    let t = q.skip(1);
                    let tail = u16_bytes(o.priority) + u32_bytes(o.reliability_parameter)
                        + u16_bytes(o.label.len() as u16) + u16_bytes(o.protocol.len() as u16)
                        + o.label + o.protocol;
                    assert(opn.skip(1) =~= tail);
                    assert(t =~= tail.take(k - 1));
                    if k - 1 >= 10 {
                        buffer::lemma_u16_bytes_roundtrip(o.label.len() as u16);
                        buffer::lemma_u16_bytes_roundtrip(o.protocol.len() as u16);
                        assert(t[6] == u16_bytes(o.label.len() as u16)[0]);
                        assert(t[7] == u16_bytes(o.label.len() as u16)[1]);
                        assert(t[8] == u16_bytes(o.protocol.len() as u16)[0]);
                        assert(t[9] == u16_bytes(o.protocol.len() as u16)[1]);
                        assert(u16_of(t[6], t[7]) as int == ll);
                        assert(u16_of(t[8], t[9]) as int == pl);
                        assert(t.len() - 10 < ll + pl);
                    }
                }
            },
        }
    }
}

} // verus!
