//! The DATA_CHANNEL_OPEN payload: the channel-establishment request that
//! follows the message-type byte. On the wire: channel type (1 byte),
//! priority (2 bytes big-endian), reliability parameter (4 bytes big-endian),
//! label length and protocol length (2 bytes big-endian each), then the label
//! and protocol bytes themselves.

use vstd::prelude::*;

use crate::buffer;
use crate::buffer::bytes_data;
use crate::buffer::sink_data;
use crate::buffer::u16_bytes;
use crate::buffer::u16_of;
use crate::buffer::u32_bytes;
use crate::buffer::u32_of;
use crate::channel_type::ChannelType;
use crate::channel_type::channel_type_byte;
use crate::channel_type::channel_type_decode_spec;
use crate::error::ChannelTypeError;
use crate::error::DataChannelOpenError;

verus! {

/// A channel-establishment request. The label and protocol byte sequences
/// are owned by the value; their lengths appear on the wire as the two
/// 16-bit length fields.
#[derive(Clone, Debug)]
pub struct DataChannelOpen {
    pub channel_type: ChannelType,
    pub priority: u16,
    pub reliability_parameter: u32,
    pub label: Vec<u8>,
    pub protocol: Vec<u8>,
}

/// Mathematical model of a DATA_CHANNEL_OPEN payload: the same fields with
/// the byte sequences as `Seq<u8>`.
pub ghost struct DataChannelOpenModel {
    pub channel_type: ChannelType,
    pub priority: u16,
    pub reliability_parameter: u32,
    pub label: Seq<u8>,
    pub protocol: Seq<u8>,
}

impl View for DataChannelOpen {
    type V = DataChannelOpenModel;

    open spec fn view(&self) -> DataChannelOpenModel {
        DataChannelOpenModel {
            channel_type: self.channel_type,
            priority: self.priority,
            reliability_parameter: self.reliability_parameter,
            label: self.label@,
            protocol: self.protocol@,
        }
    }
}

impl PartialEq for DataChannelOpen {
    /// Value equality: all five fields agree.
    fn eq(&self, other: &DataChannelOpen) -> (r: bool) {
        self.channel_type == other.channel_type && self.priority == other.priority
            && self.reliability_parameter == other.reliability_parameter && compare_bytes(
            &self.label,
            &other.label,
        ) && compare_bytes(&self.protocol, &other.protocol)
    }
}

impl vstd::std_specs::cmp::PartialEqSpecImpl for DataChannelOpen {
    open spec fn obeys_eq_spec() -> bool {
        true
    }

    open spec fn eq_spec(&self, other: &DataChannelOpen) -> bool {
        self@ == other@
    }
}

impl Eq for DataChannelOpen {

}

/// Whether two byte vectors hold the same bytes.
fn compare_bytes(a: &Vec<u8>, b: &Vec<u8>) -> (r: bool)
    ensures
        r == (a@ == b@),
{
    if a.len() != b.len() {
        return false;
    }
    let mut i: usize = 0;
    while i < a.len()
        invariant
            i <= a.len(),
            a@.len() == b@.len(),
            forall|j: int| 0 <= j < i ==> a@[j] == b@[j],
        decreases a@.len() - i,
    {
        if a[i] != b[i] {
            return false;
        }
        i = i + 1;
    }
    proof {
        assert(a@ =~= b@);
    }
    true
}

/// A payload is encodable exactly when its label and protocol each fit the
/// 16-bit length field that describes them on the wire.
pub open spec fn open_valid(o: DataChannelOpenModel) -> bool {
    o.label.len() <= 0xFFFF && o.protocol.len() <= 0xFFFF
}

/// The bytes a DATA_CHANNEL_OPEN payload occupies on the wire, in order:
/// channel type, priority, reliability parameter, the two length fields,
/// then the label and protocol bytes.
pub open spec fn open_encoding(o: DataChannelOpenModel) -> Seq<u8> {
    seq![channel_type_byte(o.channel_type)] + u16_bytes(o.priority) + u32_bytes(
        o.reliability_parameter,
    ) + u16_bytes(o.label.len() as u16) + u16_bytes(o.protocol.len() as u16) + o.label + o.protocol
}

/// What decoding a DATA_CHANNEL_OPEN payload from the bytes `s` returns.
/// The fields are read in wire order, failing fast: an unrecognized channel
/// type or a fixed-width field that runs off the end reports that stage, and
/// the two declared lengths must together account for exactly the bytes that
/// remain after the fixed header — more or fewer is a length mismatch.
pub open spec fn open_decode_spec(s: Seq<u8>) -> Result<
    DataChannelOpenModel,
    DataChannelOpenError,
> {
    match channel_type_decode_spec(s) {
        Err(e) => Err(DataChannelOpenError::ChannelType(e)),
        Ok(ct) => {
            let t = s.skip(1);
            if t.len() < 2 {
                Err(DataChannelOpenError::UnexpectedEndOfBuffer {
                    expected: 2,
                    actual: t.len() as usize,
                })
            } else if t.len() < 6 {
                Err(DataChannelOpenError::UnexpectedEndOfBuffer {
                    expected: 4,
                    actual: (t.len() - 2) as usize,
                })
            } else if t.len() < 8 {
                Err(DataChannelOpenError::UnexpectedEndOfBuffer {
                    expected: 2,
                    actual: (t.len() - 6) as usize,
                })
            } else if t.len() < 10 {
                Err(DataChannelOpenError::UnexpectedEndOfBuffer {
                    expected: 2,
                    actual: (t.len() - 8) as usize,
                })
            } else {
                let label_len = u16_of(t[6], t[7]) as int;
                let protocol_len = u16_of(t[8], t[9]) as int;
                if t.len() - 10 != label_len + protocol_len {
                    Err(DataChannelOpenError::ExpectedAndActualLengthMismatch {
                        expected: (label_len + protocol_len) as usize,
                        actual: (t.len() - 10) as usize,
                    })
                } else {
                    Ok(DataChannelOpenModel {
                        channel_type: ct,
                        priority: u16_of(t[0], t[1]),
                        reliability_parameter: u32_of(t[2], t[3], t[4], t[5]),
                        label: t.subrange(10, 10 + label_len),
                        protocol: t.subrange(10 + label_len, 10 + label_len + protocol_len),
                    })
                }
            }
        },
    }
}

impl DataChannelOpen {
    /// Decodes a DATA_CHANNEL_OPEN payload from the buffer, consuming it
    /// entirely. Returns exactly what `open_decode_spec` says of the bytes
    /// the buffer held: a payload whose declared lengths matched, or the
    /// error of the first stage that failed, in which case the buffer
    /// position is unspecified.
    pub fn unmarshal_from(buf: &mut bytes::Bytes) -> (r: Result<
        DataChannelOpen,
        DataChannelOpenError,
    >)
        ensures
            match r {
                Ok(o) => open_decode_spec(bytes_data(*old(buf))) == Ok::<
                    DataChannelOpenModel,
                    DataChannelOpenError,
                >(o@) && bytes_data(*final(buf)).len() == 0,
                Err(e) => open_decode_spec(bytes_data(*old(buf))) == Err::<
                    DataChannelOpenModel,
                    DataChannelOpenError,
                >(e),
            },
    {
        let channel_type = match ChannelType::unmarshal_from(buf) {
            Ok(c) => c,
            Err(e) => {
                return Err(DataChannelOpenError::ChannelType(e));
            },
        };
        let ghost t = bytes_data(*buf);
        let rem = buffer::remaining(buf);
        if rem < 2 {
            return Err(DataChannelOpenError::UnexpectedEndOfBuffer { expected: 2, actual: rem });
        }
        let priority = buffer::get_u16(buf);
        let rem = buffer::remaining(buf);
        if rem < 4 {
            return Err(DataChannelOpenError::UnexpectedEndOfBuffer { expected: 4, actual: rem });
        }
        let reliability_parameter = buffer::get_u32(buf);
        let rem = buffer::remaining(buf);
        if rem < 2 {
            return Err(DataChannelOpenError::UnexpectedEndOfBuffer { expected: 2, actual: rem });
        }
        let label_len = buffer::get_u16(buf);
        let rem = buffer::remaining(buf);
        if rem < 2 {
            return Err(DataChannelOpenError::UnexpectedEndOfBuffer { expected: 2, actual: rem });
        }
        let protocol_len = buffer::get_u16(buf);
        let rem = buffer::remaining(buf);
        let declared: usize = label_len as usize + protocol_len as usize;
        if rem != declared {
            return Err(
                DataChannelOpenError::ExpectedAndActualLengthMismatch {
                    expected: declared,
                    actual: rem,
                },
            );
        }
        let label = buffer::read_exact(buf, label_len as usize);
        let protocol = buffer::read_exact(buf, protocol_len as usize);
        proof {
            assert(t.skip(2).skip(4) =~= t.skip(6));
            assert(t.skip(6).skip(2) =~= t.skip(8));
            assert(t.skip(8).skip(2) =~= t.skip(10));
            assert(t.skip(10).take(label_len as int) =~= t.subrange(10, 10 + label_len as int));
            assert(t.skip(10).skip(label_len as int).take(protocol_len as int) =~= t.subrange(
                10 + label_len as int,
                10 + label_len as int + protocol_len as int,
            ));
        }
        Ok(DataChannelOpen { channel_type, priority, reliability_parameter, label, protocol })
    }

    /// Appends the payload's wire bytes, exactly `open_encoding(self@)`, to
    /// the sink and returns how many bytes it wrote. Cannot fail.
    pub fn marshal_to(&self, buf: &mut bytes::BytesMut) -> (r: Result<usize, DataChannelOpenError>)
        requires
            open_valid(self@),
            sink_data(*old(buf)).len() + open_encoding(self@).len() <= (isize::MAX as usize),
        ensures
            r == Ok::<usize, DataChannelOpenError>((open_encoding(self@).len() as usize)),
            sink_data(*final(buf)) == sink_data(*old(buf)) + open_encoding(self@),
    {
        proof {
            lemma_open_encoding_len(self@);
        }
        match self.channel_type.marshal_to(buf) {
            Ok(_) => (),
            Err(e) => {
                return Err(DataChannelOpenError::ChannelType(e));
            },
        }
        buffer::put_u16(buf, self.priority);
        buffer::put_u32(buf, self.reliability_parameter);
        buffer::put_u16(buf, self.label.len() as u16);
        buffer::put_u16(buf, self.protocol.len() as u16);
        buffer::put_slice(buf, self.label.as_slice());
        buffer::put_slice(buf, self.protocol.as_slice());
        proof {
            assert(sink_data(*buf) =~= sink_data(*old(buf)) + open_encoding(self@));
        }
        Ok(11 + self.label.len() + self.protocol.len())
    }

    /// Number of bytes this payload occupies on the wire: the 11-byte fixed
    /// header plus the label and protocol bytes.
    pub fn marshal_size(&self) -> (r: usize)
        requires
            open_valid(self@),
        ensures
            r == open_encoding(self@).len(),
    {
        proof {
            lemma_open_encoding_len(self@);
        }
        11 + self.label.len() + self.protocol.len()
    }
}

/// The encoding of a payload is its 11-byte fixed header followed by the
/// label and protocol bytes.
pub proof fn lemma_open_encoding_len(o: DataChannelOpenModel)
    ensures
        open_encoding(o).len() == 11 + o.label.len() + o.protocol.len(),
{
}

/// Round trip of the payload codec: decoding the bytes the encoder wrote for
/// any encodable payload gives that payload back.
pub proof fn lemma_open_roundtrip(o: DataChannelOpenModel)
    requires
        open_valid(o),
    ensures
        open_decode_spec(open_encoding(o)) == Ok::<DataChannelOpenModel, DataChannelOpenError>(o),
{
    let p = open_encoding(o);
    let ll = o.label.len() as int;
    let pl = o.protocol.len() as int;
    lemma_open_encoding_len(o);
    crate::channel_type::lemma_channel_type_byte_roundtrip(o.channel_type);
    assert(p[0] == channel_type_byte(o.channel_type));
    let tail = u16_bytes(o.priority) + u32_bytes(o.reliability_parameter) + u16_bytes(
        o.label.len() as u16,
    ) + u16_bytes(o.protocol.len() as u16) + o.label + o.protocol;
    assert(p.skip(1) =~= tail);
    buffer::lemma_u16_bytes_roundtrip(o.priority);
    buffer::lemma_u32_bytes_roundtrip(o.reliability_parameter);
    buffer::lemma_u16_bytes_roundtrip(o.label.len() as u16);
    buffer::lemma_u16_bytes_roundtrip(o.protocol.len() as u16);
    assert(tail[0] == u16_bytes(o.priority)[0]);
    assert(tail[1] == u16_bytes(o.priority)[1]);
    assert(tail[2] == u32_bytes(o.reliability_parameter)[0]);
    assert(tail[3] == u32_bytes(o.reliability_parameter)[1]);
    assert(tail[4] == u32_bytes(o.reliability_parameter)[2]);
    assert(tail[5] == u32_bytes(o.reliability_parameter)[3]);
    assert(tail[6] == u16_bytes(o.label.len() as u16)[0]);
    assert(tail[7] == u16_bytes(o.label.len() as u16)[1]);
    assert(tail[8] == u16_bytes(o.protocol.len() as u16)[0]);
    assert(tail[9] == u16_bytes(o.protocol.len() as u16)[1]);
    assert(u16_of(tail[6], tail[7]) as int == ll);
    assert(u16_of(tail[8], tail[9]) as int == pl);
    assert(tail.subrange(10, 10 + ll) =~= o.label);
    assert(tail.subrange(10 + ll, 10 + ll + pl) =~= o.protocol);
    assert(open_decode_spec(p)->Ok_0 == o);
}

} // verus!
