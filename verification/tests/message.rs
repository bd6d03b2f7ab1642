use bytes::Bytes;
use bytes::BytesMut;

use dcep_codec::channel_type::ChannelType;
use dcep_codec::error::MessageError;
use dcep_codec::error::MessageTypeError;
use dcep_codec::message::DataChannelAck;
use dcep_codec::message::DataChannelOpen;
use dcep_codec::message::Message;
use dcep_codec::message::MessageType;

#[test]
fn unmarshal_open_success() {
    let mut bytes = Bytes::from_static(&[
        0x03, // message type
        0x00, // channel type
        0x0f, 0x35, // priority
        0x00, 0xff, 0x0f, 0x35, // reliability parameter
        0x00, 0x05, // label length
        0x00, 0x08, // protocol length
        0x6c, 0x61, 0x62, 0x65, 0x6c, // label
        0x70, 0x72, 0x6f, 0x74, 0x6f, 0x63, 0x6f, 0x6c, // protocol
    ]);

    let actual = Message::unmarshal_from(&mut bytes).unwrap();

    let expected = Message::DataChannelOpen(DataChannelOpen {
        channel_type: ChannelType::Reliable,
        priority: 3893,
        reliability_parameter: 16715573,
        label: b"label".iter().cloned().collect(),
        protocol: b"protocol".iter().cloned().collect(),
    });

    assert_eq!(actual, expected);
}

#[test]
fn unmarshal_ack_success() {
    let mut bytes = Bytes::from_static(&[0x02]);

    let actual = Message::unmarshal_from(&mut bytes);
    let expected = Ok(Message::DataChannelAck);

    assert_eq!(actual, expected);
}

#[test]
fn unmarshal_invalid_message_type() {
    let mut bytes = Bytes::from_static(&[0x01]);

    let actual = Message::unmarshal_from(&mut bytes);
    let expected = Err(MessageError::MessageType(
        MessageTypeError::InvalidMessageType { invalid_type: 0x01 },
    ));

    assert_eq!(actual, expected);
}

#[test]
fn marshal_size() {
    let msg = Message::DataChannelAck;

    let actual = msg.marshal_size();
    let expected = 1;

    assert_eq!(actual, expected);
}

#[test]
fn marshal() {
    let marshal_size: usize = 12 + 5 + 8;
    let mut buf = BytesMut::with_capacity(marshal_size);

    let msg = Message::DataChannelOpen(DataChannelOpen {
        channel_type: ChannelType::Reliable,
        priority: 3893,
        reliability_parameter: 16715573,
        label: b"label".iter().cloned().collect(),
        protocol: b"protocol".iter().cloned().collect(),
    });

    let actual = msg.marshal_to(&mut buf).unwrap();
    let expected = marshal_size;
    assert_eq!(actual, expected);

    let bytes = buf.freeze();

    let actual = &bytes[..];
    let expected: &[u8] = &[
        0x03, // message type
        0x00, // channel type
        0x0f, 0x35, // priority
        0x00, 0xff, 0x0f, 0x35, // reliability parameter
        0x00, 0x05, // label length
        0x00, 0x08, // protocol length
        0x6c, 0x61, 0x62, 0x65, 0x6c, // label
        0x70, 0x72, 0x6f, 0x74, 0x6f, 0x63, 0x6f, 0x6c, // protocol
    ];

    assert_eq!(actual, expected);
}

#[test]
fn unmarshal_empty_buffer() {
    let mut bytes = Bytes::from_static(&[]);

    let actual = Message::unmarshal_from(&mut bytes);
    let expected = Err(MessageError::MessageType(
        MessageTypeError::UnexpectedEndOfBuffer {
            expected: 1,
            actual: 0,
        },
    ));

    assert_eq!(actual, expected);
}

#[test]
fn unmarshal_ack_size_one() {
    let mut bytes = Bytes::from_static(&[0x02]);

    let msg = Message::unmarshal_from(&mut bytes).unwrap();

    assert_eq!(msg, Message::DataChannelAck);
    assert_eq!(msg.marshal_size(), 1);
}

#[test]
fn roundtrip_every_channel_type() {
    let channel_types = [
        ChannelType::Reliable,
        ChannelType::ReliableUnordered,
        ChannelType::PartialReliableRexmit,
        ChannelType::PartialReliableRexmitUnordered,
        ChannelType::PartialReliableTimed,
        ChannelType::PartialReliableTimedUnordered,
    ];
    for channel_type in channel_types {
        let msg = Message::DataChannelOpen(DataChannelOpen {
            channel_type,
            priority: 65535,
            reliability_parameter: 4294967295,
            label: vec![],
            protocol: b"chat".iter().cloned().collect(),
        });

        let mut buf = BytesMut::new();
        let written = msg.marshal_to(&mut buf).unwrap();
        assert_eq!(written, msg.marshal_size());

        let mut bytes = buf.freeze();
        let decoded = Message::unmarshal_from(&mut bytes).unwrap();
        assert_eq!(decoded, msg);
    }
}

#[test]
fn roundtrip_ack() {
    let msg = Message::DataChannelAck;

    let mut buf = BytesMut::new();
    let written = msg.marshal_to(&mut buf).unwrap();
    assert_eq!(written, 1);
    assert_eq!(&buf.freeze()[..], &[0x02u8][..]);

    let mut bytes = Bytes::from_static(&[0x02]);
    let decoded = Message::unmarshal_from(&mut bytes).unwrap();
    assert_eq!(decoded, msg);
}

#[test]
fn ack_payload_consumes_nothing() {
    let mut bytes = Bytes::from_static(&[0x99, 0x98]);
    let ack = DataChannelAck::unmarshal_from(&mut bytes);
    assert_eq!(ack, DataChannelAck);
    assert_eq!(bytes.len(), 2);

    let mut buf = BytesMut::new();
    let written = ack.marshal_to(&mut buf);
    assert_eq!(written, 0);
    assert_eq!(ack.marshal_size(), 0);
    assert_eq!(buf.len(), 0);
}

#[test]
fn message_type_of_each_variant() {
    let ack = Message::DataChannelAck;
    assert_eq!(ack.message_type(), MessageType::DataChannelAck);

    let open = Message::DataChannelOpen(DataChannelOpen {
        channel_type: ChannelType::Reliable,
        priority: 0,
        reliability_parameter: 0,
        label: vec![],
        protocol: vec![],
    });
    assert_eq!(open.message_type(), MessageType::DataChannelOpen);
}
