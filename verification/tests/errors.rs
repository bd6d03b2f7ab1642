use bytes::Bytes;

use dcep_codec::channel_type::ChannelType;
use dcep_codec::error::ChannelTypeError;
use dcep_codec::error::DataChannelError;
use dcep_codec::error::DataChannelOpenError;
use dcep_codec::error::MessageError;
use dcep_codec::error::MessageTypeError;
use dcep_codec::message::DataChannelOpen;
use dcep_codec::message::Message;
use dcep_codec::message::MessageType;

#[test]
fn unmarshal_invalid_channel_type() {
    // A DATA_CHANNEL_OPEN whose channel-type byte matches no variant.
    let mut bytes = Bytes::from_static(&[
        0x03, // message type
        0xff, // channel type: unknown
        0x00, 0x00, // priority
        0x00, 0x00, 0x00, 0x00, // reliability parameter
        0x00, 0x00, // label length
        0x00, 0x00, // protocol length
    ]);

    let actual = Message::unmarshal_from(&mut bytes);
    let expected = Err(MessageError::DataChannelOpen(
        DataChannelOpenError::ChannelType(ChannelTypeError::InvalidChannelType {
            invalid_type: 0xff,
        }),
    ));

    assert_eq!(actual, expected);
}

#[test]
fn channel_type_direct_decode() {
    let mut bytes = Bytes::from_static(&[0x82]);
    let actual = ChannelType::unmarshal_from(&mut bytes);
    assert_eq!(actual, Ok(ChannelType::PartialReliableTimedUnordered));

    let mut bytes = Bytes::from_static(&[0xff]);
    let actual = ChannelType::unmarshal_from(&mut bytes);
    assert_eq!(
        actual,
        Err(ChannelTypeError::InvalidChannelType { invalid_type: 0xff })
    );

    let mut bytes = Bytes::from_static(&[]);
    let actual = ChannelType::unmarshal_from(&mut bytes);
    assert_eq!(
        actual,
        Err(ChannelTypeError::UnexpectedEndOfBuffer {
            expected: 1,
            actual: 0,
        })
    );
}

#[test]
fn unmarshal_label_length_mismatch() {
    // The label-length field claims five bytes; only three remain.
    let mut bytes = Bytes::from_static(&[
        0x03, // message type
        0x00, // channel type
        0x0f, 0x35, // priority
        0x00, 0xff, 0x0f, 0x35, // reliability parameter
        0x00, 0x05, // label length: claims 5
        0x00, 0x00, // protocol length
        0x6c, 0x61, 0x62, // only 3 label bytes present
    ]);

    let actual = Message::unmarshal_from(&mut bytes);
    let expected = Err(MessageError::DataChannelOpen(
        DataChannelOpenError::ExpectedAndActualLengthMismatch {
            expected: 5,
            actual: 3,
        },
    ));

    assert_eq!(actual, expected);
}

#[test]
fn unmarshal_trailing_bytes_mismatch() {
    // Both lengths are zero, yet one byte trails the fixed header.
    let mut bytes = Bytes::from_static(&[
        0x03, // message type
        0x00, // channel type
        0x00, 0x00, // priority
        0x00, 0x00, 0x00, 0x00, // reliability parameter
        0x00, 0x00, // label length
        0x00, 0x00, // protocol length
        0x99, // trailing byte the lengths do not account for
    ]);

    let actual = Message::unmarshal_from(&mut bytes);
    let expected = Err(MessageError::DataChannelOpen(
        DataChannelOpenError::ExpectedAndActualLengthMismatch {
            expected: 0,
            actual: 1,
        },
    ));

    assert_eq!(actual, expected);
}

#[test]
fn unmarshal_short_fixed_header() {
    // The buffer ends inside the reliability-parameter field.
    let mut bytes = Bytes::from_static(&[
        0x03, // message type
        0x00, // channel type
        0x0f, 0x35, // priority
        0x00, 0xff, // reliability parameter cut short
    ]);

    let actual = Message::unmarshal_from(&mut bytes);
    let expected = Err(MessageError::DataChannelOpen(
        DataChannelOpenError::UnexpectedEndOfBuffer {
            expected: 4,
            actual: 2,
        },
    ));

    assert_eq!(actual, expected);
}

#[test]
fn unmarshal_open_empty_payload() {
    // The open type byte with nothing after it: the channel-type stage
    // reports the shortfall.
    let mut bytes = Bytes::from_static(&[0x03]);

    let actual = Message::unmarshal_from(&mut bytes);
    let expected = Err(MessageError::DataChannelOpen(
        DataChannelOpenError::ChannelType(ChannelTypeError::UnexpectedEndOfBuffer {
            expected: 1,
            actual: 0,
        }),
    ));

    assert_eq!(actual, expected);
}

#[test]
fn error_conversions_wrap_losslessly() {
    let inner = ChannelTypeError::InvalidChannelType { invalid_type: 0x10 };
    let wrapped: DataChannelOpenError = inner.clone().into();
    assert_eq!(wrapped, DataChannelOpenError::ChannelType(inner));

    let inner = MessageTypeError::InvalidMessageType { invalid_type: 0x01 };
    let wrapped: MessageError = inner.clone().into();
    assert_eq!(wrapped, MessageError::MessageType(inner));

    let inner = DataChannelOpenError::InvalidPayloadProtocolIdentifier;
    let wrapped: MessageError = inner.clone().into();
    assert_eq!(wrapped, MessageError::DataChannelOpen(inner));

    let inner = MessageError::UnexpectedEndOfBuffer {
        expected: 4,
        actual: 2,
    };
    let wrapped: DataChannelError = inner.clone().into();
    assert_eq!(wrapped, DataChannelError::Message(inner));
}

#[test]
fn error_messages_render_counts() {
    let e = MessageTypeError::UnexpectedEndOfBuffer {
        expected: 1,
        actual: 0,
    };
    assert_eq!(
        e.message(),
        "Marshal buffer was too short: (expected: 1, actual: 0)\n"
    );

    let e = MessageTypeError::InvalidMessageType { invalid_type: 0x01 };
    assert_eq!(e.message(), "Invalid message type: 1\n");

    let e = ChannelTypeError::InvalidChannelType { invalid_type: 0xff };
    assert_eq!(e.message(), "Invalid channel type: 255\n");

    let e = DataChannelOpenError::ExpectedAndActualLengthMismatch {
        expected: 1500,
        actual: 307,
    };
    assert_eq!(
        e.message(),
        "Expected and actual length do not match: (expected: 1500, actual: 307)\n"
    );

    let e = MessageError::DataChannelOpen(DataChannelOpenError::InvalidPayloadProtocolIdentifier);
    assert_eq!(
        e.message(),
        "DataChannel message payload protocol identifier is value we can't handle\n"
    );

    let e = DataChannelError::InvalidMessageType {
        invalid_type: MessageType::DataChannelAck,
    };
    assert_eq!(e.message(), "Invalid message type: DataChannelAck\n");

    let e = DataChannelError::InvalidPayloadProtocolIdentifier {
        invalid_identifier: 50,
    };
    assert_eq!(e.message(), "Invalid payload protocol identifier: 50\n");
}

#[test]
fn every_strict_prefix_is_rejected() {
    let full: &[u8] = &[
        0x03, // message type
        0x00, // channel type
        0x0f, 0x35, // priority
        0x00, 0xff, 0x0f, 0x35, // reliability parameter
        0x00, 0x05, // label length
        0x00, 0x08, // protocol length
        0x6c, 0x61, 0x62, 0x65, 0x6c, // label
        0x70, 0x72, 0x6f, 0x74, 0x6f, 0x63, 0x6f, 0x6c, // protocol
    ];

    for n in 0..full.len() {
        let mut bytes = Bytes::copy_from_slice(&full[..n]);
        let actual = Message::unmarshal_from(&mut bytes);
        assert!(actual.is_err(), "prefix of length {} was accepted", n);
        let err = actual.unwrap_err();
        let short_buffer = matches!(
            err,
            MessageError::MessageType(MessageTypeError::UnexpectedEndOfBuffer { .. })
                | MessageError::DataChannelOpen(DataChannelOpenError::UnexpectedEndOfBuffer { .. })
                | MessageError::DataChannelOpen(DataChannelOpenError::ChannelType(
                    ChannelTypeError::UnexpectedEndOfBuffer { .. }
                ))
        );
        let length_mismatch = matches!(
            err,
            MessageError::DataChannelOpen(
                DataChannelOpenError::ExpectedAndActualLengthMismatch { .. }
            )
        );
        if n < 12 {
            assert!(short_buffer, "prefix of length {}: {:?}", n, err);
        } else {
            assert!(length_mismatch, "prefix of length {}: {:?}", n, err);
        }
    }
}

#[test]
fn open_payload_direct_roundtrip() {
    let open = DataChannelOpen {
        channel_type: ChannelType::PartialReliableRexmit,
        priority: 256,
        reliability_parameter: 3,
        label: b"data".iter().cloned().collect(),
        protocol: vec![],
    };

    let mut buf = bytes::BytesMut::new();
    let written = open.marshal_to(&mut buf).unwrap();
    assert_eq!(written, open.marshal_size());
    assert_eq!(written, 15);

    let mut bytes = buf.freeze();
    let decoded = DataChannelOpen::unmarshal_from(&mut bytes).unwrap();
    assert_eq!(decoded, open);
}
