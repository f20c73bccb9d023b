use bytes::BytesMut;
use rtps::common::endianness::Endianness;
use rtps::common::error::CodecError;
use rtps::messages::ack_nack::AckNack;
use rtps::messages::fragment_number::FragmentNumber_t;
use rtps::messages::fragment_number_set::FragmentNumberSet_t;
use rtps::messages::gap::Gap;
use rtps::messages::header::Header;
use rtps::messages::heartbeat::Heartbeat;
use rtps::messages::heartbeat_frag::HeartbeatFrag;
use rtps::messages::nack_frag::NackFrag;
use rtps::messages::protocol_version::ProtocolVersion_t;
use rtps::messages::receiver::{DeserializationState, MessageReceiver, Receiver, ReceiverError};
use rtps::messages::submessage::EntitySubmessage;
use rtps::messages::submessage_flag::SubmessageFlag;
use rtps::messages::submessage_header::SubmessageHeader;
use rtps::messages::submessage_kind::SubmessageKind;
use rtps::messages::vendor_id::VendorId_t;
use rtps::structure::count::Count_t;
use rtps::structure::entity_id::EntityId_t;
use rtps::structure::guid_prefix::GuidPrefix_t;
use rtps::structure::locator::{write_locator_list, LocatorKind_t, Locator_t};
use rtps::structure::sequence_number::SequenceNumber_t;
use rtps::structure::sequence_number_set::SequenceNumberSet_t;
use rtps::structure::time::Time_t;

/// Starts a message with the header of a sender with the unknown prefix.
fn message() -> Vec<u8> {
    let mut out = Vec::new();
    Header::new(GuidPrefix_t::GUIDPREFIX_UNKNOWN()).write_to(&mut out);
    out
}

/// Appends a submessage, and checks that the length it announces is the
/// length of its body.
fn submessage(out: &mut Vec<u8>, kind: SubmessageKind, flags: u8, length: u16, body: &[u8]) {
    assert_eq!(
        length as usize,
        body.len(),
        "Try to replace provided submessage_length {} with {}.",
        length,
        body.len()
    );
    let header = SubmessageHeader {
        submessage_id: kind,
        flags: SubmessageFlag { flags },
        submessage_length: length,
    };
    header.write_to(out);
    out.extend_from_slice(body);
}

fn endianness_of(flags: u8) -> Endianness {
    SubmessageFlag { flags }.endianness_flag()
}

/// Calls the receiver until it has handed out `expected` submessages or
/// failed, as a caller that drains the buffer does.
fn drain(
    message_receiver: &mut MessageReceiver,
    input: &[u8],
    expected: usize,
) -> Vec<Result<EntitySubmessage, ReceiverError>> {
    let mut bytes = BytesMut::from(input);
    let mut seen = Vec::new();
    for _ in 0..10 * expected {
        match message_receiver.decode(&mut bytes) {
            Ok(None) => {}
            Ok(Some(submessage)) => seen.push(Ok(submessage)),
            Err(error) => seen.push(Err(error)),
        }
        if seen.len() == expected {
            break;
        }
    }
    seen
}

fn initial() -> Receiver {
    Receiver::new(LocatorKind_t::LOCATOR_KIND_INVALID())
}

#[test]
fn single_ack_nack_with_non_empty_info_ts() {
    let mut input = message();
    let mut body = Vec::new();
    Time_t::TIME_INFINITE().write_to(endianness_of(0), &mut body);
    submessage(&mut input, SubmessageKind::INFO_TS(), 0b0000_0000, 8, &body);
    let mut body = Vec::new();
    EntityId_t::ENTITYID_SEDP_BUILTIN_PUBLICATIONS_READER().write_to(endianness_of(0), &mut body);
    EntityId_t::ENTITYID_SEDP_BUILTIN_PUBLICATIONS_WRITER().write_to(endianness_of(0), &mut body);
    SequenceNumberSet_t::new(SequenceNumber_t::from(0)).write_to(endianness_of(0), &mut body);
    Count_t::from(1).write_to(endianness_of(0), &mut body);
    submessage(&mut input, SubmessageKind::ACKNACK(), 0b0000_0000, 24, &body);

    let mut message_receiver = MessageReceiver::new(LocatorKind_t::LOCATOR_KIND_INVALID());
    let seen = drain(&mut message_receiver, &input, 1);

    assert_eq!(
        seen,
        vec![Ok(EntitySubmessage::AckNack(
            AckNack {
                reader_id: EntityId_t::ENTITYID_SEDP_BUILTIN_PUBLICATIONS_READER(),
                writer_id: EntityId_t::ENTITYID_SEDP_BUILTIN_PUBLICATIONS_WRITER(),
                reader_sn_state: SequenceNumberSet_t::new(SequenceNumber_t::from(0)),
                count: Count_t::from(1)
            },
            SubmessageFlag { flags: 0b0000_0000 }
        ))]
    );
    assert_eq!(
        *message_receiver.receiver(),
        Receiver {
            have_timestamp: true,
            timestamp: Time_t::TIME_INFINITE(),
            ..initial()
        }
    );
}

#[test]
fn single_gap_with_info_src() {
    let mut input = message();
    let mut body = Vec::new();
    ProtocolVersion_t::PROTOCOLVERSION().write_to(endianness_of(1), &mut body);
    VendorId_t::VENDOR_UNKNOWN().write_to(endianness_of(1), &mut body);
    GuidPrefix_t::GUIDPREFIX_UNKNOWN().write_to(endianness_of(1), &mut body);
    submessage(&mut input, SubmessageKind::INFO_SRC(), 0b0000_0001, 16, &body);
    let mut body = Vec::new();
    EntityId_t::ENTITYID_P2P_BUILTIN_PARTICIPANT_MESSAGE_READER()
        .write_to(endianness_of(0), &mut body);
    EntityId_t::ENTITYID_P2P_BUILTIN_PARTICIPANT_MESSAGE_WRITER()
        .write_to(endianness_of(0), &mut body);
    SequenceNumber_t::from(42).write_to(endianness_of(0), &mut body);
    SequenceNumberSet_t::new(SequenceNumber_t::from(0b10110100))
        .write_to(endianness_of(0), &mut body);
    submessage(&mut input, SubmessageKind::GAP(), 0b0000_0000, 28, &body);

    let mut message_receiver = MessageReceiver::new(LocatorKind_t::LOCATOR_KIND_INVALID());
    let seen = drain(&mut message_receiver, &input, 1);

    assert_eq!(
        seen,
        vec![Ok(EntitySubmessage::Gap(Gap {
            reader_id: EntityId_t::ENTITYID_P2P_BUILTIN_PARTICIPANT_MESSAGE_READER(),
            writer_id: EntityId_t::ENTITYID_P2P_BUILTIN_PARTICIPANT_MESSAGE_WRITER(),
            gap_start: SequenceNumber_t::from(42),
            gap_list: SequenceNumberSet_t::new(SequenceNumber_t::from(0b10110100))
        }))]
    );
    assert_eq!(
        *message_receiver.receiver(),
        Receiver {
            dest_guid_prefix: GuidPrefix_t::GUIDPREFIX_UNKNOWN(),
            source_version: ProtocolVersion_t::PROTOCOLVERSION(),
            source_vendor_id: VendorId_t::VENDOR_UNKNOWN(),
            unicast_reply_locator_list: vec![Locator_t::LOCATOR_INVALID()],
            multicast_reply_locator_list: vec![Locator_t::LOCATOR_INVALID()],
            have_timestamp: false,
            ..initial()
        }
    );
}

#[test]
fn single_heartbeat_with_info_dst() {
    let mut input = message();
    let mut body = Vec::new();
    GuidPrefix_t::from([0x42; 12]).write_to(endianness_of(1), &mut body);
    submessage(&mut input, SubmessageKind::INFO_DST(), 0b0000_0001, 12, &body);
    let mut body = Vec::new();
    EntityId_t::ENTITYID_P2P_BUILTIN_PARTICIPANT_MESSAGE_READER()
        .write_to(endianness_of(1), &mut body);
    EntityId_t::ENTITYID_P2P_BUILTIN_PARTICIPANT_MESSAGE_WRITER()
        .write_to(endianness_of(1), &mut body);
    SequenceNumber_t::from(7).write_to(endianness_of(1), &mut body);
    SequenceNumber_t::from(11).write_to(endianness_of(1), &mut body);
    Count_t::from(99).write_to(endianness_of(1), &mut body);
    submessage(&mut input, SubmessageKind::HEARTBEAT(), 0b0000_0001, 28, &body);

    let mut message_receiver = MessageReceiver::new(LocatorKind_t::LOCATOR_KIND_INVALID());
    let seen = drain(&mut message_receiver, &input, 1);

    assert_eq!(
        seen,
        vec![Ok(EntitySubmessage::Heartbeat(
            Heartbeat {
                reader_id: EntityId_t::ENTITYID_P2P_BUILTIN_PARTICIPANT_MESSAGE_READER(),
                writer_id: EntityId_t::ENTITYID_P2P_BUILTIN_PARTICIPANT_MESSAGE_WRITER(),
                first_sn: SequenceNumber_t::from(7),
                last_sn: SequenceNumber_t::from(11),
                count: Count_t::from(99)
            },
            SubmessageFlag { flags: 0b0000_0001 }
        ))]
    );
    assert_eq!(
        *message_receiver.receiver(),
        Receiver {
            dest_guid_prefix: GuidPrefix_t::from([0x42; 12]),
            ..initial()
        }
    );
}

fn socket_127_0_0_1_8080() -> Locator_t {
    Locator_t::from_udp_v4([127, 0, 0, 1], 8080)
}

fn socket_2001_db8_1_8080() -> Locator_t {
    Locator_t::from_udp_v6(
        [0x20, 0x01, 0x0d, 0xb8, 0, 0, 0, 0, 0, 0, 0, 0, 0, 0, 0, 1],
        8080,
    )
}

#[test]
fn single_heartbeat_frag_with_info_reply_and_multicast_locator_list() {
    let mut input = message();
    let mut body = Vec::new();
    write_locator_list(&vec![Locator_t::LOCATOR_INVALID()], endianness_of(3), &mut body);
    write_locator_list(
        &vec![socket_127_0_0_1_8080(), socket_2001_db8_1_8080()],
        endianness_of(3),
        &mut body,
    );
    submessage(&mut input, SubmessageKind::INFO_REPLY(), 0b0000_0011, 80, &body);
    let mut body = Vec::new();
    EntityId_t::ENTITYID_P2P_BUILTIN_PARTICIPANT_MESSAGE_READER()
        .write_to(endianness_of(0), &mut body);
    EntityId_t::ENTITYID_P2P_BUILTIN_PARTICIPANT_MESSAGE_WRITER()
        .write_to(endianness_of(0), &mut body);
    SequenceNumber_t::from(36).write_to(endianness_of(0), &mut body);
    FragmentNumber_t::from(33).write_to(endianness_of(0), &mut body);
    Count_t::from(12345).write_to(endianness_of(0), &mut body);
    submessage(&mut input, SubmessageKind::HEARTBEAT_FRAG(), 0b0000_0000, 24, &body);

    let mut message_receiver = MessageReceiver::new(LocatorKind_t::LOCATOR_KIND_INVALID());
    let seen = drain(&mut message_receiver, &input, 1);

    assert_eq!(
        seen,
        vec![Ok(EntitySubmessage::HeartbeatFrag(HeartbeatFrag {
            reader_id: EntityId_t::ENTITYID_P2P_BUILTIN_PARTICIPANT_MESSAGE_READER(),
            writer_id: EntityId_t::ENTITYID_P2P_BUILTIN_PARTICIPANT_MESSAGE_WRITER(),
            writer_sn: SequenceNumber_t::from(36),
            last_fragment_num: FragmentNumber_t::from(33),
            count: Count_t::from(12345)
        }))]
    );
    assert_eq!(
        *message_receiver.receiver(),
        Receiver {
            unicast_reply_locator_list: vec![Locator_t::LOCATOR_INVALID()],
            multicast_reply_locator_list: vec![socket_127_0_0_1_8080(), socket_2001_db8_1_8080()],
            ..initial()
        }
    );
}

#[test]
fn single_nack_frag_with_pad() {
    let mut input = message();
    submessage(&mut input, SubmessageKind::PAD(), 0b0000_0000, 0, &[]);
    let mut body = Vec::new();
    EntityId_t::ENTITYID_P2P_BUILTIN_PARTICIPANT_MESSAGE_READER()
        .write_to(endianness_of(0), &mut body);
    EntityId_t::ENTITYID_P2P_BUILTIN_PARTICIPANT_MESSAGE_WRITER()
        .write_to(endianness_of(0), &mut body);
    SequenceNumber_t::from(69).write_to(endianness_of(0), &mut body);
    FragmentNumberSet_t::new(FragmentNumber_t::from(96)).write_to(endianness_of(0), &mut body);
    Count_t::from(54321).write_to(endianness_of(0), &mut body);
    submessage(&mut input, SubmessageKind::NACK_FRAG(), 0b0000_0000, 28, &body);

    let mut message_receiver = MessageReceiver::new(LocatorKind_t::LOCATOR_KIND_INVALID());
    let seen = drain(&mut message_receiver, &input, 1);

    assert_eq!(
        seen,
        vec![Ok(EntitySubmessage::NackFrag(NackFrag {
            reader_id: EntityId_t::ENTITYID_P2P_BUILTIN_PARTICIPANT_MESSAGE_READER(),
            writer_id: EntityId_t::ENTITYID_P2P_BUILTIN_PARTICIPANT_MESSAGE_WRITER(),
            writer_sn: SequenceNumber_t::from(69),
            fragment_number_state: FragmentNumberSet_t::new(FragmentNumber_t::from(96)),
            count: Count_t::from(54321)
        }))]
    );
    assert_eq!(*message_receiver.receiver(), initial());
}

const WIRESHARK: [u8; 64] = [
    0x52, 0x54, 0x50, 0x53, 0x02, 0x01, 0x01, 0x0f, 0x01, 0x0f, 0xbb, 0x1d, 0xdf, 0x2b, 0x00, 0x00,
    0x00, 0x00, 0x00, 0x00, 0x0e, 0x01, 0x0c, 0x00, 0x01, 0x0f, 0xbb, 0x1d, 0xe6, 0x2b, 0x00, 0x00,
    0x00, 0x00, 0x00, 0x00, 0x06, 0x01, 0x18, 0x00, 0x00, 0x00, 0x04, 0xc7, 0x00, 0x00, 0x04, 0xc2,
    0x00, 0x00, 0x00, 0x00, 0x00, 0x00, 0x00, 0x00, 0x00, 0x00, 0x00, 0x00, 0x01, 0x00, 0x00, 0x00,
];

#[test]
fn wireshark_ack_nack_with_info_src() {
    let mut message_receiver = MessageReceiver::new(LocatorKind_t::LOCATOR_KIND_INVALID());
    let seen = drain(&mut message_receiver, &WIRESHARK, 1);

    assert_eq!(
        seen,
        vec![Ok(EntitySubmessage::AckNack(
            AckNack {
                reader_id: EntityId_t::ENTITYID_SEDP_BUILTIN_SUBSCRIPTIONS_READER(),
                writer_id: EntityId_t::ENTITYID_SEDP_BUILTIN_SUBSCRIPTIONS_WRITER(),
                reader_sn_state: SequenceNumberSet_t::new(SequenceNumber_t::from(0)),
                count: Count_t::from(1)
            },
            SubmessageFlag { flags: 0b0000_0001 }
        ))]
    );
    assert_eq!(
        *message_receiver.receiver(),
        Receiver {
            source_guid_prefix: GuidPrefix_t::from([
                0x01, 0x0f, 0xbb, 0x1d, 0xdf, 0x2b, 0x00, 0x00, 0x00, 0x00, 0x00, 0x00
            ]),
            dest_guid_prefix: GuidPrefix_t::from([
                0x01, 0x0f, 0xbb, 0x1d, 0xe6, 0x2b, 0x00, 0x00, 0x00, 0x00, 0x00, 0x00
            ]),
            source_version: ProtocolVersion_t::PROTOCOLVERSION_2_1(),
            source_vendor_id: VendorId_t::from([0x01, 0x0F]),
            ..initial()
        }
    );
}

#[test]
fn decode_takes_one_unit_at_a_call() {
    let mut message_receiver = MessageReceiver::new(LocatorKind_t::LOCATOR_KIND_INVALID());
    let mut bytes = BytesMut::from(&WIRESHARK[..]);

    assert_eq!(message_receiver.state(), DeserializationState::ReadingHeader);
    assert_eq!(message_receiver.decode(&mut bytes), Ok(None));
    assert_eq!(bytes.len(), 44);
    assert_eq!(&bytes[..4], &[0x0e, 0x01, 0x0c, 0x00]);
    assert_eq!(message_receiver.state(), DeserializationState::ReadingSubmessage);

    assert_eq!(message_receiver.decode(&mut bytes), Ok(None));
    assert_eq!(bytes.len(), 28);
    assert_eq!(&bytes[..4], &[0x06, 0x01, 0x18, 0x00]);

    assert!(matches!(
        message_receiver.decode(&mut bytes),
        Ok(Some(EntitySubmessage::AckNack(_, _)))
    ));
    assert_eq!(bytes.len(), 0);
    assert_eq!(message_receiver.state(), DeserializationState::ReadingSubmessage);
}

#[test]
fn header_without_the_magic_is_invalid_data() {
    let mut input = WIRESHARK.to_vec();
    input[0] = 0x51;
    let mut message_receiver = MessageReceiver::new(LocatorKind_t::LOCATOR_KIND_INVALID());
    let mut bytes = BytesMut::from(&input[..]);
    assert_eq!(
        message_receiver.decode(&mut bytes),
        Err(ReceiverError::InvalidData(CodecError::InvalidHeader))
    );
    assert_eq!(message_receiver.state(), DeserializationState::ReadingHeader);
    assert_eq!(bytes.len(), 44);
    assert_eq!(*message_receiver.receiver(), initial());
}

#[test]
fn header_of_an_old_protocol_version_is_invalid_data() {
    let mut input = WIRESHARK.to_vec();
    input[5] = 0x00;
    let mut message_receiver = MessageReceiver::new(LocatorKind_t::LOCATOR_KIND_INVALID());
    let mut bytes = BytesMut::from(&input[..]);
    assert_eq!(
        message_receiver.decode(&mut bytes),
        Err(ReceiverError::InvalidData(CodecError::InvalidHeader))
    );
    assert_eq!(message_receiver.state(), DeserializationState::ReadingHeader);
}

#[test]
fn header_that_ends_early_is_invalid_data() {
    let mut message_receiver = MessageReceiver::new(LocatorKind_t::LOCATOR_KIND_INVALID());
    let mut bytes = BytesMut::from(&WIRESHARK[..19]);
    assert_eq!(
        message_receiver.decode(&mut bytes),
        Err(ReceiverError::InvalidData(CodecError::InputTooShort))
    );
    assert_eq!(bytes.len(), 0);
    assert_eq!(message_receiver.state(), DeserializationState::ReadingHeader);
}

#[test]
fn decode_of_an_empty_buffer_is_invalid_data() {
    let mut message_receiver = MessageReceiver::new(LocatorKind_t::LOCATOR_KIND_INVALID());
    let mut bytes = BytesMut::new();
    assert_eq!(
        message_receiver.decode(&mut bytes),
        Err(ReceiverError::InvalidData(CodecError::InputTooShort))
    );
    assert_eq!(bytes.len(), 0);
}

fn after_header() -> MessageReceiver {
    let mut message_receiver = MessageReceiver::new(LocatorKind_t::LOCATOR_KIND_INVALID());
    let mut bytes = BytesMut::from(&message()[..]);
    assert_eq!(message_receiver.decode(&mut bytes), Ok(None));
    assert_eq!(bytes.len(), 0);
    message_receiver
}

#[test]
fn data_submessage_is_unimplemented() {
    for kind in [SubmessageKind::DATA(), SubmessageKind::DATA_FRAG()] {
        let mut input = Vec::new();
        submessage(&mut input, kind, 0, 4, &[1, 2, 3, 4]);
        let mut message_receiver = after_header();
        let mut bytes = BytesMut::from(&input[..]);
        assert_eq!(
            message_receiver.decode(&mut bytes),
            Err(ReceiverError::Unimplemented)
        );
        assert_eq!(&bytes[..], &[1, 2, 3, 4]);
        assert_eq!(message_receiver.state(), DeserializationState::ReadingHeader);
    }
}

#[test]
fn unknown_submessage_is_skipped() {
    let mut input = Vec::new();
    submessage(&mut input, SubmessageKind { value: 0x7f }, 1, 3, &[9, 9, 9]);
    input.push(0xAB);
    let mut message_receiver = after_header();
    let mut bytes = BytesMut::from(&input[..]);
    assert_eq!(message_receiver.decode(&mut bytes), Ok(None));
    assert_eq!(&bytes[..], &[0xAB]);
    assert_eq!(message_receiver.state(), DeserializationState::ReadingSubmessage);
    assert_eq!(*message_receiver.receiver(), initial());
}

#[test]
fn pad_with_a_body_is_skipped() {
    let mut input = Vec::new();
    submessage(&mut input, SubmessageKind::PAD(), 0, 2, &[7, 7]);
    input.push(0xCD);
    let mut message_receiver = after_header();
    let mut bytes = BytesMut::from(&input[..]);
    assert_eq!(message_receiver.decode(&mut bytes), Ok(None));
    assert_eq!(&bytes[..], &[0xCD]);
    assert_eq!(*message_receiver.receiver(), initial());
}

#[test]
fn submessage_of_length_zero_is_the_last_of_its_message() {
    let mut input = Vec::new();
    submessage(&mut input, SubmessageKind { value: 0x7f }, 0, 0, &[]);
    let mut message_receiver = after_header();
    let mut bytes = BytesMut::from(&input[..]);
    assert_eq!(message_receiver.decode(&mut bytes), Ok(None));
    assert_eq!(message_receiver.state(), DeserializationState::ReadingHeader);
}

#[test]
fn pad_and_info_ts_of_length_zero_are_not_the_last_of_their_message() {
    for (kind, flags) in [(SubmessageKind::PAD(), 0u8), (SubmessageKind::INFO_TS(), 2u8)] {
        let mut input = Vec::new();
        submessage(&mut input, kind, flags, 0, &[]);
        let mut message_receiver = after_header();
        let mut bytes = BytesMut::from(&input[..]);
        assert_eq!(message_receiver.decode(&mut bytes), Ok(None));
        assert_eq!(message_receiver.state(), DeserializationState::ReadingSubmessage);
    }
}

#[test]
fn info_ts_with_the_invalidate_flag_takes_the_timestamp_away() {
    let mut input = Vec::new();
    let mut body = Vec::new();
    Time_t { seconds: 5, fraction: 6 }.write_to(Endianness::LittleEndian, &mut body);
    submessage(&mut input, SubmessageKind::INFO_TS(), 0b01, 8, &body);
    submessage(&mut input, SubmessageKind::INFO_TS(), 0b11, 0, &[]);
    let mut message_receiver = after_header();
    let mut bytes = BytesMut::from(&input[..]);

    assert_eq!(message_receiver.decode(&mut bytes), Ok(None));
    assert_eq!(
        *message_receiver.receiver(),
        Receiver {
            have_timestamp: true,
            timestamp: Time_t { seconds: 5, fraction: 6 },
            ..initial()
        }
    );
    assert_eq!(message_receiver.decode(&mut bytes), Ok(None));
    assert_eq!(
        *message_receiver.receiver(),
        Receiver {
            have_timestamp: false,
            timestamp: Time_t { seconds: 5, fraction: 6 },
            ..initial()
        }
    );
    assert_eq!(bytes.len(), 0);
}

#[test]
fn info_ts_with_the_invalidate_flag_leaves_its_body_in_the_buffer() {
    let mut input = Vec::new();
    submessage(&mut input, SubmessageKind::INFO_TS(), 0b10, 8, &[1, 2, 3, 4, 5, 6, 7, 8]);
    let mut message_receiver = after_header();
    let mut bytes = BytesMut::from(&input[..]);
    assert_eq!(message_receiver.decode(&mut bytes), Ok(None));
    assert_eq!(&bytes[..], &[1, 2, 3, 4, 5, 6, 7, 8]);
}

#[test]
fn info_dst_with_the_unknown_prefix_changes_nothing() {
    let mut input = Vec::new();
    submessage(&mut input, SubmessageKind::INFO_DST(), 1, 12, &[0x42; 12]);
    submessage(&mut input, SubmessageKind::INFO_DST(), 1, 12, &[0x00; 12]);
    let mut message_receiver = after_header();
    let mut bytes = BytesMut::from(&input[..]);
    assert_eq!(message_receiver.decode(&mut bytes), Ok(None));
    assert_eq!(message_receiver.decode(&mut bytes), Ok(None));
    assert_eq!(
        *message_receiver.receiver(),
        Receiver {
            dest_guid_prefix: GuidPrefix_t::from([0x42; 12]),
            ..initial()
        }
    );
}

#[test]
fn info_reply_without_the_multicast_flag_empties_the_multicast_list() {
    let mut input = Vec::new();
    let mut body = Vec::new();
    write_locator_list(&vec![socket_127_0_0_1_8080()], Endianness::LittleEndian, &mut body);
    submessage(&mut input, SubmessageKind::INFO_REPLY(), 0b01, 28, &body);
    let mut message_receiver = after_header();
    let mut bytes = BytesMut::from(&input[..]);
    assert_eq!(message_receiver.decode(&mut bytes), Ok(None));
    assert_eq!(
        *message_receiver.receiver(),
        Receiver {
            unicast_reply_locator_list: vec![socket_127_0_0_1_8080()],
            multicast_reply_locator_list: vec![],
            ..initial()
        }
    );
}

#[test]
fn info_reply_keeps_the_unicast_list_where_the_multicast_list_ends_early() {
    let mut input = Vec::new();
    let mut body = Vec::new();
    write_locator_list(&vec![socket_127_0_0_1_8080()], Endianness::BigEndian, &mut body);
    body.extend_from_slice(&[0, 0, 0, 1, 0xFF]);
    submessage(&mut input, SubmessageKind::INFO_REPLY(), 0b10, 33, &body);
    let mut message_receiver = after_header();
    let mut bytes = BytesMut::from(&input[..]);
    assert_eq!(
        message_receiver.decode(&mut bytes),
        Err(ReceiverError::InvalidData(CodecError::InputTooShort))
    );
    assert_eq!(
        *message_receiver.receiver(),
        Receiver {
            unicast_reply_locator_list: vec![socket_127_0_0_1_8080()],
            ..initial()
        }
    );
    assert_eq!(message_receiver.state(), DeserializationState::ReadingHeader);
    assert_eq!(bytes.len(), 0);
}

#[test]
fn info_src_names_the_source_and_resets_the_lists() {
    let mut input = Vec::new();
    let mut body = Vec::new();
    write_locator_list(&vec![socket_127_0_0_1_8080()], Endianness::BigEndian, &mut body);
    submessage(&mut input, SubmessageKind::INFO_REPLY(), 0b00, 28, &body);
    let mut body = vec![2, 2, 0x01, 0x0f];
    body.extend_from_slice(&[7; 12]);
    submessage(&mut input, SubmessageKind::INFO_SRC(), 0b00, 16, &body);
    let mut message_receiver = after_header();
    let mut bytes = BytesMut::from(&input[..]);
    assert_eq!(message_receiver.decode(&mut bytes), Ok(None));
    assert_eq!(message_receiver.decode(&mut bytes), Ok(None));
    assert_eq!(
        *message_receiver.receiver(),
        Receiver {
            source_version: ProtocolVersion_t::PROTOCOLVERSION_2_2(),
            source_vendor_id: VendorId_t::from([0x01, 0x0f]),
            source_guid_prefix: GuidPrefix_t::from([7; 12]),
            unicast_reply_locator_list: vec![Locator_t::LOCATOR_INVALID()],
            multicast_reply_locator_list: vec![Locator_t::LOCATOR_INVALID()],
            ..initial()
        }
    );
}

#[test]
fn receiver_lists_start_with_the_kind_they_were_made_with() {
    let receiver = Receiver::new(LocatorKind_t::LOCATOR_KIND_UDPv4());
    assert_eq!(
        receiver.unicast_reply_locator_list,
        vec![Locator_t {
            kind: LocatorKind_t::LOCATOR_KIND_UDPv4(),
            port: 0,
            address: [0; 16]
        }]
    );
    assert_eq!(
        receiver.multicast_reply_locator_list,
        receiver.unicast_reply_locator_list
    );
    assert!(!receiver.have_timestamp);
    assert_eq!(receiver.timestamp, Time_t::TIME_INVALID());
}

#[test]
fn body_that_does_not_decode_gives_up_the_message() {
    let mut input = Vec::new();
    submessage(&mut input, SubmessageKind::HEARTBEAT(), 1, 27, &[0; 27]);
    let mut message_receiver = after_header();
    let mut bytes = BytesMut::from(&input[..]);
    assert_eq!(
        message_receiver.decode(&mut bytes),
        Err(ReceiverError::InvalidData(CodecError::InputTooShort))
    );
    assert_eq!(bytes.len(), 0);
    assert_eq!(message_receiver.state(), DeserializationState::ReadingHeader);
}

#[test]
fn ack_nack_with_too_long_a_bitmap_is_invalid_data() {
    let mut body = vec![0; 16];
    body.extend_from_slice(&[1, 1, 0, 0]);
    body.extend_from_slice(&[0; 40]);
    let mut input = Vec::new();
    submessage(&mut input, SubmessageKind::ACKNACK(), 1, 60, &body);
    let mut message_receiver = after_header();
    let mut bytes = BytesMut::from(&input[..]);
    assert_eq!(
        message_receiver.decode(&mut bytes),
        Err(ReceiverError::InvalidData(CodecError::BitmapTooLong))
    );
}

#[test]
fn body_that_ends_before_its_length_is_invalid_data() {
    let mut input = Vec::new();
    let header = SubmessageHeader {
        submessage_id: SubmessageKind::PAD(),
        flags: SubmessageFlag { flags: 1 },
        submessage_length: 10,
    };
    header.write_to(&mut input);
    input.extend_from_slice(&[0; 9]);
    let mut message_receiver = after_header();
    let mut bytes = BytesMut::from(&input[..]);
    assert_eq!(
        message_receiver.decode(&mut bytes),
        Err(ReceiverError::InvalidData(CodecError::InputTooShort))
    );
    assert_eq!(bytes.len(), 0);
    assert_eq!(message_receiver.state(), DeserializationState::ReadingHeader);
}

#[test]
fn submessage_header_that_ends_early_is_invalid_data() {
    let mut message_receiver = after_header();
    let mut bytes = BytesMut::from(&[0x01u8, 0x00, 0x00][..]);
    assert_eq!(
        message_receiver.decode(&mut bytes),
        Err(ReceiverError::InvalidData(CodecError::InputTooShort))
    );
    assert_eq!(bytes.len(), 0);
}

#[test]
fn context_only_submessages_twice_are_as_once() {
    let mut pad = Vec::new();
    submessage(&mut pad, SubmessageKind::PAD(), 0, 3, &[1, 2, 3]);
    let mut info_dst = Vec::new();
    submessage(&mut info_dst, SubmessageKind::INFO_DST(), 0, 12, &[0; 12]);
    let mut info_ts = Vec::new();
    submessage(&mut info_ts, SubmessageKind::INFO_TS(), 2, 0, &[]);

    for unit in [pad, info_dst, info_ts] {
        let mut once = MessageReceiver::new(LocatorKind_t::LOCATOR_KIND_INVALID());
        let mut twice = MessageReceiver::new(LocatorKind_t::LOCATOR_KIND_INVALID());
        let mut input = message();
        let mut timed = Vec::new();
        Time_t { seconds: 1, fraction: 2 }.write_to(Endianness::BigEndian, &mut timed);
        submessage(&mut input, SubmessageKind::INFO_TS(), 0, 8, &timed);
        input.extend_from_slice(&unit);

        let mut bytes = BytesMut::from(&input[..]);
        for _ in 0..3 {
            assert_eq!(once.decode(&mut bytes), Ok(None));
        }
        assert_eq!(bytes.len(), 0);

        input.extend_from_slice(&unit);
        let mut bytes = BytesMut::from(&input[..]);
        for _ in 0..4 {
            assert_eq!(twice.decode(&mut bytes), Ok(None));
        }
        assert_eq!(bytes.len(), 0);
        assert_eq!(once.receiver(), twice.receiver());
        assert_eq!(once.state(), twice.state());
    }
}

#[test]
fn process_submessage_works_on_plain_bytes() {
    let mut message_receiver = after_header();
    let header = SubmessageHeader {
        submessage_id: SubmessageKind::HEARTBEAT_FRAG(),
        flags: SubmessageFlag { flags: 0 },
        submessage_length: 24,
    };
    let body = [
        0, 0, 1, 0xc1, 0, 0, 2, 0xc2, 0, 0, 0, 0, 0, 0, 0, 36, 0, 0, 0, 33, 0, 0, 0x30, 0x39,
    ];
    assert_eq!(
        message_receiver.process_submessage(header, &body),
        Ok(Some(EntitySubmessage::HeartbeatFrag(HeartbeatFrag {
            reader_id: EntityId_t::ENTITYID_PARTICIPANT(),
            writer_id: EntityId_t::ENTITYID_SEDP_BUILTIN_TOPIC_WRITER(),
            writer_sn: SequenceNumber_t::from(36),
            last_fragment_num: FragmentNumber_t::from(33),
            count: Count_t::from(12345)
        })))
    );
}

#[test]
fn process_header_works_on_plain_bytes() {
    let mut message_receiver = MessageReceiver::new(LocatorKind_t::LOCATOR_KIND_INVALID());
    assert_eq!(message_receiver.process_header(&WIRESHARK[..20]), Ok(None));
    assert_eq!(
        message_receiver.receiver().source_vendor_id,
        VendorId_t::from([0x01, 0x0f])
    );
    assert_eq!(
        message_receiver.process_header(b"RTPX\x02\x04\x00\x00abcdefghijkl"),
        Err(ReceiverError::InvalidData(CodecError::InvalidHeader))
    );
}

#[test]
fn receiver_error_descriptions() {
    assert_eq!(
        ReceiverError::InvalidData(CodecError::InputTooShort).description(),
        CodecError::InputTooShort.description()
    );
    assert_eq!(
        ReceiverError::InvalidData(CodecError::InvalidHeader).description(),
        "Invalid data"
    );
    assert_eq!(
        ReceiverError::Unimplemented.description(),
        "submessages that carry data are not decoded"
    );
}

#[test]
fn receiver_knows_the_kinds_it_handles() {
    for kind in [
        SubmessageKind::PAD(),
        SubmessageKind::ACKNACK(),
        SubmessageKind::HEARTBEAT(),
        SubmessageKind::GAP(),
        SubmessageKind::INFO_TS(),
        SubmessageKind::INFO_SRC(),
        SubmessageKind::INFO_DST(),
        SubmessageKind::INFO_REPLY(),
        SubmessageKind::NACK_FRAG(),
        SubmessageKind::HEARTBEAT_FRAG(),
        SubmessageKind::DATA(),
        SubmessageKind::DATA_FRAG(),
    ] {
        assert!(MessageReceiver::knows_kind(kind));
    }
    assert!(!MessageReceiver::knows_kind(SubmessageKind::INFO_REPLY_IP4()));
    assert!(!MessageReceiver::knows_kind(SubmessageKind { value: 0x00 }));
    assert!(!MessageReceiver::knows_kind(SubmessageKind { value: 0x7f }));
    assert!(!MessageReceiver::knows_kind(SubmessageKind { value: 0xff }));
}
