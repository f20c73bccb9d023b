use rtps::common::endianness::{
    read_i32, read_u16, read_u32, write_bytes, write_i32, write_u16, write_u32, Endianness,
};
use rtps::common::error::CodecError;
use rtps::common::validity_trait::Validity;
use rtps::messages::fragment_number::FragmentNumber_t;
use rtps::messages::protocol_version::ProtocolVersion_t;
use rtps::messages::vendor_id::VendorId_t;
use rtps::structure::count::Count_t;
use rtps::structure::entity_id::EntityId_t;
use rtps::structure::guid_prefix::GuidPrefix_t;
use rtps::structure::sequence_number::SequenceNumber_t;
use rtps::structure::topic_kind::TopicKind_t;

const BOTH: [Endianness; 2] = [Endianness::LittleEndian, Endianness::BigEndian];

fn entity_bytes(id: EntityId_t, endianness: Endianness) -> Vec<u8> {
    let mut out = Vec::new();
    id.write_to(endianness, &mut out);
    out
}

fn check_entity(id: EntityId_t, wire: [u8; 4]) {
    for endianness in BOTH {
        assert_eq!(entity_bytes(id, endianness), wire);
        assert_eq!(EntityId_t::read_from(&wire, endianness), Ok(id));
    }
}

#[test]
fn vendor_id_minimum_bytes_needed() {
    assert_eq!(2, VendorId_t::minimum_bytes_needed());
}

#[test]
fn guid_prefix_minimum_bytes_needed() {
    assert_eq!(12, GuidPrefix_t::minimum_bytes_needed());
}

#[test]
fn vendor_unknown() {
    for endianness in BOTH {
        let mut out = Vec::new();
        VendorId_t::VENDOR_UNKNOWN().write_to(endianness, &mut out);
        assert_eq!(out, vec![0x00, 0x00]);
        assert_eq!(
            VendorId_t::read_from(&out, endianness),
            Ok(VendorId_t::VENDOR_UNKNOWN())
        );
    }
    assert_eq!(VendorId_t::default(), VendorId_t::VENDOR_UNKNOWN());
}

#[test]
fn vendor_id_endianness_insensitive() {
    let vendor = VendorId_t::from([0x01, 0x0F]);
    for endianness in BOTH {
        let mut out = vec![0xAA];
        vendor.write_to(endianness, &mut out);
        assert_eq!(out, vec![0xAA, 0x01, 0x0F]);
        assert_eq!(VendorId_t::read_from(&[0x01, 0x0F, 0x33], endianness), Ok(vendor));
    }
    assert_eq!(
        VendorId_t::read_from(&[0x01], Endianness::BigEndian),
        Err(CodecError::InputTooShort)
    );
}

#[test]
fn guid_prefix_unknown() {
    for endianness in BOTH {
        let mut out = Vec::new();
        GuidPrefix_t::GUIDPREFIX_UNKNOWN().write_to(endianness, &mut out);
        assert_eq!(out, vec![0x00; 12]);
        assert_eq!(
            GuidPrefix_t::read_from(&out, endianness),
            Ok(GuidPrefix_t::GUIDPREFIX_UNKNOWN())
        );
    }
}

#[test]
fn guid_prefix_default() {
    assert_eq!(GuidPrefix_t::default(), GuidPrefix_t::GUIDPREFIX_UNKNOWN());
    assert!(GuidPrefix_t::default().is_unknown());
}

#[test]
fn guid_prefix_endianness_insensitive() {
    let wire = [
        0x00, 0x11, 0x22, 0x33, 0x44, 0x55, 0x66, 0x77, 0x88, 0x99, 0xAA, 0xBB,
    ];
    let prefix = GuidPrefix_t { entity_key: wire };
    for endianness in BOTH {
        let mut out = Vec::new();
        prefix.write_to(endianness, &mut out);
        assert_eq!(out, wire);
        assert_eq!(GuidPrefix_t::read_from(&wire, endianness), Ok(prefix));
    }
    assert!(!prefix.is_unknown());
    let mut last = [0u8; 12];
    last[11] = 1;
    assert!(!GuidPrefix_t::from(last).is_unknown());
    assert_eq!(
        GuidPrefix_t::read_from(&wire[..11], Endianness::LittleEndian),
        Err(CodecError::InputTooShort)
    );
}

#[test]
fn entity_unknown() {
    check_entity(EntityId_t::ENTITYID_UNKNOWN(), [0x00, 0x00, 0x00, 0x00]);
}

#[test]
fn entity_default() {
    check_entity(EntityId_t::default(), [0x00, 0x00, 0x00, 0x00]);
}

#[test]
fn entity_participant() {
    check_entity(EntityId_t::ENTITYID_PARTICIPANT(), [0x00, 0x00, 0x01, 0xC1]);
}

#[test]
fn entity_sedp_builtin_topic_writer() {
    check_entity(
        EntityId_t::ENTITYID_SEDP_BUILTIN_TOPIC_WRITER(),
        [0x00, 0x00, 0x02, 0xC2],
    );
}

#[test]
fn entity_sedp_builtin_topic_reader() {
    check_entity(
        EntityId_t::ENTITYID_SEDP_BUILTIN_TOPIC_READER(),
        [0x00, 0x00, 0x02, 0xC7],
    );
}

#[test]
fn entity_sedp_builtin_publications_writer() {
    check_entity(
        EntityId_t::ENTITYID_SEDP_BUILTIN_PUBLICATIONS_WRITER(),
        [0x00, 0x00, 0x03, 0xC2],
    );
}

#[test]
fn entity_sedp_builtin_publications_reader() {
    check_entity(
        EntityId_t::ENTITYID_SEDP_BUILTIN_PUBLICATIONS_READER(),
        [0x00, 0x00, 0x03, 0xC7],
    );
}

#[test]
fn entity_sedp_builtin_subscriptions_writer() {
    check_entity(
        EntityId_t::ENTITYID_SEDP_BUILTIN_SUBSCRIPTIONS_WRITER(),
        [0x00, 0x00, 0x04, 0xC2],
    );
}

#[test]
fn entity_sedp_builtin_subscriptions_reader() {
    check_entity(
        EntityId_t::ENTITYID_SEDP_BUILTIN_SUBSCRIPTIONS_READER(),
        [0x00, 0x00, 0x04, 0xC7],
    );
}

#[test]
fn entity_spdp_builtin_participant_writer() {
    check_entity(
        EntityId_t::ENTITYID_SPDP_BUILTIN_PARTICIPANT_WRITER(),
        [0x00, 0x01, 0x00, 0xC2],
    );
}

#[test]
fn entity_spdp_builtin_participant_reader() {
    check_entity(
        EntityId_t::ENTITYID_SPDP_BUILTIN_PARTICIPANT_READER(),
        [0x00, 0x01, 0x00, 0xC7],
    );
}

#[test]
fn entity_p2p_builtin_participant_message_writer() {
    check_entity(
        EntityId_t::ENTITYID_P2P_BUILTIN_PARTICIPANT_MESSAGE_WRITER(),
        [0x00, 0x02, 0x00, 0xC2],
    );
}

#[test]
fn entity_p2p_builtin_participant_message_reader() {
    check_entity(
        EntityId_t::ENTITYID_P2P_BUILTIN_PARTICIPANT_MESSAGE_READER(),
        [0x00, 0x02, 0x00, 0xC7],
    );
}

#[test]
fn entity_id_that_ends_early_is_refused() {
    assert_eq!(
        EntityId_t::read_from(&[0, 0, 1], Endianness::LittleEndian),
        Err(CodecError::InputTooShort)
    );
    assert_eq!(EntityId_t::minimum_bytes_needed(), 4);
}

#[test]
fn topic_kind_t_no_key() {
    let mut le = Vec::new();
    TopicKind_t::NO_KEY.write_to(Endianness::LittleEndian, &mut le);
    assert_eq!(le, vec![0x01, 0x00, 0x00, 0x00]);
    let mut be = Vec::new();
    TopicKind_t::NO_KEY.write_to(Endianness::BigEndian, &mut be);
    assert_eq!(be, vec![0x00, 0x00, 0x00, 0x01]);
    assert_eq!(
        TopicKind_t::read_from(&le, Endianness::LittleEndian),
        Ok(TopicKind_t::NO_KEY)
    );
    assert_eq!(
        TopicKind_t::read_from(&be, Endianness::BigEndian),
        Ok(TopicKind_t::NO_KEY)
    );
}

#[test]
fn topic_kind_t_with_key() {
    let mut le = Vec::new();
    TopicKind_t::WITH_KEY.write_to(Endianness::LittleEndian, &mut le);
    assert_eq!(le, vec![0x02, 0x00, 0x00, 0x00]);
    let mut be = Vec::new();
    TopicKind_t::WITH_KEY.write_to(Endianness::BigEndian, &mut be);
    assert_eq!(be, vec![0x00, 0x00, 0x00, 0x02]);
    assert_eq!(
        TopicKind_t::read_from(&le, Endianness::LittleEndian),
        Ok(TopicKind_t::WITH_KEY)
    );
    assert_eq!(
        TopicKind_t::read_from(&be, Endianness::BigEndian),
        Ok(TopicKind_t::WITH_KEY)
    );
}

#[test]
fn topic_kind_with_an_unknown_tag_is_refused() {
    assert_eq!(
        TopicKind_t::read_from(&[0, 0, 0, 0], Endianness::LittleEndian),
        Err(CodecError::InvalidTag)
    );
    assert_eq!(
        TopicKind_t::read_from(&[3, 0, 0, 0], Endianness::LittleEndian),
        Err(CodecError::InvalidTag)
    );
    // The tag 1 under the other byte order.
    assert_eq!(
        TopicKind_t::read_from(&[1, 0, 0, 0], Endianness::BigEndian),
        Err(CodecError::InvalidTag)
    );
    assert_eq!(
        TopicKind_t::read_from(&[1, 0, 0], Endianness::LittleEndian),
        Err(CodecError::InputTooShort)
    );
    assert_eq!(TopicKind_t::minimum_bytes_needed(), 4);
}

#[test]
fn sequence_number_travels_as_high_then_low() {
    let number = SequenceNumber_t::from(0x0102_0304_0506_0708);
    let mut le = Vec::new();
    number.write_to(Endianness::LittleEndian, &mut le);
    assert_eq!(le, vec![0x04, 0x03, 0x02, 0x01, 0x08, 0x07, 0x06, 0x05]);
    let mut be = Vec::new();
    number.write_to(Endianness::BigEndian, &mut be);
    assert_eq!(be, vec![0x01, 0x02, 0x03, 0x04, 0x05, 0x06, 0x07, 0x08]);
    assert_eq!(
        SequenceNumber_t::read_from(&le, Endianness::LittleEndian),
        Ok(number)
    );
    assert_eq!(
        SequenceNumber_t::read_from(&be, Endianness::BigEndian),
        Ok(number)
    );
}

#[test]
fn sequence_number_round_trip_at_the_edges() {
    for value in [
        0i64,
        1,
        -1,
        42,
        1000,
        0xFFFF_FFFF,
        0x1_0000_0000,
        -0x1_0000_0000,
        -0x1_0000_0001,
        i64::MAX,
        i64::MIN,
    ] {
        for endianness in BOTH {
            let mut out = Vec::new();
            SequenceNumber_t::from(value).write_to(endianness, &mut out);
            assert_eq!(out.len(), SequenceNumber_t::minimum_bytes_needed());
            assert_eq!(
                SequenceNumber_t::read_from(&out, endianness),
                Ok(SequenceNumber_t { value })
            );
        }
    }
}

#[test]
fn sequence_number_unknown_has_high_minus_one_and_low_zero() {
    let mut be = Vec::new();
    SequenceNumber_t::SEQUENCENUMBER_UNKNOWN().write_to(Endianness::BigEndian, &mut be);
    assert_eq!(be, vec![0xFF, 0xFF, 0xFF, 0xFF, 0, 0, 0, 0]);
    let mut minus_one = Vec::new();
    SequenceNumber_t::from(-1).write_to(Endianness::BigEndian, &mut minus_one);
    assert_eq!(minus_one, vec![0xFF; 8]);
}

#[test]
fn sequence_number_validity() {
    assert!(SequenceNumber_t::from(1).valid());
    assert!(SequenceNumber_t::from(i64::MAX).valid());
    assert!(!SequenceNumber_t::from(0).valid());
    assert!(!SequenceNumber_t::from(-7).valid());
    assert!(!SequenceNumber_t::SEQUENCENUMBER_UNKNOWN().valid());
}

#[test]
fn sequence_number_that_ends_early_is_refused() {
    assert_eq!(
        SequenceNumber_t::read_from(&[0; 7], Endianness::LittleEndian),
        Err(CodecError::InputTooShort)
    );
}

#[test]
fn count_and_fragment_number_round_trip() {
    for endianness in BOTH {
        for value in [0i32, 1, -1, 6, 12345, i32::MAX, i32::MIN] {
            let mut out = Vec::new();
            Count_t::from(value).write_to(endianness, &mut out);
            assert_eq!(Count_t::read_from(&out, endianness), Ok(Count_t { value }));
        }
        for value in [0u32, 1, 33, 0x8000_0000, u32::MAX] {
            let mut out = Vec::new();
            FragmentNumber_t::from(value).write_to(endianness, &mut out);
            assert_eq!(
                FragmentNumber_t::read_from(&out, endianness),
                Ok(FragmentNumber_t { value })
            );
        }
    }
    let mut le = Vec::new();
    Count_t::from(-2).write_to(Endianness::LittleEndian, &mut le);
    assert_eq!(le, vec![0xFE, 0xFF, 0xFF, 0xFF]);
    let mut be = Vec::new();
    FragmentNumber_t::from(0x0A0B0C0D).write_to(Endianness::BigEndian, &mut be);
    assert_eq!(be, vec![0x0A, 0x0B, 0x0C, 0x0D]);
    assert_eq!(
        Count_t::read_from(&[1, 2, 3], Endianness::BigEndian),
        Err(CodecError::InputTooShort)
    );
    assert_eq!(
        FragmentNumber_t::read_from(&[], Endianness::BigEndian),
        Err(CodecError::InputTooShort)
    );
    assert_eq!(Count_t::minimum_bytes_needed(), 4);
    assert_eq!(FragmentNumber_t::minimum_bytes_needed(), 4);
}

#[test]
fn protocol_version_order_and_wire_form() {
    let version = ProtocolVersion_t::PROTOCOLVERSION();
    assert_eq!(version, ProtocolVersion_t::PROTOCOLVERSION_2_4());
    assert_eq!(ProtocolVersion_t::default(), version);
    for endianness in BOTH {
        let mut out = Vec::new();
        version.write_to(endianness, &mut out);
        assert_eq!(out, vec![2, 4]);
        assert_eq!(ProtocolVersion_t::read_from(&out, endianness), Ok(version));
    }
    let minimum = ProtocolVersion_t::PROTOCOLVERSION_2_1();
    assert!(version.is_at_least(minimum));
    assert!(minimum.is_at_least(minimum));
    assert!(ProtocolVersion_t { major: 3, minor: 0 }.is_at_least(minimum));
    assert!(!ProtocolVersion_t::PROTOCOLVERSION_2_0().is_at_least(minimum));
    assert!(!ProtocolVersion_t::PROTOCOLVERSION_1_1().is_at_least(minimum));
    assert!(!ProtocolVersion_t::PROTOCOLVERSION_1_0().is_at_least(minimum));
    assert!(ProtocolVersion_t::PROTOCOLVERSION_2_2().is_at_least(minimum));
    assert_eq!(
        ProtocolVersion_t::read_from(&[2], Endianness::BigEndian),
        Err(CodecError::InputTooShort)
    );
    assert_eq!(ProtocolVersion_t::minimum_bytes_needed(), 2);
}

#[test]
fn scalars_read_and_written_at_an_offset() {
    let bytes = [0xEE, 0x01, 0x02, 0x03, 0x04, 0xEE];
    assert_eq!(read_u32(&bytes, 1, Endianness::BigEndian), 0x01020304);
    assert_eq!(read_u32(&bytes, 1, Endianness::LittleEndian), 0x04030201);
    assert_eq!(read_u16(&bytes, 1, Endianness::BigEndian), 0x0102);
    assert_eq!(read_u16(&bytes, 1, Endianness::LittleEndian), 0x0201);
    assert_eq!(
        read_i32(&[0xFF, 0xFF, 0xFF, 0x7F], 0, Endianness::LittleEndian),
        i32::MAX
    );
    assert_eq!(
        read_i32(&[0x80, 0, 0, 0], 0, Endianness::BigEndian),
        i32::MIN
    );

    let mut out = vec![9];
    write_u16(0xABCD, Endianness::LittleEndian, &mut out);
    write_u16(0xABCD, Endianness::BigEndian, &mut out);
    write_u32(0x11223344, Endianness::LittleEndian, &mut out);
    write_i32(-1, Endianness::BigEndian, &mut out);
    write_bytes(&[5, 6], &mut out);
    assert_eq!(
        out,
        vec![9, 0xCD, 0xAB, 0xAB, 0xCD, 0x44, 0x33, 0x22, 0x11, 0xFF, 0xFF, 0xFF, 0xFF, 5, 6]
    );
}

#[test]
fn codec_error_descriptions_differ() {
    let all = [
        CodecError::InputTooShort,
        CodecError::InvalidTag,
        CodecError::BitmapTooLong,
        CodecError::InvalidHeader,
    ];
    for (i, a) in all.iter().enumerate() {
        for (j, b) in all.iter().enumerate() {
            assert_eq!(i == j, a.description() == b.description());
        }
    }
    assert_eq!(CodecError::InvalidHeader.description(), "Invalid data");
}
