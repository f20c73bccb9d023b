use rtps::common::endianness::Endianness;
use rtps::common::error::CodecError;
use rtps::common::validity_trait::Validity;
use rtps::messages::fragment_number::FragmentNumber_t;
use rtps::messages::fragment_number_set::FragmentNumberSet_t;

fn manual_set() -> FragmentNumberSet_t {
    let mut set = FragmentNumberSet_t::new(FragmentNumber_t { value: 268435456 });
    set.insert(FragmentNumber_t { value: 268435457 });
    set.insert(FragmentNumber_t { value: 268435459 });
    set.insert(FragmentNumber_t { value: 268435460 });
    set.insert(FragmentNumber_t { value: 268435462 });
    set.insert(FragmentNumber_t { value: 268435464 });
    set.insert(FragmentNumber_t { value: 268435466 });
    set.insert(FragmentNumber_t { value: 268435469 });
    set
}

fn encode(set: &FragmentNumberSet_t, endianness: Endianness) -> Vec<u8> {
    let mut out = Vec::new();
    set.write_to(endianness, &mut out);
    out
}

#[test]
fn fragment_number_set_insert() {
    let base = 10;
    let mut fragment_number_set = FragmentNumberSet_t::new(FragmentNumber_t { value: base });

    assert_eq!(
        false,
        fragment_number_set.contains(FragmentNumber_t { value: base })
    );

    assert!(fragment_number_set.insert(FragmentNumber_t { value: base }));
    assert!(fragment_number_set.contains(FragmentNumber_t { value: base }));

    let max_range = base + 255;
    assert!(fragment_number_set.insert(FragmentNumber_t { value: max_range }));
    assert!(fragment_number_set.contains(FragmentNumber_t { value: max_range }));

    let below_range = base - 1;
    assert_eq!(
        false,
        fragment_number_set.insert(FragmentNumber_t { value: below_range })
    );
    assert_eq!(
        false,
        fragment_number_set.contains(FragmentNumber_t { value: below_range })
    );

    let above_max_range = max_range + 1;
    assert_eq!(
        false,
        fragment_number_set.insert(FragmentNumber_t {
            value: above_max_range
        })
    );
    assert_eq!(
        false,
        fragment_number_set.contains(FragmentNumber_t {
            value: above_max_range
        })
    );
}

#[test]
fn fragment_number_set_empty_serialize_little_endian() {
    let set = FragmentNumberSet_t::new(FragmentNumber_t { value: 42 });
    assert_eq!(
        encode(&set, Endianness::LittleEndian),
        vec![0x2A, 0x00, 0x00, 0x00, 0x00, 0x00, 0x00, 0x00]
    );
}

#[test]
fn fragment_number_set_empty_serialize_big_endian() {
    let set = FragmentNumberSet_t::new(FragmentNumber_t { value: 42 });
    assert_eq!(
        encode(&set, Endianness::BigEndian),
        vec![0x00, 0x00, 0x00, 0x2A, 0x00, 0x00, 0x00, 0x00]
    );
}

#[test]
fn fragment_number_set_manual_serialize_little_endian() {
    assert_eq!(
        encode(&manual_set(), Endianness::LittleEndian),
        vec![0x00, 0x00, 0x00, 0x10, 0x20, 0x00, 0x00, 0x00, 0x5A, 0x25, 0x00, 0x00]
    );
}

#[test]
fn fragment_number_set_manual_serialize_big_endian() {
    assert_eq!(
        encode(&manual_set(), Endianness::BigEndian),
        vec![0x10, 0x00, 0x00, 0x00, 0x00, 0x00, 0x00, 0x20, 0x00, 0x00, 0x25, 0x5A]
    );
}

#[test]
fn fragment_number_set_serialize_deserialize() {
    for endianness in [Endianness::LittleEndian, Endianness::BigEndian] {
        for value in [FragmentNumberSet_t::new(FragmentNumber_t { value: 42 }), manual_set()] {
            let serialized = encode(&value, endianness);
            let (deserialized, used) =
                FragmentNumberSet_t::read_from(&serialized, endianness).unwrap();
            assert_eq!(value, deserialized);
            assert_eq!(used, serialized.len());
        }
    }
}

#[test]
fn fragment_number_set_deserialized_holds_the_bits_of_the_bitmap() {
    let wire = [
        0x00, 0x00, 0x00, 0x10, 0x20, 0x00, 0x00, 0x00, 0x5A, 0x25, 0x00, 0x00, 0xEE,
    ];
    let (set, used) = FragmentNumberSet_t::read_from(&wire, Endianness::LittleEndian).unwrap();
    assert_eq!(used, 12);
    assert_eq!(set.base(), FragmentNumber_t { value: 0x10000000 });
    for offset in 0..40u32 {
        let expected = [1, 3, 4, 6, 8, 10, 13].contains(&offset);
        assert_eq!(
            set.contains(FragmentNumber_t { value: 0x10000000 + offset }),
            expected
        );
    }
}

#[test]
fn fragment_number_set_ignores_bits_beyond_the_announced_length() {
    // Three bits are announced; the block also has bit 3 and bit 31 set.
    let wire = [0, 0, 0, 1, 0, 0, 0, 3, 0x80, 0, 0, 0x0D];
    let (set, used) = FragmentNumberSet_t::read_from(&wire, Endianness::BigEndian).unwrap();
    assert_eq!(used, 12);
    assert!(set.contains(FragmentNumber_t { value: 1 }));
    assert!(!set.contains(FragmentNumber_t { value: 2 }));
    assert!(set.contains(FragmentNumber_t { value: 3 }));
    assert!(!set.contains(FragmentNumber_t { value: 4 }));
    assert!(!set.contains(FragmentNumber_t { value: 32 }));
}

#[test]
fn fragment_number_set_of_256_bits_is_read() {
    let mut wire = vec![1, 0, 0, 0, 0, 1, 0, 0];
    for _ in 0..8 {
        wire.extend_from_slice(&[0xFF, 0xFF, 0xFF, 0xFF]);
    }
    let (set, used) = FragmentNumberSet_t::read_from(&wire, Endianness::LittleEndian).unwrap();
    assert_eq!(used, 40);
    assert!(set.contains(FragmentNumber_t { value: 1 }));
    assert!(set.contains(FragmentNumber_t { value: 256 }));
    assert!(!set.contains(FragmentNumber_t { value: 257 }));
    assert!(set.valid());
}

#[test]
fn fragment_number_set_of_more_than_256_bits_is_refused() {
    let mut wire = vec![1, 0, 0, 0, 1, 1, 0, 0];
    for _ in 0..9 {
        wire.extend_from_slice(&[0, 0, 0, 0]);
    }
    assert_eq!(
        FragmentNumberSet_t::read_from(&wire, Endianness::LittleEndian).unwrap_err(),
        CodecError::BitmapTooLong
    );
}

#[test]
fn fragment_number_set_that_ends_early_is_refused() {
    assert_eq!(
        FragmentNumberSet_t::read_from(&[1, 0, 0], Endianness::LittleEndian).unwrap_err(),
        CodecError::InputTooShort
    );
    assert_eq!(
        FragmentNumberSet_t::read_from(&[1, 0, 0, 0, 32, 0], Endianness::LittleEndian)
            .unwrap_err(),
        CodecError::InputTooShort
    );
    assert_eq!(
        FragmentNumberSet_t::read_from(&[1, 0, 0, 0, 33, 0, 0, 0, 1, 0, 0, 0], Endianness::LittleEndian)
            .unwrap_err(),
        CodecError::InputTooShort
    );
}

#[test]
fn fragment_number_set_validity() {
    let mut set = FragmentNumberSet_t::new(FragmentNumber_t { value: 1 });
    assert!(!set.valid());
    set.insert(FragmentNumber_t { value: 5 });
    assert!(set.valid());

    let mut based_at_zero = FragmentNumberSet_t::new(FragmentNumber_t { value: 0 });
    based_at_zero.insert(FragmentNumber_t { value: 5 });
    assert!(!based_at_zero.valid());
}

#[test]
fn fragment_number_set_range_at_the_top_of_the_numbers() {
    let mut set = FragmentNumberSet_t::new(FragmentNumber_t { value: u32::MAX - 3 });
    assert!(set.insert(FragmentNumber_t { value: u32::MAX }));
    assert!(set.contains(FragmentNumber_t { value: u32::MAX }));
    assert!(!set.insert(FragmentNumber_t { value: 0 }));
    assert!(set.is_in_range(FragmentNumber_t { value: u32::MAX - 3 }));
    assert_eq!(set.base_offset(FragmentNumber_t { value: u32::MAX }), 3);
}

#[test]
fn fragment_number_set_insert_twice_changes_nothing() {
    let mut once = FragmentNumberSet_t::new(FragmentNumber_t { value: 7 });
    once.insert(FragmentNumber_t { value: 9 });
    let mut twice = FragmentNumberSet_t::new(FragmentNumber_t { value: 7 });
    twice.insert(FragmentNumber_t { value: 9 });
    twice.insert(FragmentNumber_t { value: 9 });
    assert_eq!(once, twice);
    assert_eq!(
        encode(&once, Endianness::LittleEndian),
        encode(&twice, Endianness::LittleEndian)
    );
}
