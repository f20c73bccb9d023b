use rtps::common::bit_set_ref::BitSetRef;
use rtps::common::endianness::Endianness;
use rtps::common::error::CodecError;

fn encode(set: &BitSetRef, endianness: Endianness) -> Vec<u8> {
    let mut out = Vec::new();
    set.write_to(endianness, &mut out);
    out
}

#[test]
fn bit_set_ref_insert_and_contains() {
    let mut set = BitSetRef::new();
    assert_eq!(set.len(), 0);
    assert!(!set.contains(0));
    assert!(set.insert(0));
    assert!(!set.insert(0));
    assert!(set.insert(255));
    assert!(set.contains(0));
    assert!(set.contains(255));
    assert!(!set.contains(1));
    assert!(!set.contains(254));
    assert_eq!(set.len(), 2);
}

#[test]
fn bit_set_ref_is_written_in_whole_blocks() {
    let mut set = BitSetRef::new();
    assert_eq!(encode(&set, Endianness::BigEndian), vec![0, 0, 0, 0]);
    set.insert(0);
    assert_eq!(
        encode(&set, Endianness::BigEndian),
        vec![0, 0, 0, 32, 0, 0, 0, 1]
    );
    set.insert(31);
    assert_eq!(
        encode(&set, Endianness::BigEndian),
        vec![0, 0, 0, 32, 0x80, 0, 0, 1]
    );
    set.insert(32);
    assert_eq!(
        encode(&set, Endianness::BigEndian),
        vec![0, 0, 0, 64, 0x80, 0, 0, 1, 0, 0, 0, 1]
    );
    assert_eq!(
        encode(&set, Endianness::LittleEndian),
        vec![64, 0, 0, 0, 1, 0, 0, 0x80, 1, 0, 0, 0]
    );
}

#[test]
fn bit_set_ref_all_positions() {
    let mut set = BitSetRef::new();
    for position in 0..=255u8 {
        assert!(set.insert(position));
    }
    assert_eq!(set.len(), 256);
    let wire = encode(&set, Endianness::LittleEndian);
    assert_eq!(wire.len(), 4 + 32);
    assert_eq!(wire[..4], [0, 1, 0, 0]);
    assert!(wire[4..].iter().all(|byte| *byte == 0xFF));
    let (read, used) = BitSetRef::read_from(&wire, Endianness::LittleEndian).unwrap();
    assert_eq!(used, 36);
    assert_eq!(read, set);
}

#[test]
fn bit_set_ref_read_rounds_the_bits_up_to_blocks() {
    // 33 bits are two blocks.
    let wire = [33, 0, 0, 0, 0xFF, 0xFF, 0xFF, 0xFF, 0xFF, 0xFF, 0xFF, 0xFF, 0x77];
    let (read, used) = BitSetRef::read_from(&wire, Endianness::LittleEndian).unwrap();
    assert_eq!(used, 12);
    assert_eq!(read.len(), 33);
    assert!(read.contains(32));
    assert!(!read.contains(33));
    // The bits come back in whole blocks.
    assert_eq!(
        encode(&read, Endianness::LittleEndian),
        vec![64, 0, 0, 0, 0xFF, 0xFF, 0xFF, 0xFF, 1, 0, 0, 0]
    );
}

#[test]
fn bit_set_ref_read_of_no_bits() {
    let (read, used) = BitSetRef::read_from(&[0, 0, 0, 0, 9, 9], Endianness::BigEndian).unwrap();
    assert_eq!(used, 4);
    assert_eq!(read, BitSetRef::new());
    assert_eq!(read.len(), 0);
}

#[test]
fn bit_set_ref_read_errors() {
    assert_eq!(
        BitSetRef::read_from(&[0, 0, 0], Endianness::BigEndian).unwrap_err(),
        CodecError::InputTooShort
    );
    assert_eq!(
        BitSetRef::read_from(&[0, 0, 1, 1], Endianness::BigEndian).unwrap_err(),
        CodecError::BitmapTooLong
    );
    assert_eq!(
        BitSetRef::read_from(&[0xFF, 0xFF, 0xFF, 0xFF], Endianness::BigEndian).unwrap_err(),
        CodecError::BitmapTooLong
    );
    assert_eq!(
        BitSetRef::read_from(&[0, 0, 0, 1, 0, 0, 0], Endianness::BigEndian).unwrap_err(),
        CodecError::InputTooShort
    );
}

#[test]
fn bit_set_ref_length_is_told_from_the_bit_count() {
    assert_eq!(BitSetRef::minimum_bytes_needed(), 4);
    assert_eq!(BitSetRef::framed_len(&[0, 0, 0, 0], Endianness::BigEndian), Ok(4));
    assert_eq!(BitSetRef::framed_len(&[0, 0, 0, 1], Endianness::BigEndian), Ok(8));
    assert_eq!(BitSetRef::framed_len(&[32, 0, 0, 0, 9], Endianness::LittleEndian), Ok(8));
    assert_eq!(BitSetRef::framed_len(&[33, 0, 0, 0], Endianness::LittleEndian), Ok(12));
    assert_eq!(BitSetRef::framed_len(&[0, 1, 0, 0], Endianness::LittleEndian), Ok(36));
    assert_eq!(
        BitSetRef::framed_len(&[1, 1, 0, 0], Endianness::LittleEndian),
        Err(CodecError::BitmapTooLong)
    );
    assert_eq!(
        BitSetRef::framed_len(&[1, 1, 0], Endianness::LittleEndian),
        Err(CodecError::InputTooShort)
    );
}
