use rtps::common::endianness::{
    read_i32, read_u16, read_u32, write_i32, write_u16, write_u32, Endianness,
};
use rtps::structure::locator::{read_locator_list, write_locator_list, Locator_t};
use speedy::{Readable, Writable};

fn pairs() -> [(Endianness, speedy::Endianness); 2] {
    [
        (Endianness::LittleEndian, speedy::Endianness::LittleEndian),
        (Endianness::BigEndian, speedy::Endianness::BigEndian),
    ]
}

#[test]
fn scalars_are_written_as_speedy_writes_them() {
    for (ours, theirs) in pairs() {
        for value in [0u32, 1, 0x255A, 0x10000000, 0x01020304, u32::MAX] {
            let mut out = Vec::new();
            write_u32(value, ours, &mut out);
            assert_eq!(out, value.write_to_vec_with_ctx(theirs).unwrap());
        }
        for value in [0u16, 1, 0x0c, 0x1234, u16::MAX] {
            let mut out = Vec::new();
            write_u16(value, ours, &mut out);
            assert_eq!(out, value.write_to_vec_with_ctx(theirs).unwrap());
        }
        for value in [0i32, 1, -1, 0x7FFFFFFF, i32::MIN, -123456] {
            let mut out = Vec::new();
            write_i32(value, ours, &mut out);
            assert_eq!(out, value.write_to_vec_with_ctx(theirs).unwrap());
        }
    }
}

#[test]
fn scalars_are_read_as_speedy_reads_them() {
    let bytes = [0x12u8, 0x34, 0x56, 0x78, 0x9A, 0xBC, 0xDE, 0xF0, 0xFF];
    for (ours, theirs) in pairs() {
        for at in 0..5 {
            assert_eq!(
                read_u32(&bytes, at, ours),
                u32::read_from_buffer_with_ctx(theirs, &bytes[at..]).unwrap()
            );
            assert_eq!(
                read_i32(&bytes, at, ours),
                i32::read_from_buffer_with_ctx(theirs, &bytes[at..]).unwrap()
            );
            assert_eq!(
                read_u16(&bytes, at, ours),
                u16::read_from_buffer_with_ctx(theirs, &bytes[at..]).unwrap()
            );
        }
    }
}

#[test]
fn lists_are_prefixed_as_speedy_prefixes_them() {
    for (ours, theirs) in pairs() {
        let mut out = Vec::new();
        write_locator_list(
            &vec![Locator_t::LOCATOR_INVALID(), Locator_t::from_udp_v4([1, 2, 3, 4], 5)],
            ours,
            &mut out,
        );
        let as_bytes: Vec<u8> = out[4..].to_vec();
        // A vector of 48 bytes is prefixed with 48; ours with the 2 locators.
        let theirs_bytes = as_bytes.write_to_vec_with_ctx(theirs).unwrap();
        assert_eq!(theirs_bytes[4..], out[4..]);
        assert_eq!(
            u32::read_from_buffer_with_ctx(theirs, &out[..4]).unwrap(),
            2
        );
        let (list, used) = read_locator_list(&out, ours).unwrap();
        assert_eq!(list.len(), 2);
        assert_eq!(used, out.len());
    }
}
