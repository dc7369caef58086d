use pvf_harness::codec::{pack, unpack};

#[test]
fn pack_puts_offset_low_and_length_high() {
    assert_eq!(pack(0x10, 3), 0x0000_0003_0000_0010);
    assert_eq!(pack(0, 0), 0);
    assert_eq!(pack(u32::MAX, 0), 0x0000_0000_FFFF_FFFF);
    assert_eq!(pack(0, u32::MAX), 0xFFFF_FFFF_0000_0000);
    assert_eq!(pack(u32::MAX, u32::MAX), u64::MAX);
    assert_eq!(pack(0xDEAD_BEEF, 0x0BAD_F00D), 0x0BAD_F00D_DEAD_BEEF);
}

#[test]
fn unpack_splits_the_two_words() {
    assert_eq!(unpack(0x0000_0003_0000_0010), (0x10, 3));
    assert_eq!(unpack(0), (0, 0));
    assert_eq!(unpack(u64::MAX), (u32::MAX, u32::MAX));
    assert_eq!(unpack(0x0000_0001_0000_0000), (0, 1));
    assert_eq!(unpack(0x0000_0000_FFFF_FFFF), (u32::MAX, 0));
}

#[test]
fn unpack_inverts_pack() {
    let words: [u32; 9] =
        [0, 1, 2, 0xFF, 0x100, 0x7FFF_FFFF, 0x8000_0000, 0xFFFF_FFFE, 0xFFFF_FFFF];
    for &offset in words.iter() {
        for &length in words.iter() {
            assert_eq!(unpack(pack(offset, length)), (offset, length));
        }
    }
}

#[test]
fn pack_inverts_unpack() {
    let values: [u64; 7] = [
        0,
        1,
        0xFFFF_FFFF,
        0x1_0000_0000,
        0x0123_4567_89AB_CDEF,
        0x8000_0000_0000_0000,
        u64::MAX,
    ];
    for &value in values.iter() {
        let (offset, length) = unpack(value);
        assert_eq!(pack(offset, length), value);
    }
}
