use hartos::mem::{MemorySet, PAGE_SIZE, USER_STACK_SIZE};

#[test]
fn layout_constants() {
    assert_eq!(PAGE_SIZE, 4096);
    assert_eq!(USER_STACK_SIZE, 8192);
}

#[test]
fn write_word_stores_little_endian_bytes() {
    let mut ms = MemorySet::from_raw(0x1000, vec![0u8; 64]);
    let w: u64 = 0x1122_3344_5566_7788;
    ms.write_word(0x1000 + 8, w);
    for k in 0..8 {
        let expected = ((w >> (8 * k)) & 0xff) as u8;
        assert_eq!(ms.read_byte(0x1000 + 8 + k as usize), expected);
    }
    // Neighbouring bytes are untouched.
    assert_eq!(ms.read_byte(0x1000 + 7), 0);
    assert_eq!(ms.read_byte(0x1000 + 16), 0);
}

#[test]
fn full_copy_duplicates_bytes_and_the_framebuffer_mark() {
    let mut ms = MemorySet::from_raw(0x2000, vec![3u8; 16]);
    ms.write_byte(0x2005, 77);
    let copy = MemorySet::from_existed_user(&ms);
    assert_eq!(copy.base, 0x2000);
    assert_eq!(copy.read_byte(0x2005), 77);
    assert_eq!(copy.read_byte(0x2000), 3);
    assert_eq!(copy.fb_mapped, false);
}

#[test]
fn framebuffer_mapping_is_recorded_without_touching_bytes() {
    let mut ms = MemorySet::from_raw(0x2000, vec![9u8; 4]);
    assert!(!ms.fb_mapped);
    ms.push_noalloc();
    assert!(ms.fb_mapped);
    assert_eq!(ms.read_byte(0x2000), 9);
}
