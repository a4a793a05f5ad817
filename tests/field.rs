use atsame54n::field::{extract, extract_bit, insert, mask_of_width};
use atsame54n::register::{RegisterCell, R};

#[test]
fn extract_nibble_of_low_byte() {
    assert_eq!(extract(0x0000_00FF, 4, 4), 0xF);
}

#[test]
fn insert_nibble_into_low_byte() {
    assert_eq!(insert(0x0000_00FF, 0x3, 4, 4), 0x0000_003F);
}

#[test]
fn masks_of_each_width() {
    assert_eq!(mask_of_width(1), 0x1);
    assert_eq!(mask_of_width(4), 0xF);
    assert_eq!(mask_of_width(31), 0x7FFF_FFFF);
    assert_eq!(mask_of_width(32), 0xFFFF_FFFF);
}

#[test]
fn insert_truncates_value_to_width() {
    assert_eq!(insert(0, 0x1F, 0, 4), 0xF);
    assert_eq!(insert(0xFFFF_FFFF, 0x10, 8, 4), 0xFFFF_F0FF);
}

#[test]
fn whole_word_field() {
    assert_eq!(extract(0xDEAD_BEEF, 0, 32), 0xDEAD_BEEF);
    assert_eq!(insert(0x1234_5678, 0xCAFE_F00D, 0, 32), 0xCAFE_F00D);
}

#[test]
fn top_bit_field() {
    assert_eq!(extract(0x8000_0000, 31, 1), 1);
    assert!(extract_bit(0x8000_0000, 31));
    assert!(!extract_bit(0x7FFF_FFFF, 31));
    assert_eq!(insert(0, 1, 31, 1), 0x8000_0000);
}

#[test]
fn insert_of_extracted_keeps_word() {
    let words = [0u32, 0xFFFF_FFFF, 0xDEAD_BEEF, 0x0F0F_1234];
    for &word in words.iter() {
        for offset in 0u32..32 {
            for width in 1u32..=(32 - offset) {
                let v = extract(word, offset, width);
                assert_eq!(insert(word, v, offset, width), word);
            }
        }
    }
}

#[test]
fn extract_of_inserted_is_value_mod_width() {
    let word = 0xA5A5_5A5Au32;
    let value = 0x1234_5679u32;
    for offset in 0u32..32 {
        for width in 1u32..=(32 - offset) {
            let w = insert(word, value, offset, width);
            let expected = if width == 32 { value } else { value % (1u32 << width) };
            assert_eq!(extract(w, offset, width), expected);
            let outside = !(mask_of_width(width) << offset);
            assert_eq!(w & outside, word & outside);
        }
    }
}

#[test]
fn disjoint_fields_commute() {
    let word = 0x1357_9BDFu32;
    let a_then_b = insert(insert(word, 0x5, 0, 4), 0xAB, 8, 8);
    let b_then_a = insert(insert(word, 0xAB, 8, 8), 0x5, 0, 4);
    assert_eq!(a_then_b, b_then_a);
    assert_eq!(a_then_b, 0x1357_ABD5);
}

#[test]
fn register_field_writes_keep_other_fields() {
    let mut reg = RegisterCell::new(0x4200_0000, 0x0000_00FF);
    assert_eq!(reg.address(), 0x4200_0000);
    assert_eq!(reg.read_field(4, 4), 0xF);
    reg.write_field(4, 4, 0x3);
    assert_eq!(reg.read(), 0x0000_003F);
    reg.write_field(16, 8, 0x1AB);
    assert_eq!(reg.read(), 0x00AB_003F);
    reg.write(0x1);
    assert_eq!(reg.read(), 0x1);
    reg.modify(|w: u32| w | 0x100);
    assert_eq!(reg.read(), 0x101);
}

#[test]
fn reader_fields_and_bits() {
    let r = R::new(0x0000_00A0);
    assert_eq!(r.bits(), 0xA0);
    assert_eq!(r.field(4, 4).bits(), 0xA);
    assert!(r.bit(5));
    assert!(!r.bit(4));
}

#[test]
fn nfrx_reads_whole_word() {
    let reg = RegisterCell::new(0x4203_4188, 0x0001_E240);
    assert_eq!(reg.reader().nfrx().bits(), 123_456);
    assert_eq!(R::new(0xFFFF_FFFF).nfrx().bits(), 0xFFFF_FFFF);
    assert_eq!(R::new(0).nfrx().bits(), 0);
}
