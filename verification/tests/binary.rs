use famicom::binary::byte_to_4bit;
use famicom::binary::showable;
use famicom::binary::showable::glyph;
use famicom::binary::showable::ShowableBinary;
use famicom::binary::showable_with;
use famicom::binary::u16_to_u8;
use famicom::binary::Byte;

#[test]
fn bits_it_get() {
    assert!(0b0000_0001u8.bit(0));
    assert!(0b0000_0010u8.bit(1));
    assert!(!0b0000_0001u8.bit(1));
}

#[test]
fn it_set() {
    assert_eq!(0b0000_1000u8.set(6, true), 0b0100_1000);
    assert_eq!(0b1111_1111u8.set(6, false), 0b1011_1111);
}

#[test]
fn lib_it_byte_to_4bit() {
    assert_eq!(byte_to_4bit(0xf2u8), (0xf, 0x2));
    assert_eq!(byte_to_4bit(0x4Fu8), (0x4, 0xf));
}

#[test]
fn it_byte_to_4bit() {
    assert_eq!(byte_to_4bit(0xf2u8), (0xf, 0x2));
    assert_eq!(byte_to_4bit(0x4Fu8), (0x4, 0xf));
}

#[test]
fn set_then_bit_reads_back_for_every_byte_and_position() {
    for b in 0..=255u8 {
        for n in 0..8usize {
            assert!(b.set(n, true).bit(n));
            assert!(!b.set(n, false).bit(n));
            for m in 0..8usize {
                if m != n {
                    assert_eq!(b.set(n, true).bit(m), b.bit(m));
                    assert_eq!(b.set(n, false).bit(m), b.bit(m));
                }
            }
        }
    }
}

#[test]
fn bit_is_the_binary_digit() {
    assert!(0x80u8.bit(7));
    assert!(!0x7Fu8.bit(7));
    assert!(0xFFu8.bit(3));
    assert!(!0x00u8.bit(0));
}

#[test]
fn u16_to_u8_splits_high_and_low() {
    assert_eq!(u16_to_u8(0x1234), (0x12, 0x34));
    assert_eq!(u16_to_u8(0x00FF), (0x00, 0xFF));
    assert_eq!(u16_to_u8(0xFF00), (0xFF, 0x00));
    assert_eq!(u16_to_u8(0), (0, 0));
}

#[test]
fn dump_cuts_bytes_into_lines_of_eight() {
    let bytes: Vec<u8> = (0..20u8).collect();
    let lines = showable(&bytes).lines();
    assert_eq!(lines.len(), 3);
    assert_eq!(lines[0], &bytes[0..8]);
    assert_eq!(lines[1], &bytes[8..16]);
    assert_eq!(lines[2], &bytes[16..20]);
}

#[test]
fn dump_with_a_width_of_its_own() {
    let bytes = [1u8, 2, 3, 4, 5, 6];
    let lines = showable_with(&bytes, 3).lines();
    assert_eq!(lines.len(), 2);
    assert_eq!(lines[0], &[1u8, 2, 3]);
    assert_eq!(lines[1], &[4u8, 5, 6]);
    assert_eq!(showable_with(&[], 3).lines().len(), 0);
}

#[test]
fn dump_glyphs() {
    assert_eq!(glyph(0), '_');
    assert_eq!(glyph(b'A'), 'A');
    assert_eq!(glyph(b'~'), '~');
    assert_eq!(glyph(b'!'), '!');
    assert_eq!(glyph(b' '), '?');
    assert_eq!(glyph(0x7F), '?');
    assert_eq!(glyph(0xFF), '?');
    assert_eq!(ShowableBinary::glyphs(&[0, b'N', b'E', b'S', 0x1A]), vec!['_', 'N', 'E', 'S', '?']);
}
