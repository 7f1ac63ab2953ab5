use famicom::array2::Array2;
use famicom::memory::ROM;
use famicom::memory::WOM;
use famicom::ppu::attribute_table::AttributeTable;
use famicom::ppu::background_table::BackgroundTable;
use famicom::ppu::color::color;
use famicom::ppu::name_table::NameTable;
use famicom::ppu::palette::PaletteTable;
use famicom::ppu::Color;
use famicom::ppu::Palette;
use famicom::result::e;
use famicom::result::Error;
use famicom::vec2::Vec2;

#[test]
fn attribute_table_it_put() {
    let mut a = AttributeTable::new(Array2::from_with_size(3, 3));
    a.put(0, 0b_11_10_01_00).unwrap();
    assert_eq!(a.palettes()[[0, 0]], 0);
    assert_eq!(a.palettes()[[1, 0]], 1);
    assert_eq!(a.palettes()[[0, 1]], 2);
    assert_eq!(a.palettes()[[1, 1]], 3);
}

#[test]
fn it_put1() {
    let mut a = AttributeTable::new(Array2::from_with_size(10, 10));
    a.put(5, 0b_11_10_01_00).unwrap();
    assert_eq!(a.palettes()[[0, 2]], 0);
    assert_eq!(a.palettes()[[1, 2]], 1);
    assert_eq!(a.palettes()[[0, 3]], 2);
    assert_eq!(a.palettes()[[1, 3]], 3);
}

#[test]
fn attribute_table_it_get() {
    let mut a = AttributeTable::new(Array2::from_with_size(10, 10));
    a.put(8, 0b_11_10_01_00).unwrap();
    assert_eq!(a.palettes()[[6, 2]], 0);
    assert_eq!(a.palettes()[[7, 2]], 1);
    assert_eq!(a.palettes()[[6, 3]], 2);
    assert_eq!(a.palettes()[[7, 3]], 3);
}

#[test]
fn name_table_it_get() {
    let name = NameTable::new(Array2::new(vec![vec![0, 0, 0], vec![0, 1, 0], vec![0, 0, 0]]));
    assert_eq!(name.get(3 + 1).unwrap(), 1);
}

#[test]
fn name_table_it_put() {
    let mut name = NameTable::new(Array2::from_with_size(3, 3));
    name.put(3 + 2, 1).unwrap();
    assert_eq!(name.tiles()[[2, 1]], 1)
}

#[test]
fn attribute_round_trip() {
    let mut a = AttributeTable::default();
    a.put(0, 0b11_10_01_00).unwrap();
    assert_eq!(a.get(0).unwrap(), 0b11_10_01_00);
    assert_eq!(a.palettes()[[0, 0]], 0);
    assert_eq!(a.palettes()[[1, 0]], 1);
    assert_eq!(a.palettes()[[0, 1]], 2);
    assert_eq!(a.palettes()[[1, 1]], 3);
    for i in 0..56 {
        let v = (i * 37 + 11) as u8;
        a.put(i, v).unwrap();
        assert_eq!(a.get(i).unwrap(), v);
    }
}

#[test]
fn attribute_last_row_is_clipped() {
    let mut a = AttributeTable::default();
    for i in 56..64 {
        a.put(i, 0b11_10_01_11).unwrap();
        assert_eq!(a.get(i).unwrap(), 0b00_00_01_11);
    }
    assert_eq!(a.palettes().dimention(), Vec2::new(16, 15));
    assert_eq!(a.palettes()[[0, 14]], 3);
    assert_eq!(a.palettes()[[1, 14]], 1);
    assert_eq!(a.fetch_line(Vec2::new(0, 14), 4), &[3u8, 1, 3, 1]);
}

#[test]
fn attribute_out_of_range() {
    let mut a = AttributeTable::default();
    assert_eq!(a.put(64, 1), Err(Error::OutOfRange(64)));
    assert_eq!(a.get(64), Err(Error::OutOfRange(64)));
    let mut small = AttributeTable::new(Array2::from_with_size(3, 3));
    assert_eq!(small.put(2, 0xFF), Err(Error::OutOfRange(2)));
    assert_eq!(small.get(1).unwrap(), 0);
    small.put(1, 0xFF).unwrap();
    assert_eq!(small.get(1).unwrap(), 0x0F);
}

#[test]
fn name_table_bounds() {
    let mut name = NameTable::default();
    assert_eq!(name.tiles().dimention(), Vec2::new(32, 30));
    name.put(0x3BF, 7).unwrap();
    assert_eq!(name.get(0x3BF).unwrap(), 7);
    assert_eq!(name.tiles()[[31, 29]], 7);
    assert_eq!(name.put(0x3C0, 7), Err(Error::OutOfRange(0x3C0)));
    assert_eq!(name.get(0x3C0), Err(Error::OutOfRange(0x3C0)));
    name.put(33, 5).unwrap();
    assert_eq!(name.fetch_line(Vec2::new(0, 1), 3), &[0u8, 5, 0]);
    let small = NameTable::new(Array2::from_with_size(3, 3));
    assert_eq!(small.get(9), Err(Error::OutOfRange(9)));
}

#[test]
fn background_table_reaches_names_and_attributes() {
    let mut b = BackgroundTable::default();
    b.put(0x3BF, 9).unwrap();
    assert_eq!(b.get(0x3BF).unwrap(), 9);
    b.put(0x3C0, 0b11_10_01_00).unwrap();
    assert_eq!(b.get(0x3C0).unwrap(), 0b11_10_01_00);
    assert_eq!(b.palette_number(0, 0), 0);
    assert_eq!(b.palette_number(1, 1), 0);
    assert_eq!(b.palette_number(2, 0), 1);
    assert_eq!(b.palette_number(0, 2), 2);
    assert_eq!(b.palette_number(3, 3), 3);
    assert_eq!(b.tile(31, 29), 9);
    b.put(0x3FF, 0xFF).unwrap();
    assert_eq!(b.get(0x3FF).unwrap(), 0x0F);
    assert_eq!(b.put(0x400, 1), Err(Error::OutOfRange(0x400)));
    assert_eq!(b.get(0x400), Err(Error::OutOfRange(0x400)));
    let (names, attributes) = b.fetch_line(Vec2::new(28, 29), 4);
    assert_eq!(names, &[0u8, 0, 0, 9]);
    assert_eq!(attributes, &[3u8, 3]);
}

#[test]
fn palette_table_mirror_and_bounds() {
    let mut p = PaletteTable::default();
    p.put(0x10, 0x21).unwrap();
    assert_eq!(p.get(0x00).unwrap(), 0x21);
    assert_eq!(p.get(0x10).unwrap(), 0x21);
    p.put(0x00, 0x05).unwrap();
    assert_eq!(p.get(0x10).unwrap(), 0x05);
    p.put(0x1F, 0x3F).unwrap();
    assert_eq!(p.get(0x1F).unwrap(), 0x3F);
    assert_eq!(p.put(0x20, 1), Err(Error::OutOfRange(0x20)));
    assert_eq!(p.get(0x20), Err(Error::OutOfRange(0x20)));
}

#[test]
fn palettes_resolve_colours() {
    let mut p = PaletteTable::default();
    for i in 0..0x20usize {
        p.put(i, i as u8).unwrap();
    }
    p.put(0, 0x20).unwrap();
    let white = Color { r: 0xFF, g: 0xFF, b: 0xFF };
    assert_eq!(p.background_color(), white);
    assert_eq!(p.background_palette(0), Palette(white, color(1), color(2), color(3)));
    assert_eq!(p.background_palette(1), Palette(white, color(5), color(6), color(7)));
    assert_eq!(p.background_palette(2), Palette(white, color(9), color(10), color(11)));
    assert_eq!(p.background_palette(3), Palette(white, color(13), color(14), color(15)));
    assert_eq!(p.sprite_palette0(), Palette(color(0x11), color(0x12), color(0x13), color(0x04)));
    assert_eq!(p.sprite_palette1(), Palette(color(0x15), color(0x16), color(0x17), color(0x08)));
    assert_eq!(p.sprite_palette2(), Palette(color(0x19), color(0x1A), color(0x1B), color(0x0C)));
    assert_eq!(p.sprite_palette3(), Palette(color(0x1D), color(0x1E), color(0x1F), white));
}

#[test]
fn colour_lookup_uses_six_bits() {
    assert_eq!(color(0x00), Color { r: 0x80, g: 0x80, b: 0x80 });
    assert_eq!(color(0x0D), Color { r: 0, g: 0, b: 0 });
    assert_eq!(color(0x3F), Color { r: 0x11, g: 0x11, b: 0x11 });
    assert_eq!(color(0x40), color(0x00));
    assert_eq!(color(0xFF), color(0x3F));
}

#[test]
fn error_constructors() {
    assert_eq!(e::readonly(3), Error::ReadOnly(3));
    assert_eq!(e::writeonly(4), Error::WriteOnly(4));
    assert_eq!(e::index_out_of_range(5), Error::OutOfRange(5));
    assert_eq!(e::unimplemented(6), Error::Unimplemented(6));
    assert_eq!(e::not_yet_implemented(7), Error::NotYetImplemented(7));
}

#[test]
fn plain_memory_reads_and_writes() {
    let mut m = vec![1u8, 2, 3];
    assert_eq!(m.get(2), Ok(3));
    assert_eq!(m.get(3), Err(Error::OutOfRange(3)));
    assert_eq!(m.put(1, 9), Ok(()));
    assert_eq!(m, vec![1, 9, 3]);
    assert_eq!(m.put(3, 9), Err(Error::OutOfRange(3)));
    assert_eq!(m, vec![1, 9, 3]);
}

#[test]
fn plain_memory_hands_out_ranges() {
    let m = vec![1u8, 2, 3, 4];
    assert_eq!(m.get(1..3), Ok(vec![2, 3]));
    assert_eq!(m.get(2..2), Ok(vec![]));
    assert_eq!(m.get(1..4), Err(Error::OutOfRange(1)));
    assert_eq!(m.get(4..4), Err(Error::OutOfRange(4)));
    assert_eq!(m.get(3..1), Err(Error::OutOfRange(3)));
    let s: &[u8] = &m;
    assert_eq!(ROM::<std::ops::Range<usize>>::get(s, 0..3), Ok(vec![1, 2, 3]));
    assert_eq!(ROM::<std::ops::Range<usize>>::get(s, 0..4), Err(Error::OutOfRange(0)));
}

#[test]
fn slices_are_memories() {
    let mut bytes = [5u8, 6, 7];
    let s: &mut [u8] = &mut bytes;
    assert_eq!(ROM::<usize>::get(s, 1), Ok(6));
    assert_eq!(ROM::<usize>::get(s, 3), Err(Error::OutOfRange(3)));
    assert_eq!(s.put(2, 9), Ok(()));
    assert_eq!(s.put(3, 9), Err(Error::OutOfRange(3)));
    assert_eq!(bytes, [5, 6, 9]);
}
