use famicom::display::Display;
use famicom::ines::SpriteROM;
use famicom::memory::ROM;
use famicom::memory::WOM;
use famicom::ppu::buf_byte::Bufu8;
use famicom::ppu::color::color;
use famicom::ppu::cycle::Line;
use famicom::ppu::cycle::PPUCycle;
use famicom::ppu::Color;
use famicom::ppu::MemoryMap;
use famicom::ppu::Palette;
use famicom::ppu::Register;
use famicom::ppu::PPU;
use famicom::result::Error;
use famicom::sprite::Sprite;

fn tiles() -> SpriteROM {
    let mut raw = vec![0u8; 48];
    raw[16] = 0xFF;
    raw[32 + 1] = 0b0101_0101;
    raw[32 + 8 + 1] = 0b0011_0011;
    SpriteROM::new(&raw)
}

fn unit() -> PPU {
    PPU::new(Register::default(), MemoryMap::new(tiles()), Display::default())
}

fn point(unit: &mut PPU, address: u16) {
    unit.get(2).unwrap();
    unit.put(6, (address >> 8) as u8).unwrap();
    unit.put(6, address as u8).unwrap();
}

fn pixel(display: &Display, x: usize, y: usize) -> [u8; 4] {
    let at = 4 * (y * 256 + x);
    let bytes = &display.image().bytes;
    [bytes[at], bytes[at + 1], bytes[at + 2], bytes[at + 3]]
}

fn opaque(c: Color) -> [u8; 4] {
    [c.r, c.g, c.b, 255]
}

#[test]
fn latch_takes_pairs() {
    let mut latch = Bufu8::default();
    latch.add(0x12);
    assert_eq!((latch.older(), latch.later(), latch.half), (0x12, 0, true));
    latch.add(0x34);
    assert_eq!((latch.older(), latch.later(), latch.half), (0x12, 0x34, false));
    assert_eq!(latch.u16_be_bytes(), 0x1234);
    assert_eq!(latch.u16_le_bytes(), 0x3412);
    latch.add(0x56);
    assert_eq!((latch.older(), latch.later(), latch.half), (0x56, 0x34, true));
    latch.rewind();
    assert_eq!((latch.older(), latch.later(), latch.half), (0x56, 0x34, false));
    latch.add(1);
    latch.clear();
    assert_eq!(latch, Bufu8::default());
}

#[test]
fn latch_from_words() {
    let be = Bufu8::from_16_be_bytes(0xABCD);
    assert_eq!((be.older(), be.later(), be.half), (0xAB, 0xCD, false));
    assert_eq!(be.u16_be_bytes(), 0xABCD);
    let le = Bufu8::from_16_le_bytes(0xABCD);
    assert_eq!((le.older(), le.later(), le.half), (0xCD, 0xAB, false));
    assert_eq!(le.u16_le_bytes(), 0xABCD);
}

#[test]
fn register_file_of_the_picture_unit() {
    let mut r = Register::default();
    assert_eq!((r.control1, r.control2, r.status, r.sprite_addr, r.sprite_data), (0, 0, 0, 0, 9));
    r.put_addr(0x3F);
    r.put_addr(0xFF);
    assert_eq!(r.ppu_addr(), 0x3FFF);
    r.increment_ppu_addr();
    assert_eq!(r.ppu_addr(), 0x4000);
    r.put_addr(0xFF);
    r.put_addr(0xFF);
    r.increment_ppu_addr();
    assert_eq!(r.ppu_addr(), 0);
    r.put_scroll_offset(3);
    r.put_scroll_offset(4);
    assert_eq!((r.scroll_offset.older(), r.scroll_offset.later()), (3, 4));
    r.toggle_vblank(true);
    assert_eq!(r.status, 0x80);
    r.toggle_vblank(false);
    assert_eq!(r.status, 0);
}

#[test]
fn status_read_restarts_the_pair() {
    let mut unit = unit();
    unit.put(5, 1).unwrap();
    unit.put(5, 2).unwrap();
    assert_eq!(unit.register().scroll_offset, Bufu8 { older: 1, later: 2, half: false });
    unit.put(5, 3).unwrap();
    assert!(unit.register().scroll_offset.half);
    assert_eq!(unit.get(2), Ok(0));
    unit.put(5, 4).unwrap();
    assert_eq!(unit.register().scroll_offset, Bufu8 { older: 4, later: 0, half: true });
    unit.put(5, 5).unwrap();
    assert_eq!(unit.register().scroll_offset, Bufu8 { older: 4, later: 5, half: false });
    unit.put(6, 0x20).unwrap();
    unit.get(2).unwrap();
    unit.put(6, 0x3F).unwrap();
    unit.put(6, 0x01).unwrap();
    assert_eq!(unit.register().ppu_addr(), 0x3F01);
}

#[test]
fn register_window() {
    let mut unit = unit();
    assert_eq!(unit.put(0, 0x11), Ok(()));
    assert_eq!(unit.put(1, 0x22), Ok(()));
    assert_eq!(unit.put(3, 0xFF), Ok(()));
    assert_eq!(unit.put(4, 0x44), Ok(()));
    let r = *unit.register();
    assert_eq!((r.control1, r.control2, r.sprite_addr, r.sprite_data), (0x11, 0x22, 0, 0x44));
    assert_eq!(unit.put(2, 1), Err(Error::ReadOnly(2)));
    assert_eq!(unit.put(8, 1), Err(Error::OutOfRange(8)));
    assert_eq!(unit.get(0), Err(Error::WriteOnly(0)));
    assert_eq!(unit.get(1), Err(Error::WriteOnly(1)));
    assert_eq!(unit.get(3), Err(Error::WriteOnly(3)));
    assert_eq!(unit.get(4), Err(Error::Unimplemented(4)));
    assert_eq!(unit.get(5), Err(Error::WriteOnly(5)));
    assert_eq!(unit.get(6), Err(Error::WriteOnly(6)));
    assert_eq!(unit.get(8), Err(Error::OutOfRange(8)));
    assert_eq!(*unit.register(), r);
}

#[test]
fn data_port_moves_the_address_on() {
    let mut unit = unit();
    point(&mut unit, 0x2000);
    assert_eq!(unit.put(7, 0x55), Ok(()));
    assert_eq!(unit.put(7, 0x66), Ok(()));
    assert_eq!(unit.register().ppu_addr(), 0x2002);
    point(&mut unit, 0x2000);
    assert_eq!(unit.get(7), Ok(0x55));
    assert_eq!(unit.get(7), Ok(0x66));
    assert_eq!(unit.register().ppu_addr(), 0x2002);
    point(&mut unit, 0x3000);
    assert_eq!(unit.get(7), Ok(0x55));
    point(&mut unit, 0x0010);
    assert_eq!(unit.put(7, 1), Err(Error::ReadOnly(0x0010)));
    assert_eq!(unit.get(7), Err(Error::Unimplemented(0x0010)));
    assert_eq!(unit.register().ppu_addr(), 0x0010);
    point(&mut unit, 0x4000);
    assert_eq!(unit.get(7), Err(Error::OutOfRange(0x4000)));
}

#[test]
fn video_memory_map() {
    let mut video = MemoryMap::new(tiles());
    for (q, base) in [0x2000usize, 0x2400, 0x2800, 0x2C00].iter().enumerate() {
        video.put(*base, q as u8 + 1).unwrap();
        video.put(base + 0x3C0, 0b01_00_00_10).unwrap();
    }
    assert_eq!(video.get(0x2000), Ok(1));
    assert_eq!(video.get(0x2400), Ok(2));
    assert_eq!(video.get(0x2800), Ok(3));
    assert_eq!(video.get(0x2C00), Ok(4));
    assert_eq!(video.get(0x3000), Ok(1));
    assert_eq!(video.get(0x3C00), Ok(4));
    assert_eq!(video.get(0x2FC0), Ok(0b01_00_00_10));
    assert_eq!(video.background(3).tile(0, 0), 4);
    assert_eq!(video.background(2).palette_number(0, 0), 2);
    assert_eq!(video.background(1).palette_number(1, 1), 2);
    assert_eq!(video.background(1).palette_number(3, 3), 1);
    assert_eq!(video.background(0).palette_number(2, 0), 0);
    video.put(0x3F00, 0x21).unwrap();
    video.put(0x3F1F, 0x17).unwrap();
    assert_eq!(video.get(0x3F00), Ok(0x21));
    assert_eq!(video.get(0x3F10), Ok(0x21));
    assert_eq!(video.get(0x3F20), Ok(0x21));
    assert_eq!(video.get(0x3FFF), Ok(0x17));
    assert_eq!(video.put(0x0000, 1), Err(Error::ReadOnly(0)));
    assert_eq!(video.get(0x1FFF), Err(Error::Unimplemented(0x1FFF)));
    assert_eq!(video.put(0x3000, 1), Err(Error::Unimplemented(0x3000)));
    assert_eq!(video.put(0x3F20, 1), Err(Error::Unimplemented(0x3F20)));
    assert_eq!(video.put(0x4000, 1), Err(Error::OutOfRange(0x4000)));
    assert_eq!(video.get(0x4000), Err(Error::OutOfRange(0x4000)));
    assert_eq!(video.sprite(1).bits()[0], [1; 8]);
}

#[test]
fn cycle_counter_names_the_row_that_is_due() {
    let mut cycle = PPUCycle::default();
    assert!(cycle.next_line(2727).is_none());
    assert!(cycle.add_cycle_with_next(2727).is_none());
    assert!(matches!(cycle.next_line(1), Some(Line(0))));
    assert!(matches!(cycle.add_cycle_with_next(1), Some(Line(0))));
    assert_eq!(cycle.count(), 2728);
    assert!(matches!(cycle.add_cycle_with_next(3 * 2728), Some(Line(1))));
    assert_eq!(cycle.count(), 4 * 2728);
    assert!(!cycle.is_vblank());
    let mut cycle = PPUCycle::new();
    assert!(matches!(cycle.add_cycle_with_next(28 * 2728 + 5), Some(Line(0))));
    let before_last = cycle.add_cycle_with_next(2728).unwrap();
    assert_eq!(before_last.0, 28);
    assert!(!before_last.is_last());
    assert!(!cycle.is_vblank());
    assert_eq!(cycle.line().0, 29);
    assert!(cycle.line().is_last());
    assert!(cycle.next_line(2727).is_none());
    assert!(!cycle.enters_vblank(2722));
    assert!(cycle.enters_vblank(2723));
    assert!(cycle.add_cycle_with_next(2728).is_none());
    assert!(cycle.is_vblank());
    assert!(!cycle.enters_vblank(2728));
    assert!(cycle.add_cycle_with_next(2728).is_none());
    assert!(!cycle.has_drawed());
    cycle.add_cycle_with_next(88660 - 31 * 2728 - 6);
    assert!(!cycle.has_drawed());
    cycle.add_cycle_with_next(1);
    assert!(cycle.has_drawed());
    cycle.rewind();
    assert_eq!(cycle.count(), 0);
}

#[test]
fn every_row_but_the_last_is_due_once_and_the_blank_begins_once() {
    let mut cycle = PPUCycle::new();
    let mut due = Vec::new();
    let mut blanks = 0;
    while !cycle.has_drawed() {
        if cycle.enters_vblank(21) {
            blanks += 1;
            assert!(cycle.line().is_last());
        }
        if let Some(Line(y)) = cycle.add_cycle_with_next(21) {
            due.push(y);
        }
    }
    assert_eq!(due, (0..29).collect::<Vec<usize>>());
    assert_eq!(blanks, 1);
}

#[test]
fn nothing_is_due_once_the_count_lies_in_the_blank() {
    let cycle = PPUCycle::new();
    assert!(cycle.next_line(81840).is_none());
    assert!(matches!(cycle.next_line(81839), Some(Line(0))));
    let mut cycle = PPUCycle::new();
    cycle.add_cycle_with_next(80000);
    assert!(cycle.add_cycle_with_next(2000).is_none());
    assert_eq!(cycle.count(), 82000);
}

#[test]
fn cycle_counter_knows_the_beam() {
    let mut cycle = PPUCycle::new();
    assert_eq!(cycle.scanline(), 0);
    assert!(!cycle.is_hblank());
    cycle.add_cycle_with_next(255);
    assert!(!cycle.is_hblank());
    cycle.add_cycle_with_next(1);
    assert!(cycle.is_hblank());
    cycle.add_cycle_with_next(85);
    assert_eq!(cycle.scanline(), 1);
    assert!(!cycle.is_hblank());
    cycle.add_cycle_with_next(341 * 239 - 1);
    assert_eq!(cycle.scanline(), 239);
    assert!(!cycle.is_vblank());
    cycle.add_cycle_with_next(1);
    assert_eq!(cycle.scanline(), 240);
    assert!(cycle.is_vblank());
}

#[test]
fn one_frame_of_cycles_completes_one_frame() {
    let mut unit = unit();
    assert_eq!(unit.exec(88660), Ok(true));
    assert_eq!(unit.cycle().count(), 0);
    assert_eq!(unit.exec(100), Ok(false));
    assert_eq!(unit.exec(88660), Ok(true));
    assert_eq!(unit.cycle().count(), 100);
    assert_eq!(unit.exec(88559), Ok(false));
    assert_eq!(unit.exec(1), Ok(true));
    assert_eq!(unit.cycle().count(), 0);
}

#[test]
fn a_row_is_painted_when_the_beam_leaves_it() {
    let mut unit = unit();
    point(&mut unit, 0x2000);
    unit.put(7, 1).unwrap();
    unit.put(7, 2).unwrap();
    point(&mut unit, 0x23C0);
    unit.put(7, 0b0000_0001).unwrap();
    point(&mut unit, 0x3F00);
    for entry in [0x01u8, 0x20, 0x16, 0x2A, 0, 0x11, 0x12, 0x13] {
        unit.put(7, entry).unwrap();
    }
    unit.get(2).unwrap();
    assert_eq!(unit.exec(2727), Ok(false));
    assert_eq!(pixel(unit.display(), 0, 0), [0, 0, 0, 255]);
    assert_eq!(unit.exec(1), Ok(false));
    let backdrop = opaque(color(0x01));
    assert_eq!(pixel(unit.display(), 0, 0), opaque(color(0x11)));
    assert_eq!(pixel(unit.display(), 7, 0), opaque(color(0x11)));
    assert_eq!(pixel(unit.display(), 0, 1), backdrop);
    assert_eq!(pixel(unit.display(), 8, 0), backdrop);
    assert_eq!(pixel(unit.display(), 8, 1), backdrop);
    assert_eq!(pixel(unit.display(), 9, 1), opaque(color(0x11)));
    assert_eq!(pixel(unit.display(), 10, 1), opaque(color(0x12)));
    assert_eq!(pixel(unit.display(), 11, 1), opaque(color(0x13)));
    assert_eq!(pixel(unit.display(), 16, 0), backdrop);
    assert_eq!(pixel(unit.display(), 255, 7), backdrop);
    assert_eq!(pixel(unit.display(), 0, 8), [0, 0, 0, 255]);
    assert_eq!(unit.register().status, 0);
}

#[test]
fn a_frame_paints_all_thirty_rows() {
    let mut unit = unit();
    point(&mut unit, 0x3F00);
    unit.put(7, 0x21).unwrap();
    unit.get(2).unwrap();
    let mut done = false;
    while !done {
        done = unit.exec(21).unwrap();
    }
    let backdrop = opaque(color(0x21));
    for y in 0..240 {
        assert_eq!(pixel(unit.display(), 0, y), backdrop);
        assert_eq!(pixel(unit.display(), 255, y), backdrop);
    }
    assert_eq!(unit.register().status, 0x80);
}

#[test]
fn scroll_moves_the_frame_over_the_quadrants() {
    let mut unit = unit();
    point(&mut unit, 0x2400 + 32 * 2);
    unit.put(7, 1).unwrap();
    point(&mut unit, 0x2800);
    unit.put(7, 1).unwrap();
    point(&mut unit, 0x3F00);
    unit.put(7, 0x0F).unwrap();
    unit.put(7, 0x30).unwrap();
    unit.get(2).unwrap();
    unit.put(5, 31).unwrap();
    unit.put(5, 2).unwrap();
    assert_eq!(unit.exec(2728), Ok(false));
    assert_eq!(pixel(unit.display(), 8, 0), opaque(color(0x30)));
    assert_eq!(pixel(unit.display(), 0, 0), opaque(color(0x0F)));
    assert_eq!(pixel(unit.display(), 16, 0), opaque(color(0x0F)));
    unit.get(2).unwrap();
    unit.put(5, 0).unwrap();
    unit.put(5, 29).unwrap();
    assert_eq!(unit.exec(2728), Ok(false));
    assert_eq!(pixel(unit.display(), 0, 8), opaque(color(0x30)));
    assert_eq!(pixel(unit.display(), 8, 8), opaque(color(0x0F)));
}

#[test]
fn the_last_row_sets_the_blank_flag() {
    let mut unit = unit();
    assert_eq!(unit.exec(29 * 2728), Ok(false));
    assert_eq!(unit.register().status, 0);
    assert_eq!(pixel(unit.display(), 0, 239), [0, 0, 0, 255]);
    assert_eq!(unit.exec(2728), Ok(false));
    assert_eq!(unit.register().status, 0x80);
    assert_eq!(pixel(unit.display(), 0, 239), opaque(color(0)));
    assert_eq!(unit.exec(2728), Ok(false));
    assert_eq!(unit.exec(88660 - 31 * 2728), Ok(true));
    assert_eq!(unit.register().status, 0x80);
}

#[test]
fn a_missing_tile_fails_the_step_and_changes_nothing() {
    let mut unit = unit();
    point(&mut unit, 0x2000 + 5);
    unit.put(7, 3).unwrap();
    unit.put(7, 9).unwrap();
    unit.get(2).unwrap();
    unit.exec(100).unwrap();
    assert_eq!(unit.exec(2728), Err(Error::OutOfRange(3)));
    assert_eq!(unit.cycle().count(), 100);
    assert_eq!(pixel(unit.display(), 0, 0), [0, 0, 0, 255]);
    assert_eq!(unit.exec(2 * 2728), Err(Error::OutOfRange(3)));
    let mut empty = PPU::new(Register::default(), MemoryMap::new(SpriteROM::new(&[])), Display::default());
    assert_eq!(empty.exec(2728), Err(Error::OutOfRange(0)));
    assert_eq!(empty.exec(2727), Ok(false));
}

#[test]
fn display_starts_black_and_opaque() {
    let display = Display::default();
    let image = display.image();
    assert_eq!((image.width, image.height), (256, 240));
    assert_eq!(image.bytes.len(), 256 * 240 * 4);
    assert!(image.bytes.chunks(4).all(|p| p == [0, 0, 0, 255]));
}

#[test]
fn display_paints_one_cell() {
    let mut display = Display::default();
    let mut cells = [[0u8; 8]; 8];
    cells[0] = [0, 1, 2, 3, 3, 2, 1, 0];
    cells[7][7] = 2;
    let palette = Palette(
        Color { r: 1, g: 2, b: 3 },
        Color { r: 10, g: 20, b: 30 },
        Color { r: 100, g: 150, b: 200 },
        Color { r: 255, g: 254, b: 253 },
    );
    display.put_image(31, 29, &Sprite::debug_new(cells), &palette);
    assert_eq!(pixel(&display, 248, 232), [1, 2, 3, 255]);
    assert_eq!(pixel(&display, 249, 232), [10, 20, 30, 255]);
    assert_eq!(pixel(&display, 250, 232), [100, 150, 200, 255]);
    assert_eq!(pixel(&display, 251, 232), [255, 254, 253, 255]);
    assert_eq!(pixel(&display, 255, 232), [1, 2, 3, 255]);
    assert_eq!(pixel(&display, 255, 239), [100, 150, 200, 255]);
    assert_eq!(pixel(&display, 248, 239), [1, 2, 3, 255]);
    assert_eq!(pixel(&display, 247, 232), [0, 0, 0, 255]);
    assert_eq!(pixel(&display, 248, 231), [0, 0, 0, 255]);
    let painted = display.image().bytes.chunks(4).filter(|p| *p != [0, 0, 0, 255]).count();
    assert_eq!(painted, 64);
}

#[test]
fn display_stores_every_channel_value() {
    let mut display = Display::default();
    for v in 0..=255u8 {
        let c = Color { r: v, g: 255 - v, b: v ^ 0x55 };
        display.put_plane((v % 32) as usize, (v / 32) as usize, &c);
        assert_eq!(pixel(&display, 8 * (v % 32) as usize + 3, 8 * (v / 32) as usize + 5), [v, 255 - v, v ^ 0x55, 255]);
    }
}

#[test]
fn display_floods_one_cell() {
    let mut display = Display::default();
    display.put_plane(0, 0, &Color { r: 9, g: 8, b: 7 });
    for y in 0..8 {
        for x in 0..8 {
            assert_eq!(pixel(&display, x, y), [9, 8, 7, 255]);
        }
    }
    assert_eq!(pixel(&display, 8, 0), [0, 0, 0, 255]);
    assert_eq!(pixel(&display, 0, 8), [0, 0, 0, 255]);
}
