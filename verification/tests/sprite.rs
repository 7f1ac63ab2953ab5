use famicom::ines::SpriteROM;
use famicom::ines::Sprites;
use famicom::program::debug_program;
use famicom::program::Opecode;
use famicom::program::Operand;
use famicom::sprite::debug_sprite;
use famicom::sprite::picture;
use famicom::sprite::Sprite;
use famicom::sprite::SpriteByte;

#[test]
fn it_byte_add() {
    assert_eq!(
        SpriteByte::from(0b1000_1000) + SpriteByte::from(0b1000_1000),
        SpriteByte::new(2, 0, 0, 0, 2, 0, 0, 0)
    )
}

#[test]
fn it_byte() {
    assert_eq!(
        SpriteByte::from(0b1000_1000),
        SpriteByte::new(1, 0, 0, 0, 1, 0, 0, 0)
    )
}

#[test]
fn sprite_byte_starts_at_zero() {
    assert_eq!(SpriteByte::default(), SpriteByte::new(0, 0, 0, 0, 0, 0, 0, 0));
}

#[test]
fn it_bytes_from_sprite_byte() {
    assert_eq!(
        <[u8; 8]>::from(SpriteByte::new(1, 0, 0, 0, 1, 0, 0, 0)),
        [1, 0, 0, 0, 1, 0, 0, 0]
    )
}

#[test]
fn pattern_decode_counts_the_high_plane_twice() {
    let mut raw = [0u8; 16];
    raw[0] = 0b1000_1000;
    raw[8] = 0b1000_1000;
    let sprite = Sprite::new(&raw);
    assert_eq!(sprite.bits()[0], [3, 0, 0, 0, 3, 0, 0, 0]);
    for row in 1..8 {
        assert_eq!(sprite.bits()[row], [0; 8]);
    }
    assert!(!sprite.zero());
}

#[test]
fn pattern_decode_of_each_plane_alone() {
    let mut raw = [0u8; 16];
    raw[3] = 0b0000_0001;
    raw[8 + 5] = 0b0100_0000;
    let sprite = Sprite::new(&raw);
    assert_eq!(sprite.bits()[3], [0, 0, 0, 0, 0, 0, 0, 1]);
    assert_eq!(sprite.bits()[5], [0, 2, 0, 0, 0, 0, 0, 0]);
    assert_eq!(Sprite::parse(&raw), sprite);
}

#[test]
fn blank_tile_is_zero() {
    assert!(Sprite::new(&[0u8; 16]).zero());
    assert!(Sprite::debug_new([[0; 8]; 8]).zero());
    let mut cells = [[0u8; 8]; 8];
    cells[7][7] = 1;
    let sprite = Sprite::debug_new(cells);
    assert!(!sprite.zero());
    assert_eq!(sprite.bits(), cells);
}

#[test]
fn pattern_store_decodes_whole_tiles_only() {
    let mut raw = vec![0u8; 40];
    raw[16] = 0xFF;
    let rom = SpriteROM::new(&raw);
    assert_eq!(rom.len(), 2);
    assert_eq!(rom.raw().len(), 2);
    assert!(rom[0].zero());
    assert_eq!(rom[1].bits()[0], [1; 8]);
    assert_eq!(Sprites::parse(&raw), *rom.raw());
    assert_eq!(SpriteROM::new(&[0u8; 15]).len(), 0);
}

fn decoded(picture: &picture::Picture) -> image::RgbImage {
    image::load_from_memory(&picture.png().unwrap()).unwrap().to_rgb8()
}

fn lit(image: &image::RgbImage) -> usize {
    image.pixels().filter(|p| p.0 != [0, 0, 0]).count()
}

#[test]
fn sheet_of_tiles_in_grey() {
    let mut raw = vec![0u8; 16 * 34];
    raw[16] = 0b1000_0000;
    raw[16 * 33 + 8 + 7] = 0b0000_0001;
    raw[16 * 32] = 0xFF;
    raw[16 * 32 + 8] = 0xFF;
    let sheet = decoded(&debug_sprite(SpriteROM::new(&raw).raw()));
    assert_eq!(sheet.dimensions(), (512, 480));
    assert_eq!(sheet.get_pixel(8, 0).0, [127, 127, 127]);
    assert_eq!(sheet.get_pixel(9, 0).0, [0, 0, 0]);
    assert_eq!(sheet.get_pixel(0, 8).0, [255, 255, 255]);
    assert_eq!(sheet.get_pixel(7, 8).0, [255, 255, 255]);
    assert_eq!(sheet.get_pixel(8 + 7, 8 + 7).0, [255, 255, 255]);
    assert_eq!(sheet.get_pixel(8 + 6, 8 + 7).0, [0, 0, 0]);
    assert_eq!(lit(&sheet), 10);
    assert_eq!(picture::shade(0), 0);
    assert_eq!(picture::shade(1), 127);
    assert_eq!(picture::shade(2), 255);
    assert_eq!(picture::shade(3), 255);
}

#[test]
fn sheet_leaves_out_what_it_has_no_room_for() {
    let raw = vec![0xFFu8; 16 * 1921];
    let sheet = decoded(&debug_sprite(SpriteROM::new(&raw).raw()));
    assert_eq!(sheet.get_pixel(255, 479).0, [255, 255, 255]);
    assert_eq!(sheet.get_pixel(256, 479).0, [0, 0, 0]);
    assert_eq!(lit(&sheet), 256 * 480);
    let empty = decoded(&debug_sprite(&vec![]));
    assert_eq!(empty.dimensions(), (512, 480));
    assert_eq!(lit(&empty), 0);
}

#[test]
fn enlarged_tiles_in_grey() {
    let mut cells = [[0u8; 8]; 8];
    cells[1][2] = 1;
    cells[7][7] = 3;
    let tile = Sprite::debug_new(cells);
    let large = decoded(&picture::enlarged(&tile));
    assert_eq!(large.dimensions(), (160, 160));
    assert_eq!(large.get_pixel(40, 20).0, [127, 127, 127]);
    assert_eq!(large.get_pixel(59, 39).0, [127, 127, 127]);
    assert_eq!(large.get_pixel(40, 40).0, [0, 0, 0]);
    assert_eq!(large.get_pixel(60, 20).0, [0, 0, 0]);
    assert_eq!(large.get_pixel(159, 159).0, [255, 255, 255]);
    assert_eq!(lit(&large), 800);
    let all = picture::create(&vec![tile, Sprite::new(&[0u8; 16])]);
    assert_eq!(all.len(), 2);
    assert_eq!(decoded(&all[0]), large);
    assert_eq!(lit(&decoded(&all[1])), 0);
}

#[test]
fn listing_follows_operand_lengths() {
    let lines = debug_program(&vec![0xA9, 0x01, 0x8D, 0x00, 0x02, 0xEA, 0x4C]);
    let seen: Vec<(usize, Opecode, Operand, usize)> =
        lines.iter().map(|l| (l.at, l.opecode, l.operand, l.cycle)).collect();
    assert_eq!(
        seen,
        vec![
            (0, Opecode::LDA, Operand::Immediate, 2),
            (2, Opecode::STA, Operand::Absolute, 4),
            (5, Opecode::NOP, Operand::Implied, 2),
            (6, Opecode::JMP, Operand::Absolute, 3),
        ]
    );
    assert!(debug_program(&vec![]).is_empty());
}
