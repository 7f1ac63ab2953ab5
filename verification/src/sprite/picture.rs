//! Pictures of tiles in shades of grey, for looking at a pattern store. A
//! picture is kept in a buffer of the image library, which also encodes it.

use super::sprite::Sprite;
use vstd::prelude::*;

verus! {

/// The width of the sheet of all tiles, in pixels.
pub const SHEET_WIDTH: usize = 512;

/// The height of the sheet of all tiles, in pixels.
pub const SHEET_HEIGHT: usize = 480;

/// The tiles in a row of the sheet.
pub const SPRITE_PER_LINE: usize = 32;

/// The side of an enlarged pixel.
pub const N: usize = 20;

/// The side of an enlarged tile, in pixels.
pub const LENGTH: usize = 160;

/// A picture of red, green and blue bytes, held in an `image::RgbImage`.
/// The buffer type cannot be declared to the verifier, because its pixel
/// parameter is bound by a trait of the image library; so the buffer is
/// kept out of sight in this struct, and `picture_bytes`, `picture_width`
/// and `picture_height` name what it holds.
#[verifier::external_body]
pub struct Picture {
    image: image::RgbImage,
}

/// The bytes of a picture: red, green and blue of each pixel, row by row
/// from the top, each row from the left.
pub uninterp spec fn picture_bytes(picture: Picture) -> Seq<u8>;

/// The width of a picture in pixels.
pub uninterp spec fn picture_width(picture: Picture) -> int;

/// The height of a picture in pixels.
pub uninterp spec fn picture_height(picture: Picture) -> int;

/// The bytes of the PNG file that encodes a picture of the given bytes and
/// size.
pub uninterp spec fn png_of(bytes: Seq<u8>, width: int, height: int) -> Seq<u8>;

/// `bytes` with the three bytes of pixel `p` replaced by a colour.
pub open spec fn with_rgb(bytes: Seq<u8>, p: int, r: u8, g: u8, b: u8) -> Seq<u8> {
    bytes.update(3 * p, r).update(3 * p + 1, g).update(3 * p + 2, b)
}

/// image's `ImageBuffer::new` for pixels of three bytes. The library panics
/// where the number of bytes does not fit a machine word, so the contract
/// asks that it fits. It claims the given size, three bytes for each pixel,
/// and that every byte is zero.
#[verifier::external_body]
fn picture_new(width: u32, height: u32) -> (picture: Picture)
    requires
        3 * width * height <= usize::MAX,
    ensures
        picture_width(picture) == width,
        picture_height(picture) == height,
        picture_bytes(picture).len() == 3 * width * height,
        forall|k: int| 0 <= k < 3 * width * height ==> #[trigger] picture_bytes(picture)[k] == 0,
{
    Picture { image: image::ImageBuffer::new(width, height) }
}

/// image's `ImageBuffer::put_pixel` with the pixel `Rgb([r, g, b])`. The
/// library panics unless the pixel lies inside the picture, so the contract
/// asks for that. It claims that the three bytes of pixel `y * width + x`
/// become the three given channels and that nothing else changes.
#[verifier::external_body]
fn picture_put(picture: &mut Picture, x: u32, y: u32, r: u8, g: u8, b: u8)
    requires
        x < picture_width(*old(picture)),
        y < picture_height(*old(picture)),
    ensures
        picture_width(*final(picture)) == picture_width(*old(picture)),
        picture_height(*final(picture)) == picture_height(*old(picture)),
        picture_bytes(*final(picture)) == with_rgb(
            picture_bytes(*old(picture)),
            y * picture_width(*old(picture)) + x,
            r,
            g,
            b,
        ),
{
    picture.image.put_pixel(x, y, image::Rgb([r, g, b]))
}

/// image's `ImageBuffer::write_to` with the PNG format and a buffer in
/// memory as the writer. The contract claims that what is handed out is
/// the encoding of the picture's bytes and size, and that a picture of
/// some width and some height is encoded: the encoder refuses a picture
/// without pixels and a buffer of the wrong length, which no picture has,
/// and the writer in memory refuses nothing.
#[verifier::external_body]
fn picture_png(picture: &Picture) -> (r: Option<Vec<u8>>)
    ensures
        picture_width(*picture) > 0 && picture_height(*picture) > 0 ==> r is Some,
        r matches Some(file) ==> file@ == png_of(
            picture_bytes(*picture),
            picture_width(*picture),
            picture_height(*picture),
        ),
{
    let mut file = std::io::Cursor::new(Vec::new());
    match picture.image.write_to(&mut file, image::ImageOutputFormat::Png) {
        Ok(()) => Some(file.into_inner()),
        Err(_) => None,
    }
}

impl View for Picture {
    type V = Seq<u8>;

    /// The bytes of the picture: three for each pixel, row by row.
    closed spec fn view(&self) -> Seq<u8> {
        picture_bytes(*self)
    }
}

impl Picture {
    /// The width in pixels.
    pub closed spec fn width(&self) -> int {
        picture_width(*self)
    }

    /// The height in pixels.
    pub closed spec fn height(&self) -> int {
        picture_height(*self)
    }

    /// The picture as the bytes of a PNG file. A picture that has pixels is
    /// always encoded.
    pub fn png(&self) -> (r: Option<Vec<u8>>)
        ensures
            self.width() > 0 && self.height() > 0 ==> r is Some,
            r matches Some(file) ==> file@ == png_of(self@, self.width(), self.height()),
    {
        picture_png(self)
    }
}

/// The shade of grey of a colour index: black for 0, middle grey for 1,
/// white for any other.
pub open spec fn shade_of(index: u8) -> u8 {
    if index == 0 {
        0
    } else if index == 1 {
        127
    } else {
        255
    }
}

/// The shade of grey of a colour index.
pub fn shade(index: u8) -> (r: u8)
    ensures
        r == shade_of(index),
{
    if index == 0 {
        0
    } else if index == 1 {
        127
    } else {
        255
    }
}

/// The shade of the pixel on column `x` of row `y` of the sheet of `sprites`:
/// tile `i` stands on column `i % 32` of row `i / 32` of a grid of cells of
/// eight by eight pixels, and what no tile covers is black. Tiles for
/// which the sheet has no room are left out.
pub open spec fn sheet_shade(sprites: Seq<Sprite>, x: int, y: int) -> u8 {
    let i = (y / 8) * 32 + x / 8;
    if x < 256 && i < sprites.len() {
        shade_of(sprites[i].at(y % 8, x % 8))
    } else {
        0
    }
}

/// The bytes of the sheet of `sprites`, of which the first `n` pixels are
/// painted and the others black.
pub open spec fn sheet_upto(sprites: Seq<Sprite>, n: int) -> Seq<u8> {
    Seq::new(
        3 * 512 * 480,
        |k: int|
            if k / 3 < n {
                sheet_shade(sprites, (k / 3) % 512, (k / 3) / 512)
            } else {
                0u8
            },
    )
}

/// The bytes of the sheet of `sprites`: 512 by 480 pixels, each one grey.
pub open spec fn sheet_of(sprites: Seq<Sprite>) -> Seq<u8> {
    sheet_upto(sprites, 245760)
}

/// The sheet of all tiles.
pub fn debug_sprite(sprites: &Vec<Sprite>) -> (r: Picture)
    ensures
        r.width() == SHEET_WIDTH,
        r.height() == SHEET_HEIGHT,
        r@ == sheet_of(sprites@),
{
    let mut image = picture_new(512, 480);
    assert(picture_bytes(image) =~= sheet_upto(sprites@, 0));
    let mut y: usize = 0;
    while y < SHEET_HEIGHT
        invariant
            y <= 480,
            picture_width(image) == 512,
            picture_height(image) == 480,
            picture_bytes(image) == sheet_upto(sprites@, y * 512),
        decreases 480 - y,
    {
        let mut x: usize = 0;
        while x < SHEET_WIDTH
            invariant
                y < 480,
                x <= 512,
                picture_width(image) == 512,
                picture_height(image) == 480,
                picture_bytes(image) == sheet_upto(sprites@, y * 512 + x),
            decreases 512 - x,
        {
            let i = (y / 8) * SPRITE_PER_LINE + x / 8;
            let ghost n = y * 512 + x;
            if x < 256 && i < sprites.len() {
                let bits = sprites[i].bits();
                assert(bits[(y % 8) as int][(x % 8) as int] == sprites@[i as int].at(
                    (y % 8) as int,
                    (x % 8) as int,
                ));
                let c = shade(bits[y % 8][x % 8]);
                picture_put(&mut image, x as u32, y as u32, c, c, c);
                assert(picture_bytes(image) =~= sheet_upto(sprites@, n + 1)) by {
                    lemma_pixel(x as int, y as int, 512);
                }
            } else {
                assert(picture_bytes(image) =~= sheet_upto(sprites@, n + 1)) by {
                    lemma_pixel(x as int, y as int, 512);
                }
            }
            x += 1;
        }
        y += 1;
    }
    image
}

/// The pixel on column `x` of row `y` of a picture `width` wide is pixel
/// `y * width + x`, counted row by row, and its bytes are the three from
/// three times that number on.
proof fn lemma_pixel(x: int, y: int, width: int)
    requires
        0 <= x < width,
        0 <= y,
    ensures
        (y * width + x) % width == x,
        (y * width + x) / width == y,
        forall|k: int|
            0 <= k ==> (#[trigger] (k / 3) == y * width + x <==> 3 * (y * width + x) <= k < 3 * (y
                * width + x) + 3),
{
    vstd::arithmetic::div_mod::lemma_fundamental_div_mod_converse(y * width + x, width, y, x);
}

/// The shade of the pixel on column `x` of row `y` of the enlarged picture
/// of a tile: each pixel of the tile fills a square of twenty by twenty.
pub open spec fn enlarged_shade(sprite: Sprite, x: int, y: int) -> u8 {
    shade_of(sprite.at(y / 20, x / 20))
}

/// The bytes of the enlarged picture of a tile, of which the first `n`
/// pixels are painted and the others black.
pub open spec fn enlarged_upto(sprite: Sprite, n: int) -> Seq<u8> {
    Seq::new(
        3 * 160 * 160,
        |k: int|
            if k / 3 < n {
                enlarged_shade(sprite, (k / 3) % 160, (k / 3) / 160)
            } else {
                0u8
            },
    )
}

/// The bytes of the enlarged picture of a tile: 160 by 160 pixels, each
/// one grey.
pub open spec fn enlarged_of(sprite: Sprite) -> Seq<u8> {
    enlarged_upto(sprite, 25600)
}

/// The enlarged picture of one tile.
pub fn enlarged(sprite: &Sprite) -> (r: Picture)
    ensures
        r.width() == LENGTH,
        r.height() == LENGTH,
        r@ == enlarged_of(*sprite),
{
    let bits = sprite.bits();
    let mut image = picture_new(160, 160);
    assert(picture_bytes(image) =~= enlarged_upto(*sprite, 0));
    let mut y: usize = 0;
    while y < LENGTH
        invariant
            y <= 160,
            picture_width(image) == 160,
            picture_height(image) == 160,
            forall|row: int, column: int|
                0 <= row < 8 && 0 <= column < 8 ==> #[trigger] bits[row][column] == sprite.at(
                    row,
                    column,
                ),
            picture_bytes(image) == enlarged_upto(*sprite, y * 160),
        decreases 160 - y,
    {
        let mut x: usize = 0;
        while x < LENGTH
            invariant
                y < 160,
                x <= 160,
                picture_width(image) == 160,
                picture_height(image) == 160,
                forall|row: int, column: int|
                    0 <= row < 8 && 0 <= column < 8 ==> #[trigger] bits[row][column]
                        == sprite.at(row, column),
                picture_bytes(image) == enlarged_upto(*sprite, y * 160 + x),
            decreases 160 - x,
        {
            let ghost n = y * 160 + x;
            assert(bits[(y / 20) as int][(x / 20) as int] == sprite.at(
                (y / 20) as int,
                (x / 20) as int,
            ));
            let c = shade(bits[y / N][x / N]);
            picture_put(&mut image, x as u32, y as u32, c, c, c);
            assert(picture_bytes(image) =~= enlarged_upto(*sprite, n + 1)) by {
                lemma_pixel(x as int, y as int, 160);
            }
            x += 1;
        }
        y += 1;
    }
    image
}

/// The enlarged pictures of all tiles, in their order.
pub fn create(sprites: &Vec<Sprite>) -> (r: Vec<Picture>)
    ensures
        r@.len() == sprites@.len(),
        forall|i: int|
            0 <= i < sprites@.len() ==> {
                &&& (#[trigger] r@[i])@ == enlarged_of(sprites@[i])
                &&& r@[i].width() == LENGTH
                &&& r@[i].height() == LENGTH
            },
{
    let mut r: Vec<Picture> = Vec::new();
    let mut i: usize = 0;
    while i < sprites.len()
        invariant
            i <= sprites@.len(),
            r@.len() == i,
            forall|k: int|
                0 <= k < i ==> {
                    &&& (#[trigger] r@[k])@ == enlarged_of(sprites@[k])
                    &&& r@[k].width() == LENGTH
                    &&& r@[k].height() == LENGTH
                },
        decreases sprites@.len() - i,
    {
        r.push(enlarged(&sprites[i]));
        i += 1;
    }
    r
}

} // verus!
