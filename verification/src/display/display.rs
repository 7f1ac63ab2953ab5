//! A frame of 256 by 240 pixels, kept in an image of the graphics library so
//! that a window can show it without a copy.

use crate::ppu::Color;
use crate::ppu::Palette;
use crate::sprite::Sprite;
use macroquad::texture::Image;
use vstd::prelude::*;

verus! {

/// The width of the frame in pixels.
pub const W: usize = 256;

/// The height of the frame in pixels.
pub const H: usize = 240;

/// The number of bytes of a frame: four for each pixel.
pub const FRAME_BYTES: usize = 245760;

#[verifier::external_type_specification]
#[verifier::external_body]
pub struct ExImage(macroquad::texture::Image);

/// The bytes of an image: red, green, blue and opacity of each pixel, row by
/// row from the top, each row from the left.
pub uninterp spec fn image_bytes(image: Image) -> Seq<u8>;

/// The width of an image in pixels.
pub uninterp spec fn image_width(image: Image) -> int;

/// The height of an image in pixels.
pub uninterp spec fn image_height(image: Image) -> int;

/// The opacity of a pixel that hides what is behind it.
pub const OPAQUE: u8 = 255;

/// `bytes` with the four bytes of pixel `p` replaced by a colour and its
/// opacity.
pub open spec fn with_pixel(bytes: Seq<u8>, p: int, r: u8, g: u8, b: u8, a: u8) -> Seq<u8> {
    bytes.update(4 * p, r).update(4 * p + 1, g).update(4 * p + 2, b).update(4 * p + 3, a)
}

/// macroquad's `Image::gen_image_color`, with the colour made by
/// `Color::from_rgba`. The contract claims that the image has the given
/// size and four bytes for each pixel, and that every pixel holds the four
/// given channels. The library stores a channel as `(c / 255.0) * 255.0`
/// cut to a byte, which gives back `c` for every byte.
#[verifier::external_body]
fn image_filled(width: u16, height: u16, r: u8, g: u8, b: u8, a: u8) -> (image: Image)
    requires
        width * height * 4 <= usize::MAX,
    ensures
        image_width(image) == width,
        image_height(image) == height,
        image_bytes(image).len() == width * height * 4,
        forall|p: int|
            0 <= p < width * height ==> {
                &&& #[trigger] image_bytes(image)[4 * p] == r
                &&& image_bytes(image)[4 * p + 1] == g
                &&& image_bytes(image)[4 * p + 2] == b
                &&& image_bytes(image)[4 * p + 3] == a
            },
{
    Image::gen_image_color(width, height, macroquad::color::Color::from_rgba(r, g, b, a))
}

/// macroquad's `Image::set_pixel`, with the colour made by
/// `Color::from_rgba`. The library panics unless the pixel lies inside the
/// image and the image has four bytes for each pixel, so the contract asks
/// for both. It claims that the four bytes of pixel `y * width + x` become
/// the four given channels, and that nothing else changes. As in
/// `image_filled`, a channel passes through `(c / 255.0) * 255.0` and comes
/// out as it went in.
#[verifier::external_body]
fn image_set(image: &mut Image, x: u32, y: u32, r: u8, g: u8, b: u8, a: u8)
    requires
        0 <= image_width(*old(image)) <= u16::MAX,
        0 <= image_height(*old(image)) <= u16::MAX,
        x < image_width(*old(image)),
        y < image_height(*old(image)),
        image_bytes(*old(image)).len() == image_width(*old(image)) * image_height(*old(image))
            * 4,
    ensures
        image_width(*final(image)) == image_width(*old(image)),
        image_height(*final(image)) == image_height(*old(image)),
        image_bytes(*final(image)) == with_pixel(
            image_bytes(*old(image)),
            y * image_width(*old(image)) + x,
            r,
            g,
            b,
            a,
        ),
{
    image.set_pixel(x, y, macroquad::color::Color::from_rgba(r, g, b, a))
}

impl Palette {
    /// The colour that the colour index `index` of a tile stands for.
    pub open spec fn pick(self, index: u8) -> Color {
        if index == 0 {
            self.0
        } else if index == 1 {
            self.1
        } else if index == 2 {
            self.2
        } else {
            self.3
        }
    }
}

/// Channel `k` of the four bytes of an opaque pixel of colour `color`.
pub open spec fn channel(color: Color, k: int) -> u8 {
    if k == 0 {
        color.r
    } else if k == 1 {
        color.g
    } else if k == 2 {
        color.b
    } else {
        255
    }
}

/// The colour of the pixel on column `x` of row `y` of a frame.
pub open spec fn pixel(frame: Seq<u8>, x: int, y: int) -> Color {
    Color {
        r: frame[4 * (y * 256 + x)],
        g: frame[4 * (y * 256 + x) + 1],
        b: frame[4 * (y * 256 + x) + 2],
    }
}

/// Whether byte `k` of a frame belongs to one of the first `n` pixels of the
/// tile cell on column `x` of row `y`, the cell's pixels counted row by row.
pub open spec fn in_cell(k: int, x: int, y: int, n: int) -> bool {
    let px = (k / 4) % 256;
    let py = (k / 4) / 256;
    &&& 8 * x <= px < 8 * x + 8
    &&& 8 * y <= py < 8 * y + 8
    &&& (py - 8 * y) * 8 + (px - 8 * x) < n
}

/// `frame` with the first `n` pixels of the tile cell on column `x` of row
/// `y` painted: each gets, opaque, the colour that `palette` gives to the
/// colour index of `sprite` at its place in the cell.
pub open spec fn painted_upto(
    frame: Seq<u8>,
    x: int,
    y: int,
    sprite: Sprite,
    palette: Palette,
    n: int,
) -> Seq<u8> {
    Seq::new(
        frame.len(),
        |k: int|
            if in_cell(k, x, y, n) {
                channel(
                    palette.pick(sprite.at((k / 4) / 256 - 8 * y, (k / 4) % 256 - 8 * x)),
                    k % 4,
                )
            } else {
                frame[k]
            },
    )
}

/// `frame` with `sprite` painted through `palette` on the whole tile cell on
/// column `x` of row `y`.
pub open spec fn painted(frame: Seq<u8>, x: int, y: int, sprite: Sprite, palette: Palette) -> Seq<
    u8,
> {
    painted_upto(frame, x, y, sprite, palette, 64)
}

/// `frame` with the whole tile cell on column `x` of row `y` in one colour.
pub open spec fn flooded(frame: Seq<u8>, x: int, y: int, color: Color) -> Seq<u8> {
    Seq::new(
        frame.len(),
        |k: int|
            if in_cell(k, x, y, 64) {
                channel(color, k % 4)
            } else {
                frame[k]
            },
    )
}

pub struct Display {
    image: Image,
}

impl View for Display {
    type V = Seq<u8>;

    /// The bytes of the frame: four for each pixel, row by row.
    closed spec fn view(&self) -> Seq<u8> {
        image_bytes(self.image)
    }
}

/// A frame in which every pixel is black and opaque.
pub open spec fn black() -> Seq<u8> {
    Seq::new(
        FRAME_BYTES as nat,
        |k: int|
            if k % 4 == 3 {
                255u8
            } else {
                0u8
            },
    )
}

impl Default for Display {
    /// A black frame.
    fn default() -> (r: Self)
        ensures
            r.wf(),
            r@ == black(),
    {
        let image = image_filled(256, 240, 0, 0, 0, OPAQUE);
        let r = Display { image };
        assert forall|k: int| 0 <= k < 245760 implies #[trigger] r@[k] == black()[k] by {
            let p = k / 4;
            assert(0 <= p < 256 * 240);
            assert(image_bytes(image)[4 * p] == 0);
            assert(k == 4 * p || k == 4 * p + 1 || k == 4 * p + 2 || k == 4 * p + 3);
        }
        assert(r@ =~= black());
        r
    }
}

impl Display {
    /// Whether the image has the size of a frame.
    pub closed spec fn wf(&self) -> bool {
        &&& image_width(self.image) == 256
        &&& image_height(self.image) == 240
        &&& image_bytes(self.image).len() == 245760
    }

    /// A well-formed display has the bytes of one frame.
    pub proof fn lemma_frame_bytes(&self)
        requires
            self.wf(),
        ensures
            self@.len() == FRAME_BYTES,
    {
    }

    /// The image that holds the frame.
    pub fn image(&self) -> (r: &Image)
        ensures
            image_bytes(*r) == self@,
    {
        &self.image
    }

    /// Paints `sprite` through `palette` on the tile cell on column `x` of
    /// row `y`.
    pub fn put_image(&mut self, x: usize, y: usize, sprite: &Sprite, palette: &Palette)
        requires
            old(self).wf(),
            x < 32,
            y < 30,
            sprite.wf(),
        ensures
            final(self).wf(),
            final(self)@ == painted(old(self)@, x as int, y as int, *sprite, *palette),
    {
        let sprite_bits = sprite.bits();
        assert(self@ =~= painted_upto(old(self)@, x as int, y as int, *sprite, *palette, 0));
        let mut iy: usize = 0;
        while iy < 8
            invariant
                iy <= 8,
                x < 32,
                y < 30,
                self.wf(),
                old(self).wf(),
                forall|row: int, column: int|
                    0 <= row < 8 && 0 <= column < 8 ==> #[trigger] sprite_bits[row][column]
                        == sprite.at(row, column),
                self@ == painted_upto(
                    old(self)@,
                    x as int,
                    y as int,
                    *sprite,
                    *palette,
                    iy * 8,
                ),
            decreases 8 - iy,
        {
            let mut ix: usize = 0;
            while ix < 8
                invariant
                    iy < 8,
                    ix <= 8,
                    x < 32,
                    y < 30,
                    self.wf(),
                    old(self).wf(),
                    forall|row: int, column: int|
                        0 <= row < 8 && 0 <= column < 8 ==> #[trigger] sprite_bits[row][column]
                            == sprite.at(row, column),
                    self@ == painted_upto(
                        old(self)@,
                        x as int,
                        y as int,
                        *sprite,
                        *palette,
                        iy * 8 + ix,
                    ),
                decreases 8 - ix,
            {
                let ty = y * 8 + iy;
                let tx = x * 8 + ix;
                let index = sprite_bits[iy][ix];
                let c = if index == 0 {
                    palette.0
                } else if index == 1 {
                    palette.1
                } else if index == 2 {
                    palette.2
                } else {
                    palette.3
                };
                assert(c == palette.pick(sprite.at(iy as int, ix as int)));
                let ghost before = self@;
                image_set(&mut self.image, tx as u32, ty as u32, c.r, c.g, c.b, OPAQUE);
                proof {
                    lemma_paint_next(
                        old(self)@,
                        before,
                        x as int,
                        y as int,
                        *sprite,
                        *palette,
                        iy as int,
                        ix as int,
                    );
                }
                ix += 1;
            }
            iy += 1;
        }
    }

    /// Fills the tile cell on column `x` of row `y` with one colour.
    pub fn put_plane(&mut self, x: usize, y: usize, color: &Color)
        requires
            old(self).wf(),
            x < 32,
            y < 30,
        ensures
            final(self).wf(),
            final(self)@ == flooded(old(self)@, x as int, y as int, *color),
    {
        let blank = Sprite::debug_new([[0;8];8]);
        let palette = Palette(*color, *color, *color, *color);
        self.put_image(x, y, &blank, &palette);
        assert(self@ =~= flooded(old(self)@, x as int, y as int, *color));
    }
}

/// Painting pixel `ix` of row `iy` of a cell, after the pixels before it,
/// gives the frame with one more pixel of the cell painted.
proof fn lemma_paint_next(
    start: Seq<u8>,
    before: Seq<u8>,
    x: int,
    y: int,
    sprite: Sprite,
    palette: Palette,
    iy: int,
    ix: int,
)
    requires
        start.len() == 245760,
        0 <= x < 32,
        0 <= y < 30,
        0 <= iy < 8,
        0 <= ix < 8,
        before == painted_upto(start, x, y, sprite, palette, iy * 8 + ix),
    ensures
        with_pixel(
            before,
            (y * 8 + iy) * 256 + (x * 8 + ix),
            palette.pick(sprite.at(iy, ix)).r,
            palette.pick(sprite.at(iy, ix)).g,
            palette.pick(sprite.at(iy, ix)).b,
            OPAQUE,
        ) == painted_upto(start, x, y, sprite, palette, iy * 8 + ix + 1),
{
    let c = palette.pick(sprite.at(iy, ix));
    let p = (y * 8 + iy) * 256 + (x * 8 + ix);
    let after = with_pixel(before, p, c.r, c.g, c.b, OPAQUE);
    let goal = painted_upto(start, x, y, sprite, palette, iy * 8 + ix + 1);
    assert(0 <= p < 61440);
    assert(after.len() == goal.len());
    assert forall|k: int| 0 <= k < after.len() implies after[k] == goal[k] by {
        let q = k / 4;
        let px = q % 256;
        let py = q / 256;
        if q == p {
            assert(px == x * 8 + ix && py == y * 8 + iy);
            assert(k == 4 * p + k % 4);
        } else {
            assert(k != 4 * p && k != 4 * p + 1 && k != 4 * p + 2 && k != 4 * p + 3);
            assert(after[k] == before[k]);
            if px == x * 8 + ix && py == y * 8 + iy {
                assert(q == py * 256 + px);
            }
        }
    }
    assert(after =~= goal);
}

} // verus!
