//! A dump of bytes in lines, each byte beside a printable character.

use vstd::prelude::*;

verus! {

/// The number of bytes in a line unless another is asked for.
pub const LINE_LENGTH: usize = 8;

/// Bytes to be shown `line_length` to a line.
pub struct ShowableBinary<'a> {
    line_length: usize,
    binary: &'a [u8],
}

pub fn showable<'a>(binary: &'a [u8]) -> (r: ShowableBinary<'a>)
    ensures
        r.bytes() == binary@,
        r.width() == LINE_LENGTH,
{
    ShowableBinary { line_length: 8, binary }
}

pub fn showable_with<'a>(binary: &'a [u8], line_length: usize) -> (r: ShowableBinary<'a>)
    ensures
        r.bytes() == binary@,
        r.width() == line_length,
{
    ShowableBinary { line_length, binary }
}

/// The character that stands for a byte: `_` for zero, the byte's own
/// character where that is printable and no space, `?` otherwise.
pub open spec fn glyph_of(d: u8) -> char {
    if d == 0 {
        '_'
    } else if 0x21 <= d <= 0x7E {
        d as char
    } else {
        '?'
    }
}

/// The character that stands for a byte.
pub fn glyph(d: u8) -> (r: char)
    ensures
        r == glyph_of(d),
{
    if d == 0 {
        '_'
    } else if 0x21 <= d && d <= 0x7E {
        d as char
    } else {
        '?'
    }
}

impl<'a> ShowableBinary<'a> {
    /// The bytes to be shown.
    pub closed spec fn bytes(&self) -> Seq<u8> {
        self.binary@
    }

    /// The number of bytes in a line.
    pub closed spec fn width(&self) -> usize {
        self.line_length
    }

    /// The number of lines that the bytes fill: the last one may be short.
    pub open spec fn line_count(&self) -> int {
        (self.bytes().len() + self.width() - 1) / (self.width() as int)
    }

    /// Line `k` of the dump.
    pub open spec fn line(&self, k: int) -> Seq<u8> {
        self.bytes().subrange(
            k * self.width(),
            if (k + 1) * self.width() <= self.bytes().len() {
                (k + 1) * self.width()
            } else {
                self.bytes().len() as int
            },
        )
    }

    /// The bytes cut into lines.
    pub fn lines(&self) -> (r: Vec<&'a [u8]>)
        requires
            self.width() > 0,
        ensures
            r@.len() == self.line_count(),
            forall|k: int| 0 <= k < r@.len() ==> (#[trigger] r@[k])@ == self.line(k),
    {
        let binary = self.binary;
        let width = self.line_length;
        let mut lines: Vec<&'a [u8]> = Vec::new();
        let mut i: usize = 0;
        let length = binary.len();
        assert(lines@.len() * width == 0) by (nonlinear_arith)
            requires
                lines@.len() == 0,
        ;
        proof {
            if length == 0 {
                assert((0 + width - 1) / (width as int) == 0) by (nonlinear_arith)
                    requires
                        width > 0,
                ;
            }
        }
        while i < binary.len()
            invariant
                binary@ == self.bytes(),
                width == self.width(),
                width > 0,
                i <= binary@.len(),
                binary@.len() <= usize::MAX,
                i < binary@.len() ==> i == lines@.len() * width,
                i == binary@.len() ==> lines@.len() == self.line_count(),
                forall|k: int| 0 <= k < lines@.len() ==> (#[trigger] lines@[k])@ == self.line(k),
            decreases binary@.len() - i,
        {
            let from = i;
            let to = if width <= binary.len() - from {
                from + width
            } else {
                binary.len()
            };
            let ghost k = lines@.len() as int;
            assert((k + 1) * width == from + width) by (nonlinear_arith)
                requires
                    from == k * width,
            ;
            lines.push(vstd::slice::slice_subrange(binary, from, to));
            proof {
                if to == binary@.len() {
                    lemma_last_line(binary@.len() as int, width as int, k);
                }
            }
            i = to;
        }
        lines
    }

    /// The characters that stand for the bytes of a line.
    pub fn glyphs(line: &[u8]) -> (r: Vec<char>)
        ensures
            r@.len() == line@.len(),
            forall|i: int| 0 <= i < line@.len() ==> #[trigger] r@[i] == glyph_of(line@[i]),
    {
        let mut r: Vec<char> = Vec::new();
        let mut i: usize = 0;
        while i < line.len()
            invariant
                i <= line@.len(),
                r@.len() == i,
                forall|k: int| 0 <= k < i ==> #[trigger] r@[k] == glyph_of(line@[k]),
            decreases line@.len() - i,
        {
            r.push(glyph(line[i]));
            i += 1;
        }
        r
    }
}

/// The line that ends with the last byte is the last line.
proof fn lemma_last_line(len: int, width: int, k: int)
    requires
        width > 0,
        k >= 0,
        k * width < len <= (k + 1) * width,
    ensures
        (len + width - 1) / width == k + 1,
{
    assert((len + width - 1) / width == k + 1) by (nonlinear_arith)
        requires
            width > 0,
            k >= 0,
            k * width < len <= (k + 1) * width,
    ;
}

} // verus!
