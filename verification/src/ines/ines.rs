//! A cartridge file: its header, its program and its patterns.

use super::header::opens_with_header;
use super::header::FormatError;
use super::header::INesHeader;
use super::SpriteROM;
use crate::sprite::sprite::decoded;
use vstd::prelude::*;

verus! {

/// A cartridge file whose header has been read. The file may be shorter
/// than the payloads that its header announces; whoever asks for a payload
/// makes sure that the file holds it.
#[derive(Debug)]
pub struct INes<'a> {
    raw: &'a [u8],
    header: INesHeader,
}

impl<'a> INes<'a> {
    /// The bytes of the file.
    pub closed spec fn bytes(&self) -> Seq<u8> {
        self.raw@
    }

    /// The file's header.
    pub closed spec fn head(&self) -> INesHeader {
        self.header
    }

    /// The file's header.
    pub fn header(&self) -> (r: &INesHeader)
        ensures
            *r == self.head(),
            r.heads(self.bytes()),
    {
        proof {
            use_type_invariant(self);
        }
        &self.header
    }

    #[verifier::type_invariant]
    spec fn headed(&self) -> bool {
        self.header.heads(self.raw@)
    }

    /// Reads a cartridge file. It is accepted exactly when it opens with a
    /// header; the value then refers to the whole file.
    pub fn parse(raw: &'a [u8]) -> (r: Result<INes<'a>, FormatError>)
        ensures
            match r {
                Ok(ines) => {
                    &&& opens_with_header(raw@)
                    &&& ines.bytes() == raw@
                    &&& ines.head().heads(raw@)
                },
                Err(error) => error == FormatError::NotINes && !opens_with_header(raw@),
            },
    {
        let header = match INesHeader::parser(raw) {
            Ok(header) => header,
            Err(error) => {
                return Err(error);
            },
        };
        Ok(INes { header, raw })
    }

    /// The bytes of the file.
    pub fn raw(&self) -> (r: &'a [u8])
        ensures
            r@ == self.bytes(),
    {
        self.raw
    }

    /// Whether the file holds the whole program payload.
    pub fn has_program(&self) -> (r: bool)
        ensures
            r == (self.head().program_end() <= self.bytes().len()),
    {
        self.header.program_rom_range().end <= self.raw.len()
    }

    /// Whether the file holds the program and the whole pattern payload.
    pub fn has_sprites(&self) -> (r: bool)
        ensures
            r == (self.head().character_end() <= self.bytes().len()),
    {
        self.header.character_rom_range().end <= self.raw.len()
    }

    /// The program payload: the bytes after the header, as many as the
    /// header announces.
    pub fn program(&self) -> (r: &[u8])
        requires
            self.head().program_end() <= self.bytes().len(),
        ensures
            r@ == self.bytes().subrange(16, self.head().program_end()),
    {
        let range = self.header.program_rom_range();
        vstd::slice::slice_subrange(self.raw, range.start, range.end)
    }

    /// The pattern payload, decoded into tiles.
    pub fn sprites(&self) -> (r: SpriteROM)
        requires
            self.head().character_end() <= self.bytes().len(),
        ensures
            r.wf(),
            r@.len() == self.head().character_rom_unit_count * 512,
            forall|i: int, row: int, column: int|
                0 <= i < r@.len() && 0 <= row < 8 && 0 <= column < 8 ==> #[trigger] r@[i].at(
                    row,
                    column,
                ) == decoded(
                    self.bytes().subrange(
                        self.head().program_end() + 16 * i,
                        self.head().program_end() + 16 * i + 16,
                    ),
                    row,
                    column,
                ),
    {
        let range = self.header.character_rom_range();
        let raw = vstd::slice::slice_subrange(self.raw, range.start, range.end);
        let r = SpriteROM::new(raw);
        proof {
            let from = self.header.program_end();
            assert forall|i: int, row: int, column: int|
                0 <= i < r@.len() && 0 <= row < 8 && 0 <= column < 8 implies #[trigger] r@[i].at(
                row,
                column,
            ) == decoded(self.raw@.subrange(from + 16 * i, from + 16 * i + 16), row, column) by {
                assert(raw@.subrange(16 * i, 16 * i + 16) =~= self.raw@.subrange(
                    from + 16 * i,
                    from + 16 * i + 16,
                ));
            }
        }
        r
    }
}

} // verus!
