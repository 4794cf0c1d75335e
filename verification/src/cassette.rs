//! Cartridge images in the iNES container format.
//!
//! A 16-byte header (magic "NES\x1A", program-ROM unit count, character-ROM
//! unit count, mirroring and mapper bits) is followed by the program ROM and
//! then the character ROM. Parsing takes the raw bytes; reading the file is
//! the host's job.

use vstd::prelude::*;

verus! {

pub const PROG_ROM_UNIT_SIZE: usize = 0x4000;
pub const CHAR_ROM_UNIT_SIZE: usize = 0x2000;
pub const NES_HSIZE: usize = 0x0010;

/// Why a byte image was rejected as a cartridge.
#[derive(Debug, Clone, Copy, PartialEq, Eq, Structural)]
pub enum CassetteError {
    /// Shorter than the header, or than the ROM sizes the header declares.
    TooShort,
    /// The four magic bytes are not "NES\x1A".
    BadMagic,
}

/// The image begins with the four magic bytes 'N', 'E', 'S', 0x1A.
pub open spec fn ines_magic_ok(b: Seq<u8>) -> bool {
    b.len() >= 4 && b[0] == 0x4Eu8 && b[1] == 0x45u8 && b[2] == 0x53u8 && b[3] == 0x1Au8
}

/// Program-ROM byte count declared by header byte 4 (16-KiB units).
pub open spec fn ines_prog_size(b: Seq<u8>) -> int {
    b[4] * 0x4000
}

/// Character-ROM byte count declared by header byte 5 (8-KiB units).
pub open spec fn ines_char_size(b: Seq<u8>) -> int {
    b[5] * 0x2000
}

/// The image is long enough for the header plus both declared ROMs.
pub open spec fn ines_len_ok(b: Seq<u8>) -> bool {
    b.len() >= 16 + ines_prog_size(b) + ines_char_size(b)
}

/// A parsed cartridge: immutable after load.
pub struct Cassette {
    pub prog_size: usize,
    pub char_size: usize,
    pub prog_rom: Vec<u8>,
    pub char_rom: Vec<u8>,
    pub mapper: u8,
    pub is_horizontal_mirror: bool,
}

impl Cassette {
    /// The stored sizes agree with the ROM vectors.
    pub open spec fn wf(&self) -> bool {
        &&& self.prog_rom@.len() == self.prog_size
        &&& self.char_rom@.len() == self.char_size
    }

    /// What `from_ines` yields on a well-formed image `b`.
    pub open spec fn parsed_from(&self, b: Seq<u8>) -> bool {
        &&& self.prog_size == ines_prog_size(b)
        &&& self.char_size == ines_char_size(b)
        &&& self.prog_rom@ == b.subrange(16, 16 + ines_prog_size(b))
        &&& self.char_rom@ == b.subrange(
            16 + ines_prog_size(b),
            16 + ines_prog_size(b) + ines_char_size(b),
        )
        &&& self.is_horizontal_mirror == (b[6] & 0x01 == 0)
        &&& self.mapper == ((b[6] >> 4) | (b[7] & 0xF0u8))
    }

    /// Parses an iNES image. Succeeds exactly when the magic bytes match and
    /// the image is long enough for the ROM sizes its header declares.
    pub fn from_ines(bytes: &Vec<u8>) -> (r: Result<Cassette, CassetteError>)
        ensures
            r is Ok <==> ines_magic_ok(bytes@) && bytes@.len() >= 16 && ines_len_ok(bytes@),
            r matches Ok(c) ==> c.wf() && c.parsed_from(bytes@),
            r == Err::<Cassette, CassetteError>(CassetteError::TooShort) <==> (
                bytes@.len() < 16 && (bytes@.len() < 4 || ines_magic_ok(bytes@))
                || ines_magic_ok(bytes@) && bytes@.len() >= 16 && !ines_len_ok(bytes@)
            ),
            r == Err::<Cassette, CassetteError>(CassetteError::BadMagic) <==> (
                bytes@.len() >= 4 && !ines_magic_ok(bytes@)
            ),
    {
        if bytes.len() >= 4 {
            let m0 = bytes[0];
            let m1 = bytes[1];
            let m2 = bytes[2];
            let m3 = bytes[3];
            if !(m0 == 0x4E && m1 == 0x45 && m2 == 0x53 && m3 == 0x1A) {
                return Err(CassetteError::BadMagic);
            }
        }
        if bytes.len() < 16 {
            return Err(CassetteError::TooShort);
        }
        let prog_units = bytes[4];
        let char_units = bytes[5];
        let prog_size: usize = (prog_units as usize) * PROG_ROM_UNIT_SIZE;
        let char_size: usize = (char_units as usize) * CHAR_ROM_UNIT_SIZE;
        if bytes.len() < 16 + prog_size || bytes.len() - 16 - prog_size < char_size {
            return Err(CassetteError::TooShort);
        }
        let prog_rom = copy_range(bytes, 16, prog_size);
        let char_rom = copy_range(bytes, 16 + prog_size, char_size);
        let flags6 = bytes[6];
        let flags7 = bytes[7];
        Ok(Cassette {
            prog_size,
            char_size,
            prog_rom,
            char_rom,
            mapper: (flags6 >> 4) | (flags7 & 0xF0),
            is_horizontal_mirror: flags6 & 0x01 == 0,
        })
    }

    /// The program-ROM byte at `addr`.
    pub fn prog_rom_read(&self, addr: u16) -> (r: u8)
        requires
            self.wf(),
            addr < self.prog_size,
        ensures
            r == self.prog_rom@[addr as int],
    {
        self.prog_rom[addr as usize]
    }

    /// The character-ROM byte at `addr`.
    pub fn char_rom_read(&self, addr: u16) -> (r: u8)
        requires
            self.wf(),
            addr < self.char_size,
        ensures
            r == self.char_rom@[addr as int],
    {
        self.char_rom[addr as usize]
    }
}

/// Copies `len` bytes of `src` starting at `start` into a fresh vector.
fn copy_range(src: &Vec<u8>, start: usize, len: usize) -> (r: Vec<u8>)
    requires
        start + len <= src@.len(),
    ensures
        r@ == src@.subrange(start as int, start as int + len as int),
{
    let src_len: usize = src.len();
    let mut r: Vec<u8> = Vec::new();
    let mut i: usize = 0;
    while i < len
        invariant
            i <= len,
            start + len <= src_len,
            src_len == src@.len(),
            r@ == src@.subrange(start as int, start as int + i as int),
        decreases len - i,
    {
        r.push(src[start + i]);
        i = i + 1;
        proof {
            assert(r@ =~= src@.subrange(start as int, start as int + i as int));
        }
    }
    r
}

} // verus!
