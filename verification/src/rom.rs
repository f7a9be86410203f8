//! The iNES cartridge-image container: a 16-byte header followed by an
//! optional 512-byte trainer and the PRG-ROM banks.
//!
//! This module is the pure half of the ROM loader: it validates the
//! header and extracts what the core consumes from a byte image already
//! in memory. Opening and reading the file is the caller's business.

use vstd::prelude::*;

use crate::mapper::ROM_PAGE_SIZE;

verus! {

/// Nametable mirroring arrangement declared by the header. Parsed for
/// completeness; no graphics subsystem consumes it here.
#[derive(Debug, Clone, Copy, PartialEq, Eq, Structural)]
pub enum Mirroring {
    Horizontal,
    Vertical,
}

/// Why a byte image is not an acceptable iNES ROM.
#[derive(Debug, Clone, Copy, PartialEq, Eq, Structural)]
pub enum RomError {
    /// The image ends before the header, the trainer or the PRG-ROM data
    /// it declares.
    Truncated,
    /// The 4-byte magic signature is not `N`, `E`, `S`, `0x1A`.
    NotInes,
    /// The header names a mapper this core does not implement; only
    /// mapper 1 is accepted.
    UnsupportedMapper(u8),
}

/// What the loader hands the core: the PRG-ROM banks in file order, and
/// the header fields that were parsed along the way.
#[derive(Debug, PartialEq, Eq)]
pub struct RomImage {
    pub prg_rom: Vec<u8>,
    pub chr_rom_size: usize,
    pub mirroring: Mirroring,
    pub has_persistent_memory: bool,
    pub has_trainer: bool,
    pub provides_four_screen_vram: bool,
    pub mapper_number: u8,
}

/// Whether the image begins with the iNES magic signature
/// `N`, `E`, `S`, `0x1A`.
pub open spec fn magic_ok(bytes: Seq<u8>) -> bool {
    bytes.len() >= 16 && bytes[0] == 0x4Eu8 && bytes[1] == 0x45u8 && bytes[2] == 0x53u8
        && bytes[3] == 0x1Au8
}

/// The mapper number: low nibble from the upper half of header byte 6,
/// high nibble from the upper half of header byte 7.
pub open spec fn mapper_number_of(bytes: Seq<u8>) -> u8 {
    (bytes[6] >> 4) | (bytes[7] & 0xF0)
}

/// The declared PRG-ROM size in bytes: header byte 4 counts 16 KiB banks.
pub open spec fn prg_size_of(bytes: Seq<u8>) -> int {
    bytes[4] * (ROM_PAGE_SIZE as int)
}

/// The trainer size in bytes: 512 when header byte 6 declares one.
pub open spec fn trainer_size_of(bytes: Seq<u8>) -> int {
    if bytes[6] & 0x04 != 0 {
        512
    } else {
        0
    }
}

/// How many bytes the image must hold: the header, the trainer and the
/// PRG-ROM data. CHR-ROM follows but is not consumed by the core.
pub open spec fn rom_len_needed(bytes: Seq<u8>) -> int {
    16 + trainer_size_of(bytes) + prg_size_of(bytes)
}

/// Whether the image parses: the magic signature holds, the mapper
/// number is 1, and the image holds all the data the header declares.
pub open spec fn parse_ok(bytes: Seq<u8>) -> bool {
    magic_ok(bytes) && mapper_number_of(bytes) == 1 && bytes.len() >= rom_len_needed(bytes)
}

/// Parse an iNES image already in memory.
///
/// Succeeds exactly on the images `parse_ok` accepts; each failure names
/// its cause, and truncation of the header takes precedence over every
/// other check, as reading the file in order would report it.
pub fn parse_ines(bytes: &Vec<u8>) -> (r: Result<RomImage, RomError>)
    ensures
        r is Ok <==> parse_ok(bytes@),
        bytes@.len() < 16 ==> r == Err::<RomImage, RomError>(RomError::Truncated),
        bytes@.len() >= 16 && !magic_ok(bytes@) ==> r == Err::<RomImage, RomError>(
            RomError::NotInes,
        ),
        magic_ok(bytes@) && mapper_number_of(bytes@) != 1 ==> r == Err::<RomImage, RomError>(
            RomError::UnsupportedMapper(mapper_number_of(bytes@)),
        ),
        magic_ok(bytes@) && mapper_number_of(bytes@) == 1 && bytes@.len() < rom_len_needed(bytes@)
            ==> r == Err::<RomImage, RomError>(RomError::Truncated),
        r is Ok ==> ({
            let img = r->Ok_0;
            &&& img.prg_rom@ == bytes@.subrange(16 + trainer_size_of(bytes@), rom_len_needed(bytes@))
            &&& img.prg_rom@.len() == prg_size_of(bytes@)
            &&& img.prg_rom@.len() % (ROM_PAGE_SIZE as nat) == 0
            &&& img.chr_rom_size == bytes@[5] * 8192
            &&& img.mirroring == (if bytes@[6] & 0x01 != 0 {
                Mirroring::Vertical
            } else {
                Mirroring::Horizontal
            })
            &&& img.has_persistent_memory == (bytes@[6] & 0x02 != 0)
            &&& img.has_trainer == (bytes@[6] & 0x04 != 0)
            &&& img.provides_four_screen_vram == (bytes@[6] & 0x08 != 0)
            &&& img.mapper_number == mapper_number_of(bytes@)
        }),
{
    if bytes.len() < 16 {
        return Err(RomError::Truncated);
    }
    if !(bytes[0] == 0x4E && bytes[1] == 0x45 && bytes[2] == 0x53 && bytes[3] == 0x1A) {
        return Err(RomError::NotInes);
    }
    let mapper_number = (bytes[6] >> 4) | (bytes[7] & 0xF0);
    if mapper_number != 1 {
        return Err(RomError::UnsupportedMapper(mapper_number));
    }
    let prg_size = (bytes[4] as usize) * ROM_PAGE_SIZE;
    let trainer_len: usize = if bytes[6] & 0x04 != 0 {
        512
    } else {
        0
    };
    if bytes.len() < 16 + trainer_len + prg_size {
        return Err(RomError::Truncated);
    }
    let start = 16 + trainer_len;
    let mut prg_rom: Vec<u8> = Vec::new();
    let mut i: usize = 0;
    while i < prg_size
        invariant
            prg_size == prg_size_of(bytes@),
            start == 16 + trainer_size_of(bytes@),
            bytes@.len() >= start + prg_size,
            i <= prg_size,
            prg_rom@.len() == i,
            forall|k: int| 0 <= k < i ==> prg_rom@[k] == bytes@[start + k],
        decreases prg_size - i,
    {
        prg_rom.push(bytes[start + i]);
        i = i + 1;
    }
    proof {
        assert(prg_rom@ =~= bytes@.subrange(16 + trainer_size_of(bytes@), rom_len_needed(bytes@)));
        assert((bytes@[4] * (ROM_PAGE_SIZE as int)) % (ROM_PAGE_SIZE as int) == 0)
            by (nonlinear_arith);
    }
    Ok(
        RomImage {
            prg_rom,
            chr_rom_size: (bytes[5] as usize) * 8192,
            mirroring: if bytes[6] & 0x01 != 0 {
                Mirroring::Vertical
            } else {
                Mirroring::Horizontal
            },
            has_persistent_memory: bytes[6] & 0x02 != 0,
            has_trainer: bytes[6] & 0x04 != 0,
            provides_four_screen_vram: bytes[6] & 0x08 != 0,
            mapper_number,
        },
    )
}

} // verus!
