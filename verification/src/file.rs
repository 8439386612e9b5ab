//! The cartridge file format: a 16-byte header, then program memory in
//! banks of 16 KiB, then pattern data in banks of 8 KiB.

use vstd::prelude::*;
use crate::console::Game;

verus! {

/// The length of the header.
pub const HEADER_LEN: usize = 0x10;

/// The length of one bank of program memory.
pub const PRG_BANK_LEN: usize = 0x4000;

/// The length of one bank of pattern data.
pub const CHR_BANK_LEN: usize = 0x2000;

/// Why a cartridge file is not accepted.
#[derive(Clone, Copy, Debug, PartialEq, Eq, Structural)]
pub enum InesError {
    /// The file ends before its header does, or before the banks that its
    /// header announces.
    Truncated,
    /// The file does not start with the four bytes `4E 45 53 1A`.
    InvalidHeader,
    /// Byte 6 of the header is not 1.
    UnsupportedFlag6,
    /// Byte 7 of the header is not 0.
    UnsupportedFlag7,
    /// Byte 8 of the header announces cartridge memory.
    PrgRam,
    /// Byte 9 of the header announces another video standard.
    PalVideo,
    /// Byte 10 of the header is not 0.
    UnsupportedFlag10,
    /// The header announces more than two banks of program memory.
    RomMapping,
    /// The header announces more than one bank of pattern data.
    CharacterRomTooLarge,
}

/// The number of bytes of program memory that the header of `file`
/// announces.
pub open spec fn program_len(file: Seq<u8>) -> int {
    PRG_BANK_LEN * file[4]
}

/// The number of bytes of pattern data that the header of `file`
/// announces.
pub open spec fn character_len(file: Seq<u8>) -> int {
    CHR_BANK_LEN * file[5]
}

/// The first reason not to accept `file`, if there is one. The checks are
/// made in this order.
pub open spec fn rejection(file: Seq<u8>) -> Option<InesError> {
    if file.len() < HEADER_LEN {
        Some(InesError::Truncated)
    } else if !(file[0] == 0x4e && file[1] == 0x45 && file[2] == 0x53 && file[3] == 0x1a) {
        Some(InesError::InvalidHeader)
    } else if file[6] != 1 {
        Some(InesError::UnsupportedFlag6)
    } else if file[7] != 0 {
        Some(InesError::UnsupportedFlag7)
    } else if file[8] != 0 {
        Some(InesError::PrgRam)
    } else if file[9] != 0 {
        Some(InesError::PalVideo)
    } else if file[10] != 0 {
        Some(InesError::UnsupportedFlag10)
    } else if file[4] > 2 {
        Some(InesError::RomMapping)
    } else if file[5] > 1 {
        Some(InesError::CharacterRomTooLarge)
    } else if file.len() < HEADER_LEN + program_len(file) + character_len(file) {
        Some(InesError::Truncated)
    } else {
        None
    }
}

/// A memory of `size` bytes that holds the `len` bytes of `file` from
/// `start`, followed by zeros.
pub open spec fn rom_image(file: Seq<u8>, start: int, len: int, size: nat) -> Seq<u8> {
    Seq::new(
        size,
        |i: int|
            if i < len {
                file[start + i]
            } else {
                0u8
            },
    )
}

/// Copy the `len` bytes of `file` from `start` to the front of `rom`.
fn copy_bank<const N: usize>(rom: &mut [u8; N], file: &[u8], start: usize, len: usize)
    requires
        len <= N,
        start + len <= file@.len(),
        forall|i: int| 0 <= i < N ==> old(rom)@[i] == 0,
    ensures
        final(rom)@ == rom_image(file@, start as int, len as int, N as nat),
{
    let end: usize = file.len();
    let mut i: usize = 0;
    while i < len
        invariant
            i <= len <= N,
            start + len <= end,
            end == file@.len(),
            forall|j: int| 0 <= j < i ==> rom@[j] == file@[start + j],
            forall|j: int| i <= j < N ==> rom@[j] == 0,
        decreases len - i,
    {
        rom[i] = file[start + i];
        i = i + 1;
    }
    assert(rom@ =~= rom_image(file@, start as int, len as int, N as nat));
}

/// Read a cartridge from the bytes of its file. The file is accepted when
/// no check of `rejection` fails; program memory and pattern data are then
/// the bytes of the file, each followed by zeros up to its fixed size.
pub fn parse_ines(file: &[u8]) -> (result: Result<Game, InesError>)
    ensures
        match result {
            Ok(game) => {
                &&& rejection(file@) is None
                &&& game.program_rom@ == rom_image(
                    file@,
                    HEADER_LEN as int,
                    program_len(file@),
                    0x8000,
                )
                &&& game.character_rom@ == rom_image(
                    file@,
                    HEADER_LEN + program_len(file@),
                    character_len(file@),
                    0x2000,
                )
            },
            Err(error) => rejection(file@) == Some(error),
        },
{
    if file.len() < HEADER_LEN {
        return Err(InesError::Truncated);
    }
    // decode the header (the first 16 bytes)
    if !(file[0] == 0x4e && file[1] == 0x45 && file[2] == 0x53 && file[3] == 0x1a) {
        return Err(InesError::InvalidHeader);
    }
    let prg_size = file[4];
    let chr_size = file[5];
    // bytes 11 to 15 are unused
    if file[6] != 1 {
        return Err(InesError::UnsupportedFlag6);
    }
    if file[7] != 0 {
        return Err(InesError::UnsupportedFlag7);
    }
    if file[8] != 0 {
        return Err(InesError::PrgRam);
    }
    if file[9] != 0 {
        return Err(InesError::PalVideo);
    }
    if file[10] != 0 {
        return Err(InesError::UnsupportedFlag10);
    }
    if prg_size > 2 {
        return Err(InesError::RomMapping);
    }
    if chr_size > 1 {
        return Err(InesError::CharacterRomTooLarge);
    }
    let prg_len: usize = PRG_BANK_LEN * (prg_size as usize);
    let chr_len: usize = CHR_BANK_LEN * (chr_size as usize);
    if file.len() < HEADER_LEN + prg_len + chr_len {
        return Err(InesError::Truncated);
    }
    let mut program_rom = [0u8;0x8000];
    copy_bank(&mut program_rom, file, HEADER_LEN, prg_len);
    let mut character_rom = [0u8;0x2000];
    copy_bank(&mut character_rom, file, HEADER_LEN + prg_len, chr_len);
    Ok(Game { program_rom, character_rom })
}

} // verus!
