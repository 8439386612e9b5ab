use nes_core::file::parse_ines;
use nes_core::file::InesError;

/// A file with a good header that announces `prg` and `chr` banks, followed
/// by `body` bytes counting up from 1.
fn file_with(prg: u8, chr: u8, body: usize) -> Vec<u8> {
    let mut file = vec![0x4e, 0x45, 0x53, 0x1a, prg, chr, 1, 0, 0, 0, 0, 0, 0, 0, 0, 0];
    for i in 0..body {
        file.push((i % 251) as u8 + 1);
    }
    file
}

#[test]
fn two_program_banks_and_one_pattern_bank() {
    let file = file_with(2, 1, 0x8000 + 0x2000);
    let game = parse_ines(&file).unwrap();
    assert_eq!(&game.program_rom[..], &file[0x10..0x8010]);
    assert_eq!(&game.character_rom[..], &file[0x8010..0xa010]);
}

#[test]
fn one_program_bank_is_padded_with_zeros() {
    let file = file_with(1, 1, 0x4000 + 0x2000);
    let game = parse_ines(&file).unwrap();
    assert_eq!(&game.program_rom[..0x4000], &file[0x10..0x4010]);
    assert!(game.program_rom[0x4000..].iter().all(|b| *b == 0));
    assert_eq!(&game.character_rom[..], &file[0x4010..0x6010]);
}

#[test]
fn no_pattern_bank_gives_zeroed_pattern_data() {
    let file = file_with(2, 0, 0x8000);
    let game = parse_ines(&file).unwrap();
    assert_eq!(&game.program_rom[..], &file[0x10..]);
    assert!(game.character_rom.iter().all(|b| *b == 0));
}

#[test]
fn no_banks_at_all() {
    let file = file_with(0, 0, 0);
    let game = parse_ines(&file).unwrap();
    assert!(game.program_rom.iter().all(|b| *b == 0));
    assert!(game.character_rom.iter().all(|b| *b == 0));
}

#[test]
fn bytes_after_the_banks_are_ignored() {
    let file = file_with(1, 0, 0x4000 + 5);
    let game = parse_ines(&file).unwrap();
    assert_eq!(&game.program_rom[..0x4000], &file[0x10..0x4010]);
    assert!(game.program_rom[0x4000..].iter().all(|b| *b == 0));
}

#[test]
fn short_files_are_truncated() {
    assert_eq!(parse_ines(&[]).err(), Some(InesError::Truncated));
    assert_eq!(parse_ines(&[0x4e, 0x45, 0x53]).err(), Some(InesError::Truncated));
    assert_eq!(parse_ines(&file_with(2, 1, 0)[..15]).err(), Some(InesError::Truncated));
    assert_eq!(parse_ines(&file_with(2, 1, 0x8000 + 0x1fff)).err(), Some(InesError::Truncated));
    assert_eq!(parse_ines(&file_with(1, 0, 0x3fff)).err(), Some(InesError::Truncated));
}

#[test]
fn wrong_magic_is_rejected() {
    for i in 0..4 {
        let mut file = file_with(2, 1, 0x8000 + 0x2000);
        file[i] ^= 0x01;
        assert_eq!(parse_ines(&file).err(), Some(InesError::InvalidHeader));
    }
    // the magic is checked before the flags
    let mut file = file_with(3, 2, 0);
    file[3] = 0x00;
    file[6] = 0;
    assert_eq!(parse_ines(&file).err(), Some(InesError::InvalidHeader));
}

#[test]
fn unsupported_flags_are_rejected_in_order() {
    let mut file = file_with(3, 2, 0);
    file[6] = 0;
    file[7] = 1;
    file[8] = 1;
    file[9] = 1;
    file[10] = 1;
    assert_eq!(parse_ines(&file).err(), Some(InesError::UnsupportedFlag6));
    file[6] = 1;
    assert_eq!(parse_ines(&file).err(), Some(InesError::UnsupportedFlag7));
    file[7] = 0;
    assert_eq!(parse_ines(&file).err(), Some(InesError::PrgRam));
    file[8] = 0;
    assert_eq!(parse_ines(&file).err(), Some(InesError::PalVideo));
    file[9] = 0;
    assert_eq!(parse_ines(&file).err(), Some(InesError::UnsupportedFlag10));
    file[10] = 0;
    assert_eq!(parse_ines(&file).err(), Some(InesError::RomMapping));
    file[4] = 2;
    assert_eq!(parse_ines(&file).err(), Some(InesError::CharacterRomTooLarge));
    file[5] = 1;
    assert_eq!(parse_ines(&file).err(), Some(InesError::Truncated));
}
