use gb_core::gameboy::{validate_nintendo_logo, CartridgeValidationError, GameBoy};

const LOGO: [u8; 48] = [
    0xCE, 0xED, 0x66, 0x66, 0xCC, 0x0D, 0x00, 0x0B, 0x03, 0x73, 0x00, 0x83, 0x00, 0x0C, 0x00,
    0x0D, 0x00, 0x08, 0x11, 0x1F, 0x88, 0x89, 0x00, 0x0E, 0xDC, 0xCC, 0x6E, 0xE6, 0xDD, 0xDD,
    0xD9, 0x99, 0xBB, 0xBB, 0x67, 0x63, 0x6E, 0x0E, 0xEC, 0xCC, 0xDD, 0xDC, 0x99, 0x9F, 0xBB,
    0xB9, 0x33, 0x3E,
];

/// A zero-filled 16KB image with the expected logo and the given title bytes
/// in the header, and a cartridge-type byte of 0x01.
fn image_with_title(title: &[u8]) -> Vec<u8> {
    let mut rom = vec![0u8; 0x4000];
    rom[0x104..0x134].copy_from_slice(&LOGO);
    rom[0x134..0x134 + title.len()].copy_from_slice(title);
    rom[0x147] = 0x01;
    rom
}

#[test]
fn the_expected_logo_validates() {
    assert_eq!(validate_nintendo_logo(&LOGO), Ok(()));
}

#[test]
fn a_corrupted_logo_is_rejected() {
    let mut logo = LOGO;
    logo[10] ^= 0xFF;
    assert_eq!(
        validate_nintendo_logo(&logo),
        Err(CartridgeValidationError::InvalidNintendoLogo)
    );
}

#[test]
fn a_wrong_length_logo_is_rejected() {
    assert_eq!(
        validate_nintendo_logo(&LOGO[..47]),
        Err(CartridgeValidationError::InvalidNintendoLogo)
    );
    assert_eq!(
        validate_nintendo_logo(&[]),
        Err(CartridgeValidationError::InvalidNintendoLogo)
    );
}

#[test]
fn new_machine_is_empty() {
    let gb = GameBoy::new();
    assert_eq!(gb.rom.len(), 0);
    assert_eq!(gb.game_title, "");
}

#[test]
fn loading_a_valid_cartridge_stores_rom_and_title() {
    let mut gb = GameBoy::new();
    let rom = image_with_title(b"TESTGAME");
    assert_eq!(gb.load_rom(rom), Ok(()));
    assert_eq!(gb.rom.len(), 0x4000);
    // The title region is 15 bytes; unused bytes stay as NUL padding.
    assert_eq!(gb.game_title, "TESTGAME\0\0\0\0\0\0\0");
}

#[test]
fn a_title_that_is_not_utf8_is_a_hard_error() {
    let mut gb = GameBoy::new();
    // 0xFF can never begin a UTF-8 sequence.
    let rom = image_with_title(&[0xFF, 0xFE]);
    assert_eq!(
        gb.load_rom(rom),
        Err(CartridgeValidationError::InvalidGameTitle)
    );
    // The title is untouched, but the image itself is kept.
    assert_eq!(gb.game_title, "");
    assert_eq!(gb.rom.len(), 0x4000);
}

#[test]
fn multi_byte_title_characters_are_decoded_not_copied() {
    let mut gb = GameBoy::new();
    // "POKéMON" with é as its two-byte UTF-8 encoding.
    let rom = image_with_title(&[0x50, 0x4F, 0x4B, 0xC3, 0xA9, 0x4D, 0x4F, 0x4E]);
    assert_eq!(gb.load_rom(rom), Ok(()));
    // 15 title bytes decode to 14 characters.
    assert_eq!(gb.game_title.chars().count(), 14);
    assert!(gb.game_title.starts_with("POKéMON"));
}

#[test]
fn a_logo_mismatch_is_reported_after_the_title_is_kept() {
    let mut gb = GameBoy::new();
    let mut rom = image_with_title(b"TESTGAME");
    rom[0x104] = 0x00;
    assert_eq!(
        gb.load_rom(rom),
        Err(CartridgeValidationError::InvalidNintendoLogo)
    );
    // The warning-level failure still leaves the title and image usable.
    assert_eq!(gb.game_title, "TESTGAME\0\0\0\0\0\0\0");
    assert_eq!(gb.rom.len(), 0x4000);
}

#[test]
fn a_loaded_machine_runs_its_rom() {
    let mut gb = GameBoy::new();
    let rom = image_with_title(b"TESTGAME");
    assert_eq!(gb.load_rom(rom), Ok(()));
    // The image holds NOPs from 0x0100 up to the logo bytes at 0x0104; the
    // stop budget ends the loop before the PC reaches them.
    assert_eq!(gb.run(4), None);
}

#[test]
fn a_run_stops_on_the_first_fault() {
    let mut gb = GameBoy::new();
    let mut rom = image_with_title(b"TESTGAME");
    rom[0x100] = 0xD3;
    assert_eq!(
        gb.load_rom(rom),
        Ok(())
    );
    let fault = gb.run(1000);
    assert!(matches!(fault, Some(gb_core::cpu::Fault::Decode { pc: 0x0100, prefixed: false, opcode: 0xD3 })));
}
