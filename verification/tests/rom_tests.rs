use nes_core::rom::{create_rom, CHARACTER_UNIT, HEADER_SIZE, PROGRAM_UNIT, TRAINER_SIZE};

fn image(program_units: u8, character_units: u8, flags: u8, body: usize) -> Vec<u8> {
    let mut bytes = vec![0x4E, 0x45, 0x53, 0x1A, program_units, character_units, flags];
    bytes.resize(16, 0);
    for index in 0..body {
        bytes.push((index % 251) as u8);
    }
    bytes
}

#[test]
fn units_have_their_sizes() {
    assert_eq!(HEADER_SIZE, 16);
    assert_eq!(PROGRAM_UNIT, 16384);
    assert_eq!(CHARACTER_UNIT, 8192);
    assert_eq!(TRAINER_SIZE, 512);
}

#[test]
fn banks_follow_the_header() {
    let bytes = image(1, 1, 0, 16384 + 8192);
    let rom = create_rom(&bytes).unwrap();
    assert_eq!(rom.prog_rom.len(), 16384);
    assert_eq!(rom.char_rom.len(), 8192);
    assert_eq!(rom.prog_rom[..], bytes[16..16 + 16384]);
    assert_eq!(rom.char_rom[..], bytes[16 + 16384..16 + 16384 + 8192]);
}

#[test]
fn a_trainer_moves_the_banks_by_512_bytes() {
    let bytes = image(1, 1, 0x04, 512 + 16384 + 8192);
    let rom = create_rom(&bytes).unwrap();
    assert_eq!(rom.prog_rom[..], bytes[528..528 + 16384]);
    assert_eq!(rom.char_rom[..], bytes[528 + 16384..528 + 16384 + 8192]);
}

#[test]
fn other_flag_bits_do_not_announce_a_trainer() {
    let bytes = image(1, 0, 0xFB, 16384);
    let rom = create_rom(&bytes).unwrap();
    assert_eq!(rom.prog_rom[..], bytes[16..16 + 16384]);
    assert!(rom.char_rom.is_empty());
}

#[test]
fn bytes_after_the_banks_are_ignored() {
    let bytes = image(1, 0, 0, 16384 + 100);
    let rom = create_rom(&bytes).unwrap();
    assert_eq!(rom.prog_rom.len(), 16384);
    assert_eq!(rom.char_rom.len(), 0);
}

#[test]
fn a_header_alone_gives_empty_banks() {
    let bytes = image(0, 0, 0, 0);
    let rom = create_rom(&bytes).unwrap();
    assert!(rom.prog_rom.is_empty());
    assert!(rom.char_rom.is_empty());
}

#[test]
fn two_program_units_give_32_kib() {
    let bytes = image(2, 0, 0, 32768);
    let rom = create_rom(&bytes).unwrap();
    assert_eq!(rom.prog_rom.len(), 32768);
    assert_eq!(rom.prog_rom[32767], bytes[16 + 32767]);
}

#[test]
fn a_wrong_tag_is_refused() {
    for position in 0..4 {
        let mut bytes = image(1, 1, 0, 16384 + 8192);
        bytes[position] ^= 0x01;
        assert!(create_rom(&bytes).is_none());
    }
}

#[test]
fn a_short_header_is_refused() {
    assert!(create_rom(&[]).is_none());
    assert!(create_rom(&[0x4E, 0x45, 0x53, 0x1A]).is_none());
    let mut bytes = image(0, 0, 0, 0);
    bytes.truncate(15);
    assert!(create_rom(&bytes).is_none());
}

#[test]
fn a_truncated_program_bank_is_refused() {
    let bytes = image(1, 0, 0, 16383);
    assert!(create_rom(&bytes).is_none());
}

#[test]
fn a_truncated_character_bank_is_refused() {
    let bytes = image(1, 1, 0, 16384 + 8191);
    assert!(create_rom(&bytes).is_none());
}

#[test]
fn a_missing_trainer_is_refused() {
    let bytes = image(1, 0, 0x04, 16384 + 511);
    assert!(create_rom(&bytes).is_none());
    let bytes = image(1, 0, 0x04, 16384 + 512);
    assert!(create_rom(&bytes).is_some());
}
