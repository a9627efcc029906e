use nes_core::opcode::{lookup, AddressMode, Mnemonic, Opcode, Surcharge};

fn check(code: u8, mnemonic: Mnemonic, bytes: u8, mode: AddressMode, cycles: u8) {
    let opcode = lookup(code);
    assert_eq!(opcode.code, code);
    assert_eq!(opcode.mnemonic, mnemonic);
    assert_eq!(opcode.bytes, bytes);
    assert_eq!(opcode.address_mode, mode);
    assert_eq!(opcode.cycles, cycles);
}

#[test]
fn every_byte_has_a_descriptor() {
    let mut implemented = 0;
    for code in 0..=255u8 {
        let opcode = lookup(code);
        assert_eq!(opcode.code, code);
        assert_eq!(opcode.bytes, 1 + opcode.address_mode.operand_bytes());
        if opcode.is_implemented() {
            implemented += 1;
            assert!(2 <= opcode.cycles && opcode.cycles <= 7);
        } else {
            assert_eq!(
                opcode,
                Opcode::new(
                    code,
                    Mnemonic::Unimplemented,
                    1,
                    AddressMode::Implied,
                    0,
                    Surcharge::Never
                )
            );
        }
    }
    assert_eq!(implemented, 151);
}

#[test]
fn load_and_store_opcodes() {
    check(0xA9, Mnemonic::Lda, 2, AddressMode::Immediate, 2);
    check(0xA5, Mnemonic::Lda, 2, AddressMode::ZeroPage, 3);
    check(0xB5, Mnemonic::Lda, 2, AddressMode::ZeroPageX, 4);
    check(0xAD, Mnemonic::Lda, 3, AddressMode::Absolute, 4);
    check(0xBD, Mnemonic::Lda, 3, AddressMode::AbsoluteX, 4);
    check(0xB9, Mnemonic::Lda, 3, AddressMode::AbsoluteY, 4);
    check(0xA1, Mnemonic::Lda, 2, AddressMode::IndirectX, 6);
    check(0xB1, Mnemonic::Lda, 2, AddressMode::IndirectY, 5);
    check(0xA2, Mnemonic::Ldx, 2, AddressMode::Immediate, 2);
    check(0xB6, Mnemonic::Ldx, 2, AddressMode::ZeroPageY, 4);
    check(0xBE, Mnemonic::Ldx, 3, AddressMode::AbsoluteY, 4);
    check(0xA0, Mnemonic::Ldy, 2, AddressMode::Immediate, 2);
    check(0xBC, Mnemonic::Ldy, 3, AddressMode::AbsoluteX, 4);
    check(0x8D, Mnemonic::Sta, 3, AddressMode::Absolute, 4);
    check(0x95, Mnemonic::Sta, 2, AddressMode::ZeroPageX, 4);
    check(0x9D, Mnemonic::Sta, 3, AddressMode::AbsoluteX, 5);
    check(0x99, Mnemonic::Sta, 3, AddressMode::AbsoluteY, 5);
    check(0x91, Mnemonic::Sta, 2, AddressMode::IndirectY, 6);
    check(0x96, Mnemonic::Stx, 2, AddressMode::ZeroPageY, 4);
    check(0x8C, Mnemonic::Sty, 3, AddressMode::Absolute, 4);
}

#[test]
fn one_byte_opcodes() {
    check(0x00, Mnemonic::Brk, 1, AddressMode::Implied, 7);
    check(0x78, Mnemonic::Sei, 1, AddressMode::Implied, 2);
    check(0xD8, Mnemonic::Cld, 1, AddressMode::Implied, 2);
    check(0x9A, Mnemonic::Txs, 1, AddressMode::Implied, 2);
    check(0xAA, Mnemonic::Tax, 1, AddressMode::Implied, 2);
    check(0xEA, Mnemonic::Nop, 1, AddressMode::Implied, 2);
    check(0x48, Mnemonic::Pha, 1, AddressMode::Implied, 3);
    check(0x08, Mnemonic::Php, 1, AddressMode::Implied, 3);
    check(0x68, Mnemonic::Pla, 1, AddressMode::Implied, 4);
    check(0x28, Mnemonic::Plp, 1, AddressMode::Implied, 4);
    check(0x40, Mnemonic::Rti, 1, AddressMode::Implied, 6);
    check(0x60, Mnemonic::Rts, 1, AddressMode::Implied, 6);
    check(0x0A, Mnemonic::Asl, 1, AddressMode::Accumulator, 2);
    check(0x6A, Mnemonic::Ror, 1, AddressMode::Accumulator, 2);
}

#[test]
fn jump_and_branch_opcodes() {
    check(0x4C, Mnemonic::Jmp, 3, AddressMode::Absolute, 3);
    check(0x6C, Mnemonic::Jmp, 3, AddressMode::Indirect, 5);
    check(0x20, Mnemonic::Jsr, 3, AddressMode::Absolute, 6);
    check(0x10, Mnemonic::Bpl, 2, AddressMode::Relative, 2);
    check(0x30, Mnemonic::Bmi, 2, AddressMode::Relative, 2);
    check(0x50, Mnemonic::Bvc, 2, AddressMode::Relative, 2);
    check(0x70, Mnemonic::Bvs, 2, AddressMode::Relative, 2);
    check(0x90, Mnemonic::Bcc, 2, AddressMode::Relative, 2);
    check(0xB0, Mnemonic::Bcs, 2, AddressMode::Relative, 2);
    check(0xD0, Mnemonic::Bne, 2, AddressMode::Relative, 2);
    check(0xF0, Mnemonic::Beq, 2, AddressMode::Relative, 2);
}

#[test]
fn arithmetic_and_shift_opcodes() {
    check(0x69, Mnemonic::Adc, 2, AddressMode::Immediate, 2);
    check(0x7D, Mnemonic::Adc, 3, AddressMode::AbsoluteX, 4);
    check(0xE9, Mnemonic::Sbc, 2, AddressMode::Immediate, 2);
    check(0xF1, Mnemonic::Sbc, 2, AddressMode::IndirectY, 5);
    check(0x29, Mnemonic::And, 2, AddressMode::Immediate, 2);
    check(0x09, Mnemonic::Ora, 2, AddressMode::Immediate, 2);
    check(0x49, Mnemonic::Eor, 2, AddressMode::Immediate, 2);
    check(0xC9, Mnemonic::Cmp, 2, AddressMode::Immediate, 2);
    check(0xE0, Mnemonic::Cpx, 2, AddressMode::Immediate, 2);
    check(0xC0, Mnemonic::Cpy, 2, AddressMode::Immediate, 2);
    check(0x24, Mnemonic::Bit, 2, AddressMode::ZeroPage, 3);
    check(0x2C, Mnemonic::Bit, 3, AddressMode::Absolute, 4);
    check(0x06, Mnemonic::Asl, 2, AddressMode::ZeroPage, 5);
    check(0x1E, Mnemonic::Asl, 3, AddressMode::AbsoluteX, 7);
    check(0x4E, Mnemonic::Lsr, 3, AddressMode::Absolute, 6);
    check(0x36, Mnemonic::Rol, 2, AddressMode::ZeroPageX, 6);
    check(0xE6, Mnemonic::Inc, 2, AddressMode::ZeroPage, 5);
    check(0xDE, Mnemonic::Dec, 3, AddressMode::AbsoluteX, 7);
}

#[test]
fn undocumented_bytes_are_unimplemented() {
    for code in [0x02u8, 0x03, 0x04, 0x0B, 0x0C, 0x1A, 0x80, 0x89, 0x9E, 0xFF] {
        assert!(!lookup(code).is_implemented());
        assert_eq!(lookup(code).mnemonic, Mnemonic::Unimplemented);
    }
}

#[test]
fn surcharges_follow_operation_and_mode() {
    assert_eq!(lookup(0xBD).surcharge, Surcharge::PageCross);
    assert_eq!(lookup(0xB9).surcharge, Surcharge::PageCross);
    assert_eq!(lookup(0xB1).surcharge, Surcharge::PageCross);
    assert_eq!(lookup(0xAD).surcharge, Surcharge::Never);
    assert_eq!(lookup(0x9D).surcharge, Surcharge::Never);
    assert_eq!(lookup(0x1E).surcharge, Surcharge::Never);
    assert_eq!(lookup(0xD0).surcharge, Surcharge::Branch);
    let mut page_cross = 0;
    let mut branch = 0;
    for code in 0..=255u8 {
        match lookup(code).surcharge {
            Surcharge::PageCross => page_cross += 1,
            Surcharge::Branch => branch += 1,
            Surcharge::Never => {}
        }
    }
    assert_eq!(page_cross, 23);
    assert_eq!(branch, 8);
}

#[test]
fn operand_bytes_by_mode() {
    assert_eq!(AddressMode::Implied.operand_bytes(), 0);
    assert_eq!(AddressMode::Accumulator.operand_bytes(), 0);
    assert_eq!(AddressMode::Immediate.operand_bytes(), 1);
    assert_eq!(AddressMode::Relative.operand_bytes(), 1);
    assert_eq!(AddressMode::ZeroPage.operand_bytes(), 1);
    assert_eq!(AddressMode::ZeroPageX.operand_bytes(), 1);
    assert_eq!(AddressMode::ZeroPageY.operand_bytes(), 1);
    assert_eq!(AddressMode::IndirectX.operand_bytes(), 1);
    assert_eq!(AddressMode::IndirectY.operand_bytes(), 1);
    assert_eq!(AddressMode::Absolute.operand_bytes(), 2);
    assert_eq!(AddressMode::AbsoluteX.operand_bytes(), 2);
    assert_eq!(AddressMode::AbsoluteY.operand_bytes(), 2);
    assert_eq!(AddressMode::Indirect.operand_bytes(), 2);
}

#[test]
fn address_mode_names() {
    assert_eq!(AddressMode::Immediate.name(), "Immediate");
    assert_eq!(AddressMode::Implied.name(), "Implied");
    assert_eq!(AddressMode::Accumulator.name(), "Accumulator");
    assert_eq!(AddressMode::Relative.name(), "Relative");
    assert_eq!(AddressMode::ZeroPage.name(), "ZeroPage");
    assert_eq!(AddressMode::ZeroPageX.name(), "ZeroPageX");
    assert_eq!(AddressMode::ZeroPageY.name(), "ZeroPageY");
    assert_eq!(AddressMode::Absolute.name(), "Absolute");
    assert_eq!(AddressMode::AbsoluteX.name(), "AbsoluteX");
    assert_eq!(AddressMode::AbsoluteY.name(), "AbsoluteY");
    assert_eq!(AddressMode::Indirect.name(), "Indirect");
    assert_eq!(AddressMode::IndirectX.name(), "IndirectX");
    assert_eq!(AddressMode::IndirectY.name(), "IndirectY");
}

#[test]
fn mnemonic_names_are_three_upper_case_letters() {
    assert_eq!(Mnemonic::Lda.name(), "LDA");
    assert_eq!(Mnemonic::Cmp.name(), "CMP");
    assert_eq!(Mnemonic::Brk.name(), "BRK");
    assert_eq!(Mnemonic::Unimplemented.name(), "???");
    for code in 0..=255u8 {
        let name = lookup(code).mnemonic.name();
        assert_eq!(name.len(), 3);
        if lookup(code).is_implemented() {
            assert!(name.chars().all(|c| c.is_ascii_uppercase()));
        }
    }
}

#[test]
fn new_keeps_its_arguments() {
    let opcode =
        Opcode::new(0x69, Mnemonic::Adc, 2, AddressMode::Immediate, 2, Surcharge::Never);
    assert_eq!(opcode.code, 0x69);
    assert_eq!(opcode.mnemonic, Mnemonic::Adc);
    assert_eq!(opcode.bytes, 2);
    assert_eq!(opcode.address_mode, AddressMode::Immediate);
    assert_eq!(opcode.cycles, 2);
    assert_eq!(opcode.surcharge, Surcharge::Never);
}
