//! Opcode descriptors and the table that maps every byte to one.
//!
//! An opcode byte is three bit fields: the two low bits select a group of
//! instructions, the next three a column of the group (mostly an addressing
//! mode) and the top three a row (mostly an operation). [`decode`] states the
//! table by those fields; [`lookup`] is the table itself, entry by entry,
//! and is proved to agree with it on all 256 bytes.

use vstd::prelude::*;

verus! {

/// The rule by which an instruction finds its operand.
#[derive(Clone, Copy, Debug, PartialEq, Eq, Structural)]
pub enum AddressMode {
    Immediate,
    Implied,
    Accumulator,
    Relative,
    ZeroPage,
    ZeroPageX,
    ZeroPageY,
    Absolute,
    AbsoluteX,
    AbsoluteY,
    Indirect,
    IndirectX,
    IndirectY,
}

impl AddressMode {
    /// Number of operand bytes that follow the opcode byte.
    pub open spec fn spec_operand_bytes(&self) -> u8 {
        match self {
            AddressMode::Implied | AddressMode::Accumulator => 0,
            AddressMode::Absolute
            | AddressMode::AbsoluteX
            | AddressMode::AbsoluteY
            | AddressMode::Indirect => 2,
            _ => 1,
        }
    }

    /// Number of operand bytes that follow the opcode byte.
    #[verifier::when_used_as_spec(spec_operand_bytes)]
    pub fn operand_bytes(&self) -> (n: u8)
        ensures
            n == self.spec_operand_bytes(),
            n <= 2,
    {
        match self {
            AddressMode::Implied | AddressMode::Accumulator => 0,
            AddressMode::Immediate
            | AddressMode::Relative
            | AddressMode::ZeroPage
            | AddressMode::ZeroPageX
            | AddressMode::ZeroPageY
            | AddressMode::IndirectX
            | AddressMode::IndirectY => 1,
            AddressMode::Absolute
            | AddressMode::AbsoluteX
            | AddressMode::AbsoluteY
            | AddressMode::Indirect => 2,
        }
    }

    /// The mode's name as text.
    pub open spec fn spec_name(self) -> Seq<char> {
        match self {
            AddressMode::Immediate => "Immediate"@,
            AddressMode::Implied => "Implied"@,
            AddressMode::Accumulator => "Accumulator"@,
            AddressMode::Relative => "Relative"@,
            AddressMode::ZeroPage => "ZeroPage"@,
            AddressMode::ZeroPageX => "ZeroPageX"@,
            AddressMode::ZeroPageY => "ZeroPageY"@,
            AddressMode::Absolute => "Absolute"@,
            AddressMode::AbsoluteX => "AbsoluteX"@,
            AddressMode::AbsoluteY => "AbsoluteY"@,
            AddressMode::Indirect => "Indirect"@,
            AddressMode::IndirectX => "IndirectX"@,
            AddressMode::IndirectY => "IndirectY"@,
        }
    }

    /// The mode's name as text.
    pub fn name(&self) -> (text: &'static str)
        ensures
            text@ == self.spec_name(),
    {
        match self {
            AddressMode::Immediate => "Immediate",
            AddressMode::Implied => "Implied",
            AddressMode::Accumulator => "Accumulator",
            AddressMode::Relative => "Relative",
            AddressMode::ZeroPage => "ZeroPage",
            AddressMode::ZeroPageX => "ZeroPageX",
            AddressMode::ZeroPageY => "ZeroPageY",
            AddressMode::Absolute => "Absolute",
            AddressMode::AbsoluteX => "AbsoluteX",
            AddressMode::AbsoluteY => "AbsoluteY",
            AddressMode::Indirect => "Indirect",
            AddressMode::IndirectX => "IndirectX",
            AddressMode::IndirectY => "IndirectY",
        }
    }
}

/// The operation an opcode stands for. `Unimplemented` marks the bytes for
/// which the engine has no operation.
#[derive(Clone, Copy, Debug, PartialEq, Eq, Structural)]
pub enum Mnemonic {
    Adc,
    And,
    Asl,
    Bcc,
    Bcs,
    Beq,
    Bit,
    Bmi,
    Bne,
    Bpl,
    Brk,
    Bvc,
    Bvs,
    Clc,
    Cld,
    Cli,
    Clv,
    Cmp,
    Cpx,
    Cpy,
    Dec,
    Dex,
    Dey,
    Eor,
    Inc,
    Inx,
    Iny,
    Jmp,
    Jsr,
    Lda,
    Ldx,
    Ldy,
    Lsr,
    Nop,
    Ora,
    Pha,
    Php,
    Pla,
    Plp,
    Rol,
    Ror,
    Rti,
    Rts,
    Sbc,
    Sec,
    Sed,
    Sei,
    Sta,
    Stx,
    Sty,
    Tax,
    Tay,
    Tsx,
    Txa,
    Txs,
    Tya,
    Unimplemented,
}

impl Mnemonic {
    /// Operations that only read their operand.
    pub open spec fn is_read(self) -> bool {
        match self {
            Mnemonic::Lda
            | Mnemonic::Ldx
            | Mnemonic::Ldy
            | Mnemonic::And
            | Mnemonic::Ora
            | Mnemonic::Eor
            | Mnemonic::Adc
            | Mnemonic::Sbc
            | Mnemonic::Cmp
            | Mnemonic::Cpx
            | Mnemonic::Cpy
            | Mnemonic::Bit => true,
            _ => false,
        }
    }

    /// Operations that only write a register to memory.
    pub open spec fn is_store(self) -> bool {
        match self {
            Mnemonic::Sta | Mnemonic::Stx | Mnemonic::Sty => true,
            _ => false,
        }
    }

    /// Operations that read their operand, change it and write it back.
    pub open spec fn is_modify(self) -> bool {
        match self {
            Mnemonic::Asl
            | Mnemonic::Lsr
            | Mnemonic::Rol
            | Mnemonic::Ror
            | Mnemonic::Inc
            | Mnemonic::Dec => true,
            _ => false,
        }
    }

    /// The eight conditional branches.
    pub open spec fn is_branch(self) -> bool {
        match self {
            Mnemonic::Bpl
            | Mnemonic::Bmi
            | Mnemonic::Bvc
            | Mnemonic::Bvs
            | Mnemonic::Bcc
            | Mnemonic::Bcs
            | Mnemonic::Bne
            | Mnemonic::Beq => true,
            _ => false,
        }
    }

    /// The three-letter name, in upper case; `"???"` for `Unimplemented`.
    pub open spec fn spec_name(self) -> Seq<char> {
        match self {
            Mnemonic::Adc => "ADC"@,
            Mnemonic::And => "AND"@,
            Mnemonic::Asl => "ASL"@,
            Mnemonic::Bcc => "BCC"@,
            Mnemonic::Bcs => "BCS"@,
            Mnemonic::Beq => "BEQ"@,
            Mnemonic::Bit => "BIT"@,
            Mnemonic::Bmi => "BMI"@,
            Mnemonic::Bne => "BNE"@,
            Mnemonic::Bpl => "BPL"@,
            Mnemonic::Brk => "BRK"@,
            Mnemonic::Bvc => "BVC"@,
            Mnemonic::Bvs => "BVS"@,
            Mnemonic::Clc => "CLC"@,
            Mnemonic::Cld => "CLD"@,
            Mnemonic::Cli => "CLI"@,
            Mnemonic::Clv => "CLV"@,
            Mnemonic::Cmp => "CMP"@,
            Mnemonic::Cpx => "CPX"@,
            Mnemonic::Cpy => "CPY"@,
            Mnemonic::Dec => "DEC"@,
            Mnemonic::Dex => "DEX"@,
            Mnemonic::Dey => "DEY"@,
            Mnemonic::Eor => "EOR"@,
            Mnemonic::Inc => "INC"@,
            Mnemonic::Inx => "INX"@,
            Mnemonic::Iny => "INY"@,
            Mnemonic::Jmp => "JMP"@,
            Mnemonic::Jsr => "JSR"@,
            Mnemonic::Lda => "LDA"@,
            Mnemonic::Ldx => "LDX"@,
            Mnemonic::Ldy => "LDY"@,
            Mnemonic::Lsr => "LSR"@,
            Mnemonic::Nop => "NOP"@,
            Mnemonic::Ora => "ORA"@,
            Mnemonic::Pha => "PHA"@,
            Mnemonic::Php => "PHP"@,
            Mnemonic::Pla => "PLA"@,
            Mnemonic::Plp => "PLP"@,
            Mnemonic::Rol => "ROL"@,
            Mnemonic::Ror => "ROR"@,
            Mnemonic::Rti => "RTI"@,
            Mnemonic::Rts => "RTS"@,
            Mnemonic::Sbc => "SBC"@,
            Mnemonic::Sec => "SEC"@,
            Mnemonic::Sed => "SED"@,
            Mnemonic::Sei => "SEI"@,
            Mnemonic::Sta => "STA"@,
            Mnemonic::Stx => "STX"@,
            Mnemonic::Sty => "STY"@,
            Mnemonic::Tax => "TAX"@,
            Mnemonic::Tay => "TAY"@,
            Mnemonic::Tsx => "TSX"@,
            Mnemonic::Txa => "TXA"@,
            Mnemonic::Txs => "TXS"@,
            Mnemonic::Tya => "TYA"@,
            Mnemonic::Unimplemented => "???"@,
        }
    }

    /// The three-letter name, in upper case; `"???"` for `Unimplemented`.
    pub fn name(&self) -> (text: &'static str)
        ensures
            text@ == self.spec_name(),
    {
        match self {
            Mnemonic::Adc => "ADC",
            Mnemonic::And => "AND",
            Mnemonic::Asl => "ASL",
            Mnemonic::Bcc => "BCC",
            Mnemonic::Bcs => "BCS",
            Mnemonic::Beq => "BEQ",
            Mnemonic::Bit => "BIT",
            Mnemonic::Bmi => "BMI",
            Mnemonic::Bne => "BNE",
            Mnemonic::Bpl => "BPL",
            Mnemonic::Brk => "BRK",
            Mnemonic::Bvc => "BVC",
            Mnemonic::Bvs => "BVS",
            Mnemonic::Clc => "CLC",
            Mnemonic::Cld => "CLD",
            Mnemonic::Cli => "CLI",
            Mnemonic::Clv => "CLV",
            Mnemonic::Cmp => "CMP",
            Mnemonic::Cpx => "CPX",
            Mnemonic::Cpy => "CPY",
            Mnemonic::Dec => "DEC",
            Mnemonic::Dex => "DEX",
            Mnemonic::Dey => "DEY",
            Mnemonic::Eor => "EOR",
            Mnemonic::Inc => "INC",
            Mnemonic::Inx => "INX",
            Mnemonic::Iny => "INY",
            Mnemonic::Jmp => "JMP",
            Mnemonic::Jsr => "JSR",
            Mnemonic::Lda => "LDA",
            Mnemonic::Ldx => "LDX",
            Mnemonic::Ldy => "LDY",
            Mnemonic::Lsr => "LSR",
            Mnemonic::Nop => "NOP",
            Mnemonic::Ora => "ORA",
            Mnemonic::Pha => "PHA",
            Mnemonic::Php => "PHP",
            Mnemonic::Pla => "PLA",
            Mnemonic::Plp => "PLP",
            Mnemonic::Rol => "ROL",
            Mnemonic::Ror => "ROR",
            Mnemonic::Rti => "RTI",
            Mnemonic::Rts => "RTS",
            Mnemonic::Sbc => "SBC",
            Mnemonic::Sec => "SEC",
            Mnemonic::Sed => "SED",
            Mnemonic::Sei => "SEI",
            Mnemonic::Sta => "STA",
            Mnemonic::Stx => "STX",
            Mnemonic::Sty => "STY",
            Mnemonic::Tax => "TAX",
            Mnemonic::Tay => "TAY",
            Mnemonic::Tsx => "TSX",
            Mnemonic::Txa => "TXA",
            Mnemonic::Txs => "TXS",
            Mnemonic::Tya => "TYA",
            Mnemonic::Unimplemented => "???",
        }
    }
}

/// When an instruction costs more than its base cycle count.
#[derive(Clone, Copy, Debug, PartialEq, Eq, Structural)]
pub enum Surcharge {
    /// Never: the base count is the whole cost.
    Never,
    /// One cycle more when indexing carries into the next page.
    PageCross,
    /// One cycle more when the branch is taken, and a second one when the
    /// target lies in another page than the next instruction.
    Branch,
}

/// Descriptor of one opcode byte.
#[derive(Clone, Copy, Debug, PartialEq, Eq, Structural)]
pub struct Opcode {
    pub code: u8,
    pub mnemonic: Mnemonic,
    /// Length of the whole instruction, opcode byte included.
    pub bytes: u8,
    pub address_mode: AddressMode,
    /// Base cycle count.
    pub cycles: u8,
    pub surcharge: Surcharge,
}

impl Opcode {
    /// Makes a descriptor of its six parts.
    pub fn new(
        code: u8,
        mnemonic: Mnemonic,
        bytes: u8,
        address_mode: AddressMode,
        cycles: u8,
        surcharge: Surcharge,
    ) -> (opcode: Opcode)
        ensures
            opcode == (Opcode { code, mnemonic, bytes, address_mode, cycles, surcharge }),
    {
        Opcode { code, mnemonic, bytes, address_mode, cycles, surcharge }
    }

    /// Whether the engine has an operation for this opcode.
    pub open spec fn spec_is_implemented(&self) -> bool {
        self.mnemonic != Mnemonic::Unimplemented
    }

    /// Whether the engine has an operation for this opcode.
    #[verifier::when_used_as_spec(spec_is_implemented)]
    pub fn is_implemented(&self) -> (b: bool)
        ensures
            b == self.spec_is_implemented(),
    {
        match self.mnemonic {
            Mnemonic::Unimplemented => false,
            _ => true,
        }
    }
}

/// What the byte stands for when nothing is defined for it.
pub open spec fn undefined() -> (Mnemonic, AddressMode) {
    (Mnemonic::Unimplemented, AddressMode::Implied)
}

/// Operation of a row in the arithmetic group (low bits `01`).
pub open spec fn arithmetic_operation(row: int) -> Mnemonic {
    if row == 0 {
        Mnemonic::Ora
    } else if row == 1 {
        Mnemonic::And
    } else if row == 2 {
        Mnemonic::Eor
    } else if row == 3 {
        Mnemonic::Adc
    } else if row == 4 {
        Mnemonic::Sta
    } else if row == 5 {
        Mnemonic::Lda
    } else if row == 6 {
        Mnemonic::Cmp
    } else {
        Mnemonic::Sbc
    }
}

/// Addressing mode of a column in the arithmetic group.
pub open spec fn arithmetic_mode(column: int) -> AddressMode {
    if column == 0 {
        AddressMode::IndirectX
    } else if column == 1 {
        AddressMode::ZeroPage
    } else if column == 2 {
        AddressMode::Immediate
    } else if column == 3 {
        AddressMode::Absolute
    } else if column == 4 {
        AddressMode::IndirectY
    } else if column == 5 {
        AddressMode::ZeroPageX
    } else if column == 6 {
        AddressMode::AbsoluteY
    } else {
        AddressMode::AbsoluteX
    }
}

/// The arithmetic group: every row with every column, but for a store to
/// an immediate operand.
pub open spec fn decode_arithmetic(row: int, column: int) -> (Mnemonic, AddressMode) {
    if row == 4 && column == 2 {
        undefined()
    } else {
        (arithmetic_operation(row), arithmetic_mode(column))
    }
}

/// Operation of a row in the shift group (low bits `10`).
pub open spec fn shift_operation(row: int) -> Mnemonic {
    if row == 0 {
        Mnemonic::Asl
    } else if row == 1 {
        Mnemonic::Rol
    } else if row == 2 {
        Mnemonic::Lsr
    } else if row == 3 {
        Mnemonic::Ror
    } else if row == 4 {
        Mnemonic::Stx
    } else if row == 5 {
        Mnemonic::Ldx
    } else if row == 6 {
        Mnemonic::Dec
    } else {
        Mnemonic::Inc
    }
}

/// The shift group. Rows 4 and 5 move the X register and index by Y where
/// the others index by X; their column 2 and column 6 hold the one-byte
/// register transfers.
pub open spec fn decode_shift(row: int, column: int) -> (Mnemonic, AddressMode) {
    if column == 0 {
        if row == 5 {
            (Mnemonic::Ldx, AddressMode::Immediate)
        } else {
            undefined()
        }
    } else if column == 1 {
        (shift_operation(row), AddressMode::ZeroPage)
    } else if column == 2 {
        if row < 4 {
            (shift_operation(row), AddressMode::Accumulator)
        } else if row == 4 {
            (Mnemonic::Txa, AddressMode::Implied)
        } else if row == 5 {
            (Mnemonic::Tax, AddressMode::Implied)
        } else if row == 6 {
            (Mnemonic::Dex, AddressMode::Implied)
        } else {
            (Mnemonic::Nop, AddressMode::Implied)
        }
    } else if column == 3 {
        (shift_operation(row), AddressMode::Absolute)
    } else if column == 5 {
        if row == 4 || row == 5 {
            (shift_operation(row), AddressMode::ZeroPageY)
        } else {
            (shift_operation(row), AddressMode::ZeroPageX)
        }
    } else if column == 6 {
        if row == 4 {
            (Mnemonic::Txs, AddressMode::Implied)
        } else if row == 5 {
            (Mnemonic::Tsx, AddressMode::Implied)
        } else {
            undefined()
        }
    } else if column == 7 {
        if row == 4 {
            undefined()
        } else if row == 5 {
            (Mnemonic::Ldx, AddressMode::AbsoluteY)
        } else {
            (shift_operation(row), AddressMode::AbsoluteX)
        }
    } else {
        undefined()
    }
}

/// Operation of a row in the memory columns of the control group: the
/// instructions on the Y register, the two compares with an index register
/// and the bit test.
pub open spec fn index_operation(row: int) -> Mnemonic {
    if row == 1 {
        Mnemonic::Bit
    } else if row == 4 {
        Mnemonic::Sty
    } else if row == 5 {
        Mnemonic::Ldy
    } else if row == 6 {
        Mnemonic::Cpy
    } else if row == 7 {
        Mnemonic::Cpx
    } else {
        Mnemonic::Unimplemented
    }
}

/// The one-byte stack and register instructions of column 2.
pub open spec fn stack_operation(row: int) -> Mnemonic {
    if row == 0 {
        Mnemonic::Php
    } else if row == 1 {
        Mnemonic::Plp
    } else if row == 2 {
        Mnemonic::Pha
    } else if row == 3 {
        Mnemonic::Pla
    } else if row == 4 {
        Mnemonic::Dey
    } else if row == 5 {
        Mnemonic::Tay
    } else if row == 6 {
        Mnemonic::Iny
    } else {
        Mnemonic::Inx
    }
}

/// The conditional branches of column 4.
pub open spec fn branch_operation(row: int) -> Mnemonic {
    if row == 0 {
        Mnemonic::Bpl
    } else if row == 1 {
        Mnemonic::Bmi
    } else if row == 2 {
        Mnemonic::Bvc
    } else if row == 3 {
        Mnemonic::Bvs
    } else if row == 4 {
        Mnemonic::Bcc
    } else if row == 5 {
        Mnemonic::Bcs
    } else if row == 6 {
        Mnemonic::Bne
    } else {
        Mnemonic::Beq
    }
}

/// The one-byte flag instructions of column 6.
pub open spec fn flag_operation(row: int) -> Mnemonic {
    if row == 0 {
        Mnemonic::Clc
    } else if row == 1 {
        Mnemonic::Sec
    } else if row == 2 {
        Mnemonic::Cli
    } else if row == 3 {
        Mnemonic::Sei
    } else if row == 4 {
        Mnemonic::Tya
    } else if row == 5 {
        Mnemonic::Clv
    } else if row == 6 {
        Mnemonic::Cld
    } else {
        Mnemonic::Sed
    }
}

/// The control group (low bits `00`).
pub open spec fn decode_control(row: int, column: int) -> (Mnemonic, AddressMode) {
    if column == 0 {
        if row == 0 {
            (Mnemonic::Brk, AddressMode::Implied)
        } else if row == 1 {
            (Mnemonic::Jsr, AddressMode::Absolute)
        } else if row == 2 {
            (Mnemonic::Rti, AddressMode::Implied)
        } else if row == 3 {
            (Mnemonic::Rts, AddressMode::Implied)
        } else if row == 4 {
            undefined()
        } else {
            (index_operation(row), AddressMode::Immediate)
        }
    } else if column == 1 {
        if index_operation(row) == Mnemonic::Unimplemented {
            undefined()
        } else {
            (index_operation(row), AddressMode::ZeroPage)
        }
    } else if column == 2 {
        (stack_operation(row), AddressMode::Implied)
    } else if column == 3 {
        if row == 0 {
            undefined()
        } else if row == 2 {
            (Mnemonic::Jmp, AddressMode::Absolute)
        } else if row == 3 {
            (Mnemonic::Jmp, AddressMode::Indirect)
        } else {
            (index_operation(row), AddressMode::Absolute)
        }
    } else if column == 4 {
        (branch_operation(row), AddressMode::Relative)
    } else if column == 5 {
        if row == 4 || row == 5 {
            (index_operation(row), AddressMode::ZeroPageX)
        } else {
            undefined()
        }
    } else if column == 6 {
        (flag_operation(row), AddressMode::Implied)
    } else {
        if row == 5 {
            (Mnemonic::Ldy, AddressMode::AbsoluteX)
        } else {
            undefined()
        }
    }
}

/// Operation and addressing mode of an opcode byte, by its bit fields.
pub open spec fn decode_operation(code: u8) -> (Mnemonic, AddressMode) {
    let group = code % 4;
    let column = (code / 4) % 8;
    let row = code / 32;
    if group == 0 {
        decode_control(row as int, column as int)
    } else if group == 1 {
        decode_arithmetic(row as int, column as int)
    } else if group == 2 {
        decode_shift(row as int, column as int)
    } else {
        undefined()
    }
}

/// Cycles of an instruction that reads its operand.
pub open spec fn read_cycles(mode: AddressMode) -> u8 {
    match mode {
        AddressMode::Immediate => 2,
        AddressMode::ZeroPage => 3,
        AddressMode::IndirectX => 6,
        AddressMode::IndirectY => 5,
        _ => 4,
    }
}

/// Cycles of an instruction that writes a register to memory.
pub open spec fn store_cycles(mode: AddressMode) -> u8 {
    match mode {
        AddressMode::ZeroPage => 3,
        AddressMode::AbsoluteX | AddressMode::AbsoluteY => 5,
        AddressMode::IndirectX | AddressMode::IndirectY => 6,
        _ => 4,
    }
}

/// Cycles of an instruction that changes its operand in place.
pub open spec fn modify_cycles(mode: AddressMode) -> u8 {
    match mode {
        AddressMode::Accumulator => 2,
        AddressMode::ZeroPage => 5,
        AddressMode::AbsoluteX => 7,
        _ => 6,
    }
}

/// Base cycle count of an operation in an addressing mode.
pub open spec fn base_cycles(mnemonic: Mnemonic, mode: AddressMode) -> u8 {
    if mnemonic.is_read() {
        read_cycles(mode)
    } else if mnemonic.is_store() {
        store_cycles(mode)
    } else if mnemonic.is_modify() {
        modify_cycles(mode)
    } else {
        match mnemonic {
            Mnemonic::Unimplemented => 0,
            Mnemonic::Brk => 7,
            Mnemonic::Jsr | Mnemonic::Rts | Mnemonic::Rti => 6,
            Mnemonic::Pha | Mnemonic::Php => 3,
            Mnemonic::Pla | Mnemonic::Plp => 4,
            Mnemonic::Jmp => if mode == AddressMode::Absolute {
                3
            } else {
                5
            },
            _ => 2,
        }
    }
}

/// When an operation in an addressing mode pays more than its base count:
/// a branch when it is taken, a read when its indexing crosses a page.
pub open spec fn surcharge_of(mnemonic: Mnemonic, mode: AddressMode) -> Surcharge {
    if mnemonic.is_branch() {
        Surcharge::Branch
    } else if mnemonic.is_read() && (mode == AddressMode::AbsoluteX || mode
        == AddressMode::AbsoluteY || mode == AddressMode::IndirectY) {
        Surcharge::PageCross
    } else {
        Surcharge::Never
    }
}

/// The descriptor of an opcode byte.
#[verifier::opaque]
pub open spec fn decode(code: u8) -> Opcode {
    let (mnemonic, address_mode) = decode_operation(code);
    Opcode {
        code,
        mnemonic,
        bytes: (1 + address_mode.operand_bytes()) as u8,
        address_mode,
        cycles: base_cycles(mnemonic, address_mode),
        surcharge: surcharge_of(mnemonic, address_mode),
    }
}

/// What holds of the descriptor of every byte.
///
/// It carries the byte it describes. Its length is the opcode byte and the
/// operand bytes of its addressing mode. A byte with an operation costs
/// between two and seven cycles; a byte without one has the one descriptor
/// that says so. The branches are exactly the opcodes in relative mode, and
/// only reads in the three modes that add an index to a sixteen-bit address
/// pay for page crossings.
pub proof fn lemma_decode(code: u8)
    ensures
        decode(code).code == code,
        decode(code).bytes == 1 + decode(code).address_mode.operand_bytes(),
        1 <= decode(code).bytes <= 3,
        decode(code).is_implemented() ==> 2 <= decode(code).cycles <= 7,
        !decode(code).is_implemented() ==> decode(code) == (Opcode {
            code,
            mnemonic: Mnemonic::Unimplemented,
            bytes: 1,
            address_mode: AddressMode::Implied,
            cycles: 0,
            surcharge: Surcharge::Never,
        }),
        decode(code).surcharge == Surcharge::Branch <==> decode(code).address_mode
            == AddressMode::Relative,
        decode(code).surcharge == Surcharge::Branch <==> decode(code).mnemonic.is_branch(),
        decode(code).surcharge == Surcharge::PageCross <==> decode(code).mnemonic.is_read() && (
        decode(code).address_mode == AddressMode::AbsoluteX || decode(code).address_mode
            == AddressMode::AbsoluteY || decode(code).address_mode == AddressMode::IndirectY),
{
    reveal(decode);
}

/// Descriptor of a byte for which the engine has no operation.
fn unimplemented(code: u8) -> (opcode: Opcode)
    ensures
        opcode == (Opcode {
            code,
            mnemonic: Mnemonic::Unimplemented,
            bytes: 1,
            address_mode: AddressMode::Implied,
            cycles: 0,
            surcharge: Surcharge::Never,
        }),
{
    Opcode::new(code, Mnemonic::Unimplemented, 1, AddressMode::Implied, 0, Surcharge::Never)
}

/// The opcodes `0x00` to `0x0F`.
fn row_0(code: u8) -> (opcode: Opcode)
    requires
        code / 16 == 0,
    ensures
        opcode == decode(code),
        opcode.code == code,
        1 <= opcode.bytes <= 3,
{
    proof {
        reveal(decode);
    }
    match code {
        0x00 => Opcode::new(0x00, Mnemonic::Brk, 1, AddressMode::Implied, 7, Surcharge::Never),
        0x01 => Opcode::new(0x01, Mnemonic::Ora, 2, AddressMode::IndirectX, 6, Surcharge::Never),
        0x05 => Opcode::new(0x05, Mnemonic::Ora, 2, AddressMode::ZeroPage, 3, Surcharge::Never),
        0x06 => Opcode::new(0x06, Mnemonic::Asl, 2, AddressMode::ZeroPage, 5, Surcharge::Never),
        0x08 => Opcode::new(0x08, Mnemonic::Php, 1, AddressMode::Implied, 3, Surcharge::Never),
        0x09 => Opcode::new(0x09, Mnemonic::Ora, 2, AddressMode::Immediate, 2, Surcharge::Never),
        0x0A => Opcode::new(0x0A, Mnemonic::Asl, 1, AddressMode::Accumulator, 2, Surcharge::Never),
        0x0D => Opcode::new(0x0D, Mnemonic::Ora, 3, AddressMode::Absolute, 4, Surcharge::Never),
        0x0E => Opcode::new(0x0E, Mnemonic::Asl, 3, AddressMode::Absolute, 6, Surcharge::Never),
        _ => unimplemented(code),
    }
}

/// The opcodes `0x10` to `0x1F`.
fn row_1(code: u8) -> (opcode: Opcode)
    requires
        code / 16 == 1,
    ensures
        opcode == decode(code),
        opcode.code == code,
        1 <= opcode.bytes <= 3,
{
    proof {
        reveal(decode);
    }
    match code {
        0x10 => Opcode::new(0x10, Mnemonic::Bpl, 2, AddressMode::Relative, 2, Surcharge::Branch),
        0x11 => Opcode::new(0x11, Mnemonic::Ora, 2, AddressMode::IndirectY, 5, Surcharge::PageCross),
        0x15 => Opcode::new(0x15, Mnemonic::Ora, 2, AddressMode::ZeroPageX, 4, Surcharge::Never),
        0x16 => Opcode::new(0x16, Mnemonic::Asl, 2, AddressMode::ZeroPageX, 6, Surcharge::Never),
        0x18 => Opcode::new(0x18, Mnemonic::Clc, 1, AddressMode::Implied, 2, Surcharge::Never),
        0x19 => Opcode::new(0x19, Mnemonic::Ora, 3, AddressMode::AbsoluteY, 4, Surcharge::PageCross),
        0x1D => Opcode::new(0x1D, Mnemonic::Ora, 3, AddressMode::AbsoluteX, 4, Surcharge::PageCross),
        0x1E => Opcode::new(0x1E, Mnemonic::Asl, 3, AddressMode::AbsoluteX, 7, Surcharge::Never),
        _ => unimplemented(code),
    }
}

/// The opcodes `0x20` to `0x2F`.
fn row_2(code: u8) -> (opcode: Opcode)
    requires
        code / 16 == 2,
    ensures
        opcode == decode(code),
        opcode.code == code,
        1 <= opcode.bytes <= 3,
{
    proof {
        reveal(decode);
    }
    match code {
        0x20 => Opcode::new(0x20, Mnemonic::Jsr, 3, AddressMode::Absolute, 6, Surcharge::Never),
        0x21 => Opcode::new(0x21, Mnemonic::And, 2, AddressMode::IndirectX, 6, Surcharge::Never),
        0x24 => Opcode::new(0x24, Mnemonic::Bit, 2, AddressMode::ZeroPage, 3, Surcharge::Never),
        0x25 => Opcode::new(0x25, Mnemonic::And, 2, AddressMode::ZeroPage, 3, Surcharge::Never),
        0x26 => Opcode::new(0x26, Mnemonic::Rol, 2, AddressMode::ZeroPage, 5, Surcharge::Never),
        0x28 => Opcode::new(0x28, Mnemonic::Plp, 1, AddressMode::Implied, 4, Surcharge::Never),
        0x29 => Opcode::new(0x29, Mnemonic::And, 2, AddressMode::Immediate, 2, Surcharge::Never),
        0x2A => Opcode::new(0x2A, Mnemonic::Rol, 1, AddressMode::Accumulator, 2, Surcharge::Never),
        0x2C => Opcode::new(0x2C, Mnemonic::Bit, 3, AddressMode::Absolute, 4, Surcharge::Never),
        0x2D => Opcode::new(0x2D, Mnemonic::And, 3, AddressMode::Absolute, 4, Surcharge::Never),
        0x2E => Opcode::new(0x2E, Mnemonic::Rol, 3, AddressMode::Absolute, 6, Surcharge::Never),
        _ => unimplemented(code),
    }
}

/// The opcodes `0x30` to `0x3F`.
fn row_3(code: u8) -> (opcode: Opcode)
    requires
        code / 16 == 3,
    ensures
        opcode == decode(code),
        opcode.code == code,
        1 <= opcode.bytes <= 3,
{
    proof {
        reveal(decode);
    }
    match code {
        0x30 => Opcode::new(0x30, Mnemonic::Bmi, 2, AddressMode::Relative, 2, Surcharge::Branch),
        0x31 => Opcode::new(0x31, Mnemonic::And, 2, AddressMode::IndirectY, 5, Surcharge::PageCross),
        0x35 => Opcode::new(0x35, Mnemonic::And, 2, AddressMode::ZeroPageX, 4, Surcharge::Never),
        0x36 => Opcode::new(0x36, Mnemonic::Rol, 2, AddressMode::ZeroPageX, 6, Surcharge::Never),
        0x38 => Opcode::new(0x38, Mnemonic::Sec, 1, AddressMode::Implied, 2, Surcharge::Never),
        0x39 => Opcode::new(0x39, Mnemonic::And, 3, AddressMode::AbsoluteY, 4, Surcharge::PageCross),
        0x3D => Opcode::new(0x3D, Mnemonic::And, 3, AddressMode::AbsoluteX, 4, Surcharge::PageCross),
        0x3E => Opcode::new(0x3E, Mnemonic::Rol, 3, AddressMode::AbsoluteX, 7, Surcharge::Never),
        _ => unimplemented(code),
    }
}

/// The opcodes `0x40` to `0x4F`.
fn row_4(code: u8) -> (opcode: Opcode)
    requires
        code / 16 == 4,
    ensures
        opcode == decode(code),
        opcode.code == code,
        1 <= opcode.bytes <= 3,
{
    proof {
        reveal(decode);
    }
    match code {
        0x40 => Opcode::new(0x40, Mnemonic::Rti, 1, AddressMode::Implied, 6, Surcharge::Never),
        0x41 => Opcode::new(0x41, Mnemonic::Eor, 2, AddressMode::IndirectX, 6, Surcharge::Never),
        0x45 => Opcode::new(0x45, Mnemonic::Eor, 2, AddressMode::ZeroPage, 3, Surcharge::Never),
        0x46 => Opcode::new(0x46, Mnemonic::Lsr, 2, AddressMode::ZeroPage, 5, Surcharge::Never),
        0x48 => Opcode::new(0x48, Mnemonic::Pha, 1, AddressMode::Implied, 3, Surcharge::Never),
        0x49 => Opcode::new(0x49, Mnemonic::Eor, 2, AddressMode::Immediate, 2, Surcharge::Never),
        0x4A => Opcode::new(0x4A, Mnemonic::Lsr, 1, AddressMode::Accumulator, 2, Surcharge::Never),
        0x4C => Opcode::new(0x4C, Mnemonic::Jmp, 3, AddressMode::Absolute, 3, Surcharge::Never),
        0x4D => Opcode::new(0x4D, Mnemonic::Eor, 3, AddressMode::Absolute, 4, Surcharge::Never),
        0x4E => Opcode::new(0x4E, Mnemonic::Lsr, 3, AddressMode::Absolute, 6, Surcharge::Never),
        _ => unimplemented(code),
    }
}

/// The opcodes `0x50` to `0x5F`.
fn row_5(code: u8) -> (opcode: Opcode)
    requires
        code / 16 == 5,
    ensures
        opcode == decode(code),
        opcode.code == code,
        1 <= opcode.bytes <= 3,
{
    proof {
        reveal(decode);
    }
    match code {
        0x50 => Opcode::new(0x50, Mnemonic::Bvc, 2, AddressMode::Relative, 2, Surcharge::Branch),
        0x51 => Opcode::new(0x51, Mnemonic::Eor, 2, AddressMode::IndirectY, 5, Surcharge::PageCross),
        0x55 => Opcode::new(0x55, Mnemonic::Eor, 2, AddressMode::ZeroPageX, 4, Surcharge::Never),
        0x56 => Opcode::new(0x56, Mnemonic::Lsr, 2, AddressMode::ZeroPageX, 6, Surcharge::Never),
        0x58 => Opcode::new(0x58, Mnemonic::Cli, 1, AddressMode::Implied, 2, Surcharge::Never),
        0x59 => Opcode::new(0x59, Mnemonic::Eor, 3, AddressMode::AbsoluteY, 4, Surcharge::PageCross),
        0x5D => Opcode::new(0x5D, Mnemonic::Eor, 3, AddressMode::AbsoluteX, 4, Surcharge::PageCross),
        0x5E => Opcode::new(0x5E, Mnemonic::Lsr, 3, AddressMode::AbsoluteX, 7, Surcharge::Never),
        _ => unimplemented(code),
    }
}

/// The opcodes `0x60` to `0x6F`.
fn row_6(code: u8) -> (opcode: Opcode)
    requires
        code / 16 == 6,
    ensures
        opcode == decode(code),
        opcode.code == code,
        1 <= opcode.bytes <= 3,
{
    proof {
        reveal(decode);
    }
    match code {
        0x60 => Opcode::new(0x60, Mnemonic::Rts, 1, AddressMode::Implied, 6, Surcharge::Never),
        0x61 => Opcode::new(0x61, Mnemonic::Adc, 2, AddressMode::IndirectX, 6, Surcharge::Never),
        0x65 => Opcode::new(0x65, Mnemonic::Adc, 2, AddressMode::ZeroPage, 3, Surcharge::Never),
        0x66 => Opcode::new(0x66, Mnemonic::Ror, 2, AddressMode::ZeroPage, 5, Surcharge::Never),
        0x68 => Opcode::new(0x68, Mnemonic::Pla, 1, AddressMode::Implied, 4, Surcharge::Never),
        0x69 => Opcode::new(0x69, Mnemonic::Adc, 2, AddressMode::Immediate, 2, Surcharge::Never),
        0x6A => Opcode::new(0x6A, Mnemonic::Ror, 1, AddressMode::Accumulator, 2, Surcharge::Never),
        0x6C => Opcode::new(0x6C, Mnemonic::Jmp, 3, AddressMode::Indirect, 5, Surcharge::Never),
        0x6D => Opcode::new(0x6D, Mnemonic::Adc, 3, AddressMode::Absolute, 4, Surcharge::Never),
        0x6E => Opcode::new(0x6E, Mnemonic::Ror, 3, AddressMode::Absolute, 6, Surcharge::Never),
        _ => unimplemented(code),
    }
}

/// The opcodes `0x70` to `0x7F`.
fn row_7(code: u8) -> (opcode: Opcode)
    requires
        code / 16 == 7,
    ensures
        opcode == decode(code),
        opcode.code == code,
        1 <= opcode.bytes <= 3,
{
    proof {
        reveal(decode);
    }
    match code {
        0x70 => Opcode::new(0x70, Mnemonic::Bvs, 2, AddressMode::Relative, 2, Surcharge::Branch),
        0x71 => Opcode::new(0x71, Mnemonic::Adc, 2, AddressMode::IndirectY, 5, Surcharge::PageCross),
        0x75 => Opcode::new(0x75, Mnemonic::Adc, 2, AddressMode::ZeroPageX, 4, Surcharge::Never),
        0x76 => Opcode::new(0x76, Mnemonic::Ror, 2, AddressMode::ZeroPageX, 6, Surcharge::Never),
        0x78 => Opcode::new(0x78, Mnemonic::Sei, 1, AddressMode::Implied, 2, Surcharge::Never),
        0x79 => Opcode::new(0x79, Mnemonic::Adc, 3, AddressMode::AbsoluteY, 4, Surcharge::PageCross),
        0x7D => Opcode::new(0x7D, Mnemonic::Adc, 3, AddressMode::AbsoluteX, 4, Surcharge::PageCross),
        0x7E => Opcode::new(0x7E, Mnemonic::Ror, 3, AddressMode::AbsoluteX, 7, Surcharge::Never),
        _ => unimplemented(code),
    }
}

/// The opcodes `0x80` to `0x8F`.
fn row_8(code: u8) -> (opcode: Opcode)
    requires
        code / 16 == 8,
    ensures
        opcode == decode(code),
        opcode.code == code,
        1 <= opcode.bytes <= 3,
{
    proof {
        reveal(decode);
    }
    match code {
        0x81 => Opcode::new(0x81, Mnemonic::Sta, 2, AddressMode::IndirectX, 6, Surcharge::Never),
        0x84 => Opcode::new(0x84, Mnemonic::Sty, 2, AddressMode::ZeroPage, 3, Surcharge::Never),
        0x85 => Opcode::new(0x85, Mnemonic::Sta, 2, AddressMode::ZeroPage, 3, Surcharge::Never),
        0x86 => Opcode::new(0x86, Mnemonic::Stx, 2, AddressMode::ZeroPage, 3, Surcharge::Never),
        0x88 => Opcode::new(0x88, Mnemonic::Dey, 1, AddressMode::Implied, 2, Surcharge::Never),
        0x8A => Opcode::new(0x8A, Mnemonic::Txa, 1, AddressMode::Implied, 2, Surcharge::Never),
        0x8C => Opcode::new(0x8C, Mnemonic::Sty, 3, AddressMode::Absolute, 4, Surcharge::Never),
        0x8D => Opcode::new(0x8D, Mnemonic::Sta, 3, AddressMode::Absolute, 4, Surcharge::Never),
        0x8E => Opcode::new(0x8E, Mnemonic::Stx, 3, AddressMode::Absolute, 4, Surcharge::Never),
        _ => unimplemented(code),
    }
}

/// The opcodes `0x90` to `0x9F`.
fn row_9(code: u8) -> (opcode: Opcode)
    requires
        code / 16 == 9,
    ensures
        opcode == decode(code),
        opcode.code == code,
        1 <= opcode.bytes <= 3,
{
    proof {
        reveal(decode);
    }
    match code {
        0x90 => Opcode::new(0x90, Mnemonic::Bcc, 2, AddressMode::Relative, 2, Surcharge::Branch),
        0x91 => Opcode::new(0x91, Mnemonic::Sta, 2, AddressMode::IndirectY, 6, Surcharge::Never),
        0x94 => Opcode::new(0x94, Mnemonic::Sty, 2, AddressMode::ZeroPageX, 4, Surcharge::Never),
        0x95 => Opcode::new(0x95, Mnemonic::Sta, 2, AddressMode::ZeroPageX, 4, Surcharge::Never),
        0x96 => Opcode::new(0x96, Mnemonic::Stx, 2, AddressMode::ZeroPageY, 4, Surcharge::Never),
        0x98 => Opcode::new(0x98, Mnemonic::Tya, 1, AddressMode::Implied, 2, Surcharge::Never),
        0x99 => Opcode::new(0x99, Mnemonic::Sta, 3, AddressMode::AbsoluteY, 5, Surcharge::Never),
        0x9A => Opcode::new(0x9A, Mnemonic::Txs, 1, AddressMode::Implied, 2, Surcharge::Never),
        0x9D => Opcode::new(0x9D, Mnemonic::Sta, 3, AddressMode::AbsoluteX, 5, Surcharge::Never),
        _ => unimplemented(code),
    }
}

/// The opcodes `0xA0` to `0xAF`.
fn row_a(code: u8) -> (opcode: Opcode)
    requires
        code / 16 == 10,
    ensures
        opcode == decode(code),
        opcode.code == code,
        1 <= opcode.bytes <= 3,
{
    proof {
        reveal(decode);
    }
    match code {
        0xA0 => Opcode::new(0xA0, Mnemonic::Ldy, 2, AddressMode::Immediate, 2, Surcharge::Never),
        0xA1 => Opcode::new(0xA1, Mnemonic::Lda, 2, AddressMode::IndirectX, 6, Surcharge::Never),
        0xA2 => Opcode::new(0xA2, Mnemonic::Ldx, 2, AddressMode::Immediate, 2, Surcharge::Never),
        0xA4 => Opcode::new(0xA4, Mnemonic::Ldy, 2, AddressMode::ZeroPage, 3, Surcharge::Never),
        0xA5 => Opcode::new(0xA5, Mnemonic::Lda, 2, AddressMode::ZeroPage, 3, Surcharge::Never),
        0xA6 => Opcode::new(0xA6, Mnemonic::Ldx, 2, AddressMode::ZeroPage, 3, Surcharge::Never),
        0xA8 => Opcode::new(0xA8, Mnemonic::Tay, 1, AddressMode::Implied, 2, Surcharge::Never),
        0xA9 => Opcode::new(0xA9, Mnemonic::Lda, 2, AddressMode::Immediate, 2, Surcharge::Never),
        0xAA => Opcode::new(0xAA, Mnemonic::Tax, 1, AddressMode::Implied, 2, Surcharge::Never),
        0xAC => Opcode::new(0xAC, Mnemonic::Ldy, 3, AddressMode::Absolute, 4, Surcharge::Never),
        0xAD => Opcode::new(0xAD, Mnemonic::Lda, 3, AddressMode::Absolute, 4, Surcharge::Never),
        0xAE => Opcode::new(0xAE, Mnemonic::Ldx, 3, AddressMode::Absolute, 4, Surcharge::Never),
        _ => unimplemented(code),
    }
}

/// The opcodes `0xB0` to `0xBF`.
fn row_b(code: u8) -> (opcode: Opcode)
    requires
        code / 16 == 11,
    ensures
        opcode == decode(code),
        opcode.code == code,
        1 <= opcode.bytes <= 3,
{
    proof {
        reveal(decode);
    }
    match code {
        0xB0 => Opcode::new(0xB0, Mnemonic::Bcs, 2, AddressMode::Relative, 2, Surcharge::Branch),
        0xB1 => Opcode::new(0xB1, Mnemonic::Lda, 2, AddressMode::IndirectY, 5, Surcharge::PageCross),
        0xB4 => Opcode::new(0xB4, Mnemonic::Ldy, 2, AddressMode::ZeroPageX, 4, Surcharge::Never),
        0xB5 => Opcode::new(0xB5, Mnemonic::Lda, 2, AddressMode::ZeroPageX, 4, Surcharge::Never),
        0xB6 => Opcode::new(0xB6, Mnemonic::Ldx, 2, AddressMode::ZeroPageY, 4, Surcharge::Never),
        0xB8 => Opcode::new(0xB8, Mnemonic::Clv, 1, AddressMode::Implied, 2, Surcharge::Never),
        0xB9 => Opcode::new(0xB9, Mnemonic::Lda, 3, AddressMode::AbsoluteY, 4, Surcharge::PageCross),
        0xBA => Opcode::new(0xBA, Mnemonic::Tsx, 1, AddressMode::Implied, 2, Surcharge::Never),
        0xBC => Opcode::new(0xBC, Mnemonic::Ldy, 3, AddressMode::AbsoluteX, 4, Surcharge::PageCross),
        0xBD => Opcode::new(0xBD, Mnemonic::Lda, 3, AddressMode::AbsoluteX, 4, Surcharge::PageCross),
        0xBE => Opcode::new(0xBE, Mnemonic::Ldx, 3, AddressMode::AbsoluteY, 4, Surcharge::PageCross),
        _ => unimplemented(code),
    }
}

/// The opcodes `0xC0` to `0xCF`.
fn row_c(code: u8) -> (opcode: Opcode)
    requires
        code / 16 == 12,
    ensures
        opcode == decode(code),
        opcode.code == code,
        1 <= opcode.bytes <= 3,
{
    proof {
        reveal(decode);
    }
    match code {
        0xC0 => Opcode::new(0xC0, Mnemonic::Cpy, 2, AddressMode::Immediate, 2, Surcharge::Never),
        0xC1 => Opcode::new(0xC1, Mnemonic::Cmp, 2, AddressMode::IndirectX, 6, Surcharge::Never),
        0xC4 => Opcode::new(0xC4, Mnemonic::Cpy, 2, AddressMode::ZeroPage, 3, Surcharge::Never),
        0xC5 => Opcode::new(0xC5, Mnemonic::Cmp, 2, AddressMode::ZeroPage, 3, Surcharge::Never),
        0xC6 => Opcode::new(0xC6, Mnemonic::Dec, 2, AddressMode::ZeroPage, 5, Surcharge::Never),
        0xC8 => Opcode::new(0xC8, Mnemonic::Iny, 1, AddressMode::Implied, 2, Surcharge::Never),
        0xC9 => Opcode::new(0xC9, Mnemonic::Cmp, 2, AddressMode::Immediate, 2, Surcharge::Never),
        0xCA => Opcode::new(0xCA, Mnemonic::Dex, 1, AddressMode::Implied, 2, Surcharge::Never),
        0xCC => Opcode::new(0xCC, Mnemonic::Cpy, 3, AddressMode::Absolute, 4, Surcharge::Never),
        0xCD => Opcode::new(0xCD, Mnemonic::Cmp, 3, AddressMode::Absolute, 4, Surcharge::Never),
        0xCE => Opcode::new(0xCE, Mnemonic::Dec, 3, AddressMode::Absolute, 6, Surcharge::Never),
        _ => unimplemented(code),
    }
}

/// The opcodes `0xD0` to `0xDF`.
fn row_d(code: u8) -> (opcode: Opcode)
    requires
        code / 16 == 13,
    ensures
        opcode == decode(code),
        opcode.code == code,
        1 <= opcode.bytes <= 3,
{
    proof {
        reveal(decode);
    }
    match code {
        0xD0 => Opcode::new(0xD0, Mnemonic::Bne, 2, AddressMode::Relative, 2, Surcharge::Branch),
        0xD1 => Opcode::new(0xD1, Mnemonic::Cmp, 2, AddressMode::IndirectY, 5, Surcharge::PageCross),
        0xD5 => Opcode::new(0xD5, Mnemonic::Cmp, 2, AddressMode::ZeroPageX, 4, Surcharge::Never),
        0xD6 => Opcode::new(0xD6, Mnemonic::Dec, 2, AddressMode::ZeroPageX, 6, Surcharge::Never),
        0xD8 => Opcode::new(0xD8, Mnemonic::Cld, 1, AddressMode::Implied, 2, Surcharge::Never),
        0xD9 => Opcode::new(0xD9, Mnemonic::Cmp, 3, AddressMode::AbsoluteY, 4, Surcharge::PageCross),
        0xDD => Opcode::new(0xDD, Mnemonic::Cmp, 3, AddressMode::AbsoluteX, 4, Surcharge::PageCross),
        0xDE => Opcode::new(0xDE, Mnemonic::Dec, 3, AddressMode::AbsoluteX, 7, Surcharge::Never),
        _ => unimplemented(code),
    }
}

/// The opcodes `0xE0` to `0xEF`.
fn row_e(code: u8) -> (opcode: Opcode)
    requires
        code / 16 == 14,
    ensures
        opcode == decode(code),
        opcode.code == code,
        1 <= opcode.bytes <= 3,
{
    proof {
        reveal(decode);
    }
    match code {
        0xE0 => Opcode::new(0xE0, Mnemonic::Cpx, 2, AddressMode::Immediate, 2, Surcharge::Never),
        0xE1 => Opcode::new(0xE1, Mnemonic::Sbc, 2, AddressMode::IndirectX, 6, Surcharge::Never),
        0xE4 => Opcode::new(0xE4, Mnemonic::Cpx, 2, AddressMode::ZeroPage, 3, Surcharge::Never),
        0xE5 => Opcode::new(0xE5, Mnemonic::Sbc, 2, AddressMode::ZeroPage, 3, Surcharge::Never),
        0xE6 => Opcode::new(0xE6, Mnemonic::Inc, 2, AddressMode::ZeroPage, 5, Surcharge::Never),
        0xE8 => Opcode::new(0xE8, Mnemonic::Inx, 1, AddressMode::Implied, 2, Surcharge::Never),
        0xE9 => Opcode::new(0xE9, Mnemonic::Sbc, 2, AddressMode::Immediate, 2, Surcharge::Never),
        0xEA => Opcode::new(0xEA, Mnemonic::Nop, 1, AddressMode::Implied, 2, Surcharge::Never),
        0xEC => Opcode::new(0xEC, Mnemonic::Cpx, 3, AddressMode::Absolute, 4, Surcharge::Never),
        0xED => Opcode::new(0xED, Mnemonic::Sbc, 3, AddressMode::Absolute, 4, Surcharge::Never),
        0xEE => Opcode::new(0xEE, Mnemonic::Inc, 3, AddressMode::Absolute, 6, Surcharge::Never),
        _ => unimplemented(code),
    }
}

/// The opcodes `0xF0` to `0xFF`.
fn row_f(code: u8) -> (opcode: Opcode)
    requires
        code / 16 == 15,
    ensures
        opcode == decode(code),
        opcode.code == code,
        1 <= opcode.bytes <= 3,
{
    proof {
        reveal(decode);
    }
    match code {
        0xF0 => Opcode::new(0xF0, Mnemonic::Beq, 2, AddressMode::Relative, 2, Surcharge::Branch),
        0xF1 => Opcode::new(0xF1, Mnemonic::Sbc, 2, AddressMode::IndirectY, 5, Surcharge::PageCross),
        0xF5 => Opcode::new(0xF5, Mnemonic::Sbc, 2, AddressMode::ZeroPageX, 4, Surcharge::Never),
        0xF6 => Opcode::new(0xF6, Mnemonic::Inc, 2, AddressMode::ZeroPageX, 6, Surcharge::Never),
        0xF8 => Opcode::new(0xF8, Mnemonic::Sed, 1, AddressMode::Implied, 2, Surcharge::Never),
        0xF9 => Opcode::new(0xF9, Mnemonic::Sbc, 3, AddressMode::AbsoluteY, 4, Surcharge::PageCross),
        0xFD => Opcode::new(0xFD, Mnemonic::Sbc, 3, AddressMode::AbsoluteX, 4, Surcharge::PageCross),
        0xFE => Opcode::new(0xFE, Mnemonic::Inc, 3, AddressMode::AbsoluteX, 7, Surcharge::Never),
        _ => unimplemented(code),
    }
}

/// Looks up the descriptor of an opcode byte.
///
/// Every byte has one. A byte without an operation gets the mnemonic
/// `Unimplemented`, one byte of length and no cycles.
pub fn lookup(code: u8) -> (opcode: Opcode)
    ensures
        opcode == decode(code),
        opcode.code == code,
        1 <= opcode.bytes <= 3,
{
    match code / 16 {
        0 => row_0(code),
        1 => row_1(code),
        2 => row_2(code),
        3 => row_3(code),
        4 => row_4(code),
        5 => row_5(code),
        6 => row_6(code),
        7 => row_7(code),
        8 => row_8(code),
        9 => row_9(code),
        10 => row_a(code),
        11 => row_b(code),
        12 => row_c(code),
        13 => row_d(code),
        14 => row_e(code),
        _ => row_f(code),
    }
}

} // verus!
