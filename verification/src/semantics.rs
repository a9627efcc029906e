//! What each instruction does to the machine, as functions of the model.
//!
//! Each function takes the machine with the program counter at the first
//! operand byte and returns the machine after the instruction's operation.
//! Advancing the program counter past the operand and counting cycles is the
//! engine's part, not the instruction's.

use crate::machine::{wrap16, wrap8, EngineState, Machine};
use crate::opcode::{AddressMode, Mnemonic};
use crate::status::{
    add_signed_total, add_total, carry_value, is_set, out_of_signed_range, signed,
    sub_signed_total, sub_total, with_flag, with_zero_negative, Flag,
};
use vstd::prelude::*;

verus! {

/// The status byte as it is written to the stack: Break and the unused bit
/// are set in the copy.
pub open spec fn pushed_status(status: u8) -> u8 {
    with_flag(with_flag(status, Flag::Break, true), Flag::Unused, true)
}

/// The status byte as it is taken from the stack: Break is dropped and the
/// unused bit is set.
pub open spec fn pulled_status(data: u8) -> u8 {
    with_flag(with_flag(data, Flag::Break, false), Flag::Unused, true)
}

/// Status after an addition or subtraction: Carry and Overflow as given,
/// Zero and Negative from the result.
pub open spec fn arithmetic_status(status: u8, carry: bool, overflow: bool, result: u8) -> u8 {
    with_zero_negative(
        with_flag(with_flag(status, Flag::Carry, carry), Flag::Overflow, overflow),
        result,
    )
}

/// Status after a shift or rotate: Carry holds the bit shifted out, Zero and
/// Negative come from the result.
pub open spec fn shift_status(status: u8, carry: bool, result: u8) -> u8 {
    with_zero_negative(with_flag(status, Flag::Carry, carry), result)
}

/// Status after comparing a register with an operand: Carry when the
/// register is not below the operand, Zero and Negative from their
/// eight-bit difference.
pub open spec fn compare_status(status: u8, register: u8, operand: u8) -> u8 {
    with_zero_negative(
        with_flag(status, Flag::Carry, register >= operand),
        wrap8(register - operand),
    )
}

/// Status after a bit test: Zero when accumulator and operand share no bit,
/// Overflow and Negative copied from bits 6 and 7 of the operand.
pub open spec fn bit_test_status(status: u8, accumulator: u8, operand: u8) -> u8 {
    with_flag(
        with_flag(
            with_flag(status, Flag::Zero, accumulator & operand == 0),
            Flag::Overflow,
            is_set(operand, Flag::Overflow),
        ),
        Flag::Negative,
        is_set(operand, Flag::Negative),
    )
}

impl Machine {
    /// Whether `flag` is set in the status byte.
    pub open spec fn flag(self, flag: Flag) -> bool {
        is_set(self.status, flag)
    }

    /// The machine with `flag` forced to `value`.
    pub open spec fn with_status_flag(self, flag: Flag, value: bool) -> Machine {
        Machine { status: with_flag(self.status, flag, value), ..self }
    }

    /// `value` loaded into the accumulator, Zero and Negative following it.
    pub open spec fn load_a(self, value: u8) -> Machine {
        Machine { a: value, status: with_zero_negative(self.status, value), ..self }
    }

    /// `value` loaded into the X register, Zero and Negative following it.
    pub open spec fn load_x(self, value: u8) -> Machine {
        Machine { x: value, status: with_zero_negative(self.status, value), ..self }
    }

    /// `value` loaded into the Y register, Zero and Negative following it.
    pub open spec fn load_y(self, value: u8) -> Machine {
        Machine { y: value, status: with_zero_negative(self.status, value), ..self }
    }

    /// The operand into the accumulator.
    pub open spec fn lda(self, mode: AddressMode) -> Machine {
        self.load_a(self.operand(mode))
    }

    /// The operand into the X register.
    pub open spec fn ldx(self, mode: AddressMode) -> Machine {
        self.load_x(self.operand(mode))
    }

    /// The operand into the Y register.
    pub open spec fn ldy(self, mode: AddressMode) -> Machine {
        self.load_y(self.operand(mode))
    }

    /// The accumulator to the operand's address. No flag changes.
    pub open spec fn sta(self, mode: AddressMode) -> Machine {
        self.write(self.operand_address(mode), self.a)
    }

    /// The X register to the operand's address. No flag changes.
    pub open spec fn stx(self, mode: AddressMode) -> Machine {
        self.write(self.operand_address(mode), self.x)
    }

    /// The Y register to the operand's address. No flag changes.
    pub open spec fn sty(self, mode: AddressMode) -> Machine {
        self.write(self.operand_address(mode), self.y)
    }

    /// The accumulator into the X register.
    pub open spec fn tax(self) -> Machine {
        self.load_x(self.a)
    }

    /// The accumulator into the Y register.
    pub open spec fn tay(self) -> Machine {
        self.load_y(self.a)
    }

    /// The X register into the accumulator.
    pub open spec fn txa(self) -> Machine {
        self.load_a(self.x)
    }

    /// The Y register into the accumulator.
    pub open spec fn tya(self) -> Machine {
        self.load_a(self.y)
    }

    /// The stack pointer into the X register.
    pub open spec fn tsx(self) -> Machine {
        self.load_x(self.sp)
    }

    /// The one transfer that leaves the flags alone.
    pub open spec fn txs(self) -> Machine {
        Machine { sp: self.x, ..self }
    }

    /// The accumulator onto the stack.
    pub open spec fn pha(self) -> Machine {
        self.push(self.a)
    }

    /// A copy of the status byte onto the stack, Break and the unused bit set
    /// in the copy.
    pub open spec fn php(self) -> Machine {
        self.push(pushed_status(self.status))
    }

    /// A byte from the stack into the accumulator.
    pub open spec fn pla(self) -> Machine {
        self.pull().load_a(self.pulled())
    }

    /// A byte from the stack into the status register, Break dropped and the
    /// unused bit set.
    pub open spec fn plp(self) -> Machine {
        Machine { status: pulled_status(self.pulled()), ..self.pull() }
    }

    /// Accumulator plus operand plus carry.
    pub open spec fn adc(self, mode: AddressMode) -> Machine {
        let operand = self.operand(mode);
        let carry = self.flag(Flag::Carry);
        let result = wrap8(add_total(self.a, operand, carry));
        Machine {
            a: result,
            status: arithmetic_status(
                self.status,
                add_total(self.a, operand, carry) > 0xFF,
                out_of_signed_range(add_signed_total(self.a, operand, carry)),
                result,
            ),
            ..self
        }
    }

    /// Accumulator minus operand minus borrow, the borrow being the
    /// complement of the carry.
    pub open spec fn sbc(self, mode: AddressMode) -> Machine {
        let operand = self.operand(mode);
        let carry = self.flag(Flag::Carry);
        let result = wrap8(sub_total(self.a, operand, carry));
        Machine {
            a: result,
            status: arithmetic_status(
                self.status,
                sub_total(self.a, operand, carry) >= 0,
                out_of_signed_range(sub_signed_total(self.a, operand, carry)),
                result,
            ),
            ..self
        }
    }

    /// `value` written in place of the operand, Zero and Negative following
    /// it.
    pub open spec fn replace_operand(self, mode: AddressMode, value: u8) -> Machine {
        Machine {
            status: with_zero_negative(self.status, value),
            ..self.store_operand(mode, value)
        }
    }

    /// The operand plus one, from `0xFF` to `0x00`.
    pub open spec fn inc(self, mode: AddressMode) -> Machine {
        self.replace_operand(mode, wrap8(self.operand(mode) + 1))
    }

    /// The operand minus one, from `0x00` to `0xFF`.
    pub open spec fn dec(self, mode: AddressMode) -> Machine {
        self.replace_operand(mode, wrap8(self.operand(mode) - 1))
    }

    /// The X register plus one.
    pub open spec fn inx(self) -> Machine {
        self.load_x(wrap8(self.x + 1))
    }

    /// The Y register plus one.
    pub open spec fn iny(self) -> Machine {
        self.load_y(wrap8(self.y + 1))
    }

    /// The X register minus one.
    pub open spec fn dex(self) -> Machine {
        self.load_x(wrap8(self.x - 1))
    }

    /// The Y register minus one.
    pub open spec fn dey(self) -> Machine {
        self.load_y(wrap8(self.y - 1))
    }

    /// Accumulator and operand, bit by bit, into the accumulator.
    pub open spec fn and(self, mode: AddressMode) -> Machine {
        self.load_a(self.a & self.operand(mode))
    }

    /// Accumulator or operand, bit by bit, into the accumulator.
    pub open spec fn ora(self, mode: AddressMode) -> Machine {
        self.load_a(self.a | self.operand(mode))
    }

    /// Accumulator exclusive-or operand, bit by bit, into the accumulator.
    pub open spec fn eor(self, mode: AddressMode) -> Machine {
        self.load_a(self.a ^ self.operand(mode))
    }

    /// `value` written in place of the operand after a shift or rotate that
    /// moved `carry` out.
    pub open spec fn shifted(self, mode: AddressMode, carry: bool, value: u8) -> Machine {
        Machine {
            status: shift_status(self.status, carry, value),
            ..self.store_operand(mode, value)
        }
    }

    /// The operand doubled; bit 7 goes to Carry.
    pub open spec fn asl(self, mode: AddressMode) -> Machine {
        let operand = self.operand(mode);
        self.shifted(mode, operand >= 0x80, wrap8(operand * 2))
    }

    /// The operand halved; bit 0 goes to Carry.
    pub open spec fn lsr(self, mode: AddressMode) -> Machine {
        let operand = self.operand(mode);
        self.shifted(mode, operand % 2 == 1, operand / 2)
    }

    /// The operand doubled with the old Carry entering at bit 0; bit 7 goes
    /// to Carry.
    pub open spec fn rol(self, mode: AddressMode) -> Machine {
        let operand = self.operand(mode);
        self.shifted(
            mode,
            operand >= 0x80,
            wrap8(operand * 2 + carry_value(self.flag(Flag::Carry))),
        )
    }

    /// The operand halved with the old Carry entering at bit 7; bit 0 goes
    /// to Carry.
    pub open spec fn ror(self, mode: AddressMode) -> Machine {
        let operand = self.operand(mode);
        self.shifted(
            mode,
            operand % 2 == 1,
            wrap8(operand / 2 + 0x80 * carry_value(self.flag(Flag::Carry))),
        )
    }

    /// The flags of comparing `register` with the operand. No register
    /// changes.
    pub open spec fn compare(self, register: u8, mode: AddressMode) -> Machine {
        Machine { status: compare_status(self.status, register, self.operand(mode)), ..self }
    }

    /// The accumulator compared with the operand.
    pub open spec fn cmp(self, mode: AddressMode) -> Machine {
        self.compare(self.a, mode)
    }

    /// The X register compared with the operand.
    pub open spec fn cpx(self, mode: AddressMode) -> Machine {
        self.compare(self.x, mode)
    }

    /// The Y register compared with the operand.
    pub open spec fn cpy(self, mode: AddressMode) -> Machine {
        self.compare(self.y, mode)
    }

    /// The operand tested against the accumulator. No register changes.
    pub open spec fn bit(self, mode: AddressMode) -> Machine {
        Machine { status: bit_test_status(self.status, self.a, self.operand(mode)), ..self }
    }

    /// Whether the given branch is taken. Not a branch: not taken.
    pub open spec fn branch_taken(self, mnemonic: Mnemonic) -> bool {
        match mnemonic {
            Mnemonic::Bcc => !self.flag(Flag::Carry),
            Mnemonic::Bcs => self.flag(Flag::Carry),
            Mnemonic::Bne => !self.flag(Flag::Zero),
            Mnemonic::Beq => self.flag(Flag::Zero),
            Mnemonic::Bpl => !self.flag(Flag::Negative),
            Mnemonic::Bmi => self.flag(Flag::Negative),
            Mnemonic::Bvc => !self.flag(Flag::Overflow),
            Mnemonic::Bvs => self.flag(Flag::Overflow),
            _ => false,
        }
    }

    /// Address of the instruction after a branch whose displacement byte is
    /// at the program counter.
    pub open spec fn branch_origin(self) -> u16 {
        wrap16(self.pc + 1)
    }

    /// Where a taken branch goes: the signed displacement at the program
    /// counter, added to the address of the next instruction.
    pub open spec fn branch_target(self) -> u16 {
        wrap16(self.pc + 1 + signed(self.read(self.pc)))
    }

    /// Whether a taken branch would land in another page than the next
    /// instruction.
    pub open spec fn branch_crosses_page(self) -> bool {
        crate::machine::page(self.branch_origin()) != crate::machine::page(self.branch_target())
    }

    /// The machine after a branch on `mnemonic`.
    pub open spec fn branch(self, mnemonic: Mnemonic) -> Machine {
        if self.branch_taken(mnemonic) {
            Machine { pc: self.branch_target(), ..self }
        } else {
            self
        }
    }

    /// Continues at the operand's address.
    pub open spec fn jmp(self, mode: AddressMode) -> Machine {
        Machine { pc: self.operand_address(mode), ..self }
    }

    /// Pushes the address of the instruction's last byte, then jumps.
    pub open spec fn jsr(self, mode: AddressMode) -> Machine {
        let pushed = self.push_word(wrap16(self.pc + 1));
        Machine { pc: pushed.operand_address(mode), ..pushed }
    }

    /// Pulls an address and continues one byte after it.
    pub open spec fn rts(self) -> Machine {
        Machine { pc: wrap16(self.pulled_word() + 1), ..self.pull().pull() }
    }

    /// Pulls the status, then the program counter.
    pub open spec fn rti(self) -> Machine {
        let after_status = self.pull();
        Machine {
            pc: after_status.pulled_word(),
            status: pulled_status(self.pulled()),
            ..after_status.pull().pull()
        }
    }

    /// Carry cleared.
    pub open spec fn clc(self) -> Machine {
        self.with_status_flag(Flag::Carry, false)
    }

    /// Carry set.
    pub open spec fn sec(self) -> Machine {
        self.with_status_flag(Flag::Carry, true)
    }

    /// Interrupt-Disable cleared.
    pub open spec fn cli(self) -> Machine {
        self.with_status_flag(Flag::InterruptDisable, false)
    }

    /// Interrupt-Disable set.
    pub open spec fn sei(self) -> Machine {
        self.with_status_flag(Flag::InterruptDisable, true)
    }

    /// Overflow cleared.
    pub open spec fn clv(self) -> Machine {
        self.with_status_flag(Flag::Overflow, false)
    }

    /// Decimal cleared.
    pub open spec fn cld(self) -> Machine {
        self.with_status_flag(Flag::Decimal, false)
    }

    /// Decimal set.
    pub open spec fn sed(self) -> Machine {
        self.with_status_flag(Flag::Decimal, true)
    }

    /// The break instruction stops the engine and changes nothing else.
    pub open spec fn brk(self) -> Machine {
        Machine { state: EngineState::Halted, ..self }
    }

    /// The machine after the operation of `mnemonic` in `mode`.
    /// `Unimplemented` has no operation and leaves the machine as it is.
    #[verifier::opaque]
    pub open spec fn execute(self, mnemonic: Mnemonic, mode: AddressMode) -> Machine {
        match mnemonic {
            Mnemonic::Adc => self.adc(mode),
            Mnemonic::And => self.and(mode),
            Mnemonic::Asl => self.asl(mode),
            Mnemonic::Bcc
            | Mnemonic::Bcs
            | Mnemonic::Beq
            | Mnemonic::Bmi
            | Mnemonic::Bne
            | Mnemonic::Bpl
            | Mnemonic::Bvc
            | Mnemonic::Bvs => self.branch(mnemonic),
            Mnemonic::Bit => self.bit(mode),
            Mnemonic::Brk => self.brk(),
            Mnemonic::Clc => self.clc(),
            Mnemonic::Cld => self.cld(),
            Mnemonic::Cli => self.cli(),
            Mnemonic::Clv => self.clv(),
            Mnemonic::Cmp => self.cmp(mode),
            Mnemonic::Cpx => self.cpx(mode),
            Mnemonic::Cpy => self.cpy(mode),
            Mnemonic::Dec => self.dec(mode),
            Mnemonic::Dex => self.dex(),
            Mnemonic::Dey => self.dey(),
            Mnemonic::Eor => self.eor(mode),
            Mnemonic::Inc => self.inc(mode),
            Mnemonic::Inx => self.inx(),
            Mnemonic::Iny => self.iny(),
            Mnemonic::Jmp => self.jmp(mode),
            Mnemonic::Jsr => self.jsr(mode),
            Mnemonic::Lda => self.lda(mode),
            Mnemonic::Ldx => self.ldx(mode),
            Mnemonic::Ldy => self.ldy(mode),
            Mnemonic::Lsr => self.lsr(mode),
            Mnemonic::Nop => self,
            Mnemonic::Ora => self.ora(mode),
            Mnemonic::Pha => self.pha(),
            Mnemonic::Php => self.php(),
            Mnemonic::Pla => self.pla(),
            Mnemonic::Plp => self.plp(),
            Mnemonic::Rol => self.rol(mode),
            Mnemonic::Ror => self.ror(mode),
            Mnemonic::Rti => self.rti(),
            Mnemonic::Rts => self.rts(),
            Mnemonic::Sbc => self.sbc(mode),
            Mnemonic::Sec => self.sec(),
            Mnemonic::Sed => self.sed(),
            Mnemonic::Sei => self.sei(),
            Mnemonic::Sta => self.sta(mode),
            Mnemonic::Stx => self.stx(mode),
            Mnemonic::Sty => self.sty(mode),
            Mnemonic::Tax => self.tax(),
            Mnemonic::Tay => self.tay(),
            Mnemonic::Tsx => self.tsx(),
            Mnemonic::Txa => self.txa(),
            Mnemonic::Txs => self.txs(),
            Mnemonic::Tya => self.tya(),
            Mnemonic::Unimplemented => self,
        }
    }
}

} // verus!
