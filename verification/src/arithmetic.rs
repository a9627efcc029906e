//! Arithmetic, logic, shifts and compares.

use crate::bits::{lemma_low_bit, lemma_shift_left, lemma_shift_right, lemma_sign_bit};
use crate::cpu::Cpu;
use crate::opcode::AddressMode;
use crate::status::{
    assign, update_carry_overflow_for_add, update_carry_overflow_for_sub, update_zero_negative,
    Flag,
};
use vstd::prelude::*;

verus! {

impl Cpu {
    /// ADC: adds the operand and the carry to the accumulator.
    ///
    /// Carry receives the carry out of bit 7, Overflow tells whether the
    /// signed sum left the range of a signed byte, Zero and Negative follow
    /// the result. Decimal mode has no effect on the sum.
    pub fn adc(&mut self, address_mode: &AddressMode)
        ensures
            final(self)@ == old(self)@.adc(*address_mode),
    {
        let operand = self.read_operand(address_mode);
        let carry_in = crate::status::test(self.status, Flag::Carry);
        let (result, carry, overflow) = update_carry_overflow_for_add(
            self.register_a,
            operand,
            carry_in,
        );
        self.status = assign(self.status, Flag::Carry, carry);
        self.status = assign(self.status, Flag::Overflow, overflow);
        self.status = update_zero_negative(self.status, result);
        self.register_a = result;
    }

    /// SBC: subtracts the operand and the borrow from the accumulator; the
    /// borrow is the complement of the carry.
    ///
    /// Carry is set when no borrow was needed, Overflow tells whether the
    /// signed difference left the range of a signed byte, Zero and Negative
    /// follow the result. Decimal mode has no effect on the difference.
    pub fn sbc(&mut self, address_mode: &AddressMode)
        ensures
            final(self)@ == old(self)@.sbc(*address_mode),
    {
        let operand = self.read_operand(address_mode);
        let carry_in = crate::status::test(self.status, Flag::Carry);
        let (result, carry, overflow) = update_carry_overflow_for_sub(
            self.register_a,
            operand,
            carry_in,
        );
        self.status = assign(self.status, Flag::Carry, carry);
        self.status = assign(self.status, Flag::Overflow, overflow);
        self.status = update_zero_negative(self.status, result);
        self.register_a = result;
    }

    /// Writes `value` in place of the operand and lets Zero and Negative
    /// follow it.
    pub fn replace_operand(&mut self, address_mode: &AddressMode, value: u8)
        ensures
            final(self)@ == old(self)@.replace_operand(*address_mode, value),
    {
        self.write_operand(address_mode, value);
        self.status = update_zero_negative(self.status, value);
    }

    /// INC: adds one to the operand, from `0xFF` to `0x00`.
    pub fn inc(&mut self, address_mode: &AddressMode)
        ensures
            final(self)@ == old(self)@.inc(*address_mode),
    {
        let value = self.read_operand(address_mode);
        self.replace_operand(address_mode, value.wrapping_add(1));
    }

    /// DEC: subtracts one from the operand, from `0x00` to `0xFF`.
    pub fn dec(&mut self, address_mode: &AddressMode)
        ensures
            final(self)@ == old(self)@.dec(*address_mode),
    {
        let value = self.read_operand(address_mode);
        self.replace_operand(address_mode, value.wrapping_sub(1));
    }

    /// INX: adds one to the X register.
    pub fn inx(&mut self, _address_mode: &AddressMode)
        ensures
            final(self)@ == old(self)@.inx(),
    {
        self.load_x(self.register_x.wrapping_add(1));
    }

    /// INY: adds one to the Y register.
    pub fn iny(&mut self, _address_mode: &AddressMode)
        ensures
            final(self)@ == old(self)@.iny(),
    {
        self.load_y(self.register_y.wrapping_add(1));
    }

    /// DEX: subtracts one from the X register.
    pub fn dex(&mut self, _address_mode: &AddressMode)
        ensures
            final(self)@ == old(self)@.dex(),
    {
        self.load_x(self.register_x.wrapping_sub(1));
    }

    /// DEY: subtracts one from the Y register.
    pub fn dey(&mut self, _address_mode: &AddressMode)
        ensures
            final(self)@ == old(self)@.dey(),
    {
        self.load_y(self.register_y.wrapping_sub(1));
    }

    /// AND: bitwise and of accumulator and operand, into the accumulator.
    pub fn and(&mut self, address_mode: &AddressMode)
        ensures
            final(self)@ == old(self)@.and(*address_mode),
    {
        let operand = self.read_operand(address_mode);
        self.load_a(self.register_a & operand);
    }

    /// ORA: bitwise or of accumulator and operand, into the accumulator.
    pub fn ora(&mut self, address_mode: &AddressMode)
        ensures
            final(self)@ == old(self)@.ora(*address_mode),
    {
        let operand = self.read_operand(address_mode);
        self.load_a(self.register_a | operand);
    }

    /// EOR: bitwise exclusive or of accumulator and operand, into the
    /// accumulator.
    pub fn eor(&mut self, address_mode: &AddressMode)
        ensures
            final(self)@ == old(self)@.eor(*address_mode),
    {
        let operand = self.read_operand(address_mode);
        self.load_a(self.register_a ^ operand);
    }

    /// Writes the result of a shift or rotate in place of the operand,
    /// stores the bit that was moved out in Carry and lets Zero and Negative
    /// follow the result.
    pub fn shifted(&mut self, address_mode: &AddressMode, carry: bool, value: u8)
        ensures
            final(self)@ == old(self)@.shifted(*address_mode, carry, value),
    {
        self.write_operand(address_mode, value);
        self.status = assign(self.status, Flag::Carry, carry);
        self.status = update_zero_negative(self.status, value);
    }

    /// ASL: shifts the operand left by one; bit 7 goes to Carry.
    pub fn asl(&mut self, address_mode: &AddressMode)
        ensures
            final(self)@ == old(self)@.asl(*address_mode),
    {
        let operand = self.read_operand(address_mode);
        proof {
            lemma_sign_bit(operand);
            lemma_shift_left(operand);
        }
        self.shifted(address_mode, operand & 0x80 != 0, operand << 1);
    }

    /// LSR: shifts the operand right by one; bit 0 goes to Carry.
    pub fn lsr(&mut self, address_mode: &AddressMode)
        ensures
            final(self)@ == old(self)@.lsr(*address_mode),
    {
        let operand = self.read_operand(address_mode);
        proof {
            lemma_low_bit(operand);
            lemma_shift_right(operand);
        }
        self.shifted(address_mode, operand & 0x01 != 0, operand >> 1);
    }

    /// ROL: rotates the operand left through Carry: the old Carry enters at
    /// bit 0, bit 7 goes to Carry.
    pub fn rol(&mut self, address_mode: &AddressMode)
        ensures
            final(self)@ == old(self)@.rol(*address_mode),
    {
        let operand = self.read_operand(address_mode);
        let carry_in = crate::status::test(self.status, Flag::Carry);
        proof {
            lemma_sign_bit(operand);
            lemma_shift_left(operand);
        }
        let result = if carry_in {
            (operand << 1) | 0x01
        } else {
            operand << 1
        };
        self.shifted(address_mode, operand & 0x80 != 0, result);
    }

    /// ROR: rotates the operand right through Carry: the old Carry enters at
    /// bit 7, bit 0 goes to Carry.
    pub fn ror(&mut self, address_mode: &AddressMode)
        ensures
            final(self)@ == old(self)@.ror(*address_mode),
    {
        let operand = self.read_operand(address_mode);
        let carry_in = crate::status::test(self.status, Flag::Carry);
        proof {
            lemma_low_bit(operand);
            lemma_shift_right(operand);
        }
        let result = if carry_in {
            (operand >> 1) | 0x80
        } else {
            operand >> 1
        };
        self.shifted(address_mode, operand & 0x01 != 0, result);
    }

    /// Compares `register` with the operand: Carry when the register is not
    /// below the operand, Zero when they are equal, Negative from bit 7 of
    /// their eight-bit difference. No register changes.
    pub fn compare(&mut self, register: u8, address_mode: &AddressMode)
        ensures
            final(self)@ == old(self)@.compare(register, *address_mode),
    {
        let operand = self.read_operand(address_mode);
        self.status = assign(self.status, Flag::Carry, register >= operand);
        self.status = update_zero_negative(self.status, register.wrapping_sub(operand));
    }

    /// CMP: compares the accumulator with the operand.
    pub fn cmp(&mut self, address_mode: &AddressMode)
        ensures
            final(self)@ == old(self)@.cmp(*address_mode),
    {
        self.compare(self.register_a, address_mode);
    }

    /// CPX: compares the X register with the operand.
    pub fn cpx(&mut self, address_mode: &AddressMode)
        ensures
            final(self)@ == old(self)@.cpx(*address_mode),
    {
        self.compare(self.register_x, address_mode);
    }

    /// CPY: compares the Y register with the operand.
    pub fn cpy(&mut self, address_mode: &AddressMode)
        ensures
            final(self)@ == old(self)@.cpy(*address_mode),
    {
        self.compare(self.register_y, address_mode);
    }

    /// BIT: tests the operand against the accumulator. Zero when they share
    /// no bit; Overflow and Negative are copies of bits 6 and 7 of the
    /// operand. No register changes.
    pub fn bit(&mut self, address_mode: &AddressMode)
        ensures
            final(self)@ == old(self)@.bit(*address_mode),
    {
        let operand = self.read_operand(address_mode);
        self.status = assign(self.status, Flag::Zero, self.register_a & operand == 0);
        self.status = assign(
            self.status,
            Flag::Overflow,
            crate::status::test(operand, Flag::Overflow),
        );
        self.status = assign(
            self.status,
            Flag::Negative,
            crate::status::test(operand, Flag::Negative),
        );
    }
}

} // verus!
