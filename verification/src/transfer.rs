//! Loads, stores, register transfers and the stack instructions.

use crate::cpu::Cpu;
use crate::opcode::AddressMode;
use crate::status::{update_zero_negative, Flag};
use vstd::prelude::*;

verus! {

impl Cpu {
    /// Loads `value` into the accumulator and lets Zero and Negative follow
    /// it.
    pub fn load_a(&mut self, value: u8)
        ensures
            final(self)@ == old(self)@.load_a(value),
    {
        self.register_a = value;
        self.status = update_zero_negative(self.status, value);
    }

    /// Loads `value` into the X register and lets Zero and Negative follow
    /// it.
    pub fn load_x(&mut self, value: u8)
        ensures
            final(self)@ == old(self)@.load_x(value),
    {
        self.register_x = value;
        self.status = update_zero_negative(self.status, value);
    }

    /// Loads `value` into the Y register and lets Zero and Negative follow
    /// it.
    pub fn load_y(&mut self, value: u8)
        ensures
            final(self)@ == old(self)@.load_y(value),
    {
        self.register_y = value;
        self.status = update_zero_negative(self.status, value);
    }

    /// LDA: loads the operand into the accumulator.
    pub fn lda(&mut self, address_mode: &AddressMode)
        ensures
            final(self)@ == old(self)@.lda(*address_mode),
    {
        let value = self.read_operand(address_mode);
        self.load_a(value);
    }

    /// LDX: loads the operand into the X register.
    pub fn ldx(&mut self, address_mode: &AddressMode)
        ensures
            final(self)@ == old(self)@.ldx(*address_mode),
    {
        let value = self.read_operand(address_mode);
        self.load_x(value);
    }

    /// LDY: loads the operand into the Y register.
    pub fn ldy(&mut self, address_mode: &AddressMode)
        ensures
            final(self)@ == old(self)@.ldy(*address_mode),
    {
        let value = self.read_operand(address_mode);
        self.load_y(value);
    }

    /// STA: writes the accumulator to the operand's address. No flag
    /// changes.
    pub fn sta(&mut self, address_mode: &AddressMode)
        ensures
            final(self)@ == old(self)@.sta(*address_mode),
    {
        let address = self.read_memory_mode(address_mode);
        self.write_memory(address, self.register_a);
    }

    /// STX: writes the X register to the operand's address. No flag changes.
    pub fn stx(&mut self, address_mode: &AddressMode)
        ensures
            final(self)@ == old(self)@.stx(*address_mode),
    {
        let address = self.read_memory_mode(address_mode);
        self.write_memory(address, self.register_x);
    }

    /// STY: writes the Y register to the operand's address. No flag changes.
    pub fn sty(&mut self, address_mode: &AddressMode)
        ensures
            final(self)@ == old(self)@.sty(*address_mode),
    {
        let address = self.read_memory_mode(address_mode);
        self.write_memory(address, self.register_y);
    }

    /// TAX: copies the accumulator to the X register.
    pub fn tax(&mut self, _address_mode: &AddressMode)
        ensures
            final(self)@ == old(self)@.tax(),
    {
        self.load_x(self.register_a);
    }

    /// TAY: copies the accumulator to the Y register.
    pub fn tay(&mut self, _address_mode: &AddressMode)
        ensures
            final(self)@ == old(self)@.tay(),
    {
        self.load_y(self.register_a);
    }

    /// TXA: copies the X register to the accumulator.
    pub fn txa(&mut self, _address_mode: &AddressMode)
        ensures
            final(self)@ == old(self)@.txa(),
    {
        self.load_a(self.register_x);
    }

    /// TYA: copies the Y register to the accumulator.
    pub fn tya(&mut self, _address_mode: &AddressMode)
        ensures
            final(self)@ == old(self)@.tya(),
    {
        self.load_a(self.register_y);
    }

    /// TSX: copies the stack pointer to the X register.
    pub fn tsx(&mut self, _address_mode: &AddressMode)
        ensures
            final(self)@ == old(self)@.tsx(),
    {
        self.load_x(self.stack_pointer);
    }

    /// TXS: copies the X register to the stack pointer. No flag changes.
    pub fn txs(&mut self, _address_mode: &AddressMode)
        ensures
            final(self)@ == old(self)@.txs(),
    {
        self.stack_pointer = self.register_x;
    }

    /// PHA: pushes the accumulator.
    pub fn pha(&mut self, _address_mode: &AddressMode)
        ensures
            final(self)@ == old(self)@.pha(),
    {
        self.stack_push(self.register_a);
    }

    /// PHP: pushes a copy of the status byte in which Break and the unused
    /// bit are set. The register itself does not change.
    pub fn php(&mut self, _address_mode: &AddressMode)
        ensures
            final(self)@ == old(self)@.php(),
    {
        let copy = crate::status::set(crate::status::set(self.status, Flag::Break), Flag::Unused);
        self.stack_push(copy);
    }

    /// PLA: pulls a byte into the accumulator.
    pub fn pla(&mut self, _address_mode: &AddressMode)
        ensures
            final(self)@ == old(self)@.pla(),
    {
        let value = self.stack_pop();
        self.load_a(value);
    }

    /// PLP: pulls the status byte; Break is dropped and the unused bit is
    /// set, whatever the pulled byte holds there.
    pub fn plp(&mut self, _address_mode: &AddressMode)
        ensures
            final(self)@ == old(self)@.plp(),
    {
        let value = self.stack_pop();
        self.status = crate::status::set(crate::status::clear(value, Flag::Break), Flag::Unused);
    }
}

} // verus!
