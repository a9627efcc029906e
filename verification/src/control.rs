//! Branches, jumps, subroutines, flag instructions and the break.

use crate::cpu::Cpu;
use crate::machine::{EngineState, Machine};
use crate::opcode::{AddressMode, Mnemonic};
use crate::status::Flag;
use vstd::prelude::*;

verus! {

impl Cpu {
    /// Whether the branch `mnemonic` is taken with the flags as they are.
    /// For a mnemonic that is no branch the answer is no.
    pub fn branch_taken(&self, mnemonic: &Mnemonic) -> (taken: bool)
        ensures
            taken == self@.branch_taken(*mnemonic),
    {
        match mnemonic {
            Mnemonic::Bcc => !crate::status::test(self.status, Flag::Carry),
            Mnemonic::Bcs => crate::status::test(self.status, Flag::Carry),
            Mnemonic::Bne => !crate::status::test(self.status, Flag::Zero),
            Mnemonic::Beq => crate::status::test(self.status, Flag::Zero),
            Mnemonic::Bpl => !crate::status::test(self.status, Flag::Negative),
            Mnemonic::Bmi => crate::status::test(self.status, Flag::Negative),
            Mnemonic::Bvc => !crate::status::test(self.status, Flag::Overflow),
            Mnemonic::Bvs => crate::status::test(self.status, Flag::Overflow),
            _ => false,
        }
    }

    /// The address a taken branch goes to when its displacement byte is at
    /// `operand_pointer`, whatever the program counter holds.
    pub fn branch_target_from(&self, operand_pointer: u16) -> (target: u16)
        ensures
            target == (Machine { pc: operand_pointer, ..self@ }).branch_target(),
    {
        let displacement = self.read_memory(operand_pointer);
        let origin = operand_pointer.wrapping_add(1);
        if displacement < 0x80 {
            origin.wrapping_add(displacement as u16)
        } else {
            origin.wrapping_sub(0x100 - displacement as u16)
        }
    }

    /// The address a taken branch goes to: the byte at the program counter,
    /// read as a signed displacement, added to the address of the next
    /// instruction.
    pub fn branch_target(&self) -> (target: u16)
        ensures
            target == self@.branch_target(),
    {
        proof {
            assert(self@ == (Machine { pc: self.program_pointer, ..self@ }));
        }
        self.branch_target_from(self.program_pointer)
    }

    /// Whether a taken branch would land in another page than the
    /// instruction after the branch.
    pub fn branch_crosses_page(&self) -> (crosses: bool)
        ensures
            crosses == self@.branch_crosses_page(),
    {
        let origin = self.program_pointer.wrapping_add(1);
        let target = self.branch_target();
        origin / 0x100 != target / 0x100
    }

    /// Performs the branch `mnemonic`: if it is taken the program counter
    /// goes to the branch target, else nothing changes.
    pub fn branch(&mut self, mnemonic: &Mnemonic)
        ensures
            final(self)@ == old(self)@.branch(*mnemonic),
    {
        if self.branch_taken(mnemonic) {
            self.program_pointer = self.branch_target();
        }
    }

    /// BCC: branches when Carry is clear.
    pub fn bcc(&mut self, _address_mode: &AddressMode)
        ensures
            final(self)@ == old(self)@.branch(Mnemonic::Bcc),
    {
        self.branch(&Mnemonic::Bcc);
    }

    /// BCS: branches when Carry is set.
    pub fn bcs(&mut self, _address_mode: &AddressMode)
        ensures
            final(self)@ == old(self)@.branch(Mnemonic::Bcs),
    {
        self.branch(&Mnemonic::Bcs);
    }

    /// BEQ: branches when Zero is set.
    pub fn beq(&mut self, _address_mode: &AddressMode)
        ensures
            final(self)@ == old(self)@.branch(Mnemonic::Beq),
    {
        self.branch(&Mnemonic::Beq);
    }

    /// BNE: branches when Zero is clear.
    pub fn bne(&mut self, _address_mode: &AddressMode)
        ensures
            final(self)@ == old(self)@.branch(Mnemonic::Bne),
    {
        self.branch(&Mnemonic::Bne);
    }

    /// BMI: branches when Negative is set.
    pub fn bmi(&mut self, _address_mode: &AddressMode)
        ensures
            final(self)@ == old(self)@.branch(Mnemonic::Bmi),
    {
        self.branch(&Mnemonic::Bmi);
    }

    /// BPL: branches when Negative is clear.
    pub fn bpl(&mut self, _address_mode: &AddressMode)
        ensures
            final(self)@ == old(self)@.branch(Mnemonic::Bpl),
    {
        self.branch(&Mnemonic::Bpl);
    }

    /// BVC: branches when Overflow is clear.
    pub fn bvc(&mut self, _address_mode: &AddressMode)
        ensures
            final(self)@ == old(self)@.branch(Mnemonic::Bvc),
    {
        self.branch(&Mnemonic::Bvc);
    }

    /// BVS: branches when Overflow is set.
    pub fn bvs(&mut self, _address_mode: &AddressMode)
        ensures
            final(self)@ == old(self)@.branch(Mnemonic::Bvs),
    {
        self.branch(&Mnemonic::Bvs);
    }

    /// JMP: continues at the operand's address.
    ///
    /// In indirect mode the address is read through a pointer whose high
    /// byte comes from the same page as its low byte: a pointer at the last
    /// byte of a page takes its high byte from the first byte of that page.
    pub fn jmp(&mut self, address_mode: &AddressMode)
        ensures
            final(self)@ == old(self)@.jmp(*address_mode),
    {
        self.program_pointer = self.read_memory_mode(address_mode);
    }

    /// JSR: pushes the address of its own last byte, high byte first, then
    /// continues at the operand's address.
    pub fn jsr(&mut self, address_mode: &AddressMode)
        ensures
            final(self)@ == old(self)@.jsr(*address_mode),
    {
        let return_address = self.program_pointer.wrapping_add(1);
        self.stack_push_u16(return_address);
        self.program_pointer = self.read_memory_mode(address_mode);
    }

    /// RTS: pulls an address and continues at the byte after it.
    pub fn rts(&mut self, _address_mode: &AddressMode)
        ensures
            final(self)@ == old(self)@.rts(),
    {
        let address = self.stack_pop_u16();
        self.program_pointer = address.wrapping_add(1);
    }

    /// RTI: pulls the status byte as PLP does, then pulls the program
    /// counter.
    pub fn rti(&mut self, _address_mode: &AddressMode)
        ensures
            final(self)@ == old(self)@.rti(),
    {
        let value = self.stack_pop();
        self.status = crate::status::set(crate::status::clear(value, Flag::Break), Flag::Unused);
        self.program_pointer = self.stack_pop_u16();
    }

    /// CLC: clears Carry.
    pub fn clc(&mut self, _address_mode: &AddressMode)
        ensures
            final(self)@ == old(self)@.clc(),
    {
        self.status = crate::status::clear(self.status, Flag::Carry);
    }

    /// SEC: sets Carry.
    pub fn sec(&mut self, _address_mode: &AddressMode)
        ensures
            final(self)@ == old(self)@.sec(),
    {
        self.status = crate::status::set(self.status, Flag::Carry);
    }

    /// CLI: clears Interrupt-Disable.
    pub fn cli(&mut self, _address_mode: &AddressMode)
        ensures
            final(self)@ == old(self)@.cli(),
    {
        self.status = crate::status::clear(self.status, Flag::InterruptDisable);
    }

    /// SEI: sets Interrupt-Disable.
    pub fn sei(&mut self, _address_mode: &AddressMode)
        ensures
            final(self)@ == old(self)@.sei(),
    {
        self.status = crate::status::set(self.status, Flag::InterruptDisable);
    }

    /// CLV: clears Overflow.
    pub fn clv(&mut self, _address_mode: &AddressMode)
        ensures
            final(self)@ == old(self)@.clv(),
    {
        self.status = crate::status::clear(self.status, Flag::Overflow);
    }

    /// CLD: clears Decimal.
    pub fn cld(&mut self, _address_mode: &AddressMode)
        ensures
            final(self)@ == old(self)@.cld(),
    {
        self.status = crate::status::clear(self.status, Flag::Decimal);
    }

    /// SED: sets Decimal.
    pub fn sed(&mut self, _address_mode: &AddressMode)
        ensures
            final(self)@ == old(self)@.sed(),
    {
        self.status = crate::status::set(self.status, Flag::Decimal);
    }

    /// NOP: changes nothing.
    pub fn nop(&mut self, _address_mode: &AddressMode)
        ensures
            final(self)@ == old(self)@,
    {
    }

    /// BRK: stops the engine. Registers, flags and memory stay as they are.
    pub fn brk(&mut self, _address_mode: &AddressMode)
        ensures
            final(self)@ == old(self)@.brk(),
            final(self)@.state == EngineState::Halted,
    {
        self.state = EngineState::Halted;
    }
}

} // verus!
