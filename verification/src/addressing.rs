//! The addressing-mode resolver: from a mode, the registers and the bytes
//! after the opcode to the address of the operand. It reads and never
//! writes.

use crate::cpu::Cpu;
use crate::machine::{page, wrap16, wrap8, Machine};
use crate::opcode::AddressMode;
use vstd::prelude::*;

verus! {

/// Adds an index register to a zero-page offset; the sum stays in page zero.
pub fn zero_page_indexed(base: u8, index: u8) -> (address: u16)
    ensures
        address == wrap8(base + index),
        address < 0x100,
{
    base.wrapping_add(index) as u16
}

/// Adds an index register to a sixteen-bit address; the sum wraps at the end
/// of memory.
pub fn absolute_indexed(base: u16, index: u8) -> (address: u16)
    ensures
        address == wrap16(base + index),
{
    base.wrapping_add(index as u16)
}

impl Cpu {
    /// The address that an indexed mode starts from, before the index
    /// register is added; for every other mode, the operand's address.
    pub fn base_address(&self, address_mode: &AddressMode) -> (address: u16)
        ensures
            address == self@.base_address(*address_mode),
    {
        proof {
            reveal(Machine::operand_address);
        }
        match address_mode {
            AddressMode::AbsoluteX | AddressMode::AbsoluteY => self.read_16_bits(
                self.program_pointer,
            ),
            AddressMode::IndirectY => {
                let pointer = self.read_memory(self.program_pointer);
                self.read_16_bits_in_page(pointer as u16)
            },
            _ => self.read_memory_mode(address_mode),
        }
    }

    /// Resolves the operand's address of an instruction whose first operand
    /// byte is at `operand_pointer`, whatever the program counter holds.
    pub fn resolve(&self, operand_pointer: u16, address_mode: &AddressMode) -> (address: u16)
        ensures
            address == (Machine { pc: operand_pointer, ..self@ }).operand_address(*address_mode),
            (*address_mode == AddressMode::ZeroPage || *address_mode == AddressMode::ZeroPageX
                || *address_mode == AddressMode::ZeroPageY) ==> address < 0x100,
    {
        proof {
            reveal(Machine::operand_address);
        }
        match address_mode {
            AddressMode::Immediate
            | AddressMode::Implied
            | AddressMode::Accumulator
            | AddressMode::Relative => operand_pointer,
            AddressMode::ZeroPage => self.read_memory(operand_pointer) as u16,
            AddressMode::ZeroPageX => {
                let base = self.read_memory(operand_pointer);
                zero_page_indexed(base, self.register_x)
            },
            AddressMode::ZeroPageY => {
                let base = self.read_memory(operand_pointer);
                zero_page_indexed(base, self.register_y)
            },
            AddressMode::Absolute => self.read_16_bits(operand_pointer),
            AddressMode::AbsoluteX => {
                let base = self.read_16_bits(operand_pointer);
                absolute_indexed(base, self.register_x)
            },
            AddressMode::AbsoluteY => {
                let base = self.read_16_bits(operand_pointer);
                absolute_indexed(base, self.register_y)
            },
            AddressMode::Indirect => {
                let pointer = self.read_16_bits(operand_pointer);
                self.read_16_bits_in_page(pointer)
            },
            AddressMode::IndirectX => {
                let base = self.read_memory(operand_pointer);
                let pointer = zero_page_indexed(base, self.register_x);
                self.read_16_bits_in_page(pointer)
            },
            AddressMode::IndirectY => {
                let pointer = self.read_memory(operand_pointer);
                let base = self.read_16_bits_in_page(pointer as u16);
                absolute_indexed(base, self.register_y)
            },
        }
    }

    /// Resolves the operand's address, with the program counter at the first
    /// operand byte.
    ///
    /// Immediate, implied, accumulator and relative operands have no address
    /// of their own: for them the result is the program counter, where the
    /// caller finds the operand byte if there is one.
    pub fn read_memory_mode(&self, address_mode: &AddressMode) -> (address: u16)
        ensures
            address == self@.operand_address(*address_mode),
            (*address_mode == AddressMode::ZeroPage || *address_mode == AddressMode::ZeroPageX
                || *address_mode == AddressMode::ZeroPageY) ==> address < 0x100,
    {
        proof {
            assert(self@ == (Machine { pc: self.program_pointer, ..self@ }));
        }
        self.resolve(self.program_pointer, address_mode)
    }

    /// Whether the index register carried the operand's address into another
    /// page than the one the indexing started from.
    ///
    /// Only absolute,X, absolute,Y and (indirect),Y can cross: there the
    /// answer is whether the high bytes of the base address and of the
    /// operand's address differ. No other mode ever crosses.
    pub fn page_crossed(&self, address_mode: &AddressMode) -> (crossed: bool)
        ensures
            crossed == self@.page_crossed(*address_mode),
            (*address_mode == AddressMode::AbsoluteX || *address_mode == AddressMode::AbsoluteY
                || *address_mode == AddressMode::IndirectY) ==> (crossed <==> page(
                self@.base_address(*address_mode),
            ) != page(self@.operand_address(*address_mode))),
            !(*address_mode == AddressMode::AbsoluteX || *address_mode == AddressMode::AbsoluteY
                || *address_mode == AddressMode::IndirectY) ==> !crossed,
    {
        match address_mode {
            AddressMode::AbsoluteX | AddressMode::AbsoluteY | AddressMode::IndirectY => {
                let base = self.base_address(address_mode);
                let address = self.read_memory_mode(address_mode);
                base / 0x100 != address / 0x100
            },
            _ => false,
        }
    }

    /// Reads the operand: the accumulator in accumulator mode, else the byte
    /// at the operand's address.
    pub fn read_operand(&self, address_mode: &AddressMode) -> (data: u8)
        ensures
            data == self@.operand(*address_mode),
    {
        match address_mode {
            AddressMode::Accumulator => self.register_a,
            _ => {
                let address = self.read_memory_mode(address_mode);
                self.read_memory(address)
            },
        }
    }

    /// Writes `data` in place of the operand: to the accumulator in
    /// accumulator mode, else to the operand's address.
    pub fn write_operand(&mut self, address_mode: &AddressMode, data: u8)
        ensures
            final(self)@ == old(self)@.store_operand(*address_mode, data),
    {
        match address_mode {
            AddressMode::Accumulator => {
                self.register_a = data;
            },
            _ => {
                let address = self.read_memory_mode(address_mode);
                self.write_memory(address, data);
            },
        }
    }
}

} // verus!
