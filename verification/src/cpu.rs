//! The processor: register file, status register and memory bus, with the
//! primitives that the instructions are built from.

use crate::machine::{
    word, EngineState, Machine, MEMORY_SIZE, PROGRAM_BASE, RESET_VECTOR, STACK_BASE, STACK_RESET,
};
use crate::rom::Rom;
use crate::status::Flag;
use vstd::prelude::*;

verus! {

/// The processor. Its model is a [`Machine`], field by field.
pub struct Cpu {
    pub program_pointer: u16,
    pub stack_pointer: u8,
    pub status: u8,
    pub register_a: u8,
    pub register_x: u8,
    pub register_y: u8,
    pub memory: [u8; MEMORY_SIZE],
    pub cycles: u64,
    pub state: EngineState,
}

impl View for Cpu {
    type V = Machine;

    open spec fn view(&self) -> Machine {
        Machine {
            pc: self.program_pointer,
            sp: self.stack_pointer,
            status: self.status,
            a: self.register_a,
            x: self.register_x,
            y: self.register_y,
            memory: self.memory@,
            cycles: self.cycles,
            state: self.state,
        }
    }
}

/// Why a program image was not loaded.
#[derive(Clone, Copy, Debug, PartialEq, Eq, Structural)]
pub enum LoadError {
    /// The image does not fit between the program base and the end of
    /// memory.
    ProgramTooLarge,
}

/// Largest program image that fits above the program base.
pub open spec fn program_capacity() -> int {
    MEMORY_SIZE - PROGRAM_BASE
}

impl Machine {
    /// The machine as it is created: every register and every byte of memory
    /// zero, of the status byte only the unused bit set, the engine running.
    pub open spec fn initial() -> Machine {
        Machine {
            pc: 0,
            sp: 0,
            status: 0x20,
            a: 0,
            x: 0,
            y: 0,
            memory: Seq::new(MEMORY_SIZE as nat, |i: int| 0u8),
            cycles: 0,
            state: EngineState::Running,
        }
    }

    /// The machine with `program` copied to the program base. Bytes outside
    /// the image keep their values.
    pub open spec fn load(self, program: Seq<u8>) -> Machine {
        Machine {
            memory: Seq::new(
                MEMORY_SIZE as nat,
                |i: int|
                    if PROGRAM_BASE <= i < PROGRAM_BASE + program.len() {
                        program[i - PROGRAM_BASE]
                    } else {
                        self.memory[i]
                    },
            ),
            ..self
        }
    }

    /// The machine after a reset: general registers cleared, the stack
    /// pointer at its reset value, the program counter taken from the reset
    /// vector, the engine running. Status, memory and cycle count stay.
    pub open spec fn reset(self) -> Machine {
        Machine {
            a: 0,
            x: 0,
            y: 0,
            sp: STACK_RESET,
            pc: self.read_word(RESET_VECTOR),
            state: EngineState::Running,
            ..self
        }
    }
}

/// The model of a processor always has a whole memory.
pub proof fn lemma_view_well_formed(cpu: Cpu)
    ensures
        cpu@.well_formed(),
{
}

/// Creates a processor in its initial state.
pub fn create_cpu() -> (cpu: Cpu)
    ensures
        cpu@ == Machine::initial(),
        cpu@.flag(Flag::Unused),
{
    proof {
        assert(0x20u8 & 0x20 != 0) by (bit_vector);
    }
    Cpu {
        program_pointer: 0,
        stack_pointer: 0,
        status: 0x20,
        register_a: 0,
        register_x: 0,
        register_y: 0,
        memory: [0;MEMORY_SIZE],
        cycles: 0,
        state: EngineState::Running,
    }
}

/// Copies the program bank of `rom` into memory, starting at the program
/// base.
///
/// An image that would reach past the end of memory is refused and the
/// processor is left as it was.
pub fn load_rom(cpu: &mut Cpu, rom: Rom) -> (result: Result<(), LoadError>)
    ensures
        result is Ok <==> rom.prog_rom@.len() <= program_capacity(),
        result is Ok ==> final(cpu)@ == old(cpu)@.load(rom.prog_rom@),
        result is Err ==> final(cpu)@ == old(cpu)@,
        result is Err ==> result == Err::<(), LoadError>(LoadError::ProgramTooLarge),
{
    let program = rom.prog_rom;
    let length = program.len();
    if length > MEMORY_SIZE - PROGRAM_BASE as usize {
        return Err(LoadError::ProgramTooLarge);
    }
    let mut index: usize = 0;
    while index < length
        invariant
            length == program@.len(),
            length <= program_capacity(),
            index <= length,
            cpu@ == (Machine {
                memory: Seq::new(
                    MEMORY_SIZE as nat,
                    |i: int|
                        if PROGRAM_BASE <= i < PROGRAM_BASE + index {
                            program@[i - PROGRAM_BASE]
                        } else {
                            old(cpu)@.memory[i]
                        },
                ),
                ..old(cpu)@
            }),
        decreases length - index,
    {
        cpu.memory[PROGRAM_BASE as usize + index] = program[index];
        index = index + 1;
    }
    Ok(())
}

impl Cpu {
    /// Reads the byte at `address`.
    pub fn read_memory(&self, address: u16) -> (data: u8)
        ensures
            data == self@.read(address),
    {
        self.memory[address as usize]
    }

    /// Writes `data` at `address`. Nothing else changes.
    pub fn write_memory(&mut self, address: u16, data: u8)
        ensures
            final(self)@ == old(self)@.write(address, data),
    {
        self.memory[address as usize] = data;
    }

    /// Reads the little-endian word at `address`; the high byte comes from
    /// the address after it, which for `0xFFFF` is `0x0000`.
    pub fn read_16_bits(&self, address: u16) -> (data: u16)
        ensures
            data == self@.read_word(address),
    {
        let low = self.read_memory(address);
        let high = self.read_memory(address.wrapping_add(1));
        low as u16 + 0x100 * (high as u16)
    }

    /// Reads the little-endian word whose low byte is at `address` and whose
    /// high byte is at the next address within the same page.
    pub fn read_16_bits_in_page(&self, address: u16) -> (data: u16)
        ensures
            data == self@.read_word_in_page(address),
    {
        let low = self.read_memory(address);
        let next: u16 = address / 0x100 * 0x100 + (address % 0x100 + 1) % 0x100;
        let high = self.read_memory(next);
        low as u16 + 0x100 * (high as u16)
    }

    /// Puts the processor into its state after a reset.
    pub fn reset(&mut self)
        ensures
            final(self)@ == old(self)@.reset(),
            final(self)@.sp == STACK_RESET,
            final(self)@.a == 0 && final(self)@.x == 0 && final(self)@.y == 0,
            final(self)@.pc == word(
                old(self)@.read(RESET_VECTOR),
                old(self)@.read((RESET_VECTOR + 1) as u16),
            ),
            final(self)@.state == EngineState::Running,
    {
        self.register_x = 0;
        self.register_a = 0;
        self.register_y = 0;
        self.program_pointer = self.read_16_bits(RESET_VECTOR);
        self.stack_pointer = STACK_RESET;
        self.state = EngineState::Running;
    }

    /// Resets the processor and lets it start at `address` instead of at the
    /// address in the reset vector. This is for program images that carry
    /// no reset vector of their own.
    pub fn reset_at(&mut self, address: u16)
        ensures
            final(self)@ == (Machine { pc: address, ..old(self)@.reset() }),
    {
        self.reset();
        self.program_pointer = address;
    }

    /// Pushes one byte: writes it where the stack pointer designates, then
    /// decrements the stack pointer, from `0x00` to `0xFF`.
    pub fn stack_push(&mut self, data: u8)
        ensures
            final(self)@ == old(self)@.push(data),
    {
        let address = STACK_BASE + self.stack_pointer as u16;
        self.write_memory(address, data);
        self.stack_pointer = self.stack_pointer.wrapping_sub(1);
    }

    /// Pulls one byte: increments the stack pointer, from `0xFF` to `0x00`,
    /// then reads where it designates.
    pub fn stack_pop(&mut self) -> (data: u8)
        ensures
            final(self)@ == old(self)@.pull(),
            data == old(self)@.pulled(),
    {
        self.stack_pointer = self.stack_pointer.wrapping_add(1);
        let address = STACK_BASE + self.stack_pointer as u16;
        self.read_memory(address)
    }

    /// Pushes a word, high byte first.
    pub fn stack_push_u16(&mut self, data: u16)
        ensures
            final(self)@ == old(self)@.push_word(data),
    {
        let high: u8 = (data / 0x100) as u8;
        let low: u8 = (data % 0x100) as u8;
        self.stack_push(high);
        self.stack_push(low);
    }

    /// Pulls a word, low byte first.
    pub fn stack_pop_u16(&mut self) -> (data: u16)
        ensures
            final(self)@ == old(self)@.pull().pull(),
            data == old(self)@.pulled_word(),
    {
        let low = self.stack_pop();
        let high = self.stack_pop();
        low as u16 + 0x100 * (high as u16)
    }
}

} // verus!
