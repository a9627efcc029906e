//! The mathematical model of the machine: registers, status byte, a memory
//! of 65536 bytes, a cycle counter and the engine's state.
//!
//! Everything here is specification. Addresses wrap modulo 65536, zero-page
//! offsets and the stack pointer modulo 256; nothing is ever out of range.

use crate::opcode::AddressMode;
use vstd::prelude::*;

verus! {

/// Number of bytes on the memory bus.
pub const MEMORY_SIZE: usize = 0x10000;

/// First address of the stack page.
pub const STACK_BASE: u16 = 0x0100;

/// Value of the stack pointer after a reset.
pub const STACK_RESET: u8 = 0xFF;

/// Address of the two bytes that hold the program counter's reset value.
pub const RESET_VECTOR: u16 = 0xFFFC;

/// Address at which a program image is placed.
pub const PROGRAM_BASE: u16 = 0xC000;

/// Whether the engine still executes instructions.
#[derive(Clone, Copy, Debug, PartialEq, Eq, Structural)]
pub enum EngineState {
    Running,
    Halted,
}

/// The machine as a value.
#[verifier::ext_equal]
pub struct Machine {
    pub pc: u16,
    pub sp: u8,
    pub status: u8,
    pub a: u8,
    pub x: u8,
    pub y: u8,
    pub memory: Seq<u8>,
    pub cycles: u64,
    pub state: EngineState,
}

/// An integer cut to eight bits.
pub open spec fn wrap8(n: int) -> u8 {
    (n % 0x100) as u8
}

/// An integer cut to sixteen bits.
pub open spec fn wrap16(n: int) -> u16 {
    (n % 0x1_0000) as u16
}

/// An integer cut to sixty-four bits.
pub open spec fn wrap64(n: int) -> u64 {
    (n % 0x1_0000_0000_0000_0000) as u64
}

/// The sixteen-bit value with the given low and high bytes.
pub open spec fn word(low: u8, high: u8) -> u16 {
    (low + 0x100 * high) as u16
}

/// The low eight bits of a word.
pub open spec fn low_byte(value: u16) -> u8 {
    (value % 0x100) as u8
}

/// The high eight bits of a word.
pub open spec fn high_byte(value: u16) -> u8 {
    (value / 0x100) as u8
}

/// Number of the 256-byte page that holds `address`.
pub open spec fn page(address: u16) -> int {
    address as int / 0x100
}

/// The address after `address` in the same page: the last byte of a page is
/// followed by the first byte of that page.
pub open spec fn next_in_page(address: u16) -> u16 {
    (page(address) * 0x100 + (address + 1) % 0x100) as u16
}

impl Machine {
    /// A model of a processor: its memory has one byte for every address.
    pub open spec fn well_formed(self) -> bool {
        self.memory.len() == MEMORY_SIZE
    }

    /// The byte at `address`.
    pub open spec fn read(self, address: u16) -> u8 {
        self.memory[address as int]
    }

    /// The machine with `data` at `address`.
    pub open spec fn write(self, address: u16, data: u8) -> Machine {
        Machine { memory: self.memory.update(address as int, data), ..self }
    }

    /// The little-endian word at `address` and the address after it.
    pub open spec fn read_word(self, address: u16) -> u16 {
        word(self.read(address), self.read(wrap16(address + 1)))
    }

    /// The little-endian word whose low byte is at `address` and whose high
    /// byte is at the next address of the same page.
    pub open spec fn read_word_in_page(self, address: u16) -> u16 {
        word(self.read(address), self.read(next_in_page(address)))
    }

    /// The address the stack pointer designates.
    pub open spec fn stack_address(self) -> u16 {
        (STACK_BASE + self.sp) as u16
    }

    /// The machine after pushing `data`: written where the stack pointer
    /// designates, then the pointer is decremented.
    pub open spec fn push(self, data: u8) -> Machine {
        Machine { sp: wrap8(self.sp - 1), ..self.write(self.stack_address(), data) }
    }

    /// The machine after pulling one byte: the stack pointer incremented.
    pub open spec fn pull(self) -> Machine {
        Machine { sp: wrap8(self.sp + 1), ..self }
    }

    /// The machine with the stack pointer decremented, as after a push.
    pub open spec fn pull_back(self) -> Machine {
        Machine { sp: wrap8(self.sp - 1), ..self }
    }

    /// The byte that a pull hands out: the one the incremented stack pointer
    /// designates.
    pub open spec fn pulled(self) -> u8 {
        self.read(self.pull().stack_address())
    }

    /// The machine after pushing a word, high byte first.
    pub open spec fn push_word(self, data: u16) -> Machine {
        self.push(high_byte(data)).push(low_byte(data))
    }

    /// The word that two pulls hand out, low byte first.
    pub open spec fn pulled_word(self) -> u16 {
        word(self.pulled(), self.pull().pulled())
    }

    /// The address that an indexed mode starts from, before the index
    /// register is added. For the other modes, the operand's address.
    pub open spec fn base_address(self, mode: AddressMode) -> u16 {
        match mode {
            AddressMode::AbsoluteX | AddressMode::AbsoluteY => self.read_word(self.pc),
            AddressMode::IndirectY => self.read_word_in_page(self.read(self.pc) as u16),
            _ => self.operand_address(mode),
        }
    }

    /// The address of the operand, with the program counter at the first
    /// operand byte.
    ///
    /// For the modes that have no address (immediate, implied, accumulator,
    /// relative) it is the program counter itself.
    #[verifier::opaque]
    pub open spec fn operand_address(self, mode: AddressMode) -> u16 {
        match mode {
            AddressMode::Immediate
            | AddressMode::Implied
            | AddressMode::Accumulator
            | AddressMode::Relative => self.pc,
            AddressMode::ZeroPage => self.read(self.pc) as u16,
            AddressMode::ZeroPageX => wrap8(self.read(self.pc) + self.x) as u16,
            AddressMode::ZeroPageY => wrap8(self.read(self.pc) + self.y) as u16,
            AddressMode::Absolute => self.read_word(self.pc),
            AddressMode::AbsoluteX => wrap16(self.read_word(self.pc) + self.x),
            AddressMode::AbsoluteY => wrap16(self.read_word(self.pc) + self.y),
            AddressMode::Indirect => self.read_word_in_page(self.read_word(self.pc)),
            AddressMode::IndirectX => self.read_word_in_page(
                wrap8(self.read(self.pc) + self.x) as u16,
            ),
            AddressMode::IndirectY => wrap16(
                self.read_word_in_page(self.read(self.pc) as u16) + self.y,
            ),
        }
    }

    /// Whether adding the index register carried the address into another
    /// page. Only the modes that add an index to a sixteen-bit address can
    /// cross.
    pub open spec fn page_crossed(self, mode: AddressMode) -> bool {
        match mode {
            AddressMode::AbsoluteX | AddressMode::AbsoluteY | AddressMode::IndirectY => page(
                self.base_address(mode),
            ) != page(self.operand_address(mode)),
            _ => false,
        }
    }

    /// The operand: the accumulator in accumulator mode, else the byte at the
    /// operand's address.
    pub open spec fn operand(self, mode: AddressMode) -> u8 {
        if mode == AddressMode::Accumulator {
            self.a
        } else {
            self.read(self.operand_address(mode))
        }
    }

    /// The machine with `data` in place of the operand.
    pub open spec fn store_operand(self, mode: AddressMode, data: u8) -> Machine {
        if mode == AddressMode::Accumulator {
            Machine { a: data, ..self }
        } else {
            self.write(self.operand_address(mode), data)
        }
    }
}

/// The zero-page modes never leave page zero, whatever the index register
/// holds, and the pointer of the indexed-indirect mode is read from page
/// zero with both of its bytes.
pub proof fn lemma_zero_page_modes(m: Machine)
    ensures
        m.operand_address(AddressMode::ZeroPage) < 0x100,
        m.operand_address(AddressMode::ZeroPageX) < 0x100,
        m.operand_address(AddressMode::ZeroPageY) < 0x100,
        ({
            let pointer = wrap8(m.read(m.pc) + m.x);
            m.operand_address(AddressMode::IndirectX) == word(
                m.read(pointer as u16),
                m.read(wrap8(pointer + 1) as u16),
            )
        }),
        ({
            let pointer = m.read(m.pc);
            m.base_address(AddressMode::IndirectY) == word(
                m.read(pointer as u16),
                m.read(wrap8(pointer + 1) as u16),
            )
        }),
{
    reveal(Machine::operand_address);
}

/// The indirect mode takes the high byte of its target from the page of
/// the low byte: for a pointer at the last byte of a page, from the first
/// byte of that page and not from the next page.
pub proof fn lemma_indirect_stays_in_page(m: Machine)
    ensures
        ({
            let pointer = m.read_word(m.pc);
            let last = (pointer / 0x100 * 0x100 + 0xFF) as u16;
            let first = (pointer / 0x100 * 0x100) as u16;
            &&& pointer % 0x100 == 0xFF ==> m.operand_address(AddressMode::Indirect) == word(
                m.read(last),
                m.read(first),
            )
            &&& pointer % 0x100 != 0xFF ==> m.operand_address(AddressMode::Indirect)
                == m.read_word(pointer)
        }),
{
    reveal(Machine::operand_address);
}

/// A pushed byte is the byte that the next pull hands out, and the pull
/// brings the stack pointer back, whatever its value was.
pub proof fn lemma_push_pull(m: Machine, data: u8)
    requires
        m.well_formed(),
    ensures
        m.push(data).pulled() == data,
        m.push(data).pull().sp == m.sp,
        m.sp == 0 ==> m.push(data).sp == 0xFF,
{
}

/// The stack lives in page one: a push writes between `0x0100` and `0x01FF`
/// and leaves every other byte of memory as it was.
pub proof fn lemma_push_stays_in_stack_page(m: Machine, data: u8, address: u16)
    requires
        m.well_formed(),
    ensures
        0x0100 <= m.stack_address() <= 0x01FF,
        m.push(data).read(m.stack_address()) == data,
        address != m.stack_address() ==> m.push(data).read(address) == m.read(address),
{
}

/// A pushed word is written to the two bytes that the stack pointer and
/// its predecessor designate; every other byte of memory stays as it was.
pub proof fn lemma_push_word_frame(m: Machine, data: u16, address: u16)
    requires
        m.well_formed(),
        address != m.stack_address(),
        address != m.pull_back().stack_address(),
    ensures
        m.push_word(data).read(address) == m.read(address),
{
}

/// A pushed word comes back from two pulls, low byte first, and the stack
/// pointer returns to where it was, also when it wraps on the way.
pub proof fn lemma_push_pull_word(m: Machine, data: u16)
    requires
        m.well_formed(),
    ensures
        m.push_word(data).pulled() == low_byte(data),
        m.push_word(data).pull().pulled() == high_byte(data),
        m.push_word(data).pulled_word() == data,
        m.push_word(data).pull().pull().sp == m.sp,
{
    let high = m.push(high_byte(data));
    lemma_push_pull(m, high_byte(data));
    lemma_push_pull(high, low_byte(data));
    let low = high.push(low_byte(data));
    assert(low.pull().sp == high.sp);
    assert(low.pull().pull().sp == m.sp);
    assert(low.pull().stack_address() != low.pull().pull().stack_address());
    assert(low.pull().pulled() == high_byte(data));
}

} // verus!
