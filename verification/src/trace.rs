//! Execution traces: one line of text for each instruction, in a fixed
//! layout that can be compared with a reference trace.
//!
//! A line holds, in this order, the program counter, the opcode byte, the
//! mnemonic, the operand, the registers A, X and Y, the status byte, the
//! stack pointer and the cycle count. Numbers are in upper-case hexadecimal
//! of fixed width, but for the cycle count, which is decimal:
//!
//! ```text
//! C000  A9  LDA  0005  A:00 X:00 Y:00 P:20 SP:FF CYC:0
//! ```

use crate::cpu::Cpu;
use crate::engine::RunReport;
use crate::machine::{high_byte, low_byte, EngineState, Machine};
use crate::opcode::{lookup, AddressMode, Mnemonic, Opcode};
use vstd::prelude::*;
use vstd::string::StrSliceExecFns;

verus! {

/// What a trace line says: the instruction at the program counter and the
/// registers before it is executed.
#[derive(Clone, Copy, Debug, PartialEq, Eq)]
pub struct TraceEntry {
    /// Address of the opcode byte.
    pub address: u16,
    pub code: u8,
    pub mnemonic: Mnemonic,
    /// The operand byte of an immediate instruction, the target of a branch,
    /// the operand's address in the other modes that have one.
    pub operand: Option<u16>,
    pub a: u8,
    pub x: u8,
    pub y: u8,
    pub status: u8,
    pub sp: u8,
    pub cycles: u64,
}

/// The character for a value from 0 to 15: `0` to `9`, then `A` to `F`.
pub open spec fn hex_digit(value: int) -> char {
    if value < 10 {
        ('0' as int + value) as char
    } else {
        ('A' as int + value - 10) as char
    }
}

/// A byte as two hexadecimal digits.
pub open spec fn hex_byte(value: u8) -> Seq<char> {
    seq![hex_digit(value as int / 16), hex_digit(value as int % 16)]
}

/// A word as four hexadecimal digits.
pub open spec fn hex_word(value: u16) -> Seq<char> {
    hex_byte(high_byte(value)) + hex_byte(low_byte(value))
}

/// A byte in hexadecimal without a leading zero.
pub open spec fn hex_short(value: u8) -> Seq<char> {
    if value < 16 {
        seq![hex_digit(value as int)]
    } else {
        hex_byte(value)
    }
}

/// A number in decimal without leading zeros.
pub open spec fn decimal(value: nat) -> Seq<char>
    decreases value,
{
    if value < 10 {
        seq![hex_digit(value as int)]
    } else {
        decimal(value / 10).push(hex_digit((value % 10) as int))
    }
}

/// The operand column: four hexadecimal digits, or four dashes where the
/// instruction has no operand.
pub open spec fn operand_text(operand: Option<u16>) -> Seq<char> {
    match operand {
        Some(value) => hex_word(value),
        None => "----"@,
    }
}

/// The trace line of an entry.
pub open spec fn line(entry: TraceEntry) -> Seq<char> {
    hex_word(entry.address) + "  "@ + hex_byte(entry.code) + "  "@ + entry.mnemonic.spec_name()
        + "  "@ + operand_text(entry.operand) + "  A:"@ + hex_byte(entry.a) + " X:"@ + hex_byte(
        entry.x,
    ) + " Y:"@ + hex_byte(entry.y) + " P:"@ + hex_byte(entry.status) + " SP:"@ + hex_byte(
        entry.sp,
    ) + " CYC:"@ + decimal(entry.cycles as nat)
}

/// The description of an opcode: its byte, its length, its mnemonic and its
/// addressing mode.
pub open spec fn description(opcode: Opcode) -> Seq<char> {
    "opcode:$"@ + hex_short(opcode.code) + " bytes:"@ + decimal(opcode.bytes as nat) + " name:"@
        + opcode.mnemonic.spec_name() + " mode:"@ + opcode.address_mode.spec_name()
}

impl Machine {
    /// The operand column for the instruction whose opcode byte is at the
    /// program counter.
    pub open spec fn trace_operand(self) -> Option<u16> {
        match self.next_opcode().address_mode {
            AddressMode::Implied | AddressMode::Accumulator => None,
            AddressMode::Immediate => Some(self.fetched().read(self.fetched().pc) as u16),
            AddressMode::Relative => Some(self.fetched().branch_target()),
            mode => Some(self.fetched().operand_address(mode)),
        }
    }

    /// The entries of a run of at most `limit` steps: one for every step
    /// that is attempted, taken before the step. A byte without an
    /// operation has an entry too, the last one of its run.
    pub open spec fn run_trace(self, limit: nat) -> Seq<TraceEntry>
        decreases limit,
    {
        if limit == 0 || self.state == EngineState::Halted {
            Seq::empty()
        } else {
            seq![self.trace_entry()] + self.step().run_trace((limit - 1) as nat)
        }
    }

    /// The trace entry of the machine as it stands.
    pub open spec fn trace_entry(self) -> TraceEntry {
        TraceEntry {
            address: self.pc,
            code: self.read(self.pc),
            mnemonic: self.next_opcode().mnemonic,
            operand: self.trace_operand(),
            a: self.a,
            x: self.x,
            y: self.y,
            status: self.status,
            sp: self.sp,
            cycles: self.cycles,
        }
    }
}

/// Gives the hexadecimal digit of the low four bits of `value`.
pub fn hex_digit_of(value: u8) -> (digit: char)
    ensures
        digit == hex_digit(value as int % 16),
{
    match value % 16 {
        0 => '0',
        1 => '1',
        2 => '2',
        3 => '3',
        4 => '4',
        5 => '5',
        6 => '6',
        7 => '7',
        8 => '8',
        9 => '9',
        10 => 'A',
        11 => 'B',
        12 => 'C',
        13 => 'D',
        14 => 'E',
        _ => 'F',
    }
}

/// Appends a text.
pub fn push_text(out: &mut Vec<char>, text: &str)
    ensures
        final(out)@ == old(out)@ + text@,
{
    let length = text.unicode_len();
    let mut index: usize = 0;
    while index < length
        invariant
            length == text@.len(),
            index <= length,
            out@ == old(out)@ + text@.subrange(0, index as int),
        decreases length - index,
    {
        out.push(text.get_char(index));
        index = index + 1;
    }
}

/// Appends a byte as two hexadecimal digits.
pub fn push_hex_byte(out: &mut Vec<char>, value: u8)
    ensures
        final(out)@ == old(out)@ + hex_byte(value),
{
    out.push(hex_digit_of(value / 16));
    out.push(hex_digit_of(value % 16));
}

/// Appends a word as four hexadecimal digits.
pub fn push_hex_word(out: &mut Vec<char>, value: u16)
    ensures
        final(out)@ == old(out)@ + hex_word(value),
{
    push_hex_byte(out, (value / 0x100) as u8);
    push_hex_byte(out, (value % 0x100) as u8);
}

/// Appends a number in decimal.
pub fn push_decimal(out: &mut Vec<char>, value: u64)
    ensures
        final(out)@ == old(out)@ + decimal(value as nat),
    decreases value,
{
    if value >= 10 {
        push_decimal(out, value / 10);
    }
    out.push(hex_digit_of((value % 10) as u8));
}

/// Writes the trace line of an entry.
pub fn format_entry(entry: &TraceEntry) -> (text: Vec<char>)
    ensures
        text@ == line(*entry),
{
    let mut text: Vec<char> = Vec::new();
    push_hex_word(&mut text, entry.address);
    push_text(&mut text, "  ");
    push_hex_byte(&mut text, entry.code);
    push_text(&mut text, "  ");
    push_text(&mut text, entry.mnemonic.name());
    push_text(&mut text, "  ");
    match entry.operand {
        Some(value) => push_hex_word(&mut text, value),
        None => push_text(&mut text, "----"),
    }
    push_text(&mut text, "  A:");
    push_hex_byte(&mut text, entry.a);
    push_text(&mut text, " X:");
    push_hex_byte(&mut text, entry.x);
    push_text(&mut text, " Y:");
    push_hex_byte(&mut text, entry.y);
    push_text(&mut text, " P:");
    push_hex_byte(&mut text, entry.status);
    push_text(&mut text, " SP:");
    push_hex_byte(&mut text, entry.sp);
    push_text(&mut text, " CYC:");
    push_decimal(&mut text, entry.cycles);
    text
}

impl Opcode {
    /// Describes the opcode in one line of text.
    pub fn describe(&self) -> (text: Vec<char>)
        ensures
            text@ == description(*self),
    {
        let mut text: Vec<char> = Vec::new();
        push_text(&mut text, "opcode:$");
        if self.code < 16 {
            text.push(hex_digit_of(self.code));
        } else {
            push_hex_byte(&mut text, self.code);
        }
        push_text(&mut text, " bytes:");
        push_decimal(&mut text, self.bytes as u64);
        push_text(&mut text, " name:");
        push_text(&mut text, self.mnemonic.name());
        push_text(&mut text, " mode:");
        push_text(&mut text, self.address_mode.name());
        text
    }
}

/// A run of no steps, or of a halted machine, has an empty trace; any other
/// run starts with the entry of the machine as it stands.
proof fn lemma_run_trace_unfolds(m: Machine, limit: nat)
    ensures
        limit == 0 || m.state == EngineState::Halted ==> m.run_trace(limit) == Seq::<
            TraceEntry,
        >::empty(),
        limit > 0 && m.state == EngineState::Running ==> m.run_trace(limit) == seq![
            m.trace_entry(),
        ] + m.step().run_trace((limit - 1) as nat),
{
}

/// A run has one trace entry for every instruction it executes, and one
/// more when a byte without an operation stops it.
pub proof fn lemma_run_trace_length(m: Machine, limit: nat)
    ensures
        m.run_trace(limit).len() == m.run_executed(limit) + (if m.run_outcome(limit) is Err {
            1nat
        } else {
            0nat
        }),
    decreases limit,
{
    if limit != 0 && m.state == EngineState::Running {
        if m.can_execute() {
            lemma_run_trace_length(m.step(), (limit - 1) as nat);
        } else {
            crate::laws::lemma_step_unimplemented(m);
            lemma_run_trace_unfolds(m.step(), (limit - 1) as nat);
        }
    }
}

impl Cpu {
    /// Steps until the engine halts, but at most `limit` times, and records
    /// a trace entry before every step.
    ///
    /// Machine and report are those of [`Cpu::run`] with the same limit.
    pub fn run_traced(&mut self, limit: u64) -> (result: (RunReport, Vec<TraceEntry>))
        ensures
            final(self)@ == old(self)@.run(limit as nat),
            result.0.executed == old(self)@.run_executed(limit as nat),
            result.0.outcome == old(self)@.run_outcome(limit as nat),
            result.1@ == old(self)@.run_trace(limit as nat),
    {
        let mut executed: u64 = 0;
        let mut entries: Vec<TraceEntry> = Vec::new();
        while executed < limit && self.state == EngineState::Running
            invariant
                executed <= limit,
                old(self)@.run(limit as nat) == self@.run((limit - executed) as nat),
                old(self)@.run_executed(limit as nat) == executed + self@.run_executed(
                    (limit - executed) as nat,
                ),
                old(self)@.run_outcome(limit as nat) == self@.run_outcome(
                    (limit - executed) as nat,
                ),
                old(self)@.run_trace(limit as nat) == entries@ + self@.run_trace(
                    (limit - executed) as nat,
                ),
            decreases limit - executed,
        {
            let ghost before = self@;
            let ghost recorded = entries@;
            let ghost remaining = (limit - executed) as nat;
            entries.push(self.trace_entry());
            proof {
                lemma_run_trace_unfolds(before, remaining);
                assert(entries@ + before.step().run_trace((remaining - 1) as nat) == recorded
                    + before.run_trace(remaining));
            }
            match self.step() {
                Ok(_) => {
                    executed = executed + 1;
                },
                Err(error) => {
                    proof {
                        lemma_run_trace_unfolds(before.step(), (remaining - 1) as nat);
                    }
                    assert(before.step().run((remaining - 1) as nat) == before.step());
                    return (RunReport { executed, outcome: Err(error) }, entries);
                },
            }
        }
        proof {
            lemma_run_trace_unfolds(self@, (limit - executed) as nat);
        }
        (RunReport { executed, outcome: Ok(self.state) }, entries)
    }

    /// Describes the instruction at the program counter and the registers
    /// as they are before it is executed.
    pub fn trace_entry(&self) -> (entry: TraceEntry)
        ensures
            entry == self@.trace_entry(),
    {
        let address = self.program_pointer;
        let code = self.read_memory(address);
        let opcode = lookup(code);
        let operand_pointer = address.wrapping_add(1);
        let operand = match opcode.address_mode {
            AddressMode::Implied | AddressMode::Accumulator => None,
            AddressMode::Immediate => Some(self.read_memory(operand_pointer) as u16),
            AddressMode::Relative => Some(self.branch_target_from(operand_pointer)),
            _ => Some(self.resolve(operand_pointer, &opcode.address_mode)),
        };
        TraceEntry {
            address,
            code,
            mnemonic: opcode.mnemonic,
            operand,
            a: self.register_a,
            x: self.register_x,
            y: self.register_y,
            status: self.status,
            sp: self.stack_pointer,
            cycles: self.cycles,
        }
    }
}

} // verus!
