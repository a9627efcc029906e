//! The fetch-decode-execute loop.
//!
//! One step reads the opcode at the program counter, moves the counter past
//! it, looks the opcode up and performs its operation. If the operation left
//! the program counter where it was, the counter moves on past the operand
//! bytes; a jump or a taken branch to the address of its own first operand
//! byte leaves the counter where it was and is moved on like any other
//! instruction. The step then adds the instruction's cycles to the cycle
//! counter. A byte without an operation stops the engine and is reported
//! with its address.

use crate::cpu::Cpu;
use crate::laws::{lemma_run_invariant, lemma_step_invariant, lemma_unused_bit_stays};
use crate::machine::{wrap16, wrap64, EngineState, Machine};
use crate::opcode::{decode, lookup, AddressMode, Mnemonic, Opcode, Surcharge};
use crate::status::Flag;
use vstd::prelude::*;

verus! {

/// Adds the cycles of one instruction to the cycle counter, which wraps
/// like every other counter of the machine.
pub fn count_cycles(cycles: u64, base: u8, extra: u8) -> (total: u64)
    ensures
        total == wrap64(cycles + base + extra),
{
    cycles.wrapping_add(base as u64 + extra as u64)
}

/// The address `length - 1` bytes after `address`: from the first operand
/// byte of an instruction of that length to the instruction after it.
pub fn skip_operand(address: u16, length: u8) -> (next: u16)
    ensures
        next == wrap16(address + length - 1),
{
    address.wrapping_add(length as u16).wrapping_sub(1)
}

/// Why the engine could not execute an instruction.
#[derive(Clone, Copy, Debug, PartialEq, Eq, Structural)]
pub enum CpuError {
    /// The byte `code`, fetched from `address`, has no operation.
    UnimplementedOpcode { code: u8, address: u16 },
}

/// What a run did.
#[derive(Clone, Copy, Debug)]
pub struct RunReport {
    /// Number of instructions that were executed.
    pub executed: u64,
    /// `Ok(Halted)` when the engine has stopped, `Ok(Running)` when the run
    /// used up its limit first, the error when a byte had no operation.
    pub outcome: Result<EngineState, CpuError>,
}

impl Machine {
    /// The descriptor of the byte at the program counter.
    pub open spec fn next_opcode(self) -> Opcode {
        decode(self.read(self.pc))
    }

    /// The machine with the program counter moved past the opcode byte.
    pub open spec fn fetched(self) -> Machine {
        Machine { pc: wrap16(self.pc + 1), ..self }
    }

    /// Cycles that `opcode` costs beyond its base count, with the program
    /// counter at the first operand byte.
    ///
    /// A read that indexes across a page boundary pays one cycle. A branch
    /// pays one cycle when it is taken and one more when its target lies in
    /// another page than the next instruction.
    pub open spec fn extra_cycles(self, opcode: Opcode) -> u8 {
        match opcode.surcharge {
            Surcharge::Never => 0,
            Surcharge::PageCross => if self.page_crossed(opcode.address_mode) {
                1
            } else {
                0
            },
            Surcharge::Branch => if !self.branch_taken(opcode.mnemonic) {
                0
            } else if self.branch_crosses_page() {
                2
            } else {
                1
            },
        }
    }

    /// The machine after the operation of `opcode`, with the program counter
    /// past the instruction and the cycles counted. `self` has the program
    /// counter at the first operand byte.
    #[verifier::opaque]
    pub open spec fn perform(self, opcode: Opcode) -> Machine {
        let done = self.execute(opcode.mnemonic, opcode.address_mode);
        let pc = if done.pc == self.pc {
            wrap16(self.pc + opcode.bytes - 1)
        } else {
            done.pc
        };
        Machine {
            pc,
            cycles: wrap64(done.cycles + opcode.cycles + self.extra_cycles(opcode)),
            ..done
        }
    }

    /// The machine after one step.
    ///
    /// A halted machine stays as it is. A byte without an operation halts
    /// the machine with the program counter past that byte.
    #[verifier::opaque]
    pub open spec fn step(self) -> Machine {
        if self.state == EngineState::Halted {
            self
        } else if !self.next_opcode().is_implemented() {
            Machine { state: EngineState::Halted, ..self.fetched() }
        } else {
            self.fetched().perform(self.next_opcode())
        }
    }

    /// What a step reports: the engine's state after it, or the byte that
    /// has no operation and its address.
    pub open spec fn step_result(self) -> Result<EngineState, CpuError> {
        if self.state == EngineState::Running && !self.next_opcode().is_implemented() {
            Err(CpuError::UnimplementedOpcode { code: self.read(self.pc), address: self.pc })
        } else {
            Ok(self.step().state)
        }
    }

    /// Whether a step executes an instruction: the engine runs and the byte
    /// at the program counter has an operation.
    pub open spec fn can_execute(self) -> bool {
        self.state == EngineState::Running && self.next_opcode().is_implemented()
    }

    /// The machine after stepping until it halts, but at most `limit` times.
    pub open spec fn run(self, limit: nat) -> Machine
        decreases limit,
    {
        if limit == 0 || self.state == EngineState::Halted {
            self
        } else {
            self.step().run((limit - 1) as nat)
        }
    }

    /// Number of instructions that such a run executes.
    pub open spec fn run_executed(self, limit: nat) -> nat
        decreases limit,
    {
        if limit == 0 || !self.can_execute() {
            0
        } else {
            1 + self.step().run_executed((limit - 1) as nat)
        }
    }

    /// What such a run reports: that the engine has halted, that the limit
    /// was used up while it was still running, or the byte without an
    /// operation that stopped it.
    pub open spec fn run_outcome(self, limit: nat) -> Result<EngineState, CpuError>
        decreases limit,
    {
        if self.state == EngineState::Halted {
            Ok(EngineState::Halted)
        } else if limit == 0 {
            Ok(EngineState::Running)
        } else if !self.next_opcode().is_implemented() {
            self.step_result()
        } else {
            self.step().run_outcome((limit - 1) as nat)
        }
    }
}

impl Cpu {
    /// Performs the operation of `mnemonic` in `address_mode`, with the
    /// program counter at the first operand byte. `Unimplemented` does
    /// nothing.
    pub fn execute(&mut self, mnemonic: &Mnemonic, address_mode: &AddressMode)
        ensures
            final(self)@ == old(self)@.execute(*mnemonic, *address_mode),
            old(self)@.flag(Flag::Unused) ==> final(self)@.flag(Flag::Unused),
    {
        proof {
            reveal(Machine::execute);
            if self@.flag(Flag::Unused) {
                lemma_unused_bit_stays(self@, *mnemonic, *address_mode);
            }
        }
        match mnemonic {
            Mnemonic::Adc => self.adc(address_mode),
            Mnemonic::And => self.and(address_mode),
            Mnemonic::Asl => self.asl(address_mode),
            Mnemonic::Bcc => self.bcc(address_mode),
            Mnemonic::Bcs => self.bcs(address_mode),
            Mnemonic::Beq => self.beq(address_mode),
            Mnemonic::Bit => self.bit(address_mode),
            Mnemonic::Bmi => self.bmi(address_mode),
            Mnemonic::Bne => self.bne(address_mode),
            Mnemonic::Bpl => self.bpl(address_mode),
            Mnemonic::Brk => self.brk(address_mode),
            Mnemonic::Bvc => self.bvc(address_mode),
            Mnemonic::Bvs => self.bvs(address_mode),
            Mnemonic::Clc => self.clc(address_mode),
            Mnemonic::Cld => self.cld(address_mode),
            Mnemonic::Cli => self.cli(address_mode),
            Mnemonic::Clv => self.clv(address_mode),
            Mnemonic::Cmp => self.cmp(address_mode),
            Mnemonic::Cpx => self.cpx(address_mode),
            Mnemonic::Cpy => self.cpy(address_mode),
            Mnemonic::Dec => self.dec(address_mode),
            Mnemonic::Dex => self.dex(address_mode),
            Mnemonic::Dey => self.dey(address_mode),
            Mnemonic::Eor => self.eor(address_mode),
            Mnemonic::Inc => self.inc(address_mode),
            Mnemonic::Inx => self.inx(address_mode),
            Mnemonic::Iny => self.iny(address_mode),
            Mnemonic::Jmp => self.jmp(address_mode),
            Mnemonic::Jsr => self.jsr(address_mode),
            Mnemonic::Lda => self.lda(address_mode),
            Mnemonic::Ldx => self.ldx(address_mode),
            Mnemonic::Ldy => self.ldy(address_mode),
            Mnemonic::Lsr => self.lsr(address_mode),
            Mnemonic::Nop => self.nop(address_mode),
            Mnemonic::Ora => self.ora(address_mode),
            Mnemonic::Pha => self.pha(address_mode),
            Mnemonic::Php => self.php(address_mode),
            Mnemonic::Pla => self.pla(address_mode),
            Mnemonic::Plp => self.plp(address_mode),
            Mnemonic::Rol => self.rol(address_mode),
            Mnemonic::Ror => self.ror(address_mode),
            Mnemonic::Rti => self.rti(address_mode),
            Mnemonic::Rts => self.rts(address_mode),
            Mnemonic::Sbc => self.sbc(address_mode),
            Mnemonic::Sec => self.sec(address_mode),
            Mnemonic::Sed => self.sed(address_mode),
            Mnemonic::Sei => self.sei(address_mode),
            Mnemonic::Sta => self.sta(address_mode),
            Mnemonic::Stx => self.stx(address_mode),
            Mnemonic::Sty => self.sty(address_mode),
            Mnemonic::Tax => self.tax(address_mode),
            Mnemonic::Tay => self.tay(address_mode),
            Mnemonic::Tsx => self.tsx(address_mode),
            Mnemonic::Txa => self.txa(address_mode),
            Mnemonic::Txs => self.txs(address_mode),
            Mnemonic::Tya => self.tya(address_mode),
            Mnemonic::Unimplemented => {},
        }
    }

    /// Cycles that `opcode` costs beyond its base count, with the program
    /// counter at the first operand byte.
    ///
    /// For an opcode that pays for page crossings this is exactly one cycle
    /// when indexing carried the operand's address into another page, and
    /// none otherwise.
    pub fn extra_cycles(&self, opcode: &Opcode) -> (extra: u8)
        ensures
            extra == self@.extra_cycles(*opcode),
            extra <= 2,
            opcode.surcharge == Surcharge::PageCross ==> extra == (if self@.page_crossed(
                opcode.address_mode,
            ) {
                1u8
            } else {
                0u8
            }),
    {
        match opcode.surcharge {
            Surcharge::Never => 0,
            Surcharge::PageCross => if self.page_crossed(&opcode.address_mode) {
                1
            } else {
                0
            },
            Surcharge::Branch => if !self.branch_taken(&opcode.mnemonic) {
                0
            } else if self.branch_crosses_page() {
                2
            } else {
                1
            },
        }
    }

    /// Performs the operation of `opcode` with the program counter at the
    /// first operand byte, moves the counter past the instruction if the
    /// operation left it in place, and counts the cycles.
    pub fn perform(&mut self, opcode: &Opcode)
        ensures
            final(self)@ == old(self)@.perform(*opcode),
    {
        proof {
            reveal(Machine::perform);
        }
        let before = self.program_pointer;
        let extra = self.extra_cycles(opcode);
        self.execute(&opcode.mnemonic, &opcode.address_mode);
        if self.program_pointer == before {
            self.program_pointer = skip_operand(before, opcode.bytes);
        }
        self.cycles = count_cycles(self.cycles, opcode.cycles, extra);
    }

    /// Executes one instruction.
    ///
    /// Returns the engine's state after it. A halted engine does nothing and
    /// says so. A byte without an operation halts the engine and is returned
    /// as an error with the address it was fetched from.
    pub fn step(&mut self) -> (result: Result<EngineState, CpuError>)
        ensures
            final(self)@ == old(self)@.step(),
            result == old(self)@.step_result(),
            result is Err <==> !old(self)@.can_execute() && old(self)@.state
                == EngineState::Running,
            result is Err ==> final(self)@.state == EngineState::Halted,
            old(self)@.flag(Flag::Unused) ==> final(self)@.flag(Flag::Unused),
    {
        proof {
            reveal(Machine::step);
            if self@.flag(Flag::Unused) {
                lemma_step_invariant(self@);
            }
        }
        if self.state == EngineState::Halted {
            return Ok(EngineState::Halted);
        }
        let address = self.program_pointer;
        let code = self.read_memory(address);
        self.program_pointer = address.wrapping_add(1);
        let opcode = lookup(code);
        if !opcode.is_implemented() {
            self.state = EngineState::Halted;
            return Err(CpuError::UnimplementedOpcode { code, address });
        }
        self.perform(&opcode);
        Ok(self.state)
    }

    /// Steps until the engine halts, but at most `limit` times.
    ///
    /// The report counts the instructions that were executed and says how
    /// the run ended.
    pub fn run(&mut self, limit: u64) -> (report: RunReport)
        ensures
            final(self)@ == old(self)@.run(limit as nat),
            report.executed == old(self)@.run_executed(limit as nat),
            report.outcome == old(self)@.run_outcome(limit as nat),
            report.executed <= limit,
            old(self)@.flag(Flag::Unused) ==> final(self)@.flag(Flag::Unused),
    {
        proof {
            if self@.flag(Flag::Unused) {
                lemma_run_invariant(self@, limit as nat);
            }
        }
        let mut executed: u64 = 0;
        while executed < limit && self.state == EngineState::Running
            invariant
                executed <= limit,
                old(self)@.flag(Flag::Unused) ==> old(self)@.run(limit as nat).flag(Flag::Unused),
                old(self)@.run(limit as nat) == self@.run((limit - executed) as nat),
                old(self)@.run_executed(limit as nat) == executed + self@.run_executed(
                    (limit - executed) as nat,
                ),
                old(self)@.run_outcome(limit as nat) == self@.run_outcome(
                    (limit - executed) as nat,
                ),
            decreases limit - executed,
        {
            let ghost before = self@;
            match self.step() {
                Ok(_) => {
                    executed = executed + 1;
                },
                Err(error) => {
                    assert(before.step().run((limit - executed - 1) as nat) == before.step());
                    return RunReport { executed, outcome: Err(error) };
                },
            }
        }
        RunReport { executed, outcome: Ok(self.state) }
    }
}

} // verus!
