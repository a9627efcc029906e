//! Laws of the instruction set: what holds of every machine, stated over
//! the model and proved from the definitions of the instructions.

use crate::engine::CpuError;
use crate::machine::{page, wrap16, wrap64, wrap8, EngineState, Machine};
use crate::opcode::{decode, AddressMode, Mnemonic, Opcode, Surcharge};
use crate::semantics::{
    arithmetic_status, bit_test_status, compare_status, pulled_status, pushed_status,
    shift_status,
};
use crate::status::{
    add_signed_total, add_total, carry_value, is_set, lemma_with_flag, lemma_with_zero_negative,
    out_of_signed_range, signed, sub_signed_total, sub_total, with_flag, with_zero_negative, Flag,
};
use vstd::prelude::*;

verus! {

/// After an addition or subtraction Carry and Overflow hold what they were
/// given, Zero and Negative describe the result, and the other four flags
/// are as before.
pub proof fn lemma_arithmetic_status(
    status: u8,
    carry: bool,
    overflow: bool,
    result: u8,
    other: Flag,
)
    ensures
        is_set(arithmetic_status(status, carry, overflow, result), Flag::Carry) == carry,
        is_set(arithmetic_status(status, carry, overflow, result), Flag::Overflow) == overflow,
        is_set(arithmetic_status(status, carry, overflow, result), Flag::Zero) <==> result == 0,
        is_set(arithmetic_status(status, carry, overflow, result), Flag::Negative) <==> result
            >= 0x80,
        other != Flag::Carry && other != Flag::Overflow && other != Flag::Zero && other
            != Flag::Negative ==> is_set(
            arithmetic_status(status, carry, overflow, result),
            other,
        ) == is_set(status, other),
{
    let carried = with_flag(status, Flag::Carry, carry);
    let flagged = with_flag(carried, Flag::Overflow, overflow);
    lemma_with_flag(status, Flag::Carry, carry, Flag::Carry);
    lemma_with_flag(status, Flag::Carry, carry, other);
    lemma_with_flag(carried, Flag::Overflow, overflow, Flag::Overflow);
    lemma_with_flag(carried, Flag::Overflow, overflow, Flag::Carry);
    lemma_with_flag(carried, Flag::Overflow, overflow, other);
    lemma_with_zero_negative(flagged, result, Flag::Carry);
    lemma_with_zero_negative(flagged, result, Flag::Overflow);
    lemma_with_zero_negative(flagged, result, other);
}

/// After a shift or rotate Carry holds the bit that was moved out, Zero and
/// Negative describe the result, and the other five flags are as before.
pub proof fn lemma_shift_status(status: u8, carry: bool, result: u8, other: Flag)
    ensures
        is_set(shift_status(status, carry, result), Flag::Carry) == carry,
        is_set(shift_status(status, carry, result), Flag::Zero) <==> result == 0,
        is_set(shift_status(status, carry, result), Flag::Negative) <==> result >= 0x80,
        other != Flag::Carry && other != Flag::Zero && other != Flag::Negative ==> is_set(
            shift_status(status, carry, result),
            other,
        ) == is_set(status, other),
{
    let carried = with_flag(status, Flag::Carry, carry);
    lemma_with_flag(status, Flag::Carry, carry, Flag::Carry);
    lemma_with_flag(status, Flag::Carry, carry, other);
    lemma_with_zero_negative(carried, result, Flag::Carry);
    lemma_with_zero_negative(carried, result, other);
}

/// After a compare Carry tells that the register is not below the operand,
/// Zero that they are equal, Negative is bit 7 of their eight-bit
/// difference, and the other five flags are as before.
pub proof fn lemma_compare_status(status: u8, register: u8, operand: u8, other: Flag)
    ensures
        is_set(compare_status(status, register, operand), Flag::Carry) <==> register >= operand,
        is_set(compare_status(status, register, operand), Flag::Zero) <==> register == operand,
        is_set(compare_status(status, register, operand), Flag::Negative) <==> wrap8(
            register - operand,
        ) >= 0x80,
        other != Flag::Carry && other != Flag::Zero && other != Flag::Negative ==> is_set(
            compare_status(status, register, operand),
            other,
        ) == is_set(status, other),
{
    lemma_shift_status(status, register >= operand, wrap8(register - operand), other);
}

/// After a bit test Zero tells that accumulator and operand share no bit,
/// Overflow and Negative are bits 6 and 7 of the operand, and the other
/// five flags are as before.
pub proof fn lemma_bit_test_status(status: u8, accumulator: u8, operand: u8, other: Flag)
    ensures
        is_set(bit_test_status(status, accumulator, operand), Flag::Zero) <==> accumulator
            & operand == 0,
        is_set(bit_test_status(status, accumulator, operand), Flag::Overflow) == is_set(
            operand,
            Flag::Overflow,
        ),
        is_set(bit_test_status(status, accumulator, operand), Flag::Negative) == is_set(
            operand,
            Flag::Negative,
        ),
        other != Flag::Zero && other != Flag::Overflow && other != Flag::Negative ==> is_set(
            bit_test_status(status, accumulator, operand),
            other,
        ) == is_set(status, other),
{
    let zero = with_flag(status, Flag::Zero, accumulator & operand == 0);
    let overflow = with_flag(
        zero,
        Flag::Overflow,
        is_set(operand, Flag::Overflow),
    );
    lemma_with_flag(status, Flag::Zero, accumulator & operand == 0, Flag::Zero);
    lemma_with_flag(status, Flag::Zero, accumulator & operand == 0, other);
    lemma_with_flag(zero, Flag::Overflow, is_set(operand, Flag::Overflow), Flag::Overflow);
    lemma_with_flag(zero, Flag::Overflow, is_set(operand, Flag::Overflow), Flag::Zero);
    lemma_with_flag(zero, Flag::Overflow, is_set(operand, Flag::Overflow), other);
    lemma_with_flag(overflow, Flag::Negative, is_set(operand, Flag::Negative), Flag::Negative);
    lemma_with_flag(overflow, Flag::Negative, is_set(operand, Flag::Negative), Flag::Zero);
    lemma_with_flag(overflow, Flag::Negative, is_set(operand, Flag::Negative), Flag::Overflow);
    lemma_with_flag(overflow, Flag::Negative, is_set(operand, Flag::Negative), other);
}

/// The copy of the status byte that goes to the stack has Break and the
/// unused bit set and agrees with the register on the other six flags.
pub proof fn lemma_pushed_status(status: u8, other: Flag)
    ensures
        is_set(pushed_status(status), Flag::Break),
        is_set(pushed_status(status), Flag::Unused),
        other != Flag::Break && other != Flag::Unused ==> is_set(pushed_status(status), other)
            == is_set(status, other),
{
    let broken = with_flag(status, Flag::Break, true);
    lemma_with_flag(status, Flag::Break, true, Flag::Break);
    lemma_with_flag(status, Flag::Break, true, other);
    lemma_with_flag(broken, Flag::Unused, true, Flag::Unused);
    lemma_with_flag(broken, Flag::Unused, true, Flag::Break);
    lemma_with_flag(broken, Flag::Unused, true, other);
}

/// The status byte that comes from the stack has Break clear and the unused
/// bit set and agrees with the pulled byte on the other six flags.
pub proof fn lemma_pulled_status(data: u8, other: Flag)
    ensures
        !is_set(pulled_status(data), Flag::Break),
        is_set(pulled_status(data), Flag::Unused),
        other != Flag::Break && other != Flag::Unused ==> is_set(pulled_status(data), other)
            == is_set(data, other),
{
    let cleared = with_flag(data, Flag::Break, false);
    lemma_with_flag(data, Flag::Break, false, Flag::Break);
    lemma_with_flag(data, Flag::Break, false, other);
    lemma_with_flag(cleared, Flag::Unused, true, Flag::Unused);
    lemma_with_flag(cleared, Flag::Unused, true, Flag::Break);
    lemma_with_flag(cleared, Flag::Unused, true, other);
}

/// Pushing the status and pulling it again gives the register back, but for
/// Break, which comes back clear, and the unused bit, which comes back set.
pub proof fn lemma_php_plp(m: Machine, other: Flag)
    requires
        m.well_formed(),
    ensures
        m.php().plp().sp == m.sp,
        !m.php().plp().flag(Flag::Break),
        m.php().plp().flag(Flag::Unused),
        other != Flag::Break && other != Flag::Unused ==> m.php().plp().flag(other) == m.flag(
            other,
        ),
{
    crate::machine::lemma_push_pull(m, pushed_status(m.status));
    lemma_pulled_status(pushed_status(m.status), other);
    lemma_pushed_status(m.status, other);
}

/// The flags that an operation may change. Every other flag keeps its
/// value, whatever the operand.
pub open spec fn may_change(mnemonic: Mnemonic, flag: Flag) -> bool {
    match mnemonic {
        Mnemonic::Adc | Mnemonic::Sbc => flag == Flag::Carry || flag == Flag::Overflow || flag
            == Flag::Zero || flag == Flag::Negative,
        Mnemonic::Asl
        | Mnemonic::Lsr
        | Mnemonic::Rol
        | Mnemonic::Ror
        | Mnemonic::Cmp
        | Mnemonic::Cpx
        | Mnemonic::Cpy => flag == Flag::Carry || flag == Flag::Zero || flag == Flag::Negative,
        Mnemonic::Bit => flag == Flag::Zero || flag == Flag::Overflow || flag == Flag::Negative,
        Mnemonic::Lda
        | Mnemonic::Ldx
        | Mnemonic::Ldy
        | Mnemonic::Tax
        | Mnemonic::Tay
        | Mnemonic::Txa
        | Mnemonic::Tya
        | Mnemonic::Tsx
        | Mnemonic::Pla
        | Mnemonic::Inc
        | Mnemonic::Dec
        | Mnemonic::Inx
        | Mnemonic::Iny
        | Mnemonic::Dex
        | Mnemonic::Dey
        | Mnemonic::And
        | Mnemonic::Ora
        | Mnemonic::Eor => flag == Flag::Zero || flag == Flag::Negative,
        Mnemonic::Clc | Mnemonic::Sec => flag == Flag::Carry,
        Mnemonic::Cli | Mnemonic::Sei => flag == Flag::InterruptDisable,
        Mnemonic::Clv => flag == Flag::Overflow,
        Mnemonic::Cld | Mnemonic::Sed => flag == Flag::Decimal,
        Mnemonic::Plp | Mnemonic::Rti => true,
        _ => false,
    }
}

/// An operation leaves every flag alone that it may not change.
pub proof fn lemma_untouched_flags(m: Machine, mnemonic: Mnemonic, mode: AddressMode, flag: Flag)
    requires
        !may_change(mnemonic, flag),
    ensures
        m.execute(mnemonic, mode).flag(flag) == m.flag(flag),
{
    reveal(Machine::execute);
    let operand = m.operand(mode);
    let carry = m.flag(Flag::Carry);
    match mnemonic {
        Mnemonic::Lda | Mnemonic::Ldx | Mnemonic::Ldy => {
            lemma_with_zero_negative(m.status, operand, flag);
        },
        Mnemonic::Tax | Mnemonic::Tay => {
            lemma_with_zero_negative(m.status, m.a, flag);
        },
        Mnemonic::Txa => {
            lemma_with_zero_negative(m.status, m.x, flag);
        },
        Mnemonic::Tya => {
            lemma_with_zero_negative(m.status, m.y, flag);
        },
        Mnemonic::Tsx => {
            lemma_with_zero_negative(m.status, m.sp, flag);
        },
        Mnemonic::Pla => {
            lemma_with_zero_negative(m.status, m.pulled(), flag);
        },
        Mnemonic::Inc => {
            lemma_with_zero_negative(m.status, wrap8(operand + 1), flag);
        },
        Mnemonic::Dec => {
            lemma_with_zero_negative(m.status, wrap8(operand - 1), flag);
        },
        Mnemonic::Inx => {
            lemma_with_zero_negative(m.status, wrap8(m.x + 1), flag);
        },
        Mnemonic::Iny => {
            lemma_with_zero_negative(m.status, wrap8(m.y + 1), flag);
        },
        Mnemonic::Dex => {
            lemma_with_zero_negative(m.status, wrap8(m.x - 1), flag);
        },
        Mnemonic::Dey => {
            lemma_with_zero_negative(m.status, wrap8(m.y - 1), flag);
        },
        Mnemonic::And => {
            lemma_with_zero_negative(m.status, m.a & operand, flag);
        },
        Mnemonic::Ora => {
            lemma_with_zero_negative(m.status, m.a | operand, flag);
        },
        Mnemonic::Eor => {
            lemma_with_zero_negative(m.status, m.a ^ operand, flag);
        },
        Mnemonic::Asl => {
            lemma_shift_status(m.status, operand >= 0x80, wrap8(operand * 2), flag);
        },
        Mnemonic::Lsr => {
            lemma_shift_status(m.status, operand % 2 == 1, operand / 2, flag);
        },
        Mnemonic::Rol => {
            lemma_shift_status(
                m.status,
                operand >= 0x80,
                wrap8(operand * 2 + carry_value(carry)),
                flag,
            );
        },
        Mnemonic::Ror => {
            lemma_shift_status(
                m.status,
                operand % 2 == 1,
                wrap8(operand / 2 + 0x80 * carry_value(carry)),
                flag,
            );
        },
        Mnemonic::Cmp => {
            lemma_compare_status(m.status, m.a, operand, flag);
        },
        Mnemonic::Cpx => {
            lemma_compare_status(m.status, m.x, operand, flag);
        },
        Mnemonic::Cpy => {
            lemma_compare_status(m.status, m.y, operand, flag);
        },
        Mnemonic::Bit => {
            lemma_bit_test_status(m.status, m.a, operand, flag);
        },
        Mnemonic::Adc => {
            lemma_arithmetic_status(
                m.status,
                add_total(m.a, operand, carry) > 0xFF,
                out_of_signed_range(add_signed_total(m.a, operand, carry)),
                wrap8(add_total(m.a, operand, carry)),
                flag,
            );
        },
        Mnemonic::Sbc => {
            lemma_arithmetic_status(
                m.status,
                sub_total(m.a, operand, carry) >= 0,
                out_of_signed_range(sub_signed_total(m.a, operand, carry)),
                wrap8(sub_total(m.a, operand, carry)),
                flag,
            );
        },
        Mnemonic::Clc => {
            lemma_with_flag(m.status, Flag::Carry, false, flag);
        },
        Mnemonic::Sec => {
            lemma_with_flag(m.status, Flag::Carry, true, flag);
        },
        Mnemonic::Cli => {
            lemma_with_flag(m.status, Flag::InterruptDisable, false, flag);
        },
        Mnemonic::Sei => {
            lemma_with_flag(m.status, Flag::InterruptDisable, true, flag);
        },
        Mnemonic::Clv => {
            lemma_with_flag(m.status, Flag::Overflow, false, flag);
        },
        Mnemonic::Cld => {
            lemma_with_flag(m.status, Flag::Decimal, false, flag);
        },
        Mnemonic::Sed => {
            lemma_with_flag(m.status, Flag::Decimal, true, flag);
        },
        _ => {},
    }
}

/// The operations that write to memory: the stores, the pushes, the
/// subroutine call, and the shifts and increments when their operand is in
/// memory.
pub open spec fn writes_memory(mnemonic: Mnemonic, mode: AddressMode) -> bool {
    match mnemonic {
        Mnemonic::Sta
        | Mnemonic::Stx
        | Mnemonic::Sty
        | Mnemonic::Pha
        | Mnemonic::Php
        | Mnemonic::Jsr => true,
        Mnemonic::Asl
        | Mnemonic::Lsr
        | Mnemonic::Rol
        | Mnemonic::Ror
        | Mnemonic::Inc
        | Mnemonic::Dec => mode != AddressMode::Accumulator,
        _ => false,
    }
}

/// The operations that move the stack pointer.
pub open spec fn moves_stack_pointer(mnemonic: Mnemonic) -> bool {
    match mnemonic {
        Mnemonic::Txs
        | Mnemonic::Pha
        | Mnemonic::Php
        | Mnemonic::Pla
        | Mnemonic::Plp
        | Mnemonic::Jsr
        | Mnemonic::Rts
        | Mnemonic::Rti => true,
        _ => false,
    }
}

/// The operations that set the program counter.
pub open spec fn sets_program_counter(mnemonic: Mnemonic) -> bool {
    match mnemonic {
        Mnemonic::Jmp | Mnemonic::Jsr | Mnemonic::Rts | Mnemonic::Rti => true,
        _ => mnemonic.is_branch(),
    }
}

/// No operation touches the cycle counter, and only the break stops the
/// engine.
pub proof fn lemma_frame(m: Machine, mnemonic: Mnemonic, mode: AddressMode)
    ensures
        m.execute(mnemonic, mode).cycles == m.cycles,
        m.execute(mnemonic, mode).state == (if mnemonic == Mnemonic::Brk {
            EngineState::Halted
        } else {
            m.state
        }),
{
    reveal(Machine::execute);
}

/// Memory changes only under the operations that write to it.
pub proof fn lemma_memory_frame(m: Machine, mnemonic: Mnemonic, mode: AddressMode)
    requires
        !writes_memory(mnemonic, mode),
    ensures
        m.execute(mnemonic, mode).memory == m.memory,
{
    reveal(Machine::execute);
}

/// Stack pointer and program counter change only under the operations
/// named for them.
pub proof fn lemma_pointer_frame(m: Machine, mnemonic: Mnemonic, mode: AddressMode)
    ensures
        !moves_stack_pointer(mnemonic) ==> m.execute(mnemonic, mode).sp == m.sp,
        !sets_program_counter(mnemonic) ==> m.execute(mnemonic, mode).pc == m.pc,
{
    reveal(Machine::execute);
}

/// An operation on a machine with a whole memory gives a machine with a
/// whole memory.
pub proof fn lemma_execute_well_formed(m: Machine, mnemonic: Mnemonic, mode: AddressMode)
    requires
        m.well_formed(),
    ensures
        m.execute(mnemonic, mode).well_formed(),
{
    reveal(Machine::execute);
    if !writes_memory(mnemonic, mode) {
        lemma_memory_frame(m, mnemonic, mode);
    }
}

/// The unused bit of the status byte, once set, stays set under every
/// operation.
pub proof fn lemma_unused_bit_stays(m: Machine, mnemonic: Mnemonic, mode: AddressMode)
    requires
        m.flag(Flag::Unused),
    ensures
        m.execute(mnemonic, mode).flag(Flag::Unused),
{
    if mnemonic == Mnemonic::Plp || mnemonic == Mnemonic::Rti {
        reveal(Machine::execute);
        lemma_pulled_status(m.pulled(), Flag::Unused);
    } else {
        lemma_untouched_flags(m, mnemonic, mode, Flag::Unused);
    }
}

/// Addition with carry: the accumulator receives the low eight bits of the
/// unsigned sum, Carry tells that the sum passed 255, Overflow that the
/// signed sum left the range -128 to 127, Zero and Negative describe the
/// new accumulator.
pub proof fn lemma_adc(m: Machine, mode: AddressMode)
    ensures
        ({
            let total = add_total(m.a, m.operand(mode), m.flag(Flag::Carry));
            let signed_total = add_signed_total(m.a, m.operand(mode), m.flag(Flag::Carry));
            let after = m.adc(mode);
            &&& after.a == total % 0x100
            &&& after.flag(Flag::Carry) <==> total > 0xFF
            &&& after.flag(Flag::Overflow) <==> signed_total < -128 || signed_total > 127
            &&& after.flag(Flag::Zero) <==> after.a == 0
            &&& after.flag(Flag::Negative) <==> after.a >= 0x80
        }),
{
    let total = add_total(m.a, m.operand(mode), m.flag(Flag::Carry));
    let signed_total = add_signed_total(m.a, m.operand(mode), m.flag(Flag::Carry));
    lemma_arithmetic_status(
        m.status,
        total > 0xFF,
        out_of_signed_range(signed_total),
        wrap8(total),
        Flag::Carry,
    );
}

/// Subtraction with borrow: the accumulator receives the low eight bits of
/// the difference, Carry tells that no borrow was needed, Overflow that the
/// signed difference left the range -128 to 127, Zero and Negative describe
/// the new accumulator.
pub proof fn lemma_sbc(m: Machine, mode: AddressMode)
    ensures
        ({
            let total = sub_total(m.a, m.operand(mode), m.flag(Flag::Carry));
            let signed_total = sub_signed_total(m.a, m.operand(mode), m.flag(Flag::Carry));
            let after = m.sbc(mode);
            &&& after.a == total % 0x100
            &&& after.flag(Flag::Carry) <==> total >= 0
            &&& after.flag(Flag::Overflow) <==> signed_total < -128 || signed_total > 127
            &&& after.flag(Flag::Zero) <==> after.a == 0
            &&& after.flag(Flag::Negative) <==> after.a >= 0x80
        }),
{
    let total = sub_total(m.a, m.operand(mode), m.flag(Flag::Carry));
    let signed_total = sub_signed_total(m.a, m.operand(mode), m.flag(Flag::Carry));
    lemma_arithmetic_status(
        m.status,
        total >= 0,
        out_of_signed_range(signed_total),
        wrap8(total),
        Flag::Carry,
    );
}

/// A subroutine call followed by a return continues right after the three
/// bytes of the call, with the stack pointer where it was, whatever the
/// target of the call and wherever the stack pointer stands.
#[verifier::rlimit(40)]
pub proof fn lemma_jsr_rts(m: Machine, mode: AddressMode)
    requires
        m.well_formed(),
    ensures
        m.jsr(mode).rts().pc == wrap16(m.pc + 2),
        m.jsr(mode).rts().sp == m.sp,
{
    let return_address = wrap16(m.pc + 1);
    crate::machine::lemma_push_pull_word(m, return_address);
    let pushed = m.push_word(return_address);
    let called = m.jsr(mode);
    assert(called.memory == pushed.memory);
    assert(called.sp == pushed.sp);
    assert(called.pulled_word() == pushed.pulled_word());
}

/// A halted machine stays as it is, however often it is stepped.
pub proof fn lemma_halted_is_final(m: Machine, limit: nat)
    requires
        m.state == EngineState::Halted,
    ensures
        m.step() == m,
        m.run(limit) == m,
        m.run_executed(limit) == 0,
        m.run_outcome(limit) == Ok::<EngineState, CpuError>(EngineState::Halted),
{
    reveal(Machine::step);
}

/// A byte without an operation halts a running machine: the program counter
/// has passed the byte and nothing else has changed.
pub proof fn lemma_step_unimplemented(m: Machine)
    requires
        m.state == EngineState::Running,
        !m.next_opcode().is_implemented(),
    ensures
        m.step() == (Machine { pc: wrap16(m.pc + 1), state: EngineState::Halted, ..m }),
        m.step_result() == Err::<EngineState, CpuError>(
            CpuError::UnimplementedOpcode { code: m.read(m.pc), address: m.pc },
        ),
{
    reveal(Machine::step);
}

/// A step that executes an instruction performs its operation and nothing
/// else to registers, flags and memory.
pub proof fn lemma_step_executes(m: Machine)
    requires
        m.can_execute(),
    ensures
        ({
            let opcode = m.next_opcode();
            let done = m.fetched().execute(opcode.mnemonic, opcode.address_mode);
            &&& m.step().a == done.a
            &&& m.step().x == done.x
            &&& m.step().y == done.y
            &&& m.step().sp == done.sp
            &&& m.step().status == done.status
            &&& m.step().memory == done.memory
            &&& m.step().state == done.state
        }),
{
    reveal(Machine::step);
    reveal(Machine::perform);
}

/// A step that executes an instruction adds the base cycles of its opcode
/// and the surcharge to the cycle counter.
///
/// For an opcode that pays for page crossings the surcharge is one cycle
/// when the high byte of the operand's address differs from the high byte
/// of the address before indexing, and nothing otherwise. For a branch it
/// is nothing when the branch is not taken, one cycle when it is taken, and
/// two when it is taken into another page.
pub proof fn lemma_step_cycles(m: Machine)
    requires
        m.can_execute(),
    ensures
        ({
            let opcode = m.next_opcode();
            let at_operand = m.fetched();
            &&& m.step().cycles == wrap64(
                m.cycles + opcode.cycles + at_operand.extra_cycles(opcode),
            )
            &&& opcode.surcharge == Surcharge::Never ==> at_operand.extra_cycles(opcode) == 0
            &&& opcode.surcharge == Surcharge::PageCross ==> at_operand.extra_cycles(opcode) == (
            if page(at_operand.base_address(opcode.address_mode)) != page(
                at_operand.operand_address(opcode.address_mode),
            ) {
                1u8
            } else {
                0u8
            })
            &&& opcode.surcharge == Surcharge::Branch ==> at_operand.extra_cycles(opcode) == (
            if !at_operand.branch_taken(opcode.mnemonic) {
                0u8
            } else if page(at_operand.branch_origin()) != page(at_operand.branch_target()) {
                2u8
            } else {
                1u8
            })
        }),
{
    reveal(Machine::step);
    reveal(Machine::perform);
    let opcode = m.next_opcode();
    lemma_frame(m.fetched(), opcode.mnemonic, opcode.address_mode);
}

/// After a step that executes an instruction which does not set the
/// program counter, the counter stands right after the instruction.
pub proof fn lemma_step_advances(m: Machine)
    requires
        m.can_execute(),
        !sets_program_counter(m.next_opcode().mnemonic),
    ensures
        m.step().pc == wrap16(m.pc + m.next_opcode().bytes),
{
    reveal(Machine::step);
    reveal(Machine::perform);
    let opcode = m.next_opcode();
    lemma_pointer_frame(m.fetched(), opcode.mnemonic, opcode.address_mode);
    assert(1 <= opcode.bytes <= 3) by {
        reveal(decode);
    }
}

/// A step keeps the memory whole and the unused status bit set.
pub proof fn lemma_step_invariant(m: Machine)
    requires
        m.well_formed(),
        m.flag(Flag::Unused),
    ensures
        m.step().well_formed(),
        m.step().flag(Flag::Unused),
{
    reveal(Machine::step);
    reveal(Machine::perform);
    let opcode = m.next_opcode();
    lemma_execute_well_formed(m.fetched(), opcode.mnemonic, opcode.address_mode);
    lemma_unused_bit_stays(m.fetched(), opcode.mnemonic, opcode.address_mode);
}

/// A run keeps the memory whole and the unused status bit set.
pub proof fn lemma_run_invariant(m: Machine, limit: nat)
    requires
        m.well_formed(),
        m.flag(Flag::Unused),
    ensures
        m.run(limit).well_formed(),
        m.run(limit).flag(Flag::Unused),
    decreases limit,
{
    if limit != 0 && m.state != EngineState::Halted {
        lemma_step_invariant(m);
        lemma_run_invariant(m.step(), (limit - 1) as nat);
    }
}

/// Running for `first + second` steps is running for `first` steps and then
/// for `second` more: the machines agree and the executed instructions add
/// up.
pub proof fn lemma_run_splits(m: Machine, first: nat, second: nat)
    ensures
        m.run(first + second) == m.run(first).run(second),
        m.run_executed(first + second) == m.run_executed(first) + m.run(first).run_executed(
            second,
        ),
    decreases first,
{
    if m.state == EngineState::Halted {
        lemma_halted_is_final(m, first);
        lemma_halted_is_final(m, second);
        lemma_halted_is_final(m, first + second);
    } else if first != 0 {
        lemma_run_splits(m.step(), (first - 1) as nat, second);
        if !m.can_execute() {
            lemma_step_unimplemented(m);
            lemma_halted_is_final(m.step(), (first - 1) as nat);
            lemma_halted_is_final(m.step(), second);
        }
    }
}

/// The bytes `0x20` and `0x60` are the subroutine call in absolute mode and
/// the return.
pub proof fn lemma_decode_call_and_return()
    ensures
        decode(0x20) == (Opcode {
            code: 0x20,
            mnemonic: Mnemonic::Jsr,
            bytes: 3,
            address_mode: AddressMode::Absolute,
            cycles: 6,
            surcharge: Surcharge::Never,
        }),
        decode(0x60) == (Opcode {
            code: 0x60,
            mnemonic: Mnemonic::Rts,
            bytes: 1,
            address_mode: AddressMode::Implied,
            cycles: 6,
            surcharge: Surcharge::Never,
        }),
{
    reveal(decode);
}

/// A step at a `JSR` pushes the address of the call's last byte and goes to
/// the target, unless the target is the address of the call's own first
/// operand byte: the engine takes that for no jump and moves on past the
/// call.
pub proof fn lemma_step_call(m: Machine)
    requires
        m.state == EngineState::Running,
        m.read(m.pc) == 0x20,
    ensures
        ({
            let pushed = m.fetched().push_word(wrap16(m.pc + 2));
            let target = pushed.read_word(wrap16(m.pc + 1));
            &&& m.step().memory == pushed.memory
            &&& m.step().sp == pushed.sp
            &&& m.step().state == EngineState::Running
            &&& m.step().pc == (if target == wrap16(m.pc + 1) {
                wrap16(m.pc + 3)
            } else {
                target
            })
        }),
{
    lemma_decode_call_and_return();
    let at_operand = m.fetched();
    assert(at_operand.jsr(AddressMode::Absolute).pc == at_operand.push_word(
        wrap16(at_operand.pc + 1),
    ).read_word(at_operand.pc)) by {
        reveal(Machine::operand_address);
    }
    assert(at_operand.execute(Mnemonic::Jsr, AddressMode::Absolute) == at_operand.jsr(
        AddressMode::Absolute,
    )) by {
        reveal(Machine::execute);
    }
    reveal(Machine::step);
    reveal(Machine::perform);
}

/// A step at an `RTS` pulls an address and goes to the byte after it.
pub proof fn lemma_step_return(m: Machine)
    requires
        m.state == EngineState::Running,
        m.read(m.pc) == 0x60,
    ensures
        m.step().pc == wrap16(m.pulled_word() + 1),
        m.step().sp == m.pull().pull().sp,
        m.step().memory == m.memory,
        m.step().state == EngineState::Running,
{
    lemma_decode_call_and_return();
    let at_operand = m.fetched();
    assert(at_operand.execute(Mnemonic::Rts, AddressMode::Implied) == at_operand.rts()) by {
        reveal(Machine::execute);
    }
    assert(at_operand.pulled_word() == m.pulled_word());
    reveal(Machine::step);
    reveal(Machine::perform);
}

/// Whether the two bytes that a call at the program counter pushes land
/// clear of the call's own operand and of the byte at its target.
pub open spec fn call_is_clear_of_stack(m: Machine) -> bool {
    let high = m.stack_address();
    let low = m.pull_back().stack_address();
    let target = m.read_word(wrap16(m.pc + 1));
    &&& high != wrap16(m.pc + 1) && high != wrap16(m.pc + 2) && high != target
    &&& low != wrap16(m.pc + 1) && low != wrap16(m.pc + 2) && low != target
}

/// A step at a `JSR` whose pushed bytes land clear of its operand goes to
/// the target that the operand names, with the return address on the
/// stack, unless the target is the address of the call's own first operand
/// byte.
pub proof fn lemma_call_reaches_target(m: Machine)
    requires
        m.well_formed(),
        m.state == EngineState::Running,
        m.read(m.pc) == 0x20,
        m.read_word(wrap16(m.pc + 1)) != wrap16(m.pc + 1),
        call_is_clear_of_stack(m),
    ensures
        m.step().pc == m.read_word(wrap16(m.pc + 1)),
        m.step().state == EngineState::Running,
        m.step().read(m.step().pc) == m.read(m.read_word(wrap16(m.pc + 1))),
        m.step().pulled_word() == wrap16(m.pc + 2),
        m.step().pull().pull().sp == m.sp,
{
    let target = m.read_word(wrap16(m.pc + 1));
    let return_address = wrap16(m.pc + 2);
    let at_operand = m.fetched();
    let pushed = at_operand.push_word(return_address);
    lemma_call_keeps_its_operand(m);
    lemma_step_call(m);
    crate::machine::lemma_push_word_frame(at_operand, return_address, target);
    crate::machine::lemma_push_pull_word(at_operand, return_address);
    lemma_pulls_depend_on_stack(m.step(), pushed);
}

/// A call and the return from it, as the engine steps through them.
///
/// The machine stands at a `JSR` whose target holds an `RTS`. The two bytes
/// that the call pushes must not land on the operand of the call or on the
/// `RTS`, and the target must not be the address of the call's own first
/// operand byte. Then two steps bring the program counter to the
/// instruction after the call and the stack pointer to where it was.
#[verifier::rlimit(40)]
pub proof fn lemma_call_and_return(m: Machine)
    requires
        m.well_formed(),
        m.state == EngineState::Running,
        m.read(m.pc) == 0x20,
        m.read(m.read_word(wrap16(m.pc + 1))) == 0x60,
        m.read_word(wrap16(m.pc + 1)) != wrap16(m.pc + 1),
        call_is_clear_of_stack(m),
    ensures
        m.step().pc == m.read_word(wrap16(m.pc + 1)),
        m.step().step().pc == wrap16(m.pc + 3),
        m.step().step().sp == m.sp,
        m.step().step().state == EngineState::Running,
{
    lemma_call_reaches_target(m);
    lemma_step_return(m.step());
}

/// The bytes that a pull or two hand out depend on memory and stack pointer
/// alone.
pub proof fn lemma_pulls_depend_on_stack(first: Machine, second: Machine)
    requires
        first.memory == second.memory,
        first.sp == second.sp,
    ensures
        first.pulled() == second.pulled(),
        first.pulled_word() == second.pulled_word(),
        first.pull().pull().sp == second.pull().pull().sp,
{
}

/// A call whose pushed bytes do not land on its own operand reads the same
/// target after the push as before it.
proof fn lemma_call_keeps_its_operand(m: Machine)
    requires
        m.well_formed(),
        m.stack_address() != wrap16(m.pc + 1),
        m.stack_address() != wrap16(m.pc + 2),
        m.pull_back().stack_address() != wrap16(m.pc + 1),
        m.pull_back().stack_address() != wrap16(m.pc + 2),
    ensures
        m.fetched().push_word(wrap16(m.pc + 2)).read_word(wrap16(m.pc + 1)) == m.read_word(
            wrap16(m.pc + 1),
        ),
{
    let at_operand = m.fetched();
    let return_address = wrap16(m.pc + 2);
    crate::machine::lemma_push_word_frame(at_operand, return_address, wrap16(m.pc + 1));
    crate::machine::lemma_push_word_frame(at_operand, return_address, wrap16(m.pc + 2));
    assert(wrap16(wrap16(m.pc + 1) + 1) == wrap16(m.pc + 2));
}

/// A step at a branch. When the branch is taken the program counter goes
/// to the address of the next instruction plus the signed displacement;
/// when it is not taken, to the next instruction. A taken branch with
/// displacement -1 targets its own displacement byte: the engine takes that
/// for no jump and continues at the next instruction. Nothing but program
/// counter and cycle counter changes.
pub proof fn lemma_step_branch(m: Machine)
    requires
        m.can_execute(),
        m.next_opcode().mnemonic.is_branch(),
    ensures
        ({
            let at_operand = m.fetched();
            let taken = at_operand.branch_taken(m.next_opcode().mnemonic);
            let next = wrap16(m.pc + 2);
            let target = wrap16(next + signed(m.read(wrap16(m.pc + 1))));
            &&& m.step().pc == (if taken && target != wrap16(m.pc + 1) {
                target
            } else {
                next
            })
            &&& m.step() == (Machine { pc: m.step().pc, cycles: m.step().cycles, ..m })
        }),
{
    let opcode = m.next_opcode();
    crate::opcode::lemma_decode(m.read(m.pc));
    let at_operand = m.fetched();
    assert(at_operand.execute(opcode.mnemonic, opcode.address_mode) == at_operand.branch(
        opcode.mnemonic,
    )) by {
        reveal(Machine::execute);
    }
    reveal(Machine::step);
    reveal(Machine::perform);
}

/// A step at a jump. The program counter goes to the operand's address. A
/// jump to the address of its own first operand byte is taken for no jump:
/// the engine continues after the three bytes of the jump. Nothing but
/// program counter and cycle counter changes.
pub proof fn lemma_step_jump(m: Machine)
    requires
        m.can_execute(),
        m.next_opcode().mnemonic == Mnemonic::Jmp,
    ensures
        ({
            let target = m.fetched().operand_address(m.next_opcode().address_mode);
            &&& m.step().pc == (if target != wrap16(m.pc + 1) {
                target
            } else {
                wrap16(m.pc + 3)
            })
            &&& m.step() == (Machine { pc: m.step().pc, cycles: m.step().cycles, ..m })
        }),
{
    let opcode = m.next_opcode();
    assert(opcode.bytes == 3) by {
        reveal(decode);
    }
    let at_operand = m.fetched();
    assert(at_operand.execute(opcode.mnemonic, opcode.address_mode) == at_operand.jmp(
        opcode.address_mode,
    )) by {
        reveal(Machine::execute);
    }
    reveal(Machine::step);
    reveal(Machine::perform);
}

/// The bytes `0xA9` and `0x00` are the load of the accumulator in immediate
/// mode and the break.
pub proof fn lemma_decode_load_and_break()
    ensures
        decode(0xA9) == (Opcode {
            code: 0xA9,
            mnemonic: Mnemonic::Lda,
            bytes: 2,
            address_mode: AddressMode::Immediate,
            cycles: 2,
            surcharge: Surcharge::Never,
        }),
        decode(0x00) == (Opcode {
            code: 0x00,
            mnemonic: Mnemonic::Brk,
            bytes: 1,
            address_mode: AddressMode::Implied,
            cycles: 7,
            surcharge: Surcharge::Never,
        }),
{
    reveal(decode);
}

/// A step at `LDA #value` loads the value, lets Zero and Negative follow it
/// and continues after the two bytes of the instruction.
pub proof fn lemma_step_load_immediate(m: Machine, value: u8)
    requires
        m.state == EngineState::Running,
        m.read(m.pc) == 0xA9,
        m.read(wrap16(m.pc + 1)) == value,
    ensures
        m.can_execute(),
        m.step().pc == wrap16(m.pc + 2),
        m.step().a == value,
        m.step().status == with_zero_negative(m.status, value),
        m.step().x == m.x && m.step().y == m.y && m.step().sp == m.sp,
        m.step().memory == m.memory,
        m.step().state == EngineState::Running,
{
    lemma_decode_load_and_break();
    let at_operand = m.fetched();
    assert(at_operand.operand(AddressMode::Immediate) == value) by {
        reveal(Machine::operand_address);
    }
    assert(at_operand.execute(Mnemonic::Lda, AddressMode::Immediate) == at_operand.load_a(value))
        by {
        reveal(Machine::execute);
    }
    lemma_step_executes(m);
    lemma_step_advances(m);
}

/// A step at `BRK` halts the engine with the program counter after the
/// byte; registers, flags and memory stay.
pub proof fn lemma_step_break(m: Machine)
    requires
        m.state == EngineState::Running,
        m.read(m.pc) == 0x00,
    ensures
        m.can_execute(),
        m.step().pc == wrap16(m.pc + 1),
        m.step().state == EngineState::Halted,
        m.step().a == m.a && m.step().x == m.x && m.step().y == m.y && m.step().sp == m.sp,
        m.step().status == m.status,
        m.step().memory == m.memory,
{
    lemma_decode_load_and_break();
    let at_operand = m.fetched();
    assert(at_operand.execute(Mnemonic::Brk, AddressMode::Implied) == at_operand.brk()) by {
        reveal(Machine::execute);
    }
    lemma_step_executes(m);
    lemma_step_advances(m);
}

/// Loading a value and stopping, end to end.
///
/// The machine stands at `LDA #value` followed by `BRK`. A run of two or
/// more steps executes exactly these two instructions and halts: the
/// accumulator holds the value, Zero and Negative describe it, and the
/// program counter stands after the `BRK`.
pub proof fn lemma_load_and_break(m: Machine, value: u8, limit: nat)
    requires
        m.state == EngineState::Running,
        m.read(m.pc) == 0xA9,
        m.read(wrap16(m.pc + 1)) == value,
        m.read(wrap16(m.pc + 2)) == 0x00,
        limit >= 2,
    ensures
        m.run(limit).a == value,
        m.run(limit).flag(Flag::Zero) <==> value == 0,
        m.run(limit).flag(Flag::Negative) <==> value >= 0x80,
        m.run(limit).state == EngineState::Halted,
        m.run(limit).pc == wrap16(m.pc + 3),
        m.run(limit).memory == m.memory,
        m.run_executed(limit) == 2,
        m.run_outcome(limit) == Ok::<EngineState, CpuError>(EngineState::Halted),
{
    lemma_step_load_immediate(m, value);
    let loaded = m.step();
    lemma_step_break(loaded);
    let stopped = loaded.step();
    lemma_with_zero_negative(m.status, value, Flag::Carry);
    lemma_halted_is_final(stopped, (limit - 2) as nat);
    lemma_run_unfolds(m, limit);
    lemma_run_unfolds(loaded, (limit - 1) as nat);
}

/// A run that can execute an instruction is one step followed by the rest
/// of the run.
pub proof fn lemma_run_unfolds(m: Machine, limit: nat)
    requires
        limit > 0,
        m.can_execute(),
    ensures
        m.run(limit) == m.step().run((limit - 1) as nat),
        m.run_executed(limit) == 1 + m.step().run_executed((limit - 1) as nat),
        m.run_outcome(limit) == m.step().run_outcome((limit - 1) as nat),
{
}

} // verus!
