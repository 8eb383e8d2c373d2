//! The laws of the instruction set, stated over the abstract machine and
//! proved from the spec functions that the executable operations realise.

use vstd::prelude::*;

use crate::machine::{
    Fault, FaultKind, MachineView, OpArgs, MEMORY_SIZE, NUM_REGISTERS, is_running, spec_load,
    spec_read, spec_write, view_wf, word_of,
};
use crate::opcode::{AddressingMode, OpCode, spec_arity};
use crate::ops::{
    StepEvent, spec_add, spec_args_at, spec_cond, spec_exec, spec_ext, spec_jsr, spec_lsl,
    spec_lsr, spec_mdl, spec_mov, spec_mul, spec_opcode_at, spec_pop, spec_psh, spec_ret,
    spec_step, spec_sub, spec_decoded_state,
};

verus! {

/// Law: a successful step of any opcode that never assigns the program
/// counter advances it by exactly one plus the opcode's arity.
pub proof fn lemma_step_pc_advance(s: MachineView, v: MachineView, e: StepEvent, op: OpCode)
    requires
        spec_step(s) == Ok::<(MachineView, StepEvent), Fault>((v, e)),
        spec_opcode_at(s) == Some(op),
        op != OpCode::JMP,
        op != OpCode::JSR,
        op != OpCode::RET,
        op != OpCode::JEQ,
        op != OpCode::JNE,
        op != OpCode::JGT,
        op != OpCode::JGE,
        op != OpCode::JLT,
        op != OpCode::JLE,
    ensures
        v.pc == s.pc + 1 + spec_arity(op),
{
    reveal(spec_exec);
}

/// Law: a conditional jump whose comparison comes out false also advances
/// the program counter by exactly one plus the opcode's arity.
pub proof fn lemma_step_pc_advance_branch_not_taken(
    s: MachineView,
    v: MachineView,
    e: StepEvent,
    op: OpCode,
    x: u16,
    y: u16,
)
    requires
        spec_step(s) == Ok::<(MachineView, StepEvent), Fault>((v, e)),
        spec_opcode_at(s) == Some(op),
        op == OpCode::JEQ || op == OpCode::JNE || op == OpCode::JGT || op == OpCode::JGE || op
            == OpCode::JLT || op == OpCode::JLE,
        spec_read(spec_decoded_state(s), spec_args_at(s)[1]) == Ok::<u16, Fault>(x),
        spec_read(spec_decoded_state(s), spec_args_at(s)[2]) == Ok::<u16, Fault>(y),
        !spec_cond(op, x, y),
    ensures
        v.pc == s.pc + 1 + spec_arity(op),
{
    reveal(spec_exec);
}

/// Law: writing an immediate value to a register and reading the register
/// back yields that value, for every register and every 16-bit value.
pub proof fn lemma_register_round_trip(s: MachineView, reg: u16, v: u16)
    requires
        view_wf(s),
        (reg as int) < NUM_REGISTERS,
    ensures
        ({
            let to = OpArgs { value: reg, mode: AddressingMode::REGISTER };
            let from = OpArgs { value: v, mode: AddressingMode::IMMEDIATE };
            &&& spec_mov(s, to, from) is Ok
            &&& spec_read(spec_mov(s, to, from)->Ok_0, to) == Ok::<u16, Fault>(v)
        }),
{
}

/// Law: writing an immediate value to a memory cell and then moving that
/// cell into a register places the value in the register.
pub proof fn lemma_memory_round_trip(s: MachineView, addr: u16, reg: u16, v: u16)
    requires
        view_wf(s),
        (addr as int) < MEMORY_SIZE,
        (reg as int) < NUM_REGISTERS,
    ensures
        ({
            let cell = OpArgs { value: addr, mode: AddressingMode::ABSOLUTE };
            let imm = OpArgs { value: v, mode: AddressingMode::IMMEDIATE };
            let dst = OpArgs { value: reg, mode: AddressingMode::REGISTER };
            let first = spec_mov(s, cell, imm);
            &&& first is Ok
            &&& spec_mov(first->Ok_0, dst, cell) is Ok
            &&& spec_mov(first->Ok_0, dst, cell)->Ok_0.regs[reg as int] == v
        }),
{
}

/// Law: with register `a` holding `k`, an INDIRECT access through `a` is
/// the same access — same result, same fault — as an ABSOLUTE access to
/// `k`, both for reading and for writing.
pub proof fn lemma_indirect_equivalence(s: MachineView, a: u16, v: u16)
    requires
        view_wf(s),
        (a as int) < NUM_REGISTERS,
    ensures
        ({
            let k = s.regs[a as int];
            let via_reg = OpArgs { value: a, mode: AddressingMode::INDIRECT };
            let direct = OpArgs { value: k, mode: AddressingMode::ABSOLUTE };
            &&& spec_read(s, via_reg) == spec_read(s, direct)
            &&& spec_write(s, via_reg, v) == spec_write(s, direct, v)
        }),
{
}

/// Law: on a register holding `x` and an immediate `y`, ADD stores
/// `(x + y) mod 2^16`, SUB stores `(x - y) mod 2^16`, MUL stores
/// `(x * y) mod 2^16`; MDL stores `x mod y` when `y` is nonzero and is a
/// DivideByZero fault when `y` is zero.
pub proof fn lemma_arithmetic_wrapping(s: MachineView, reg: u16, y: u16)
    requires
        view_wf(s),
        (reg as int) < NUM_REGISTERS,
    ensures
        ({
            let x = s.regs[reg as int];
            let a = OpArgs { value: reg, mode: AddressingMode::REGISTER };
            let b = OpArgs { value: y, mode: AddressingMode::IMMEDIATE };
            &&& spec_add(s, a, b) == Ok::<MachineView, Fault>(
                MachineView { regs: s.regs.update(reg as int, (((x + y) % 0x10000)) as u16), ..s },
            )
            &&& spec_sub(s, a, b) == Ok::<MachineView, Fault>(
                MachineView { regs: s.regs.update(reg as int, (((x - y) % 0x10000)) as u16), ..s },
            )
            &&& spec_mul(s, a, b) == Ok::<MachineView, Fault>(
                MachineView { regs: s.regs.update(reg as int, (((x * y) % 0x10000)) as u16), ..s },
            )
            &&& (y != 0 ==> spec_mdl(s, a, b) == Ok::<MachineView, Fault>(
                MachineView { regs: s.regs.update(reg as int, (x % y) as u16), ..s },
            ))
            &&& (y == 0 ==> spec_mdl(s, a, b) == Err::<MachineView, Fault>(
                Fault { kind: FaultKind::DivideByZero, value: x as usize, pc: s.pc },
            ))
        }),
{
}

/// Law: LSL and LSR never fault on a register destination, whatever the
/// shift count; a count of 16 or more leaves 0 in the destination.
pub proof fn lemma_shift_saturation(s: MachineView, reg: u16, n: u16)
    requires
        view_wf(s),
        (reg as int) < NUM_REGISTERS,
    ensures
        ({
            let a = OpArgs { value: reg, mode: AddressingMode::REGISTER };
            let b = OpArgs { value: n, mode: AddressingMode::IMMEDIATE };
            &&& spec_lsl(s, a, b) is Ok
            &&& spec_lsr(s, a, b) is Ok
            &&& (n >= 16 ==> spec_lsl(s, a, b)->Ok_0.regs[reg as int] == 0)
            &&& (n >= 16 ==> spec_lsr(s, a, b)->Ok_0.regs[reg as int] == 0)
        }),
{
}

/// Law: the bitwise identities of the operation set — AND and ORR of a
/// value with itself yield the value, XOR of a value with itself yields 0,
/// and NOT is an involution.
pub proof fn lemma_bitwise_identities(x: u16)
    ensures
        x & x == x,
        x | x == x,
        x ^ x == 0,
        !(!x) == x,
{
    assert(x & x == x) by (bit_vector);
    assert(x | x == x) by (bit_vector);
    assert(x ^ x == 0) by (bit_vector);
    assert(!(!x) == x) by (bit_vector);
}

/// Law: pushing a value and popping it into a register leaves that value
/// in the register and the data stack exactly as it was.
pub proof fn lemma_stack_round_trip(s: MachineView, reg: u16, v: u16)
    requires
        view_wf(s),
        (reg as int) < NUM_REGISTERS,
    ensures
        ({
            let src = OpArgs { value: v, mode: AddressingMode::IMMEDIATE };
            let dst = OpArgs { value: reg, mode: AddressingMode::REGISTER };
            let pushed = spec_psh(s, src);
            &&& pushed is Ok
            &&& spec_pop(pushed->Ok_0, dst) is Ok
            &&& spec_pop(pushed->Ok_0, dst)->Ok_0.regs[reg as int] == v
            &&& spec_pop(pushed->Ok_0, dst)->Ok_0.stack == s.stack
        }),
{
    let src = OpArgs { value: v, mode: AddressingMode::IMMEDIATE };
    let dst = OpArgs { value: reg, mode: AddressingMode::REGISTER };
    let pushed = spec_psh(s, src)->Ok_0;
    assert(spec_pop(pushed, dst)->Ok_0.stack =~= s.stack);
}

/// Law: POP on an empty data stack is an EmptyStack fault.
pub proof fn lemma_pop_empty_fatal(s: MachineView, a: OpArgs)
    requires
        s.stack.len() == 0,
    ensures
        spec_pop(s, a) == Err::<MachineView, Fault>(
            Fault { kind: FaultKind::EmptyStack, value: 0, pc: s.pc },
        ),
{
}

/// Law: JSR records the address of the instruction after itself (the
/// program counter once its argument was consumed), and a later RET from
/// any state that carries that call stack returns the program counter to
/// exactly that address, restoring the caller's call stack.
pub proof fn lemma_call_return(
    s: MachineView,
    v1: MachineView,
    e1: StepEvent,
    t: MachineView,
    v2: MachineView,
    e2: StepEvent,
)
    requires
        spec_step(s) == Ok::<(MachineView, StepEvent), Fault>((v1, e1)),
        spec_opcode_at(s) == Some(OpCode::JSR),
        t.call_stack == v1.call_stack,
        spec_step(t) == Ok::<(MachineView, StepEvent), Fault>((v2, e2)),
        spec_opcode_at(t) == Some(OpCode::RET),
    ensures
        v1.call_stack == s.call_stack.push((s.pc + 2) as usize),
        v2.pc == s.pc + 2,
        v2.call_stack == s.call_stack,
{
    reveal(spec_exec);
    assert(v2.call_stack =~= s.call_stack);
}

/// Law: EXT with a non-negative code stores that code in the halt flag and
/// the machine no longer counts as running, so the driver takes no further
/// step.
pub proof fn lemma_halt_termination(s: MachineView, k: u16)
    requires
        view_wf(s),
        k < 0x8000,
    ensures
        ({
            let r = spec_ext(s, OpArgs { value: k, mode: AddressingMode::IMMEDIATE });
            &&& r is Ok
            &&& r->Ok_0.halt == k
            &&& !is_running(r->Ok_0)
        }),
{
}

/// Law: loading an even-length byte stream makes word `i` of memory the
/// little-endian pair `(b[2i+1] << 8) | b[2i]`, for every `i` below half
/// the stream's length, and leaves every cell from there on zero.
pub proof fn lemma_loader_round_trip(b: Seq<u8>, i: int)
    requires
        b.len() % 2 == 0,
        b.len() <= 2 * MEMORY_SIZE,
        0 <= i < b.len() / 2,
    ensures
        spec_load(b)[i] == ((b[2 * i + 1] as u16) << 8) | (b[2 * i] as u16),
        forall|j: int| b.len() / 2 <= j < MEMORY_SIZE ==> spec_load(b)[j] == 0u16,
{
    let hi = b[2 * i + 1];
    let lo = b[2 * i];
    assert(spec_load(b)[i] == word_of(b, i));
    assert(((hi as u16) << 8) | (lo as u16) == (hi as u16) * 0x100 + (lo as u16)) by (bit_vector)
        requires
            hi < 0x100,
            lo < 0x100,
    ;
}

} // verus!
