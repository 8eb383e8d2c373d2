//! The operation set and the fetch/decode/execute loop.
//!
//! Each opcode's effect on the abstract machine state is a spec function;
//! the executable methods are proved to realise exactly those effects, and
//! `spec_step` composes decoding and execution into the one-instruction
//! transition that `step` is proved to implement. On any fault the machine
//! is left unchanged.

use vstd::prelude::*;

use crate::machine::{
    Fault, FaultKind, MachineView, OpArgs, QCPU, MEMORY_SIZE, spec_read, spec_write,
};
use crate::opcode::{AddressingMode, OpCode, spec_arity, spec_mode, spec_mode_field, spec_opcode};

verus! {

/// What one successful step was: an ordinary instruction, or a syscall
/// request that the host must now service, carrying the key and the raw
/// argument of the SYS instruction.
#[derive(Clone, Copy, Debug, PartialEq, Eq, Structural)]
pub enum StepEvent {
    Ran,
    Syscall { key: u16, arg: OpArgs },
}

/// 16-bit addition modulo 2^16.
pub open spec fn wrap_add16(x: u16, y: u16) -> u16 {
    ((x + y) % 0x10000) as u16
}

/// 16-bit subtraction modulo 2^16.
pub open spec fn wrap_sub16(x: u16, y: u16) -> u16 {
    ((x + 0x10000 - y) % 0x10000) as u16
}

/// 16-bit multiplication modulo 2^16.
pub open spec fn wrap_mul16(x: u16, y: u16) -> u16 {
    ((x * y) % 0x10000) as u16
}

/// Logical shift left: zero for shift counts of 16 or more.
pub open spec fn shl16(x: u16, n: u16) -> u16 {
    if n >= 16 {
        0u16
    } else {
        x << n
    }
}

/// Logical shift right: zero for shift counts of 16 or more.
pub open spec fn shr16(x: u16, n: u16) -> u16 {
    if n >= 16 {
        0u16
    } else {
        x >> n
    }
}

/// How an executable operation relates to its spec transition: on success
/// the machine becomes exactly the specified state, on a fault it reports
/// exactly the specified fault and is unchanged.
pub open spec fn transition(
    spec_r: Result<MachineView, Fault>,
    r: Result<(), Fault>,
    pre: MachineView,
    post: MachineView,
) -> bool {
    match spec_r {
        Ok(v) => r is Ok && post == v,
        Err(f) => r == Err::<(), Fault>(f) && post == pre,
    }
}

/// EXT: the halt flag becomes the operand read as a signed 16-bit value.
pub open spec fn spec_ext(s: MachineView, code: OpArgs) -> Result<MachineView, Fault> {
    match spec_read(s, code) {
        Ok(v) => Ok(MachineView { halt: v as i16, ..s }),
        Err(f) => Err(f),
    }
}

/// SYS: the key read from the operand if a handler is bound for it,
/// otherwise an UnknownSyscall fault. The machine itself is unchanged; the
/// host services the request.
pub open spec fn spec_sys(s: MachineView, val: OpArgs) -> Result<u16, Fault> {
    match spec_read(s, val) {
        Ok(k) => if s.syscalls.contains(k) {
            Ok(k)
        } else {
            Err(Fault { kind: FaultKind::UnknownSyscall, value: k as usize, pc: s.pc })
        },
        Err(f) => Err(f),
    }
}

/// MOV: write the value read from `from` through `to`.
pub open spec fn spec_mov(s: MachineView, to: OpArgs, from: OpArgs) -> Result<MachineView, Fault> {
    match spec_read(s, from) {
        Ok(v) => spec_write(s, to, v),
        Err(f) => Err(f),
    }
}

/// JMP: the program counter becomes the value read from the operand.
pub open spec fn spec_jmp(s: MachineView, addr: OpArgs) -> Result<MachineView, Fault> {
    match spec_read(s, addr) {
        Ok(t) => Ok(MachineView { pc: t as usize, ..s }),
        Err(f) => Err(f),
    }
}

/// The comparison a conditional jump performs, unsigned throughout.
pub open spec fn spec_cond(op: OpCode, x: u16, y: u16) -> bool {
    match op {
        OpCode::JEQ => x == y,
        OpCode::JNE => x != y,
        OpCode::JGT => x > y,
        OpCode::JGE => x >= y,
        OpCode::JLT => x < y,
        OpCode::JLE => x <= y,
        _ => false,
    }
}

/// A conditional jump: compare the values read from `b` and `c`; on success
/// of the comparison jump to the value read from `addr`, otherwise leave
/// the machine as it is.
pub open spec fn spec_cond_jump(
    s: MachineView,
    op: OpCode,
    addr: OpArgs,
    b: OpArgs,
    c: OpArgs,
) -> Result<MachineView, Fault> {
    match spec_read(s, b) {
        Ok(x) => match spec_read(s, c) {
            Ok(y) => if spec_cond(op, x, y) {
                spec_jmp(s, addr)
            } else {
                Ok(s)
            },
            Err(f) => Err(f),
        },
        Err(f) => Err(f),
    }
}

/// JSR: push the program counter (already past the instruction) onto the
/// call stack and jump to the value read from the operand.
pub open spec fn spec_jsr(s: MachineView, addr: OpArgs) -> Result<MachineView, Fault> {
    match spec_read(s, addr) {
        Ok(t) => Ok(MachineView { pc: t as usize, call_stack: s.call_stack.push(s.pc), ..s }),
        Err(f) => Err(f),
    }
}

/// RET: pop the call stack into the program counter; an empty call stack
/// is an EmptyCallStack fault.
pub open spec fn spec_ret(s: MachineView) -> Result<MachineView, Fault> {
    if s.call_stack.len() == 0 {
        Err(Fault { kind: FaultKind::EmptyCallStack, value: 0, pc: s.pc })
    } else {
        Ok(MachineView { pc: s.call_stack.last(), call_stack: s.call_stack.drop_last(), ..s })
    }
}

/// The shape every two-operand compute opcode shares: read both operands,
/// combine them with `f`, and write the result back through the first
/// operand's destination.
pub open spec fn spec_binary(
    s: MachineView,
    a: OpArgs,
    b: OpArgs,
    f: spec_fn(u16, u16) -> u16,
) -> Result<MachineView, Fault> {
    match spec_read(s, a) {
        Ok(x) => match spec_read(s, b) {
            Ok(y) => spec_write(s, a, f(x, y)),
            Err(e) => Err(e),
        },
        Err(e) => Err(e),
    }
}

/// ADD: wrapping 16-bit addition into the first operand.
pub open spec fn spec_add(s: MachineView, a: OpArgs, b: OpArgs) -> Result<MachineView, Fault> {
    spec_binary(s, a, b, |x: u16, y: u16| wrap_add16(x, y))
}

/// SUB: wrapping 16-bit subtraction into the first operand.
pub open spec fn spec_sub(s: MachineView, a: OpArgs, b: OpArgs) -> Result<MachineView, Fault> {
    spec_binary(s, a, b, |x: u16, y: u16| wrap_sub16(x, y))
}

/// MUL: wrapping 16-bit multiplication into the first operand.
pub open spec fn spec_mul(s: MachineView, a: OpArgs, b: OpArgs) -> Result<MachineView, Fault> {
    spec_binary(s, a, b, |x: u16, y: u16| wrap_mul16(x, y))
}

/// MDL: remainder into the first operand; a zero divisor is a DivideByZero
/// fault.
pub open spec fn spec_mdl(s: MachineView, a: OpArgs, b: OpArgs) -> Result<MachineView, Fault> {
    match spec_read(s, a) {
        Ok(x) => match spec_read(s, b) {
            Ok(y) => if y == 0 {
                Err(Fault { kind: FaultKind::DivideByZero, value: x as usize, pc: s.pc })
            } else {
                spec_write(s, a, (x % y) as u16)
            },
            Err(e) => Err(e),
        },
        Err(e) => Err(e),
    }
}

/// AND: bitwise conjunction into the first operand.
pub open spec fn spec_and(s: MachineView, a: OpArgs, b: OpArgs) -> Result<MachineView, Fault> {
    spec_binary(s, a, b, |x: u16, y: u16| x & y)
}

/// ORR: bitwise disjunction into the first operand.
pub open spec fn spec_orr(s: MachineView, a: OpArgs, b: OpArgs) -> Result<MachineView, Fault> {
    spec_binary(s, a, b, |x: u16, y: u16| x | y)
}

/// NOT: bitwise complement of the operand, written back through it.
pub open spec fn spec_not(s: MachineView, a: OpArgs) -> Result<MachineView, Fault> {
    match spec_read(s, a) {
        Ok(x) => spec_write(s, a, !x),
        Err(e) => Err(e),
    }
}

/// XOR: bitwise exclusive or into the first operand.
pub open spec fn spec_xor(s: MachineView, a: OpArgs, b: OpArgs) -> Result<MachineView, Fault> {
    spec_binary(s, a, b, |x: u16, y: u16| x ^ y)
}

/// LSL: logical shift left into the first operand; shift counts of 16 or
/// more yield 0 and never fault.
pub open spec fn spec_lsl(s: MachineView, a: OpArgs, b: OpArgs) -> Result<MachineView, Fault> {
    spec_binary(s, a, b, |x: u16, y: u16| shl16(x, y))
}

/// LSR: logical shift right into the first operand; shift counts of 16 or
/// more yield 0 and never fault.
pub open spec fn spec_lsr(s: MachineView, a: OpArgs, b: OpArgs) -> Result<MachineView, Fault> {
    spec_binary(s, a, b, |x: u16, y: u16| shr16(x, y))
}

/// PSH: push the value read from the operand onto the data stack.
pub open spec fn spec_psh(s: MachineView, a: OpArgs) -> Result<MachineView, Fault> {
    match spec_read(s, a) {
        Ok(v) => Ok(MachineView { stack: s.stack.push(v), ..s }),
        Err(e) => Err(e),
    }
}

/// POP: write the top of the data stack through the operand and drop it;
/// an empty stack is an EmptyStack fault.
pub open spec fn spec_pop(s: MachineView, a: OpArgs) -> Result<MachineView, Fault> {
    if s.stack.len() == 0 {
        Err(Fault { kind: FaultKind::EmptyStack, value: 0, pc: s.pc })
    } else {
        match spec_write(s, a, s.stack.last()) {
            Ok(v) => Ok(MachineView { stack: v.stack.drop_last(), ..v }),
            Err(e) => Err(e),
        }
    }
}

/// Lifts a plain state transition to a step result with the ordinary event.
pub open spec fn ran_event(r: Result<MachineView, Fault>) -> Result<
    (MachineView, StepEvent),
    Fault,
> {
    match r {
        Ok(v) => Ok((v, StepEvent::Ran)),
        Err(f) => Err(f),
    }
}

/// The effect of dispatching `op` on argument list `args` (whose length is
/// the opcode's arity) in state `s`: the new state and the step event, or
/// the fault.
#[verifier::opaque]
pub open spec fn spec_exec(s: MachineView, op: OpCode, args: Seq<OpArgs>) -> Result<
    (MachineView, StepEvent),
    Fault,
> {
    match op {
        OpCode::NOP => Ok((s, StepEvent::Ran)),
        OpCode::EXT => ran_event(spec_ext(s, args[0])),
        OpCode::SYS => match spec_sys(s, args[0]) {
            Ok(k) => Ok((s, StepEvent::Syscall { key: k, arg: args[0] })),
            Err(f) => Err(f),
        },
        OpCode::MOV => ran_event(spec_mov(s, args[0], args[1])),
        OpCode::JMP => ran_event(spec_jmp(s, args[0])),
        OpCode::JEQ
        | OpCode::JNE
        | OpCode::JGT
        | OpCode::JGE
        | OpCode::JLT
        | OpCode::JLE => ran_event(spec_cond_jump(s, op, args[0], args[1], args[2])),
        OpCode::JSR => ran_event(spec_jsr(s, args[0])),
        OpCode::RET => ran_event(spec_ret(s)),
        OpCode::ADD => ran_event(spec_add(s, args[0], args[1])),
        OpCode::SUB => ran_event(spec_sub(s, args[0], args[1])),
        OpCode::MUL => ran_event(spec_mul(s, args[0], args[1])),
        OpCode::MDL => ran_event(spec_mdl(s, args[0], args[1])),
        OpCode::AND => ran_event(spec_and(s, args[0], args[1])),
        OpCode::ORR => ran_event(spec_orr(s, args[0], args[1])),
        OpCode::NOT => ran_event(spec_not(s, args[0])),
        OpCode::XOR => ran_event(spec_xor(s, args[0], args[1])),
        OpCode::LSL => ran_event(spec_lsl(s, args[0], args[1])),
        OpCode::LSR => ran_event(spec_lsr(s, args[0], args[1])),
        OpCode::PSH => ran_event(spec_psh(s, args[0])),
        OpCode::POP => ran_event(spec_pop(s, args[0])),
    }
}

/// The opcode of the instruction the program counter points at, if the
/// program counter is in range and the low byte of the header word is a
/// defined opcode.
pub open spec fn spec_opcode_at(s: MachineView) -> Option<OpCode> {
    if s.pc >= MEMORY_SIZE {
        None
    } else {
        spec_opcode(s.memory[s.pc as int] & 0x00FF)
    }
}

/// The decoded argument list of the instruction the program counter points
/// at: argument word `i` paired with mode field `i` of the header's high
/// byte. Meaningful when `spec_opcode_at(s)` is `Some`.
pub open spec fn spec_args_at(s: MachineView) -> Seq<OpArgs> {
    let header = s.memory[s.pc as int];
    let n = spec_arity(spec_opcode_at(s)->Some_0) as int;
    Seq::new(
        n as nat,
        |i: int|
            OpArgs {
                value: s.memory[s.pc + 1 + i],
                mode: spec_mode(spec_mode_field((header & 0xFF00) >> 8, i)),
            },
    )
}

/// The state after decoding but before dispatch: the program counter has
/// advanced past the header word and the arity's argument words.
/// Meaningful when `spec_opcode_at(s)` is `Some`.
pub open spec fn spec_decoded_state(s: MachineView) -> MachineView {
    MachineView { pc: (s.pc + 1 + spec_arity(spec_opcode_at(s)->Some_0)) as usize, ..s }
}

/// The one-instruction transition: fetch the header word at the program
/// counter, decode opcode and modes, gather the arity's argument words,
/// advance the program counter past the instruction, and dispatch. Faults:
/// a program counter or argument outside memory, or an undefined opcode,
/// before dispatch; thereafter whatever the operation faults with.
pub open spec fn spec_step(s: MachineView) -> Result<(MachineView, StepEvent), Fault> {
    if s.pc >= MEMORY_SIZE {
        Err(Fault { kind: FaultKind::OutOfRangeAddress, value: s.pc, pc: s.pc })
    } else {
        let header = s.memory[s.pc as int];
        let op_num = header & 0x00FF;
        match spec_opcode(op_num) {
            None => Err(Fault { kind: FaultKind::InvalidOpcode, value: op_num as usize, pc: s.pc }),
            Some(op) => {
                let n = spec_arity(op) as int;
                if s.pc + 1 + n > MEMORY_SIZE {
                    Err(
                        Fault {
                            kind: FaultKind::OutOfRangeAddress,
                            value: (s.pc + n) as usize,
                            pc: s.pc,
                        },
                    )
                } else {
                    spec_exec(spec_decoded_state(s), op, spec_args_at(s))
                }
            },
        }
    }
}

impl QCPU {
    /// NOP: no effect.
    pub fn nop(&mut self)
        requires
            old(self).wf(),
        ensures
            final(self).wf(),
            final(self)@ == old(self)@,
    {
    }

    /// EXT: realises `spec_ext`.
    pub fn ext(&mut self, code: &OpArgs) -> (r: Result<(), Fault>)
        requires
            old(self).wf(),
        ensures
            final(self).wf(),
            transition(spec_ext(old(self)@, *code), r, old(self)@, final(self)@),
    {
        let v = match self.read(code) {
            Ok(v) => v,
            Err(f) => return Err(f),
        };
        self.flags.halt = v as i16;
        proof {
            assert(self@ =~= spec_ext(old(self)@, *code)->Ok_0);
        }
        Ok(())
    }

    /// SYS: realises `spec_sys`; the machine is unchanged and the bound
    /// key is handed back to the host as a syscall request.
    pub fn sys(&mut self, val: &OpArgs) -> (r: Result<StepEvent, Fault>)
        requires
            old(self).wf(),
        ensures
            final(self).wf(),
            final(self)@ == old(self)@,
            match spec_sys(old(self)@, *val) {
                Ok(k) => r == Ok::<StepEvent, Fault>(StepEvent::Syscall { key: k, arg: *val }),
                Err(f) => r == Err::<StepEvent, Fault>(f),
            },
    {
        let k = match self.read(val) {
            Ok(k) => k,
            Err(f) => return Err(f),
        };
        if self.is_bound(k) {
            Ok(StepEvent::Syscall { key: k, arg: *val })
        } else {
            Err(Fault { kind: FaultKind::UnknownSyscall, value: k as usize, pc: self.pc })
        }
    }

    /// MOV: realises `spec_mov`.
    pub fn mov(&mut self, to: &OpArgs, from: &OpArgs) -> (r: Result<(), Fault>)
        requires
            old(self).wf(),
        ensures
            final(self).wf(),
            transition(spec_mov(old(self)@, *to, *from), r, old(self)@, final(self)@),
    {
        let v = match self.read(from) {
            Ok(v) => v,
            Err(f) => return Err(f),
        };
        self.write(to, v)
    }

    /// JMP: realises `spec_jmp`.
    pub fn jmp(&mut self, addr: &OpArgs) -> (r: Result<(), Fault>)
        requires
            old(self).wf(),
        ensures
            final(self).wf(),
            transition(spec_jmp(old(self)@, *addr), r, old(self)@, final(self)@),
    {
        let t = match self.read(addr) {
            Ok(t) => t,
            Err(f) => return Err(f),
        };
        self.pc = t as usize;
        proof {
            assert(self@ =~= spec_jmp(old(self)@, *addr)->Ok_0);
        }
        Ok(())
    }

    /// JEQ: realises `spec_cond_jump` for equality.
    pub fn jeq(&mut self, addr: &OpArgs, b: &OpArgs, c: &OpArgs) -> (r: Result<(), Fault>)
        requires
            old(self).wf(),
        ensures
            final(self).wf(),
            transition(
                spec_cond_jump(old(self)@, OpCode::JEQ, *addr, *b, *c),
                r,
                old(self)@,
                final(self)@,
            ),
    {
        let x = match self.read(b) {
            Ok(x) => x,
            Err(f) => return Err(f),
        };
        let y = match self.read(c) {
            Ok(y) => y,
            Err(f) => return Err(f),
        };
        if x == y {
            self.jmp(addr)
        } else {
            Ok(())
        }
    }

    /// JNE: realises `spec_cond_jump` for inequality.
    pub fn jne(&mut self, addr: &OpArgs, b: &OpArgs, c: &OpArgs) -> (r: Result<(), Fault>)
        requires
            old(self).wf(),
        ensures
            final(self).wf(),
            transition(
                spec_cond_jump(old(self)@, OpCode::JNE, *addr, *b, *c),
                r,
                old(self)@,
                final(self)@,
            ),
    {
        let x = match self.read(b) {
            Ok(x) => x,
            Err(f) => return Err(f),
        };
        let y = match self.read(c) {
            Ok(y) => y,
            Err(f) => return Err(f),
        };
        if x != y {
            self.jmp(addr)
        } else {
            Ok(())
        }
    }

    /// JGT: realises `spec_cond_jump` for unsigned greater-than.
    pub fn jgt(&mut self, addr: &OpArgs, b: &OpArgs, c: &OpArgs) -> (r: Result<(), Fault>)
        requires
            old(self).wf(),
        ensures
            final(self).wf(),
            transition(
                spec_cond_jump(old(self)@, OpCode::JGT, *addr, *b, *c),
                r,
                old(self)@,
                final(self)@,
            ),
    {
        let x = match self.read(b) {
            Ok(x) => x,
            Err(f) => return Err(f),
        };
        let y = match self.read(c) {
            Ok(y) => y,
            Err(f) => return Err(f),
        };
        if x > y {
            self.jmp(addr)
        } else {
            Ok(())
        }
    }

    /// JGE: realises `spec_cond_jump` for unsigned at-least.
    pub fn jge(&mut self, addr: &OpArgs, b: &OpArgs, c: &OpArgs) -> (r: Result<(), Fault>)
        requires
            old(self).wf(),
        ensures
            final(self).wf(),
            transition(
                spec_cond_jump(old(self)@, OpCode::JGE, *addr, *b, *c),
                r,
                old(self)@,
                final(self)@,
            ),
    {
        let x = match self.read(b) {
            Ok(x) => x,
            Err(f) => return Err(f),
        };
        let y = match self.read(c) {
            Ok(y) => y,
            Err(f) => return Err(f),
        };
        if x >= y {
            self.jmp(addr)
        } else {
            Ok(())
        }
    }

    /// JLT: realises `spec_cond_jump` for unsigned less-than.
    pub fn jlt(&mut self, addr: &OpArgs, b: &OpArgs, c: &OpArgs) -> (r: Result<(), Fault>)
        requires
            old(self).wf(),
        ensures
            final(self).wf(),
            transition(
                spec_cond_jump(old(self)@, OpCode::JLT, *addr, *b, *c),
                r,
                old(self)@,
                final(self)@,
            ),
    {
        let x = match self.read(b) {
            Ok(x) => x,
            Err(f) => return Err(f),
        };
        let y = match self.read(c) {
            Ok(y) => y,
            Err(f) => return Err(f),
        };
        if x < y {
            self.jmp(addr)
        } else {
            Ok(())
        }
    }

    /// JLE: realises `spec_cond_jump` for unsigned at-most.
    pub fn jle(&mut self, addr: &OpArgs, b: &OpArgs, c: &OpArgs) -> (r: Result<(), Fault>)
        requires
            old(self).wf(),
        ensures
            final(self).wf(),
            transition(
                spec_cond_jump(old(self)@, OpCode::JLE, *addr, *b, *c),
                r,
                old(self)@,
                final(self)@,
            ),
    {
        let x = match self.read(b) {
            Ok(x) => x,
            Err(f) => return Err(f),
        };
        let y = match self.read(c) {
            Ok(y) => y,
            Err(f) => return Err(f),
        };
        if x <= y {
            self.jmp(addr)
        } else {
            Ok(())
        }
    }

    /// JSR: realises `spec_jsr`.
    pub fn jsr(&mut self, addr: &OpArgs) -> (r: Result<(), Fault>)
        requires
            old(self).wf(),
        ensures
            final(self).wf(),
            transition(spec_jsr(old(self)@, *addr), r, old(self)@, final(self)@),
    {
        let t = match self.read(addr) {
            Ok(t) => t,
            Err(f) => return Err(f),
        };
        self.call_stack.push(self.pc);
        self.pc = t as usize;
        proof {
            assert(self@ =~= spec_jsr(old(self)@, *addr)->Ok_0);
        }
        Ok(())
    }

    /// RET: realises `spec_ret`.
    pub fn ret(&mut self) -> (r: Result<(), Fault>)
        requires
            old(self).wf(),
        ensures
            final(self).wf(),
            transition(spec_ret(old(self)@), r, old(self)@, final(self)@),
    {
        match self.call_stack.pop() {
            Some(addr) => {
                self.pc = addr;
                proof {
                    assert(self@ =~= spec_ret(old(self)@)->Ok_0);
                }
                Ok(())
            },
            None => Err(Fault { kind: FaultKind::EmptyCallStack, value: 0, pc: self.pc }),
        }
    }

    /// ADD: realises `spec_add`.
    pub fn add(&mut self, a: &OpArgs, b: &OpArgs) -> (r: Result<(), Fault>)
        requires
            old(self).wf(),
        ensures
            final(self).wf(),
            transition(spec_add(old(self)@, *a, *b), r, old(self)@, final(self)@),
    {
        let x = match self.read(a) {
            Ok(x) => x,
            Err(f) => return Err(f),
        };
        let y = match self.read(b) {
            Ok(y) => y,
            Err(f) => return Err(f),
        };
        let v = x.wrapping_add(y);
        proof {
            assert(v == wrap_add16(x, y));
        }
        self.write(a, v)
    }

    /// SUB: realises `spec_sub`.
    pub fn sub(&mut self, a: &OpArgs, b: &OpArgs) -> (r: Result<(), Fault>)
        requires
            old(self).wf(),
        ensures
            final(self).wf(),
            transition(spec_sub(old(self)@, *a, *b), r, old(self)@, final(self)@),
    {
        let x = match self.read(a) {
            Ok(x) => x,
            Err(f) => return Err(f),
        };
        let y = match self.read(b) {
            Ok(y) => y,
            Err(f) => return Err(f),
        };
        let v = x.wrapping_sub(y);
        proof {
            assert(v == wrap_sub16(x, y));
        }
        self.write(a, v)
    }

    /// MUL: realises `spec_mul`.
    pub fn mul(&mut self, a: &OpArgs, b: &OpArgs) -> (r: Result<(), Fault>)
        requires
            old(self).wf(),
        ensures
            final(self).wf(),
            transition(spec_mul(old(self)@, *a, *b), r, old(self)@, final(self)@),
    {
        let x = match self.read(a) {
            Ok(x) => x,
            Err(f) => return Err(f),
        };
        let y = match self.read(b) {
            Ok(y) => y,
            Err(f) => return Err(f),
        };
        let v = x.wrapping_mul(y);
        proof {
            assert(x as nat * y as nat == (x * y) as nat);
            assert(v == wrap_mul16(x, y));
        }
        self.write(a, v)
    }

    /// MDL: realises `spec_mdl`.
    pub fn mdl(&mut self, a: &OpArgs, b: &OpArgs) -> (r: Result<(), Fault>)
        requires
            old(self).wf(),
        ensures
            final(self).wf(),
            transition(spec_mdl(old(self)@, *a, *b), r, old(self)@, final(self)@),
    {
        let x = match self.read(a) {
            Ok(x) => x,
            Err(f) => return Err(f),
        };
        let y = match self.read(b) {
            Ok(y) => y,
            Err(f) => return Err(f),
        };
        if y == 0 {
            return Err(Fault { kind: FaultKind::DivideByZero, value: x as usize, pc: self.pc });
        }
        self.write(a, x % y)
    }

    /// AND: realises `spec_and`.
    pub fn and(&mut self, a: &OpArgs, b: &OpArgs) -> (r: Result<(), Fault>)
        requires
            old(self).wf(),
        ensures
            final(self).wf(),
            transition(spec_and(old(self)@, *a, *b), r, old(self)@, final(self)@),
    {
        let x = match self.read(a) {
            Ok(x) => x,
            Err(f) => return Err(f),
        };
        let y = match self.read(b) {
            Ok(y) => y,
            Err(f) => return Err(f),
        };
        self.write(a, x & y)
    }

    /// ORR: realises `spec_orr`.
    pub fn orr(&mut self, a: &OpArgs, b: &OpArgs) -> (r: Result<(), Fault>)
        requires
            old(self).wf(),
        ensures
            final(self).wf(),
            transition(spec_orr(old(self)@, *a, *b), r, old(self)@, final(self)@),
    {
        let x = match self.read(a) {
            Ok(x) => x,
            Err(f) => return Err(f),
        };
        let y = match self.read(b) {
            Ok(y) => y,
            Err(f) => return Err(f),
        };
        self.write(a, x | y)
    }

    /// NOT: realises `spec_not`.
    pub fn not(&mut self, a: &OpArgs) -> (r: Result<(), Fault>)
        requires
            old(self).wf(),
        ensures
            final(self).wf(),
            transition(spec_not(old(self)@, *a), r, old(self)@, final(self)@),
    {
        let x = match self.read(a) {
            Ok(x) => x,
            Err(f) => return Err(f),
        };
        self.write(a, !x)
    }

    /// XOR: realises `spec_xor`.
    pub fn xor(&mut self, a: &OpArgs, b: &OpArgs) -> (r: Result<(), Fault>)
        requires
            old(self).wf(),
        ensures
            final(self).wf(),
            transition(spec_xor(old(self)@, *a, *b), r, old(self)@, final(self)@),
    {
        let x = match self.read(a) {
            Ok(x) => x,
            Err(f) => return Err(f),
        };
        let y = match self.read(b) {
            Ok(y) => y,
            Err(f) => return Err(f),
        };
        self.write(a, x ^ y)
    }

    /// LSL: realises `spec_lsl`; a shift count of 16 or more yields 0.
    pub fn lsl(&mut self, a: &OpArgs, b: &OpArgs) -> (r: Result<(), Fault>)
        requires
            old(self).wf(),
        ensures
            final(self).wf(),
            transition(spec_lsl(old(self)@, *a, *b), r, old(self)@, final(self)@),
    {
        let x = match self.read(a) {
            Ok(x) => x,
            Err(f) => return Err(f),
        };
        let y = match self.read(b) {
            Ok(y) => y,
            Err(f) => return Err(f),
        };
        let v = if y >= 16 {
            0u16
        } else {
            x << y
        };
        self.write(a, v)
    }

    /// LSR: realises `spec_lsr`; a shift count of 16 or more yields 0.
    pub fn lsr(&mut self, a: &OpArgs, b: &OpArgs) -> (r: Result<(), Fault>)
        requires
            old(self).wf(),
        ensures
            final(self).wf(),
            transition(spec_lsr(old(self)@, *a, *b), r, old(self)@, final(self)@),
    {
        let x = match self.read(a) {
            Ok(x) => x,
            Err(f) => return Err(f),
        };
        let y = match self.read(b) {
            Ok(y) => y,
            Err(f) => return Err(f),
        };
        let v = if y >= 16 {
            0u16
        } else {
            x >> y
        };
        self.write(a, v)
    }

    /// PSH: realises `spec_psh`.
    pub fn psh(&mut self, a: &OpArgs) -> (r: Result<(), Fault>)
        requires
            old(self).wf(),
        ensures
            final(self).wf(),
            transition(spec_psh(old(self)@, *a), r, old(self)@, final(self)@),
    {
        let v = match self.read(a) {
            Ok(v) => v,
            Err(f) => return Err(f),
        };
        self.stack.push(v);
        proof {
            assert(self@ =~= spec_psh(old(self)@, *a)->Ok_0);
        }
        Ok(())
    }

    /// Dispatches one decoded instruction: realises `spec_exec` on the
    /// argument list, whose length must be the opcode's arity.
    #[verifier::rlimit(100)]
    #[verifier::spinoff_prover]
    pub fn execute_op(&mut self, opcode: OpCode, arguments: Vec<OpArgs>) -> (r: Result<
        StepEvent,
        Fault,
    >)
        requires
            old(self).wf(),
            arguments@.len() == spec_arity(opcode),
        ensures
            final(self).wf(),
            match spec_exec(old(self)@, opcode, arguments@) {
                Ok((v, e)) => r == Ok::<StepEvent, Fault>(e) && final(self)@ == v,
                Err(f) => r == Err::<StepEvent, Fault>(f) && final(self)@ == old(self)@,
            },
    {
        let ghost s = old(self)@;
        let ghost args = arguments@;
        match opcode {
            OpCode::NOP => {
                proof {
                    assert(spec_exec(s, opcode, args) == Ok::<(MachineView, StepEvent), Fault>(
                        (s, StepEvent::Ran),
                    )) by {
                        reveal(spec_exec);
                    }
                }
                self.nop();
                Ok(StepEvent::Ran)
            },
            OpCode::EXT => {
                proof {
                    assert(spec_exec(s, opcode, args) == ran_event(spec_ext(s, args[0]))) by {
                        reveal(spec_exec);
                    }
                }
                Self::ran(self.ext(&arguments[0]))
            },
            OpCode::SYS => {
                proof {
                    assert(spec_exec(s, opcode, args) == (match spec_sys(s, args[0]) {
                        Ok(k) => Ok::<(MachineView, StepEvent), Fault>(
                            (s, StepEvent::Syscall { key: k, arg: args[0] }),
                        ),
                        Err(f) => Err(f),
                    })) by {
                        reveal(spec_exec);
                    }
                }
                self.sys(&arguments[0])
            },
            OpCode::MOV => {
                proof {
                    assert(spec_exec(s, opcode, args) == ran_event(
                        spec_mov(s, args[0], args[1]),
                    )) by {
                        reveal(spec_exec);
                    }
                }
                Self::ran(self.mov(&arguments[0], &arguments[1]))
            },
            OpCode::JMP => {
                proof {
                    assert(spec_exec(s, opcode, args) == ran_event(spec_jmp(s, args[0]))) by {
                        reveal(spec_exec);
                    }
                }
                Self::ran(self.jmp(&arguments[0]))
            },
            OpCode::JEQ => {
                proof {
                    assert(spec_exec(s, opcode, args) == ran_event(
                        spec_cond_jump(s, opcode, args[0], args[1], args[2]),
                    )) by {
                        reveal(spec_exec);
                    }
                }
                Self::ran(self.jeq(&arguments[0], &arguments[1], &arguments[2]))
            },
            OpCode::JNE => {
                proof {
                    assert(spec_exec(s, opcode, args) == ran_event(
                        spec_cond_jump(s, opcode, args[0], args[1], args[2]),
                    )) by {
                        reveal(spec_exec);
                    }
                }
                Self::ran(self.jne(&arguments[0], &arguments[1], &arguments[2]))
            },
            OpCode::JGT => {
                proof {
                    assert(spec_exec(s, opcode, args) == ran_event(
                        spec_cond_jump(s, opcode, args[0], args[1], args[2]),
                    )) by {
                        reveal(spec_exec);
                    }
                }
                Self::ran(self.jgt(&arguments[0], &arguments[1], &arguments[2]))
            },
            OpCode::JGE => {
                proof {
                    assert(spec_exec(s, opcode, args) == ran_event(
                        spec_cond_jump(s, opcode, args[0], args[1], args[2]),
                    )) by {
                        reveal(spec_exec);
                    }
                }
                Self::ran(self.jge(&arguments[0], &arguments[1], &arguments[2]))
            },
            OpCode::JLT => {
                proof {
                    assert(spec_exec(s, opcode, args) == ran_event(
                        spec_cond_jump(s, opcode, args[0], args[1], args[2]),
                    )) by {
                        reveal(spec_exec);
                    }
                }
                Self::ran(self.jlt(&arguments[0], &arguments[1], &arguments[2]))
            },
            OpCode::JLE => {
                proof {
                    assert(spec_exec(s, opcode, args) == ran_event(
                        spec_cond_jump(s, opcode, args[0], args[1], args[2]),
                    )) by {
                        reveal(spec_exec);
                    }
                }
                Self::ran(self.jle(&arguments[0], &arguments[1], &arguments[2]))
            },
            OpCode::JSR => {
                proof {
                    assert(spec_exec(s, opcode, args) == ran_event(spec_jsr(s, args[0]))) by {
                        reveal(spec_exec);
                    }
                }
                Self::ran(self.jsr(&arguments[0]))
            },
            OpCode::RET => {
                proof {
                    assert(spec_exec(s, opcode, args) == ran_event(spec_ret(s))) by {
                        reveal(spec_exec);
                    }
                }
                Self::ran(self.ret())
            },
            OpCode::ADD => {
                proof {
                    assert(spec_exec(s, opcode, args) == ran_event(
                        spec_add(s, args[0], args[1]),
                    )) by {
                        reveal(spec_exec);
                    }
                }
                Self::ran(self.add(&arguments[0], &arguments[1]))
            },
            OpCode::SUB => {
                proof {
                    assert(spec_exec(s, opcode, args) == ran_event(
                        spec_sub(s, args[0], args[1]),
                    )) by {
                        reveal(spec_exec);
                    }
                }
                Self::ran(self.sub(&arguments[0], &arguments[1]))
            },
            OpCode::MUL => {
                proof {
                    assert(spec_exec(s, opcode, args) == ran_event(
                        spec_mul(s, args[0], args[1]),
                    )) by {
                        reveal(spec_exec);
                    }
                }
                Self::ran(self.mul(&arguments[0], &arguments[1]))
            },
            OpCode::MDL => {
                proof {
                    assert(spec_exec(s, opcode, args) == ran_event(
                        spec_mdl(s, args[0], args[1]),
                    )) by {
                        reveal(spec_exec);
                    }
                }
                Self::ran(self.mdl(&arguments[0], &arguments[1]))
            },
            OpCode::AND => {
                proof {
                    assert(spec_exec(s, opcode, args) == ran_event(
                        spec_and(s, args[0], args[1]),
                    )) by {
                        reveal(spec_exec);
                    }
                }
                Self::ran(self.and(&arguments[0], &arguments[1]))
            },
            OpCode::ORR => {
                proof {
                    assert(spec_exec(s, opcode, args) == ran_event(
                        spec_orr(s, args[0], args[1]),
                    )) by {
                        reveal(spec_exec);
                    }
                }
                Self::ran(self.orr(&arguments[0], &arguments[1]))
            },
            OpCode::NOT => {
                proof {
                    assert(spec_exec(s, opcode, args) == ran_event(spec_not(s, args[0]))) by {
                        reveal(spec_exec);
                    }
                }
                Self::ran(self.not(&arguments[0]))
            },
            OpCode::XOR => {
                proof {
                    assert(spec_exec(s, opcode, args) == ran_event(
                        spec_xor(s, args[0], args[1]),
                    )) by {
                        reveal(spec_exec);
                    }
                }
                Self::ran(self.xor(&arguments[0], &arguments[1]))
            },
            OpCode::LSL => {
                proof {
                    assert(spec_exec(s, opcode, args) == ran_event(
                        spec_lsl(s, args[0], args[1]),
                    )) by {
                        reveal(spec_exec);
                    }
                }
                Self::ran(self.lsl(&arguments[0], &arguments[1]))
            },
            OpCode::LSR => {
                proof {
                    assert(spec_exec(s, opcode, args) == ran_event(
                        spec_lsr(s, args[0], args[1]),
                    )) by {
                        reveal(spec_exec);
                    }
                }
                Self::ran(self.lsr(&arguments[0], &arguments[1]))
            },
            OpCode::PSH => {
                proof {
                    assert(spec_exec(s, opcode, args) == ran_event(spec_psh(s, args[0]))) by {
                        reveal(spec_exec);
                    }
                }
                Self::ran(self.psh(&arguments[0]))
            },
            OpCode::POP => {
                proof {
                    assert(spec_exec(s, opcode, args) == ran_event(spec_pop(s, args[0]))) by {
                        reveal(spec_exec);
                    }
                }
                Self::ran(self.pop(&arguments[0]))
            },
        }
    }

    /// Tags a plain operation's outcome with the ordinary step event.
    fn ran(r: Result<(), Fault>) -> (out: Result<StepEvent, Fault>)
        ensures
            out == (match r {
                Ok(()) => Ok::<StepEvent, Fault>(StepEvent::Ran),
                Err(f) => Err::<StepEvent, Fault>(f),
            }),
    {
        match r {
            Ok(()) => Ok(StepEvent::Ran),
            Err(f) => Err(f),
        }
    }

    /// One machine step: realises `spec_step`. On a fault the machine is
    /// left as it was before the step.
    pub fn step(&mut self) -> (r: Result<StepEvent, Fault>)
        requires
            old(self).wf(),
        ensures
            final(self).wf(),
            match spec_step(old(self)@) {
                Ok((v, e)) => r == Ok::<StepEvent, Fault>(e) && final(self)@ == v,
                Err(f) => r == Err::<StepEvent, Fault>(f) && final(self)@ == old(self)@,
            },
    {
        if self.pc >= MEMORY_SIZE {
            return Err(
                Fault { kind: FaultKind::OutOfRangeAddress, value: self.pc, pc: self.pc },
            );
        }
        let current = self.memory[self.pc];
        let op_part = current & 0x00FF;
        let addr_part = (current & 0xFF00) >> 8;
        let opcode = match OpCode::from_int(op_part) {
            Some(op) => op,
            None => {
                return Err(
                    Fault { kind: FaultKind::InvalidOpcode, value: op_part as usize, pc: self.pc },
                );
            },
        };
        let arity = opcode.arity();
        if (arity as usize) > MEMORY_SIZE - self.pc - 1 {
            return Err(
                Fault {
                    kind: FaultKind::OutOfRangeAddress,
                    value: self.pc + arity as usize,
                    pc: self.pc,
                },
            );
        }
        let modes = AddressingMode::map_from_int(addr_part);
        let mut arguments: Vec<OpArgs> = Vec::new();
        if arity >= 1 {
            arguments.push(OpArgs { value: self.memory[self.pc + 1], mode: modes.0 });
        }
        if arity >= 2 {
            arguments.push(OpArgs { value: self.memory[self.pc + 2], mode: modes.1 });
        }
        if arity >= 3 {
            arguments.push(OpArgs { value: self.memory[self.pc + 3], mode: modes.2 });
        }
        let old_pc = self.pc;
        self.pc = self.pc + 1 + arity as usize;
        proof {
            assert(arguments@ =~= spec_args_at(old(self)@));
            assert(self@ =~= spec_decoded_state(old(self)@));
        }
        match self.execute_op(opcode, arguments) {
            Ok(e) => Ok(e),
            Err(f) => {
                self.pc = old_pc;
                proof {
                    assert(self@ =~= old(self)@);
                }
                Err(f)
            },
        }
    }

    /// POP: realises `spec_pop`. The top of the stack is dropped only once
    /// the write of it has succeeded, so a faulting POP leaves the machine
    /// unchanged.
    pub fn pop(&mut self, a: &OpArgs) -> (r: Result<(), Fault>)
        requires
            old(self).wf(),
        ensures
            final(self).wf(),
            transition(spec_pop(old(self)@, *a), r, old(self)@, final(self)@),
    {
        if self.stack.len() == 0 {
            return Err(Fault { kind: FaultKind::EmptyStack, value: 0, pc: self.pc });
        }
        let v = self.stack[self.stack.len() - 1];
        match self.write(a, v) {
            Ok(()) => {
                self.stack.pop();
                proof {
                    assert(self@ =~= spec_pop(old(self)@, *a)->Ok_0);
                }
                Ok(())
            },
            Err(f) => Err(f),
        }
    }
}

} // verus!
