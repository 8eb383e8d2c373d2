//! End-to-end programs exercising the instruction set.

use qcpu::machine::{Fault, FaultKind, OpArgs, QCPU};
use qcpu::opcode::AddressingMode;
use qcpu::ops::StepEvent;

/// Header word: opcode in the low byte, 2-bit mode fields packed
/// most-significant-first in the high byte.
fn header(op: u16, m0: u16, m1: u16, m2: u16) -> u16 {
    (m0 << 14) | (m1 << 12) | (m2 << 10) | op
}

const IMM: u16 = 0;
const ABS: u16 = 1;
const IND: u16 = 2;
const REG: u16 = 3;

fn run(cpu: &mut QCPU) {
    let mut steps = 0;
    while cpu.running() {
        cpu.step().expect("unexpected fault");
        steps += 1;
        assert!(steps < 10_000, "program did not halt");
    }
}

#[test]
fn immediate_move_and_halt() {
    // MOV R4, #42 ; EXT #0
    let mut cpu = QCPU::new();
    cpu.memory[0] = header(0x03, REG, IMM, 0);
    cpu.memory[1] = 4;
    cpu.memory[2] = 42;
    cpu.memory[3] = header(0x01, IMM, 0, 0);
    cpu.memory[4] = 0;
    run(&mut cpu);
    assert_eq!(cpu.registers.x, 42);
    assert_eq!(cpu.flags.halt, 0);
}

#[test]
fn loop_counter() {
    // loop: ADD R0, #1 ; JNE loop, R0, #10 ; EXT #0
    let mut cpu = QCPU::new();
    cpu.memory[0] = header(0x0D, REG, IMM, 0);
    cpu.memory[1] = 0;
    cpu.memory[2] = 1;
    cpu.memory[3] = header(0x06, IMM, REG, IMM);
    cpu.memory[4] = 0;
    cpu.memory[5] = 0;
    cpu.memory[6] = 10;
    cpu.memory[7] = header(0x01, IMM, 0, 0);
    cpu.memory[8] = 0;
    run(&mut cpu);
    assert_eq!(cpu.registers.a, 10);
    assert_eq!(cpu.flags.halt, 0);
}

#[test]
fn call_and_return() {
    // JSR sub ; EXT #0 ; sub: MOV R1, #7 ; RET
    let mut cpu = QCPU::new();
    cpu.memory[0] = header(0x0B, IMM, 0, 0);
    cpu.memory[1] = 4;
    cpu.memory[2] = header(0x01, IMM, 0, 0);
    cpu.memory[3] = 0;
    cpu.memory[4] = header(0x03, REG, IMM, 0);
    cpu.memory[5] = 1;
    cpu.memory[6] = 7;
    cpu.memory[7] = header(0x0C, 0, 0, 0);
    run(&mut cpu);
    assert_eq!(cpu.registers.b, 7);
    assert_eq!(cpu.flags.halt, 0);
    assert!(cpu.call_stack.is_empty());
}

#[test]
fn indirect_store() {
    // MOV R0, #0x100 ; MOV [R0], #0xBEEF ; EXT #0
    let mut cpu = QCPU::new();
    cpu.memory[0] = header(0x03, REG, IMM, 0);
    cpu.memory[1] = 0;
    cpu.memory[2] = 0x100;
    cpu.memory[3] = header(0x03, IND, IMM, 0);
    cpu.memory[4] = 0;
    cpu.memory[5] = 0xBEEF;
    cpu.memory[6] = header(0x01, IMM, 0, 0);
    cpu.memory[7] = 0;
    run(&mut cpu);
    assert_eq!(cpu.memory[0x100], 0xBEEF);
}

#[test]
fn stack_reversal() {
    // PSH #1 ; PSH #2 ; PSH #3 ; POP R0 ; POP R1 ; POP R2 ; EXT #0
    let mut cpu = QCPU::new();
    cpu.memory[0] = header(0x17, IMM, 0, 0);
    cpu.memory[1] = 1;
    cpu.memory[2] = header(0x17, IMM, 0, 0);
    cpu.memory[3] = 2;
    cpu.memory[4] = header(0x17, IMM, 0, 0);
    cpu.memory[5] = 3;
    cpu.memory[6] = header(0x18, REG, 0, 0);
    cpu.memory[7] = 0;
    cpu.memory[8] = header(0x18, REG, 0, 0);
    cpu.memory[9] = 1;
    cpu.memory[10] = header(0x18, REG, 0, 0);
    cpu.memory[11] = 2;
    cpu.memory[12] = header(0x01, IMM, 0, 0);
    cpu.memory[13] = 0;
    run(&mut cpu);
    assert_eq!(cpu.registers.a, 3);
    assert_eq!(cpu.registers.b, 2);
    assert_eq!(cpu.registers.c, 1);
    assert!(cpu.stack.is_empty());
}

#[test]
fn divide_by_zero_is_fatal() {
    // MOV R0, #10 ; MDL R0, #0
    let mut cpu = QCPU::new();
    cpu.memory[0] = header(0x03, REG, IMM, 0);
    cpu.memory[1] = 0;
    cpu.memory[2] = 10;
    cpu.memory[3] = header(0x10, REG, IMM, 0);
    cpu.memory[4] = 0;
    cpu.memory[5] = 0;
    cpu.step().expect("MOV fault");
    let err = cpu.step().unwrap_err();
    assert_eq!(err.kind, FaultKind::DivideByZero);
    assert_eq!(err.value, 10);
    assert_eq!(cpu.flags.halt, -1);
}

#[test]
fn pc_advances_by_one_plus_arity() {
    // NOP is one word, MOV is three.
    let mut cpu = QCPU::new();
    cpu.memory[0] = header(0x00, 0, 0, 0);
    cpu.memory[1] = header(0x03, REG, IMM, 0);
    cpu.memory[2] = 2;
    cpu.memory[3] = 9;
    assert_eq!(cpu.step().unwrap(), StepEvent::Ran);
    assert_eq!(cpu.pc, 1);
    assert_eq!(cpu.step().unwrap(), StepEvent::Ran);
    assert_eq!(cpu.pc, 4);
    assert_eq!(cpu.registers.c, 9);
}

#[test]
fn untaken_branch_advances() {
    // JEQ 0, #1, #2: comparison false, so fall through.
    let mut cpu = QCPU::new();
    cpu.memory[0] = header(0x05, IMM, IMM, IMM);
    cpu.memory[1] = 0;
    cpu.memory[2] = 1;
    cpu.memory[3] = 2;
    cpu.step().unwrap();
    assert_eq!(cpu.pc, 4);
}

#[test]
fn taken_jump_overrides_pc() {
    // JMP #7
    let mut cpu = QCPU::new();
    cpu.memory[0] = header(0x04, IMM, 0, 0);
    cpu.memory[1] = 7;
    cpu.step().unwrap();
    assert_eq!(cpu.pc, 7);
}

#[test]
fn add_wraps() {
    let mut cpu = QCPU::new();
    cpu.registers.a = 0xFFFF;
    let a = OpArgs { value: 0, mode: AddressingMode::REGISTER };
    let b = OpArgs { value: 2, mode: AddressingMode::IMMEDIATE };
    cpu.add(&a, &b).unwrap();
    assert_eq!(cpu.registers.a, 1);
}

#[test]
fn sub_wraps() {
    let mut cpu = QCPU::new();
    cpu.registers.a = 0;
    let a = OpArgs { value: 0, mode: AddressingMode::REGISTER };
    let b = OpArgs { value: 1, mode: AddressingMode::IMMEDIATE };
    cpu.sub(&a, &b).unwrap();
    assert_eq!(cpu.registers.a, 0xFFFF);
}

#[test]
fn mul_wraps() {
    let mut cpu = QCPU::new();
    cpu.registers.a = 0x8000;
    let a = OpArgs { value: 0, mode: AddressingMode::REGISTER };
    let b = OpArgs { value: 2, mode: AddressingMode::IMMEDIATE };
    cpu.mul(&a, &b).unwrap();
    assert_eq!(cpu.registers.a, 0);
}

#[test]
fn mdl_takes_remainder() {
    let mut cpu = QCPU::new();
    cpu.registers.a = 7;
    let a = OpArgs { value: 0, mode: AddressingMode::REGISTER };
    let b = OpArgs { value: 3, mode: AddressingMode::IMMEDIATE };
    cpu.mdl(&a, &b).unwrap();
    assert_eq!(cpu.registers.a, 1);
}

#[test]
fn shifts_saturate_at_sixteen() {
    let mut cpu = QCPU::new();
    cpu.registers.a = 0xFFFF;
    let a = OpArgs { value: 0, mode: AddressingMode::REGISTER };
    let big = OpArgs { value: 20, mode: AddressingMode::IMMEDIATE };
    cpu.lsl(&a, &big).unwrap();
    assert_eq!(cpu.registers.a, 0);
    cpu.registers.a = 0xFFFF;
    cpu.lsr(&a, &big).unwrap();
    assert_eq!(cpu.registers.a, 0);
}

#[test]
fn shifts_within_range() {
    let mut cpu = QCPU::new();
    cpu.registers.a = 0x0001;
    let a = OpArgs { value: 0, mode: AddressingMode::REGISTER };
    let four = OpArgs { value: 4, mode: AddressingMode::IMMEDIATE };
    cpu.lsl(&a, &four).unwrap();
    assert_eq!(cpu.registers.a, 0x0010);
    cpu.lsr(&a, &four).unwrap();
    assert_eq!(cpu.registers.a, 0x0001);
}

#[test]
fn bitwise_identities() {
    let x: u16 = 0xA5C3;
    let mut cpu = QCPU::new();
    let a = OpArgs { value: 0, mode: AddressingMode::REGISTER };
    let self_reg = OpArgs { value: 0, mode: AddressingMode::REGISTER };

    cpu.registers.a = x;
    cpu.and(&a, &self_reg).unwrap();
    assert_eq!(cpu.registers.a, x);

    cpu.orr(&a, &self_reg).unwrap();
    assert_eq!(cpu.registers.a, x);

    cpu.xor(&a, &self_reg).unwrap();
    assert_eq!(cpu.registers.a, 0);

    cpu.registers.a = x;
    cpu.not(&a).unwrap();
    cpu.not(&a).unwrap();
    assert_eq!(cpu.registers.a, x);
}

#[test]
fn push_pop_round_trip() {
    let mut cpu = QCPU::new();
    let v = OpArgs { value: 0x1234, mode: AddressingMode::IMMEDIATE };
    let dst = OpArgs { value: 3, mode: AddressingMode::REGISTER };
    let depth = cpu.stack.len();
    cpu.psh(&v).unwrap();
    cpu.pop(&dst).unwrap();
    assert_eq!(cpu.registers.d, 0x1234);
    assert_eq!(cpu.stack.len(), depth);
}

#[test]
fn ext_stores_exit_code() {
    let mut cpu = QCPU::new();
    cpu.memory[0] = header(0x01, IMM, 0, 0);
    cpu.memory[1] = 5;
    cpu.step().unwrap();
    assert_eq!(cpu.flags.halt, 5);
    assert!(!cpu.running());
}

#[test]
fn syscall_reports_key_to_host() {
    let mut cpu = QCPU::new();
    cpu.bind(0x06);
    cpu.memory[0] = header(0x02, IMM, 0, 0);
    cpu.memory[1] = 6;
    let ev = cpu.step().unwrap();
    assert_eq!(
        ev,
        StepEvent::Syscall { key: 6, arg: OpArgs { value: 6, mode: AddressingMode::IMMEDIATE } }
    );
    assert_eq!(cpu.pc, 2);
}

#[test]
fn unknown_syscall_is_fatal() {
    let mut cpu = QCPU::new();
    cpu.memory[0] = header(0x02, IMM, 0, 0);
    cpu.memory[1] = 0x99;
    let err = cpu.step().unwrap_err();
    assert_eq!(err.kind, FaultKind::UnknownSyscall);
    assert_eq!(err.value, 0x99);
}

#[test]
fn ret_on_empty_call_stack_is_fatal() {
    let mut cpu = QCPU::new();
    cpu.memory[0] = header(0x0C, 0, 0, 0);
    let err = cpu.step().unwrap_err();
    assert_eq!(err.kind, FaultKind::EmptyCallStack);
    // The machine is left as it was before the step.
    assert_eq!(cpu.pc, 0);
}

#[test]
fn pop_on_empty_stack_is_fatal() {
    let mut cpu = QCPU::new();
    cpu.memory[0] = header(0x18, REG, 0, 0);
    cpu.memory[1] = 0;
    let err = cpu.step().unwrap_err();
    assert_eq!(err.kind, FaultKind::EmptyStack);
    assert_eq!(cpu.pc, 0);
}

#[test]
fn invalid_opcode_is_fatal() {
    let mut cpu = QCPU::new();
    cpu.memory[0] = 0x0019;
    let err = cpu.step().unwrap_err();
    assert_eq!(err.kind, FaultKind::InvalidOpcode);
    assert_eq!(err.value, 0x19);
    assert_eq!(err.pc, 0);
}

#[test]
fn jsr_records_return_address() {
    let mut cpu = QCPU::new();
    cpu.memory[0] = header(0x0B, IMM, 0, 0);
    cpu.memory[1] = 100;
    cpu.step().unwrap();
    assert_eq!(cpu.pc, 100);
    assert_eq!(cpu.call_stack, vec![2]);
}
