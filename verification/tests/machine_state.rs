//! The machine's state, loader, resolver and color attributes.

use qcpu::color::ColorName;
use qcpu::machine::{FaultKind, OpArgs, QCPU, MEMORY_SIZE};
use qcpu::opcode::{AddressingMode, OpCode};

#[test]
fn new_machine_defaults() {
    let cpu = QCPU::new();
    assert_eq!(cpu.memory.len(), MEMORY_SIZE);
    assert!(cpu.memory.iter().all(|&w| w == 0));
    assert_eq!(cpu.pc, 0);
    assert_eq!(cpu.registers.a, 0);
    assert_eq!(cpu.registers.y, 0);
    assert_eq!(cpu.flags.halt, -1);
    assert!(cpu.running());
    assert!(cpu.call_stack.is_empty());
    assert!(cpu.stack.is_empty());
    assert_eq!(cpu.current_fg_color, 0);
    assert_eq!(cpu.current_bg_color, 7);
}

#[test]
fn loader_round_trip() {
    let mut cpu = QCPU::new();
    let bytes = [0x34u8, 0x12, 0xFF, 0x00, 0x01, 0x80];
    cpu.load(&bytes).unwrap();
    assert_eq!(cpu.memory[0], 0x1234);
    assert_eq!(cpu.memory[1], 0x00FF);
    assert_eq!(cpu.memory[2], 0x8001);
    assert_eq!(cpu.memory[3], 0);
}

#[test]
fn loader_rejects_odd_length() {
    let mut cpu = QCPU::new();
    let err = cpu.load(&[0x01u8, 0x02, 0x03]).unwrap_err();
    assert_eq!(err.kind, FaultKind::MalformedProgram);
    assert_eq!(err.value, 3);
    assert!(cpu.memory.iter().all(|&w| w == 0));
}

#[test]
fn loader_zeroes_cells_past_the_program() {
    let mut cpu = QCPU::new();
    cpu.memory[5] = 0xAAAA;
    cpu.load(&[0x01u8, 0x00]).unwrap();
    assert_eq!(cpu.memory[0], 1);
    assert_eq!(cpu.memory[5], 0);
    assert!(cpu.memory[1..].iter().all(|&w| w == 0));
}

#[test]
fn empty_program_loads() {
    let mut cpu = QCPU::new();
    cpu.load(&[]).unwrap();
    assert!(cpu.memory.iter().all(|&w| w == 0));
}

#[test]
fn read_all_modes() {
    let mut cpu = QCPU::new();
    cpu.memory[0x20] = 77;
    cpu.registers.b = 0x20;
    let imm = OpArgs { value: 9, mode: AddressingMode::IMMEDIATE };
    let abs = OpArgs { value: 0x20, mode: AddressingMode::ABSOLUTE };
    let ind = OpArgs { value: 1, mode: AddressingMode::INDIRECT };
    let reg = OpArgs { value: 1, mode: AddressingMode::REGISTER };
    assert_eq!(cpu.read(&imm).unwrap(), 9);
    assert_eq!(cpu.read(&abs).unwrap(), 77);
    assert_eq!(cpu.read(&ind).unwrap(), 77);
    assert_eq!(cpu.read(&reg).unwrap(), 0x20);
}

#[test]
fn write_all_modes() {
    let mut cpu = QCPU::new();
    cpu.registers.c = 0x30;
    let abs = OpArgs { value: 0x40, mode: AddressingMode::ABSOLUTE };
    let ind = OpArgs { value: 2, mode: AddressingMode::INDIRECT };
    let reg = OpArgs { value: 4, mode: AddressingMode::REGISTER };
    cpu.write(&abs, 11).unwrap();
    cpu.write(&ind, 22).unwrap();
    cpu.write(&reg, 33).unwrap();
    assert_eq!(cpu.memory[0x40], 11);
    assert_eq!(cpu.memory[0x30], 22);
    assert_eq!(cpu.registers.x, 33);
}

#[test]
fn indirect_matches_absolute() {
    let mut cpu = QCPU::new();
    cpu.registers.a = 0x55;
    cpu.memory[0x55] = 1234;
    let ind = OpArgs { value: 0, mode: AddressingMode::INDIRECT };
    let abs = OpArgs { value: 0x55, mode: AddressingMode::ABSOLUTE };
    assert_eq!(cpu.read(&ind).unwrap(), cpu.read(&abs).unwrap());
    cpu.write(&ind, 4321).unwrap();
    assert_eq!(cpu.read(&abs).unwrap(), 4321);
}

#[test]
fn write_to_immediate_is_fatal() {
    let mut cpu = QCPU::new();
    let imm = OpArgs { value: 5, mode: AddressingMode::IMMEDIATE };
    let err = cpu.write(&imm, 1).unwrap_err();
    assert_eq!(err.kind, FaultKind::WriteToImmediate);
    assert_eq!(err.value, 5);
}

#[test]
fn out_of_range_address_is_fatal() {
    let mut cpu = QCPU::new();
    let abs = OpArgs { value: 0xFFFF, mode: AddressingMode::ABSOLUTE };
    let err = cpu.read(&abs).unwrap_err();
    assert_eq!(err.kind, FaultKind::OutOfRangeAddress);
    assert_eq!(err.value, 0xFFFF);
    let err = cpu.write(&abs, 1).unwrap_err();
    assert_eq!(err.kind, FaultKind::OutOfRangeAddress);
}

#[test]
fn out_of_range_indirect_is_fatal() {
    let mut cpu = QCPU::new();
    cpu.registers.a = 0xFFFF;
    let ind = OpArgs { value: 0, mode: AddressingMode::INDIRECT };
    let err = cpu.read(&ind).unwrap_err();
    assert_eq!(err.kind, FaultKind::OutOfRangeAddress);
    assert_eq!(err.value, 0xFFFF);
}

#[test]
fn invalid_register_is_fatal() {
    let mut cpu = QCPU::new();
    assert_eq!(cpu.read_reg(6).unwrap_err().kind, FaultKind::InvalidRegister);
    assert_eq!(cpu.write_reg(6, 1).unwrap_err().kind, FaultKind::InvalidRegister);
    let reg = OpArgs { value: 9, mode: AddressingMode::REGISTER };
    let err = cpu.read(&reg).unwrap_err();
    assert_eq!(err.kind, FaultKind::InvalidRegister);
    assert_eq!(err.value, 9);
}

#[test]
fn registers_read_back() {
    let mut cpu = QCPU::new();
    for r in 0u16..6 {
        cpu.write_reg(r, 100 + r).unwrap();
    }
    for r in 0u16..6 {
        assert_eq!(cpu.read_reg(r).unwrap(), 100 + r);
    }
}

#[test]
fn bind_records_keys() {
    let mut cpu = QCPU::new();
    assert!(!cpu.is_bound(6));
    cpu.bind(6);
    cpu.bind(7);
    cpu.bind(6);
    assert!(cpu.is_bound(6));
    assert!(cpu.is_bound(7));
    assert!(!cpu.is_bound(8));
}

#[test]
fn color_pair_defaults() {
    let cpu = QCPU::new();
    let (fg, bg) = cpu.color_pair().unwrap();
    assert_eq!(fg, ColorName::White);
    assert_eq!(bg, ColorName::Black);
}

#[test]
fn unknown_color_is_fatal() {
    let mut cpu = QCPU::new();
    cpu.current_fg_color = 9;
    let err = cpu.color_pair().unwrap_err();
    assert_eq!(err.kind, FaultKind::UnknownColor);
    assert_eq!(err.value, 9);
    cpu.current_fg_color = 8;
    cpu.current_bg_color = 100;
    let err = cpu.color_pair().unwrap_err();
    assert_eq!(err.kind, FaultKind::UnknownColor);
    assert_eq!(err.value, 100);
    cpu.current_bg_color = 2;
    assert_eq!(cpu.color_pair().unwrap(), (ColorName::Grey, ColorName::Red));
}

#[test]
fn opcode_decoding() {
    assert_eq!(OpCode::from_int(0x00), Some(OpCode::NOP));
    assert_eq!(OpCode::from_int(0x0D), Some(OpCode::ADD));
    assert_eq!(OpCode::from_int(0x18), Some(OpCode::POP));
    assert_eq!(OpCode::from_int(0x19), None);
    assert_eq!(OpCode::from_int(0xFF), None);
}

#[test]
fn opcode_arity() {
    assert_eq!(OpCode::NOP.arity(), 0);
    assert_eq!(OpCode::RET.arity(), 0);
    assert_eq!(OpCode::EXT.arity(), 1);
    assert_eq!(OpCode::MOV.arity(), 2);
    assert_eq!(OpCode::JEQ.arity(), 3);
    assert_eq!(OpCode::JLE.arity(), 3);
}

#[test]
fn addressing_mode_decoding() {
    assert_eq!(AddressingMode::from_int(0), AddressingMode::IMMEDIATE);
    assert_eq!(AddressingMode::from_int(1), AddressingMode::ABSOLUTE);
    assert_eq!(AddressingMode::from_int(2), AddressingMode::INDIRECT);
    assert_eq!(AddressingMode::from_int(3), AddressingMode::REGISTER);
    let modes = AddressingMode::map_from_int(0b1110_0100);
    assert_eq!(modes.0, AddressingMode::REGISTER);
    assert_eq!(modes.1, AddressingMode::INDIRECT);
    assert_eq!(modes.2, AddressingMode::ABSOLUTE);
    assert_eq!(modes.3, AddressingMode::IMMEDIATE);
}

#[test]
fn listing_names() {
    assert_eq!(OpCode::NOP.mnemonic(), "NOP");
    assert_eq!(OpCode::MDL.mnemonic(), "MDL");
    assert_eq!(OpCode::POP.mnemonic(), "POP");
    assert_eq!(AddressingMode::IMMEDIATE.letter(), "I");
    assert_eq!(AddressingMode::ABSOLUTE.letter(), "A");
    assert_eq!(AddressingMode::INDIRECT.letter(), "N");
    assert_eq!(AddressingMode::REGISTER.letter(), "R");
}

#[test]
fn step_fetch_past_end_is_fatal() {
    let mut cpu = QCPU::new();
    cpu.pc = MEMORY_SIZE;
    let err = cpu.step().unwrap_err();
    assert_eq!(err.kind, FaultKind::OutOfRangeAddress);
    // An instruction whose arguments would run past the end of memory.
    cpu.pc = MEMORY_SIZE - 1;
    cpu.memory[MEMORY_SIZE - 1] = 0x0003; // MOV needs two argument words
    let err = cpu.step().unwrap_err();
    assert_eq!(err.kind, FaultKind::OutOfRangeAddress);
}
