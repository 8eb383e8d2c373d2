//! The instruction set: opcodes, addressing modes, and their decoding from
//! 16-bit instruction header words.

use vstd::prelude::*;

verus! {

/// How an argument word is interpreted: as a constant, as a memory address,
/// as a register holding a memory address, or as a register number.
#[derive(Clone, Copy, Debug, PartialEq, Eq, Structural)]
pub enum AddressingMode {
    IMMEDIATE,
    ABSOLUTE,
    INDIRECT,
    REGISTER,
}

/// The 25 operations of the machine.
#[derive(Clone, Copy, Debug, PartialEq, Eq, Structural)]
pub enum OpCode {
    NOP,
    EXT,
    SYS,
    MOV,
    JMP,
    JEQ,
    JNE,
    JGT,
    JGE,
    JLT,
    JLE,
    JSR,
    RET,
    ADD,
    SUB,
    MUL,
    MDL,
    AND,
    ORR,
    NOT,
    XOR,
    LSL,
    LSR,
    PSH,
    POP,
}

/// The addressing mode encoded by a 2-bit field.
pub open spec fn spec_mode(num: u16) -> AddressingMode {
    if num == 0b00 {
        AddressingMode::IMMEDIATE
    } else if num == 0b01 {
        AddressingMode::ABSOLUTE
    } else if num == 0b10 {
        AddressingMode::INDIRECT
    } else {
        AddressingMode::REGISTER
    }
}

/// The four 2-bit mode fields of a header's high byte, most significant
/// first: field 0 sits in bits 7..6 of the byte, field 3 in bits 1..0.
pub open spec fn spec_mode_field(num: u16, i: int) -> u16 {
    if i == 0 {
        (num & 0b11000000) >> 6
    } else if i == 1 {
        (num & 0b00110000) >> 4
    } else if i == 2 {
        (num & 0b00001100) >> 2
    } else {
        num & 0b00000011
    }
}

/// The opcode encoded by a header's low byte, if any.
pub open spec fn spec_opcode(num: u16) -> Option<OpCode> {
    if num == 0x00 {
        Some(OpCode::NOP)
    } else if num == 0x01 {
        Some(OpCode::EXT)
    } else if num == 0x02 {
        Some(OpCode::SYS)
    } else if num == 0x03 {
        Some(OpCode::MOV)
    } else if num == 0x04 {
        Some(OpCode::JMP)
    } else if num == 0x05 {
        Some(OpCode::JEQ)
    } else if num == 0x06 {
        Some(OpCode::JNE)
    } else if num == 0x07 {
        Some(OpCode::JGT)
    } else if num == 0x08 {
        Some(OpCode::JGE)
    } else if num == 0x09 {
        Some(OpCode::JLT)
    } else if num == 0x0A {
        Some(OpCode::JLE)
    } else if num == 0x0B {
        Some(OpCode::JSR)
    } else if num == 0x0C {
        Some(OpCode::RET)
    } else if num == 0x0D {
        Some(OpCode::ADD)
    } else if num == 0x0E {
        Some(OpCode::SUB)
    } else if num == 0x0F {
        Some(OpCode::MUL)
    } else if num == 0x10 {
        Some(OpCode::MDL)
    } else if num == 0x11 {
        Some(OpCode::AND)
    } else if num == 0x12 {
        Some(OpCode::ORR)
    } else if num == 0x13 {
        Some(OpCode::NOT)
    } else if num == 0x14 {
        Some(OpCode::XOR)
    } else if num == 0x15 {
        Some(OpCode::LSL)
    } else if num == 0x16 {
        Some(OpCode::LSR)
    } else if num == 0x17 {
        Some(OpCode::PSH)
    } else if num == 0x18 {
        Some(OpCode::POP)
    } else {
        None
    }
}

/// How many argument words follow an instruction's header word.
pub open spec fn spec_arity(op: OpCode) -> u16 {
    match op {
        OpCode::NOP | OpCode::RET => 0,
        OpCode::EXT
        | OpCode::SYS
        | OpCode::JMP
        | OpCode::JSR
        | OpCode::NOT
        | OpCode::PSH
        | OpCode::POP => 1,
        OpCode::MOV
        | OpCode::ADD
        | OpCode::SUB
        | OpCode::MUL
        | OpCode::MDL
        | OpCode::AND
        | OpCode::ORR
        | OpCode::XOR
        | OpCode::LSL
        | OpCode::LSR => 2,
        OpCode::JEQ | OpCode::JNE | OpCode::JGT | OpCode::JGE | OpCode::JLT | OpCode::JLE => 3,
    }
}

/// The one-letter name of an addressing mode, as a disassembly listing
/// shows it.
pub open spec fn spec_mode_letter(m: AddressingMode) -> Seq<char> {
    match m {
        AddressingMode::IMMEDIATE => "I"@,
        AddressingMode::INDIRECT => "N"@,
        AddressingMode::REGISTER => "R"@,
        AddressingMode::ABSOLUTE => "A"@,
    }
}

/// The mnemonic of an opcode, as a disassembly listing shows it.
pub open spec fn spec_mnemonic(op: OpCode) -> Seq<char> {
    match op {
        OpCode::NOP => "NOP"@,
        OpCode::EXT => "EXT"@,
        OpCode::SYS => "SYS"@,
        OpCode::MOV => "MOV"@,
        OpCode::JMP => "JMP"@,
        OpCode::JEQ => "JEQ"@,
        OpCode::JNE => "JNE"@,
        OpCode::JGT => "JGT"@,
        OpCode::JGE => "JGE"@,
        OpCode::JLT => "JLT"@,
        OpCode::JLE => "JLE"@,
        OpCode::JSR => "JSR"@,
        OpCode::RET => "RET"@,
        OpCode::ADD => "ADD"@,
        OpCode::SUB => "SUB"@,
        OpCode::MUL => "MUL"@,
        OpCode::MDL => "MDL"@,
        OpCode::AND => "AND"@,
        OpCode::ORR => "ORR"@,
        OpCode::NOT => "NOT"@,
        OpCode::XOR => "XOR"@,
        OpCode::LSL => "LSL"@,
        OpCode::LSR => "LSR"@,
        OpCode::PSH => "PSH"@,
        OpCode::POP => "POP"@,
    }
}

impl AddressingMode {
    /// The one-letter name a listing prints for this mode.
    pub fn letter(&self) -> (r: &'static str)
        ensures
            r@ == spec_mode_letter(*self),
    {
        match *self {
            AddressingMode::IMMEDIATE => "I",
            AddressingMode::INDIRECT => "N",
            AddressingMode::REGISTER => "R",
            AddressingMode::ABSOLUTE => "A",
        }
    }

    /// Decodes one 2-bit mode field.
    pub fn from_int(num: u16) -> (r: AddressingMode)
        requires
            num < 4,
        ensures
            r == spec_mode(num),
    {
        match num {
            0b00 => AddressingMode::IMMEDIATE,
            0b01 => AddressingMode::ABSOLUTE,
            0b10 => AddressingMode::INDIRECT,
            _ => AddressingMode::REGISTER,
        }
    }

    /// Decodes all four mode fields of a header's high byte, most
    /// significant field first.
    pub fn map_from_int(num: u16) -> (r: (
        AddressingMode,
        AddressingMode,
        AddressingMode,
        AddressingMode,
    ))
        ensures
            r.0 == spec_mode(spec_mode_field(num, 0)),
            r.1 == spec_mode(spec_mode_field(num, 1)),
            r.2 == spec_mode(spec_mode_field(num, 2)),
            r.3 == spec_mode(spec_mode_field(num, 3)),
    {
        proof {
            assert((num & 0b11000000) >> 6 < 4 && (num & 0b00110000) >> 4 < 4 && (num
                & 0b00001100) >> 2 < 4 && num & 0b00000011 < 4) by (bit_vector);
        }
        (
            AddressingMode::from_int((num & 0b11000000) >> 6),
            AddressingMode::from_int((num & 0b00110000) >> 4),
            AddressingMode::from_int((num & 0b00001100) >> 2),
            AddressingMode::from_int(num & 0b00000011),
        )
    }
}

impl OpCode {
    /// The mnemonic a listing prints for this opcode.
    pub fn mnemonic(&self) -> (r: &'static str)
        ensures
            r@ == spec_mnemonic(*self),
    {
        match *self {
            OpCode::NOP => "NOP",
            OpCode::EXT => "EXT",
            OpCode::SYS => "SYS",
            OpCode::MOV => "MOV",
            OpCode::JMP => "JMP",
            OpCode::JEQ => "JEQ",
            OpCode::JNE => "JNE",
            OpCode::JGT => "JGT",
            OpCode::JGE => "JGE",
            OpCode::JLT => "JLT",
            OpCode::JLE => "JLE",
            OpCode::JSR => "JSR",
            OpCode::RET => "RET",
            OpCode::ADD => "ADD",
            OpCode::SUB => "SUB",
            OpCode::MUL => "MUL",
            OpCode::MDL => "MDL",
            OpCode::AND => "AND",
            OpCode::ORR => "ORR",
            OpCode::NOT => "NOT",
            OpCode::XOR => "XOR",
            OpCode::LSL => "LSL",
            OpCode::LSR => "LSR",
            OpCode::PSH => "PSH",
            OpCode::POP => "POP",
        }
    }

    /// Decodes a header's low byte; `None` for a byte outside the
    /// defined opcode space.
    pub fn from_int(num: u16) -> (r: Option<OpCode>)
        ensures
            r == spec_opcode(num),
    {
        match num {
            0x00 => Some(OpCode::NOP),
            0x01 => Some(OpCode::EXT),
            0x02 => Some(OpCode::SYS),
            0x03 => Some(OpCode::MOV),
            0x04 => Some(OpCode::JMP),
            0x05 => Some(OpCode::JEQ),
            0x06 => Some(OpCode::JNE),
            0x07 => Some(OpCode::JGT),
            0x08 => Some(OpCode::JGE),
            0x09 => Some(OpCode::JLT),
            0x0A => Some(OpCode::JLE),
            0x0B => Some(OpCode::JSR),
            0x0C => Some(OpCode::RET),
            0x0D => Some(OpCode::ADD),
            0x0E => Some(OpCode::SUB),
            0x0F => Some(OpCode::MUL),
            0x10 => Some(OpCode::MDL),
            0x11 => Some(OpCode::AND),
            0x12 => Some(OpCode::ORR),
            0x13 => Some(OpCode::NOT),
            0x14 => Some(OpCode::XOR),
            0x15 => Some(OpCode::LSL),
            0x16 => Some(OpCode::LSR),
            0x17 => Some(OpCode::PSH),
            0x18 => Some(OpCode::POP),
            _ => None,
        }
    }

    /// The number of argument words this opcode consumes.
    pub fn arity(&self) -> (r: u16)
        ensures
            r == spec_arity(*self),
    {
        match *self {
            OpCode::NOP | OpCode::RET => 0,
            OpCode::EXT
            | OpCode::SYS
            | OpCode::JMP
            | OpCode::JSR
            | OpCode::NOT
            | OpCode::PSH
            | OpCode::POP => 1,
            OpCode::MOV
            | OpCode::ADD
            | OpCode::SUB
            | OpCode::MUL
            | OpCode::MDL
            | OpCode::AND
            | OpCode::ORR
            | OpCode::XOR
            | OpCode::LSL
            | OpCode::LSR => 2,
            OpCode::JEQ
            | OpCode::JNE
            | OpCode::JGT
            | OpCode::JGE
            | OpCode::JLT
            | OpCode::JLE => 3,
        }
    }
}

} // verus!
