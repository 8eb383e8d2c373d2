//! The machine state: memory image, registers, program counter, the two
//! stacks, the halt flag, color attributes and the set of bound syscall
//! keys, together with the addressing-mode read/write resolver and the
//! loader.
//!
//! Every operation that can fail returns a `Fault` naming the error kind,
//! the offending value, and the program counter at fault; no verified
//! function of this crate panics.

use vstd::prelude::*;

use crate::opcode::AddressingMode;

verus! {

/// Number of 16-bit cells in the memory image; valid addresses are
/// `0 .. MEMORY_SIZE`.
pub const MEMORY_SIZE: usize = 0xFFFF;

/// Number of general registers; valid register numbers are `0 .. NUM_REGISTERS`.
pub const NUM_REGISTERS: usize = 6;

/// The kinds of fatal error. Every one stops the machine; recovery is the
/// host's responsibility.
#[derive(Clone, Copy, Debug, PartialEq, Eq, Structural)]
pub enum FaultKind {
    /// Odd-length byte stream handed to the loader.
    MalformedProgram,
    /// Fetched low byte outside the defined opcode set.
    InvalidOpcode,
    /// Reserved: every 2-bit mode field currently decodes to a valid mode.
    InvalidAddressingMode,
    /// Register number outside the register space during REGISTER- or
    /// INDIRECT-mode resolution.
    InvalidRegister,
    /// Write through an IMMEDIATE destination.
    WriteToImmediate,
    /// ABSOLUTE or INDIRECT resolution, or an instruction fetch, outside
    /// `[0, MEMORY_SIZE)`.
    OutOfRangeAddress,
    /// MDL with a zero divisor.
    DivideByZero,
    /// POP on an empty data stack.
    EmptyStack,
    /// RET with an empty call stack.
    EmptyCallStack,
    /// SYS key with no bound handler.
    UnknownSyscall,
    /// Color attribute outside the defined range when a syscall consumes it.
    UnknownColor,
}

/// A fatal error: its kind, the offending value, and the program counter
/// at fault.
///
/// `pc` is the machine's program counter at the moment the fault arises.
/// For a fault raised while an operation executes, decoding has already
/// advanced that counter past the faulting instruction's words; since a
/// faulting step leaves the machine unchanged, the machine's own `pc`
/// still names the instruction itself.
#[derive(Clone, Copy, Debug, PartialEq, Eq, Structural)]
pub struct Fault {
    pub kind: FaultKind,
    pub value: usize,
    pub pc: usize,
}

/// One decoded instruction argument: the raw 16-bit word and the
/// addressing mode that says how to interpret it.
#[derive(Clone, Copy, Debug, PartialEq, Eq, Structural)]
pub struct OpArgs {
    pub value: u16,
    pub mode: AddressingMode,
}

/// The six general registers, numbered `0 .. 6` in field order.
#[derive(Clone, Copy, Debug, PartialEq, Eq, Structural)]
pub struct Registers {
    pub a: u16,
    pub b: u16,
    pub c: u16,
    pub d: u16,
    pub x: u16,
    pub y: u16,
}

/// Machine flags. `halt == -1` means running; any other value is the
/// guest-chosen exit status and stops the driver.
#[derive(Clone, Copy, Debug, PartialEq, Eq, Structural)]
pub struct Flags {
    pub halt: i16,
}

/// The abstract machine state that all contracts speak of.
#[verifier::ext_equal]
pub ghost struct MachineView {
    /// The memory image, one 16-bit cell per address.
    pub memory: Seq<u16>,
    /// The program counter, a word index into memory.
    pub pc: usize,
    /// The six general registers, indexed by register number.
    pub regs: Seq<u16>,
    /// `-1` while running, otherwise the exit status.
    pub halt: i16,
    /// Return addresses pushed by JSR, top last.
    pub call_stack: Seq<usize>,
    /// The data stack, top last.
    pub stack: Seq<u16>,
    /// The syscall keys with a bound host handler.
    pub syscalls: Set<u16>,
    /// Foreground color attribute.
    pub fg_color: u16,
    /// Background color attribute.
    pub bg_color: u16,
}

/// The machine. The host owns the syscall handlers themselves; the machine
/// records only which keys are bound, and `step` hands a syscall request
/// back to the host.
pub struct QCPU {
    pub memory: Vec<u16>,
    pub pc: usize,
    pub registers: Registers,
    pub flags: Flags,
    pub call_stack: Vec<usize>,
    pub stack: Vec<u16>,
    pub syscalls: Vec<u16>,
    pub current_fg_color: u16,
    pub current_bg_color: u16,
}

impl View for QCPU {
    type V = MachineView;

    open spec fn view(&self) -> MachineView {
        MachineView {
            memory: self.memory@,
            pc: self.pc,
            regs: seq![
                self.registers.a,
                self.registers.b,
                self.registers.c,
                self.registers.d,
                self.registers.x,
                self.registers.y,
            ],
            halt: self.flags.halt,
            call_stack: self.call_stack@,
            stack: self.stack@,
            syscalls: self.syscalls@.to_set(),
            fg_color: self.current_fg_color,
            bg_color: self.current_bg_color,
        }
    }
}

/// A machine state is well formed when its memory image has exactly
/// `MEMORY_SIZE` cells. Constructors establish this and every operation
/// preserves it.
pub open spec fn view_wf(s: MachineView) -> bool {
    &&& s.memory.len() == MEMORY_SIZE
    &&& s.regs.len() == NUM_REGISTERS
}

/// Whether the machine is still running: the halt flag holds the sentinel
/// `-1`. Any other value stops the driver; a non-negative one is the
/// guest-chosen exit status.
pub open spec fn is_running(s: MachineView) -> bool {
    s.halt == -1i16
}

/// Reading register `i`: its value for `i < NUM_REGISTERS`, otherwise an
/// InvalidRegister fault.
pub open spec fn spec_reg_read(s: MachineView, i: u16) -> Result<u16, Fault> {
    if (i as int) < NUM_REGISTERS {
        Ok(s.regs[i as int])
    } else {
        Err(Fault { kind: FaultKind::InvalidRegister, value: i as usize, pc: s.pc })
    }
}

/// Writing register `i`, or an InvalidRegister fault.
pub open spec fn spec_reg_write(s: MachineView, i: u16, val: u16) -> Result<MachineView, Fault> {
    if (i as int) < NUM_REGISTERS {
        Ok(MachineView { regs: s.regs.update(i as int, val), ..s })
    } else {
        Err(Fault { kind: FaultKind::InvalidRegister, value: i as usize, pc: s.pc })
    }
}

/// The read resolver: IMMEDIATE yields the raw value, ABSOLUTE the memory
/// cell it addresses, INDIRECT the memory cell addressed by the named
/// register, REGISTER the register itself.
pub open spec fn spec_read(s: MachineView, a: OpArgs) -> Result<u16, Fault> {
    match a.mode {
        AddressingMode::IMMEDIATE => Ok(a.value),
        AddressingMode::ABSOLUTE => if (a.value as int) < MEMORY_SIZE {
            Ok(s.memory[a.value as int])
        } else {
            Err(Fault { kind: FaultKind::OutOfRangeAddress, value: a.value as usize, pc: s.pc })
        },
        AddressingMode::INDIRECT => match spec_reg_read(s, a.value) {
            Ok(addr) => if (addr as int) < MEMORY_SIZE {
                Ok(s.memory[addr as int])
            } else {
                Err(Fault { kind: FaultKind::OutOfRangeAddress, value: addr as usize, pc: s.pc })
            },
            Err(f) => Err(f),
        },
        AddressingMode::REGISTER => spec_reg_read(s, a.value),
    }
}

/// The write resolver: IMMEDIATE has no destination and faults; the other
/// modes update the cell or register that `spec_read` would consult.
pub open spec fn spec_write(s: MachineView, a: OpArgs, val: u16) -> Result<MachineView, Fault> {
    match a.mode {
        AddressingMode::IMMEDIATE => Err(
            Fault { kind: FaultKind::WriteToImmediate, value: a.value as usize, pc: s.pc },
        ),
        AddressingMode::ABSOLUTE => if (a.value as int) < MEMORY_SIZE {
            Ok(MachineView { memory: s.memory.update(a.value as int, val), ..s })
        } else {
            Err(Fault { kind: FaultKind::OutOfRangeAddress, value: a.value as usize, pc: s.pc })
        },
        AddressingMode::INDIRECT => match spec_reg_read(s, a.value) {
            Ok(addr) => if (addr as int) < MEMORY_SIZE {
                Ok(MachineView { memory: s.memory.update(addr as int, val), ..s })
            } else {
                Err(Fault { kind: FaultKind::OutOfRangeAddress, value: addr as usize, pc: s.pc })
            },
            Err(f) => Err(f),
        },
        AddressingMode::REGISTER => spec_reg_write(s, a.value, val),
    }
}

/// The 16-bit word assembled little-endian from byte pair `i` of a byte
/// stream: low byte first.
pub open spec fn word_of(b: Seq<u8>, i: int) -> u16 {
    (b[2 * i + 1] * 0x100 + b[2 * i]) as u16
}

/// The memory image after loading byte stream `b`: the first `b.len() / 2`
/// cells hold the little-endian words of `b`, and every remaining cell is
/// zero.
pub open spec fn spec_load(b: Seq<u8>) -> Seq<u16> {
    Seq::new(MEMORY_SIZE as nat, |i: int| if i < b.len() / 2 { word_of(b, i) } else { 0u16 })
}

impl QCPU {
    /// Whether this machine is well formed; all public operations require
    /// and preserve it.
    pub open spec fn wf(&self) -> bool {
        view_wf(self@)
    }

    /// A fresh machine: zeroed memory and registers, program counter `0`,
    /// running, both stacks empty, no syscalls bound, foreground color `0`
    /// and background color `7`.
    pub fn new() -> (r: QCPU)
        ensures
            r.wf(),
            r@.memory =~= Seq::new(MEMORY_SIZE as nat, |i: int| 0u16),
            r@.pc == 0,
            r@.regs =~= Seq::new(NUM_REGISTERS as nat, |i: int| 0u16),
            r@.halt == -1,
            r@.call_stack =~= Seq::<usize>::empty(),
            r@.stack =~= Seq::<u16>::empty(),
            r@.syscalls =~= Set::<u16>::empty(),
            r@.fg_color == 0,
            r@.bg_color == 7,
    {
        let mut memory: Vec<u16> = Vec::new();
        let mut i: usize = 0;
        while i < MEMORY_SIZE
            invariant
                i <= MEMORY_SIZE,
                memory@.len() == i,
                forall|j: int| 0 <= j < i ==> memory@[j] == 0u16,
            decreases MEMORY_SIZE - i,
        {
            memory.push(0);
            i += 1;
        }
        let r = QCPU {
            memory,
            pc: 0,
            registers: Registers { a: 0, b: 0, c: 0, d: 0, x: 0, y: 0 },
            flags: Flags { halt: -1 },
            call_stack: Vec::<usize>::new(),
            stack: Vec::<u16>::new(),
            syscalls: Vec::<u16>::new(),
            current_fg_color: 0,
            current_bg_color: 7,
        };
        proof {
            assert(r@.syscalls =~= Set::<u16>::empty());
        }
        r
    }

    /// Unpacks an even-length byte stream into the low end of memory, two
    /// bytes per cell, little-endian, and zeroes every cell past the
    /// program; an odd-length stream is rejected as MalformedProgram and
    /// the machine is unchanged.
    pub fn load(&mut self, data: &[u8]) -> (r: Result<(), Fault>)
        requires
            old(self).wf(),
            data@.len() <= 2 * MEMORY_SIZE,
        ensures
            final(self).wf(),
            match r {
                Ok(()) => data@.len() % 2 == 0 && final(self)@ == (MachineView {
                    memory: spec_load(data@),
                    ..old(self)@
                }),
                Err(f) => data@.len() % 2 != 0 && f == (Fault {
                    kind: FaultKind::MalformedProgram,
                    value: data@.len() as usize,
                    pc: old(self)@.pc,
                }) && final(self)@ == old(self)@,
            },
    {
        if data.len() % 2 != 0 {
            return Err(Fault { kind: FaultKind::MalformedProgram, value: data.len(), pc: self.pc });
        }
        let half: usize = data.len() / 2;
        let mut i: usize = 0;
        while i < half
            invariant
                i <= half,
                half == data@.len() / 2,
                data@.len() % 2 == 0,
                self.memory@.len() == old(self).memory@.len(),
                old(self).wf(),
                half <= MEMORY_SIZE,
                forall|j: int| 0 <= j < i ==> self.memory@[j] == word_of(data@, j),
                self.pc == old(self).pc,
                self.registers == old(self).registers,
                self.flags == old(self).flags,
                self.call_stack == old(self).call_stack,
                self.stack == old(self).stack,
                self.syscalls == old(self).syscalls,
                self.current_fg_color == old(self).current_fg_color,
                self.current_bg_color == old(self).current_bg_color,
            decreases half - i,
        {
            let byte1: u8 = data[i * 2];
            let byte2: u8 = data[i * 2 + 1];
            self.memory[i] = (byte2 as u16) * 0x100 + (byte1 as u16);
            i += 1;
        }
        while i < MEMORY_SIZE
            invariant
                half <= i <= MEMORY_SIZE,
                half == data@.len() / 2,
                data@.len() % 2 == 0,
                self.memory@.len() == old(self).memory@.len(),
                old(self).wf(),
                half <= MEMORY_SIZE,
                forall|j: int| 0 <= j < half ==> self.memory@[j] == word_of(data@, j),
                forall|j: int| half <= j < i ==> self.memory@[j] == 0u16,
                self.pc == old(self).pc,
                self.registers == old(self).registers,
                self.flags == old(self).flags,
                self.call_stack == old(self).call_stack,
                self.stack == old(self).stack,
                self.syscalls == old(self).syscalls,
                self.current_fg_color == old(self).current_fg_color,
                self.current_bg_color == old(self).current_bg_color,
            decreases MEMORY_SIZE - i,
        {
            self.memory[i] = 0;
            i += 1;
        }
        proof {
            assert(self@.memory =~= spec_load(data@));
            assert(self@ =~= (MachineView { memory: spec_load(data@), ..old(self)@ }));
        }
        Ok(())
    }

    /// The driver's test: whether the machine should take another step.
    pub fn running(&self) -> (r: bool)
        ensures
            r == is_running(self@),
    {
        self.flags.halt == -1
    }

    /// Whether a host handler is bound for `key`.
    pub fn is_bound(&self, key: u16) -> (r: bool)
        ensures
            r == self@.syscalls.contains(key),
    {
        let mut i: usize = 0;
        while i < self.syscalls.len()
            invariant
                i <= self.syscalls@.len(),
                forall|j: int| 0 <= j < i ==> self.syscalls@[j] != key,
            decreases self.syscalls@.len() - i,
        {
            if self.syscalls[i] == key {
                proof {
                    assert(self.syscalls@.contains(key));
                }
                return true;
            }
            i += 1;
        }
        proof {
            assert(!self.syscalls@.contains(key));
        }
        false
    }

    /// Records that the host has bound a handler for `key`. The handler
    /// itself stays with the host; `step` reports a syscall request back
    /// to it.
    pub fn bind(&mut self, key: u16)
        requires
            old(self).wf(),
        ensures
            final(self).wf(),
            final(self)@ == (MachineView {
                syscalls: old(self)@.syscalls.insert(key),
                ..old(self)@
            }),
    {
        if !self.is_bound(key) {
            self.syscalls.push(key);
        }
        proof {
            assert(self@.syscalls =~= old(self)@.syscalls.insert(key)) by {
                assert forall|k: u16| self@.syscalls.contains(k) implies old(
                    self,
                )@.syscalls.insert(key).contains(k) by {
                    let idx = choose|idx: int|
                        0 <= idx < self.syscalls@.len() && self.syscalls@[idx] == k;
                    if idx < old(self).syscalls@.len() {
                        assert(old(self).syscalls@.contains(k));
                    }
                }
                assert forall|k: u16| old(self)@.syscalls.insert(key).contains(k) implies self@
                    .syscalls.contains(k) by {
                    if k == key {
                        if old(self).syscalls@.contains(k) {
                            let idx = choose|idx: int|
                                0 <= idx < old(self).syscalls@.len() && old(self).syscalls@[idx]
                                    == k;
                            assert(self.syscalls@[idx] == k);
                        } else {
                            assert(self.syscalls@.last() == key);
                        }
                    } else {
                        let idx = choose|idx: int|
                            0 <= idx < old(self).syscalls@.len() && old(self).syscalls@[idx] == k;
                        assert(self.syscalls@[idx] == k);
                    }
                }
            }
            assert(self@ =~= (MachineView {
                syscalls: old(self)@.syscalls.insert(key),
                ..old(self)@
            }));
        }
    }

    /// Reads register `from`; a number outside the register space is an
    /// InvalidRegister fault.
    pub fn read_reg(&self, from: u16) -> (r: Result<u16, Fault>)
        ensures
            r == spec_reg_read(self@, from),
    {
        match from {
            0 => Ok(self.registers.a),
            1 => Ok(self.registers.b),
            2 => Ok(self.registers.c),
            3 => Ok(self.registers.d),
            4 => Ok(self.registers.x),
            5 => Ok(self.registers.y),
            _ => Err(
                Fault { kind: FaultKind::InvalidRegister, value: from as usize, pc: self.pc },
            ),
        }
    }

    /// Writes register `to`; a number outside the register space is an
    /// InvalidRegister fault and leaves the machine unchanged.
    pub fn write_reg(&mut self, to: u16, val: u16) -> (r: Result<(), Fault>)
        requires
            old(self).wf(),
        ensures
            final(self).wf(),
            match spec_reg_write(old(self)@, to, val) {
                Ok(v) => r is Ok && final(self)@ == v,
                Err(f) => r == Err::<(), Fault>(f) && final(self)@ == old(self)@,
            },
    {
        let r = match to {
            0 => {
                self.registers.a = val;
                Ok(())
            },
            1 => {
                self.registers.b = val;
                Ok(())
            },
            2 => {
                self.registers.c = val;
                Ok(())
            },
            3 => {
                self.registers.d = val;
                Ok(())
            },
            4 => {
                self.registers.x = val;
                Ok(())
            },
            5 => {
                self.registers.y = val;
                Ok(())
            },
            _ => Err(Fault { kind: FaultKind::InvalidRegister, value: to as usize, pc: self.pc }),
        };
        proof {
            if to < 6 {
                assert(self@.regs =~= old(self)@.regs.update(to as int, val));
                assert(self@ =~= spec_reg_write(old(self)@, to, val)->Ok_0);
            }
        }
        r
    }

    /// The read resolver on this machine: see `spec_read`.
    pub fn read(&self, from: &OpArgs) -> (r: Result<u16, Fault>)
        requires
            self.wf(),
        ensures
            r == spec_read(self@, *from),
    {
        match from.mode {
            AddressingMode::IMMEDIATE => Ok(from.value),
            AddressingMode::ABSOLUTE => {
                if (from.value as usize) < MEMORY_SIZE {
                    Ok(self.memory[from.value as usize])
                } else {
                    Err(
                        Fault {
                            kind: FaultKind::OutOfRangeAddress,
                            value: from.value as usize,
                            pc: self.pc,
                        },
                    )
                }
            },
            AddressingMode::INDIRECT => {
                match self.read_reg(from.value) {
                    Ok(addr) => {
                        if (addr as usize) < MEMORY_SIZE {
                            Ok(self.memory[addr as usize])
                        } else {
                            Err(
                                Fault {
                                    kind: FaultKind::OutOfRangeAddress,
                                    value: addr as usize,
                                    pc: self.pc,
                                },
                            )
                        }
                    },
                    Err(f) => Err(f),
                }
            },
            AddressingMode::REGISTER => self.read_reg(from.value),
        }
    }

    /// The write resolver on this machine: see `spec_write`. On a fault
    /// the machine is unchanged.
    pub fn write(&mut self, to: &OpArgs, val: u16) -> (r: Result<(), Fault>)
        requires
            old(self).wf(),
        ensures
            final(self).wf(),
            match spec_write(old(self)@, *to, val) {
                Ok(v) => r is Ok && final(self)@ == v,
                Err(f) => r == Err::<(), Fault>(f) && final(self)@ == old(self)@,
            },
    {
        match to.mode {
            AddressingMode::IMMEDIATE => Err(
                Fault { kind: FaultKind::WriteToImmediate, value: to.value as usize, pc: self.pc },
            ),
            AddressingMode::ABSOLUTE => {
                if (to.value as usize) < MEMORY_SIZE {
                    self.memory[to.value as usize] = val;
                    proof {
                        assert(self@ =~= spec_write(old(self)@, *to, val)->Ok_0);
                    }
                    Ok(())
                } else {
                    Err(
                        Fault {
                            kind: FaultKind::OutOfRangeAddress,
                            value: to.value as usize,
                            pc: self.pc,
                        },
                    )
                }
            },
            AddressingMode::INDIRECT => {
                match self.read_reg(to.value) {
                    Ok(addr) => {
                        if (addr as usize) < MEMORY_SIZE {
                            self.memory[addr as usize] = val;
                            proof {
                                assert(self@ =~= spec_write(old(self)@, *to, val)->Ok_0);
                            }
                            Ok(())
                        } else {
                            Err(
                                Fault {
                                    kind: FaultKind::OutOfRangeAddress,
                                    value: addr as usize,
                                    pc: self.pc,
                                },
                            )
                        }
                    },
                    Err(f) => Err(f),
                }
            },
            AddressingMode::REGISTER => self.write_reg(to.value, val),
        }
    }
}

} // verus!
