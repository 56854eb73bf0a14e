//! The meaning of each instruction, as a function on machine states.
//!
//! A `Machine` is the register bank, the memory and the interface taken
//! together as one mathematical value. `step` maps an opcode and a machine to
//! the machine that the instruction leaves behind and to what it reports.

use vstd::prelude::*;
use crate::cpu::{Cpu, CpuState, STACK_CAPACITY};
use crate::fault::{Action, Fault};
use crate::interface::{Interface, InterfaceState};
use crate::memory::{Memory, FONT_START, MEMORY_SIZE};

verus! {

/// The register that instructions use as a flag output.
pub const FLAG_REGISTER: usize = 0xF;

/// Number of bytes between the starts of two font glyphs.
pub const GLYPH_SIZE: usize = 5;

/// Number of bytes that one instruction occupies.
pub const INSTRUCTION_SIZE: usize = 2;

/// The high nibble of an opcode: its class.
pub open spec fn class_of(opcode: u16) -> int {
    opcode as int / 0x1000
}

/// The second nibble of an opcode: the first register selector.
pub open spec fn x_of(opcode: u16) -> int {
    (opcode as int / 0x100) % 0x10
}

/// The third nibble of an opcode: the second register selector.
pub open spec fn y_of(opcode: u16) -> int {
    (opcode as int / 0x10) % 0x10
}

/// The low nibble of an opcode: a literal, or a selector within a class.
pub open spec fn n_of(opcode: u16) -> int {
    opcode as int % 0x10
}

/// The low byte of an opcode: a literal, or a selector within a class.
pub open spec fn nn_of(opcode: u16) -> u8 {
    (opcode as int % 0x100) as u8
}

/// The low twelve bits of an opcode: a literal address.
pub open spec fn nnn_of(opcode: u16) -> u16 {
    (opcode as int % 0x1000) as u16
}

/// 1 for `true`, 0 for `false`.
pub open spec fn flag(condition: bool) -> u8 {
    if condition {
        1
    } else {
        0
    }
}

/// The three decimal digits of `value`, hundreds first.
pub open spec fn decimal_digits(value: u8) -> Seq<u8> {
    seq![(value as int / 100) as u8, ((value as int / 10) % 10) as u8, (value as int % 10) as u8]
}

impl CpuState {
    /// What the general register `register` holds.
    pub open spec fn v(self, register: int) -> u8 {
        self.v_registers[register]
    }

    /// The flag register set to `flag`, then register `x` set to `value`: where
    /// `x` is the flag register itself, `value` is what stays.
    pub open spec fn with_flag_and_register(self, flag: u8, x: int, value: u8) -> CpuState {
        self.with_register(FLAG_REGISTER as int, flag).with_register(x, value)
    }

    pub open spec fn jump(self, address: int) -> CpuState {
        self.with_program_counter(address)
    }

    /// The program counter moved past the next instruction if `condition` holds.
    pub open spec fn skip_if(self, condition: bool) -> CpuState {
        if condition {
            self.with_program_counter(self.program_counter + INSTRUCTION_SIZE)
        } else {
            self
        }
    }

    /// The program counter truncated to sixteen bits on top of the stack, and
    /// the program counter at `address`.
    pub open spec fn call(self, address: int) -> CpuState {
        self.push((self.program_counter % 0x1_0000) as u16).jump(address)
    }

    /// The program counter at the topmost return address, which leaves the stack.
    pub open spec fn ret(self) -> CpuState {
        self.pop().jump(self.stack.last() as int)
    }

    pub open spec fn load(self, x: int, value: u8) -> CpuState {
        self.with_register(x, value)
    }

    pub open spec fn add_immediate(self, x: int, value: u8) -> CpuState {
        self.with_register(x, ((self.v(x) + value) % 0x100) as u8)
    }

    pub open spec fn move_register(self, x: int, y: int) -> CpuState {
        self.with_register(x, self.v(y))
    }

    pub open spec fn or_registers(self, x: int, y: int) -> CpuState {
        self.with_register(x, self.v(x) | self.v(y))
    }

    pub open spec fn and_registers(self, x: int, y: int) -> CpuState {
        self.with_register(x, self.v(x) & self.v(y))
    }

    pub open spec fn xor_registers(self, x: int, y: int) -> CpuState {
        self.with_register(x, self.v(x) ^ self.v(y))
    }

    /// Register `x` plus register `y` modulo 256 in register `x`; the flag is
    /// the carry.
    pub open spec fn add_registers(self, x: int, y: int) -> CpuState {
        let sum = self.v(x) + self.v(y);
        self.with_flag_and_register(flag(sum >= 0x100), x, (sum % 0x100) as u8)
    }

    /// Register `x` minus register `y` modulo 256 in register `x`; the flag is
    /// 1 where nothing was borrowed.
    pub open spec fn subtract_registers(self, x: int, y: int) -> CpuState {
        let difference = self.v(x) - self.v(y);
        self.with_flag_and_register(flag(difference >= 0), x, (difference % 0x100) as u8)
    }

    /// Register `y` minus register `x` modulo 256 in register `x`; the flag is
    /// 1 where nothing was borrowed.
    pub open spec fn subtract_reversed(self, x: int, y: int) -> CpuState {
        let difference = self.v(y) - self.v(x);
        self.with_flag_and_register(flag(difference >= 0), x, (difference % 0x100) as u8)
    }

    /// Register `x` halved; the flag is the bit that left on the right.
    pub open spec fn shift_right(self, x: int) -> CpuState {
        self.with_flag_and_register((self.v(x) % 2) as u8, x, (self.v(x) / 2) as u8)
    }

    /// Register `x` doubled modulo 256; the flag is the bit that left on the left.
    pub open spec fn shift_left(self, x: int) -> CpuState {
        self.with_flag_and_register((self.v(x) / 0x80) as u8, x, ((self.v(x) * 2) % 0x100) as u8)
    }

    pub open spec fn jump_plus_v0(self, address: int) -> CpuState {
        self.jump(address + self.v(0))
    }

    pub open spec fn or_random(self, x: int, value: u8, random_byte: u8) -> CpuState {
        self.with_register(x, value | random_byte)
    }

    pub open spec fn load_delay(self, x: int) -> CpuState {
        self.with_register(x, self.delay_timer)
    }

    pub open spec fn store_delay(self, x: int) -> CpuState {
        self.with_delay_timer(self.v(x))
    }

    pub open spec fn store_sound(self, x: int) -> CpuState {
        self.with_sound_timer(self.v(x))
    }

    pub open spec fn add_to_index(self, x: int) -> CpuState {
        self.with_i_register(((self.i_register + self.v(x)) % 0x1_0000) as u16)
    }

    /// The index register at the glyph of the digit held in register `x`.
    pub open spec fn load_font_address(self, x: int) -> CpuState {
        self.with_i_register((FONT_START + GLYPH_SIZE * self.v(x)) as u16)
    }

    /// Whether the `count` bytes from the index register on lie in memory.
    pub open spec fn addressable(self, count: int) -> bool {
        count == 0 || self.i_register + count <= MEMORY_SIZE
    }

    /// `memory` with the decimal digits of register `x` written at the index
    /// register on.
    pub open spec fn store_decimal(self, x: int, memory: Seq<u8>) -> Seq<u8> {
        Memory::with_block(memory, self.i_register as int, decimal_digits(self.v(x)))
    }

    /// `memory` with registers 0 to `x` written at the index register on.
    pub open spec fn store_registers(self, x: int, memory: Seq<u8>) -> Seq<u8> {
        Memory::with_block(memory, self.i_register as int, self.v_registers.take(x + 1))
    }

    /// Registers 0 to `x` read from `memory` at the index register on.
    pub open spec fn load_registers(self, x: int, memory: Seq<u8>) -> CpuState {
        CpuState {
            v_registers: Seq::new(
                self.v_registers.len(),
                |register: int|
                    if register <= x {
                        memory[self.i_register + register]
                    } else {
                        self.v_registers[register]
                    },
            ),
            ..self
        }
    }

    /// The lowest key held down in register `x`; with no key held down, the
    /// program counter back on the instruction that waits.
    pub open spec fn wait_for_key(self, x: int, interface: InterfaceState) -> CpuState {
        if interface.no_key_down() {
            self.with_program_counter(self.program_counter - INSTRUCTION_SIZE)
        } else {
            self.with_register(x, interface.first_key_down() as u8)
        }
    }
}

/// The three parts of the machine as one value.
pub struct Machine {
    pub cpu: CpuState,
    pub memory: Seq<u8>,
    pub interface: InterfaceState,
}

/// What one instruction leaves behind and reports.
pub struct Step {
    pub machine: Machine,
    pub result: Result<Action, Fault>,
}

impl Machine {
    /// The machine that the three parts make up.
    pub open spec fn of(cpu: Cpu, memory: Memory, interface: Interface) -> Machine {
        Machine { cpu: cpu@, memory: memory@, interface: interface@ }
    }

    /// Each part is well-formed, and the memory has its 4095 bytes.
    pub open spec fn wf(self) -> bool {
        &&& self.cpu.wf()
        &&& self.memory.len() == MEMORY_SIZE
        &&& self.interface.wf()
    }

    /// The `count` bytes from the index register on.
    pub open spec fn indexed_bytes(self, count: int) -> Seq<u8> {
        Seq::new(count as nat, |offset: int| self.memory[self.cpu.i_register + offset])
    }

    /// The instruction changed the registers, and the display is as it was.
    pub open spec fn proceed(self, cpu: CpuState) -> Step {
        Step { machine: Machine { cpu, ..self }, result: Ok(Action::Continue) }
    }

    /// The instruction changed nothing.
    pub open spec fn idle(self) -> Step {
        Step { machine: self, result: Ok(Action::Continue) }
    }

    /// The instruction changed nothing and reports `fault`.
    pub open spec fn halt(self, fault: Fault) -> Step {
        Step { machine: self, result: Err(fault) }
    }

    /// Every pixel off; the display is to be presented.
    pub open spec fn clear_display(self) -> Step {
        Step {
            machine: Machine { interface: self.interface.cleared(), ..self },
            result: Ok(Action::Refresh),
        }
    }

    /// A return, which faults on the empty stack.
    pub open spec fn return_from_subroutine(self) -> Step {
        if self.cpu.stack.len() == 0 {
            self.halt(Fault::StackUnderflow)
        } else {
            self.proceed(self.cpu.ret())
        }
    }

    /// A call, which faults on the full stack.
    pub open spec fn call_subroutine(self, address: int) -> Step {
        if self.cpu.stack.len() >= STACK_CAPACITY {
            self.halt(Fault::StackOverflow)
        } else {
            self.proceed(self.cpu.call(address))
        }
    }

    /// The sprite of `n` rows at the index register XOR-ed onto the display.
    /// Its origin is the pair of registers `x` and `y`, read once the flag has
    /// been reset and wrapped onto the surface; the flag reports a collision.
    pub open spec fn draw(self, x: int, y: int, n: int) -> Step {
        if !self.cpu.addressable(n) {
            self.halt(Fault::AddressOutOfRange)
        } else {
            let reset = self.cpu.with_register(FLAG_REGISTER as int, 0);
            let column = reset.v(x) as int % (Interface::WIDTH as int);
            let row = reset.v(y) as int % (Interface::HEIGHT as int);
            let sprite = self.indexed_bytes(n);
            Step {
                machine: Machine {
                    cpu: reset.with_register(
                        FLAG_REGISTER as int,
                        flag(self.interface.collides(column, row, sprite)),
                    ),
                    interface: self.interface.blitted(column, row, sprite),
                    ..self
                },
                result: Ok(Action::Refresh),
            }
        }
    }

    /// The instruction changed the memory.
    pub open spec fn write(self, memory: Seq<u8>) -> Step {
        Step { machine: Machine { memory, ..self }, result: Ok(Action::Continue) }
    }

    /// The decimal digits of register `x` written at the index register on,
    /// where the three bytes lie in memory.
    pub open spec fn store_decimal(self, x: int) -> Step {
        if !self.cpu.addressable(3) {
            self.halt(Fault::AddressOutOfRange)
        } else {
            self.write(self.cpu.store_decimal(x, self.memory))
        }
    }

    /// Registers 0 to `x` written at the index register on, where the bytes
    /// lie in memory.
    pub open spec fn store_registers(self, x: int) -> Step {
        if !self.cpu.addressable(x + 1) {
            self.halt(Fault::AddressOutOfRange)
        } else {
            self.write(self.cpu.store_registers(x, self.memory))
        }
    }

    /// Registers 0 to `x` read at the index register on, where the bytes lie
    /// in memory.
    pub open spec fn load_registers(self, x: int) -> Step {
        if !self.cpu.addressable(x + 1) {
            self.halt(Fault::AddressOutOfRange)
        } else {
            self.proceed(self.cpu.load_registers(x, self.memory))
        }
    }

    /// Class 8: register-to-register arithmetic, selected by the low nibble.
    pub open spec fn arithmetic(self, opcode: u16) -> Step {
        let x = x_of(opcode);
        let y = y_of(opcode);
        let n = n_of(opcode);
        if n == 0x0 {
            self.proceed(self.cpu.move_register(x, y))
        } else if n == 0x1 {
            self.proceed(self.cpu.or_registers(x, y))
        } else if n == 0x2 {
            self.proceed(self.cpu.and_registers(x, y))
        } else if n == 0x3 {
            self.proceed(self.cpu.xor_registers(x, y))
        } else if n == 0x4 {
            self.proceed(self.cpu.add_registers(x, y))
        } else if n == 0x5 {
            self.proceed(self.cpu.subtract_registers(x, y))
        } else if n == 0x6 {
            self.proceed(self.cpu.shift_right(x))
        } else if n == 0x7 {
            self.proceed(self.cpu.subtract_reversed(x, y))
        } else if n == 0xE {
            self.proceed(self.cpu.shift_left(x))
        } else {
            self.idle()
        }
    }

    /// Class E: skips on the key named by register `x`, selected by the low byte.
    pub open spec fn keys(self, opcode: u16) -> Step {
        let key_down = self.interface.key_down(self.cpu.v(x_of(opcode)) as int);
        if nn_of(opcode) == 0x9E {
            self.proceed(self.cpu.skip_if(key_down))
        } else if nn_of(opcode) == 0xA1 {
            self.proceed(self.cpu.skip_if(!key_down))
        } else {
            self.idle()
        }
    }

    /// Class F: timers, the index register and memory, selected by the low byte.
    pub open spec fn miscellaneous(self, opcode: u16) -> Step {
        let x = x_of(opcode);
        let nn = nn_of(opcode);
        if nn == 0x07 {
            self.proceed(self.cpu.load_delay(x))
        } else if nn == 0x0A {
            self.proceed(self.cpu.wait_for_key(x, self.interface))
        } else if nn == 0x15 {
            self.proceed(self.cpu.store_delay(x))
        } else if nn == 0x18 {
            self.proceed(self.cpu.store_sound(x))
        } else if nn == 0x1E {
            self.proceed(self.cpu.add_to_index(x))
        } else if nn == 0x29 {
            self.proceed(self.cpu.load_font_address(x))
        } else if nn == 0x33 {
            self.store_decimal(x)
        } else if nn == 0x55 {
            self.store_registers(x)
        } else if nn == 0x65 {
            self.load_registers(x)
        } else {
            self.idle()
        }
    }

    /// Whether the two bytes at the program counter lie in memory.
    pub open spec fn can_fetch(self) -> bool {
        self.cpu.program_counter + INSTRUCTION_SIZE <= self.memory.len()
    }

    /// The opcode at the program counter: high byte first.
    pub open spec fn fetched_opcode(self) -> u16 {
        (self.memory[self.cpu.program_counter] * 0x100 + self.memory[self.cpu.program_counter
            + 1]) as u16
    }

    /// The machine with the program counter past the opcode it stood on.
    pub open spec fn fetched(self) -> Machine {
        Machine {
            cpu: self.cpu.with_program_counter(self.cpu.program_counter + INSTRUCTION_SIZE),
            ..self
        }
    }

    /// One fetch-decode-execute cycle: the opcode at the program counter is
    /// read, the counter moves past it, and the instruction runs. Where the
    /// opcode does not lie in memory, nothing changes and the cycle faults.
    pub open spec fn cycle(self, random_byte: u8) -> Step {
        if !self.can_fetch() {
            self.halt(Fault::AddressOutOfRange)
        } else {
            self.fetched().step(self.fetched_opcode(), random_byte)
        }
    }

    /// Where the program counter stands once the instruction `opcode` has
    /// run: no byte of chance moves it.
    pub open spec fn next_program_counter(self, opcode: u16) -> int {
        self.step(opcode, 0).machine.cpu.program_counter
    }

    /// What the instruction `opcode` does to this machine. `random_byte` is
    /// the byte that chance contributes; only class C reads it. An opcode
    /// that selects no operation changes nothing.
    pub open spec fn step(self, opcode: u16, random_byte: u8) -> Step {
        let class = class_of(opcode);
        let x = x_of(opcode);
        let y = y_of(opcode);
        let nn = nn_of(opcode);
        let nnn = nnn_of(opcode);
        if class == 0x0 {
            if opcode == 0x00E0 {
                self.clear_display()
            } else if opcode == 0x00EE {
                self.return_from_subroutine()
            } else {
                self.idle()
            }
        } else if class == 0x1 {
            self.proceed(self.cpu.jump(nnn as int))
        } else if class == 0x2 {
            self.call_subroutine(nnn as int)
        } else if class == 0x3 {
            self.proceed(self.cpu.skip_if(self.cpu.v(x) == nn))
        } else if class == 0x4 {
            self.proceed(self.cpu.skip_if(self.cpu.v(x) != nn))
        } else if class == 0x5 {
            self.proceed(self.cpu.skip_if(self.cpu.v(x) == self.cpu.v(y)))
        } else if class == 0x6 {
            self.proceed(self.cpu.load(x, nn))
        } else if class == 0x7 {
            self.proceed(self.cpu.add_immediate(x, nn))
        } else if class == 0x8 {
            self.arithmetic(opcode)
        } else if class == 0x9 {
            self.proceed(self.cpu.skip_if(self.cpu.v(x) != self.cpu.v(y)))
        } else if class == 0xA {
            self.proceed(self.cpu.with_i_register(nnn))
        } else if class == 0xB {
            self.proceed(self.cpu.jump_plus_v0(nnn as int))
        } else if class == 0xC {
            self.proceed(self.cpu.or_random(x, nn, random_byte))
        } else if class == 0xD {
            self.draw(x, y, n_of(opcode))
        } else if class == 0xE {
            self.keys(opcode)
        } else {
            self.miscellaneous(opcode)
        }
    }
}

} // verus!
