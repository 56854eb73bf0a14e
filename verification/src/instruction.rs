//! The instruction decoder and executor.

use rand::Rng;
use vstd::prelude::*;
use crate::cpu::{Cpu, REGISTER_COUNT, STACK_CAPACITY};
use crate::fault::{Action, Fault};
use crate::interface::{sprite_bit, Interface, InterfaceState, SPRITE_WIDTH};
use crate::keyboard::KEY_COUNT;
use crate::machine::{
    class_of, flag, n_of, nn_of, nnn_of, x_of, y_of, Machine, Step, FLAG_REGISTER,
};
use crate::memory::{Memory, MEMORY_SIZE};

verus! {

/// One fetched 16-bit instruction word.
pub struct Instruction {
    opcode: u16,
}

impl View for Instruction {
    type V = u16;

    closed spec fn view(&self) -> u16 {
        self.opcode
    }
}

impl Instruction {
    /// The opcode whose high byte is `first_byte` and whose low byte is `second_byte`.
    pub fn initialize(first_byte: u8, second_byte: u8) -> (instruction: Self)
        ensures
            instruction@ == first_byte * 0x100 + second_byte,
    {
        let opcode: u16 = u16::from(first_byte) << 8 | u16::from(second_byte);
        assert(opcode == first_byte * 0x100 + second_byte) by (bit_vector)
            requires
                opcode == (first_byte as u16) << 8 | (second_byte as u16),
        ;
        Instruction { opcode }
    }

    pub fn get_opcode(&self) -> (opcode: u16)
        ensures
            opcode == self@,
    {
        self.opcode
    }

    /// Runs the instruction, drawing the byte that class C needs from the
    /// thread's random number generator. The outcome is that of `execute`
    /// for some byte; no other class depends on it.
    ///
    /// The program counter that the instruction arrives at has to fit the
    /// machine word: it does wherever there is room for one instruction
    /// before the program counter and for one after it, as there is after
    /// every fetch.
    pub fn interpret(&mut self, cpu: &mut Cpu, memory: &mut Memory, interface: &mut Interface) -> (result:
        Result<Action, Fault>)
        requires
            0 <= Machine::of(*old(cpu), *old(memory), *old(interface)).next_program_counter(
                old(self)@,
            ) <= usize::MAX,
        ensures
            final(self)@ == old(self)@,
            exists|random_byte: u8|
                (Step {
                    machine: Machine::of(*final(cpu), *final(memory), *final(interface)),
                    result,
                }) == #[trigger] Machine::of(*old(cpu), *old(memory), *old(interface)).step(
                    old(self)@,
                    random_byte,
                ),
            class_of(old(self)@) != 0xC ==> (Step {
                machine: Machine::of(*final(cpu), *final(memory), *final(interface)),
                result,
            }) == Machine::of(*old(cpu), *old(memory), *old(interface)).step(old(self)@, 0),
    {
        let random_byte: u8 = if self.opcode & 0xF000 == 0xC000 {
            random_byte()
        } else {
            0
        };
        proof {
            let opcode = self.opcode;
            assert((opcode & 0xF000 == 0xC000) == (opcode as int / 0x1000 == 0xC)) by (bit_vector);
        }
        self.execute(cpu, memory, interface, random_byte)
    }

    /// Runs the instruction on the three parts of the machine, with
    /// `random_byte` as the byte that chance contributes: they end as `step`
    /// says, and so does what is reported. A fault leaves them as they were.
    ///
    /// The program counter that the instruction arrives at has to fit the
    /// machine word, as for `interpret`.
    pub fn execute(
        &self,
        cpu: &mut Cpu,
        memory: &mut Memory,
        interface: &mut Interface,
        random_byte: u8,
    ) -> (result: Result<Action, Fault>)
        requires
            0 <= Machine::of(*old(cpu), *old(memory), *old(interface)).next_program_counter(self@)
                <= usize::MAX,
        ensures
            (Step { machine: Machine::of(*final(cpu), *final(memory), *final(interface)), result })
                == Machine::of(*old(cpu), *old(memory), *old(interface)).step(self@, random_byte),
    {
        let opcode = self.opcode;
        proof {
            assert(opcode & 0xF000 == (opcode as int / 0x1000) * 0x1000) by (bit_vector);
            assert(opcode & 0xF00F == (opcode as int / 0x1000) * 0x1000 + opcode as int % 0x10)
                by (bit_vector);
            assert(opcode & 0xF0FF == (opcode as int / 0x1000) * 0x1000 + opcode as int % 0x100)
                by (bit_vector);
        }
        match self.opcode & 0xF000 {
            0x0000 => match self.opcode {
                0x00E0 => {
                    self.clear_display(interface);
                    Ok(Action::Refresh)
                },
                0x00EE => match self.return_from_subroutine(cpu) {
                    Ok(()) => Ok(Action::Continue),
                    Err(fault) => Err(fault),
                },
                _ => Ok(Action::Continue),
            },
            0x1000 => {
                self.jump_to_address(cpu);
                Ok(Action::Continue)
            },
            0x2000 => match self.call_subroutine_at_address(cpu) {
                Ok(()) => Ok(Action::Continue),
                Err(fault) => Err(fault),
            },
            0x3000 => {
                self.skip_next_instruction_if_argument_equals_v_register_value(cpu);
                Ok(Action::Continue)
            },
            0x4000 => {
                self.skip_next_instruction_if_argument_differs_v_register_value(cpu);
                Ok(Action::Continue)
            },
            0x5000 => {
                self.skip_next_instruction_if_v_registers_values_are_the_same(cpu);
                Ok(Action::Continue)
            },
            0x6000 => {
                self.put_argument_value_on_v_register(cpu);
                Ok(Action::Continue)
            },
            0x7000 => {
                self.add_argument_value_to_v_register(cpu);
                Ok(Action::Continue)
            },
            0x8000 => {
                match self.opcode & 0xF00F {
                    0x8000 => self.put_v_register_value_on_other_v_register(cpu),
                    0x8001 => self.put_value_of_bitwise_or_operation_between_v_registers_on_first_passed_register(
                        cpu,
                    ),
                    0x8002 => self.put_value_of_bitwise_and_operation_between_v_registers_on_first_passed_register(
                        cpu,
                    ),
                    0x8003 => self.put_value_of_bitwise_xor_operation_between_v_registers_on_first_passed_register(
                        cpu,
                    ),
                    0x8004 => self.put_value_of_sum_operation_between_v_registers_on_first_passed_register(
                        cpu,
                    ),
                    0x8005 => self.put_value_of_subtraction_operation_between_v_registers_on_first_passed_register(
                        cpu,
                    ),
                    0x8006 => self.put_value_of_bitwise_shift_right_operation_between_v_registers_on_first_passed_register(
                        cpu,
                    ),
                    0x8007 => self.put_value_of_inverted_subtraction_operation_between_v_registers_on_first_passed_register(
                        cpu,
                    ),
                    0x800E => self.put_value_of_bitwise_shift_left_operation_between_v_registers_on_first_passed_register(
                        cpu,
                    ),
                    _ => (),
                }
                Ok(Action::Continue)
            },
            0x9000 => {
                self.skip_next_instruction_if_v_registers_values_are_different(cpu);
                Ok(Action::Continue)
            },
            0xA000 => {
                self.put_argument_value_on_i_register(cpu);
                Ok(Action::Continue)
            },
            0xB000 => {
                self.jump_to_argument_value_plus_v0(cpu);
                Ok(Action::Continue)
            },
            0xC000 => {
                self.put_value_of_bitwise_or_operation_between_argument_and_random_byte_on_passed_v_register(
                    cpu,
                    random_byte,
                );
                Ok(Action::Continue)
            },
            0xD000 => self.draw_byte_sprite_starting_at_location_i_on_register_stored_location(
                cpu,
                memory,
                interface,
            ),
            0xE000 => {
                match self.opcode & 0xF0FF {
                    0xE09E => self.skip_next_instruction_if_key_with_v_register_value_is_pressed(
                        interface,
                        cpu,
                    ),
                    0xE0A1 => self.skip_next_instruction_if_key_with_v_register_value_is_not_pressed(
                        interface,
                        cpu,
                    ),
                    _ => (),
                }
                Ok(Action::Continue)
            },
            0xF000 => match self.opcode & 0xF0FF {
                0xF007 => {
                    self.put_delay_timer_value_on_v_register(cpu);
                    Ok(Action::Continue)
                },
                0xF00A => {
                    self.wait_for_key_press_and_store_value_on_v_register(cpu, interface);
                    Ok(Action::Continue)
                },
                0xF015 => {
                    self.put_v_register_value_on_delay_timer(cpu);
                    Ok(Action::Continue)
                },
                0xF018 => {
                    self.put_v_register_value_on_sound_timer(cpu);
                    Ok(Action::Continue)
                },
                0xF01E => {
                    self.add_v_register_value_to_i_register_value(cpu);
                    Ok(Action::Continue)
                },
                0xF029 => {
                    self.put_location_of_sprite_for_v_register_digit_on_i_register(cpu);
                    Ok(Action::Continue)
                },
                0xF033 => match self.put_bcd_representation_of_v_register_in_memory_locations_starting_on_i_register_location(
                    cpu,
                    memory,
                ) {
                    Ok(()) => Ok(Action::Continue),
                    Err(fault) => Err(fault),
                },
                0xF055 => match self.put_values_of_v_registers_from_v0_to_passed_v_register_in_memory_starting_on_i_register_location(
                    cpu,
                    memory,
                ) {
                    Ok(()) => Ok(Action::Continue),
                    Err(fault) => Err(fault),
                },
                0xF065 => match self.put_values_on_v_registers_from_v0_to_passed_v_register_from_memory_starting_on_i_register_location(
                    cpu,
                    memory,
                ) {
                    Ok(()) => Ok(Action::Continue),
                    Err(fault) => Err(fault),
                },
                _ => Ok(Action::Continue),
            },
            _ => Ok(Action::Continue),
        }
    }

    /// The first register selector.
    fn x(&self) -> (x: usize)
        ensures
            x == x_of(self@),
            x < REGISTER_COUNT,
    {
        let opcode = self.opcode;
        let x: usize = (opcode as usize) >> 8 & 0x000F;
        assert(x == (opcode as int / 0x100) % 0x10) by (bit_vector)
            requires
                x == (opcode as usize) >> 8 & 0x000F,
        ;
        x
    }

    /// The second register selector.
    fn y(&self) -> (y: usize)
        ensures
            y == y_of(self@),
            y < REGISTER_COUNT,
    {
        let opcode = self.opcode;
        let y: usize = (opcode as usize) >> 4 & 0x000F;
        assert(y == (opcode as int / 0x10) % 0x10) by (bit_vector)
            requires
                y == (opcode as usize) >> 4 & 0x000F,
        ;
        y
    }

    /// The literal nibble.
    fn n(&self) -> (n: usize)
        ensures
            n == n_of(self@),
            n < 0x10,
    {
        let opcode = self.opcode;
        let n: usize = (opcode as usize) & 0x000F;
        assert(n == opcode as int % 0x10) by (bit_vector)
            requires
                n == (opcode as usize) & 0x000F,
        ;
        n
    }

    /// The literal byte.
    fn nn(&self) -> (nn: u8)
        ensures
            nn == nn_of(self@),
    {
        let opcode = self.opcode;
        let nn: u8 = (opcode & 0x00FF) as u8;
        assert(nn == opcode as int % 0x100) by (bit_vector)
            requires
                nn == (opcode & 0x00FF) as u8,
        ;
        nn
    }

    /// The literal address.
    fn nnn(&self) -> (nnn: u16)
        ensures
            nnn == nnn_of(self@),
            nnn < 0x1000,
    {
        let opcode = self.opcode;
        let nnn: u16 = opcode & 0x0FFF;
        assert(nnn == opcode as int % 0x1000) by (bit_vector)
            requires
                nnn == opcode & 0x0FFF,
        ;
        nnn
    }

    /// `00EE`: back to the topmost return address, unless there is none.
    fn return_from_subroutine(&self, cpu: &mut Cpu) -> (result: Result<(), Fault>)
        ensures
            old(cpu)@.stack.len() > 0 ==> result.is_ok() && final(cpu)@ == old(cpu)@.ret(),
            old(cpu)@.stack.len() == 0 ==> result == Err::<(), Fault>(Fault::StackUnderflow)
                && final(cpu)@ == old(cpu)@,
    {
        match cpu.stack_pop() {
            Ok(top_value_from_stack) => {
                cpu.set_program_counter(top_value_from_stack as usize);
                Ok(())
            },
            Err(fault) => Err(fault),
        }
    }

    /// `1nnn`: on at `nnn`.
    fn jump_to_address(&self, cpu: &mut Cpu)
        ensures
            final(cpu)@ == old(cpu)@.jump(nnn_of(self@) as int),
    {
        let address = usize::from(self.nnn());
        cpu.set_program_counter(address);
    }

    /// `2nnn`: on at `nnn`, with the program counter kept on the stack, unless
    /// the stack is full.
    fn call_subroutine_at_address(&self, cpu: &mut Cpu) -> (result: Result<(), Fault>)
        ensures
            old(cpu)@.stack.len() < STACK_CAPACITY ==> result.is_ok() && final(cpu)@ == old(
                cpu
            )@.call(nnn_of(self@) as int),
            old(cpu)@.stack.len() >= STACK_CAPACITY ==> result == Err::<(), Fault>(
                Fault::StackOverflow,
            ) && final(cpu)@ == old(cpu)@,
    {
        let return_address: u16 = (cpu.get_program_counter() % 0x1_0000) as u16;
        match cpu.stack_push(return_address) {
            Ok(()) => {
                let address = usize::from(self.nnn());
                cpu.set_program_counter(address);
                Ok(())
            },
            Err(fault) => Err(fault),
        }
    }

    /// `3xnn`: past the next instruction if register `x` holds `nn`.
    fn skip_next_instruction_if_argument_equals_v_register_value(&self, cpu: &mut Cpu)
        requires
            old(cpu)@.skip_if(old(cpu)@.v(x_of(self@)) == nn_of(self@)).program_counter
                <= usize::MAX,
        ensures
            final(cpu)@ == old(cpu)@.skip_if(old(cpu)@.v(x_of(self@)) == nn_of(self@)),
    {
        let argument_value: u8 = self.nn();
        let register_number: usize = self.x();
        let register_value: u8 = cpu.get_v_register(register_number);
        if argument_value == register_value {
            cpu.increase_program_counter(0x2);
        }
    }

    /// `4xnn`: past the next instruction unless register `x` holds `nn`.
    fn skip_next_instruction_if_argument_differs_v_register_value(&self, cpu: &mut Cpu)
        requires
            old(cpu)@.skip_if(old(cpu)@.v(x_of(self@)) != nn_of(self@)).program_counter
                <= usize::MAX,
        ensures
            final(cpu)@ == old(cpu)@.skip_if(old(cpu)@.v(x_of(self@)) != nn_of(self@)),
    {
        let argument_value: u8 = self.nn();
        let register_number: usize = self.x();
        let register_value: u8 = cpu.get_v_register(register_number);
        if argument_value != register_value {
            cpu.increase_program_counter(0x2);
        }
    }

    /// `5xy_`: past the next instruction if registers `x` and `y` hold the same.
    fn skip_next_instruction_if_v_registers_values_are_the_same(&self, cpu: &mut Cpu)
        requires
            old(cpu)@.skip_if(
                old(cpu)@.v(x_of(self@)) == old(cpu)@.v(y_of(self@)),
            ).program_counter <= usize::MAX,
        ensures
            final(cpu)@ == old(cpu)@.skip_if(old(cpu)@.v(x_of(self@)) == old(cpu)@.v(y_of(self@))),
    {
        let first_register_number: usize = self.x();
        let second_register_number: usize = self.y();
        let first_register_value: u8 = cpu.get_v_register(first_register_number);
        let second_register_value: u8 = cpu.get_v_register(second_register_number);
        if first_register_value == second_register_value {
            cpu.increase_program_counter(0x2);
        }
    }

    /// `6xnn`: `nn` into register `x`.
    fn put_argument_value_on_v_register(&self, cpu: &mut Cpu)
        ensures
            final(cpu)@ == old(cpu)@.load(x_of(self@), nn_of(self@)),
    {
        let argument_value: u8 = self.nn();
        let register_number: usize = self.x();
        cpu.set_v_register(register_number, argument_value);
    }

    /// `7xnn`: `nn` added to register `x` modulo 256; no flag.
    fn add_argument_value_to_v_register(&self, cpu: &mut Cpu)
        ensures
            final(cpu)@ == old(cpu)@.add_immediate(x_of(self@), nn_of(self@)),
    {
        let argument_value: u8 = self.nn();
        let register_number: usize = self.x();
        let register_value: u8 = cpu.get_v_register(register_number);
        cpu.set_v_register(register_number, register_value.wrapping_add(argument_value));
    }

    /// `8xy0`: register `y` into register `x`.
    fn put_v_register_value_on_other_v_register(&self, cpu: &mut Cpu)
        ensures
            final(cpu)@ == old(cpu)@.move_register(x_of(self@), y_of(self@)),
    {
        let first_register_number: usize = self.x();
        let second_register_number: usize = self.y();
        let second_register_value: u8 = cpu.get_v_register(second_register_number);
        cpu.set_v_register(first_register_number, second_register_value);
    }

    /// `8xy1`: register `x` OR register `y` into register `x`.
    fn put_value_of_bitwise_or_operation_between_v_registers_on_first_passed_register(
        &self,
        cpu: &mut Cpu,
    )
        ensures
            final(cpu)@ == old(cpu)@.or_registers(x_of(self@), y_of(self@)),
    {
        let first_register_number: usize = self.x();
        let second_register_number: usize = self.y();
        let first_register_value: u8 = cpu.get_v_register(first_register_number);
        let second_register_value: u8 = cpu.get_v_register(second_register_number);
        cpu.set_v_register(first_register_number, first_register_value | second_register_value);
    }

    /// `8xy2`: register `x` AND register `y` into register `x`.
    fn put_value_of_bitwise_and_operation_between_v_registers_on_first_passed_register(
        &self,
        cpu: &mut Cpu,
    )
        ensures
            final(cpu)@ == old(cpu)@.and_registers(x_of(self@), y_of(self@)),
    {
        let first_register_number: usize = self.x();
        let second_register_number: usize = self.y();
        let first_register_value: u8 = cpu.get_v_register(first_register_number);
        let second_register_value: u8 = cpu.get_v_register(second_register_number);
        cpu.set_v_register(first_register_number, first_register_value & second_register_value);
    }

    /// `8xy3`: register `x` XOR register `y` into register `x`.
    fn put_value_of_bitwise_xor_operation_between_v_registers_on_first_passed_register(
        &self,
        cpu: &mut Cpu,
    )
        ensures
            final(cpu)@ == old(cpu)@.xor_registers(x_of(self@), y_of(self@)),
    {
        let first_register_number: usize = self.x();
        let second_register_number: usize = self.y();
        let first_register_value: u8 = cpu.get_v_register(first_register_number);
        let second_register_value: u8 = cpu.get_v_register(second_register_number);
        cpu.set_v_register(first_register_number, first_register_value ^ second_register_value);
    }

    /// `8xy4`: register `y` added to register `x`; the flag is the carry.
    fn put_value_of_sum_operation_between_v_registers_on_first_passed_register(
        &self,
        cpu: &mut Cpu,
    )
        ensures
            final(cpu)@ == old(cpu)@.add_registers(x_of(self@), y_of(self@)),
    {
        let first_register_number: usize = self.x();
        let second_register_number: usize = self.y();
        let first_register_value: u8 = cpu.get_v_register(first_register_number);
        let second_register_value: u8 = cpu.get_v_register(second_register_number);
        let value: u8 = first_register_value.wrapping_add(second_register_value);
        let carried: bool = first_register_value.checked_add(second_register_value).is_none();
        cpu.set_v_register(0xF, if carried { 0x1 } else { 0x0 });
        cpu.set_v_register(first_register_number, value);
    }

    /// `8xy5`: register `y` subtracted from register `x`; the flag is 1 where
    /// nothing was borrowed.
    fn put_value_of_subtraction_operation_between_v_registers_on_first_passed_register(
        &self,
        cpu: &mut Cpu,
    )
        ensures
            final(cpu)@ == old(cpu)@.subtract_registers(x_of(self@), y_of(self@)),
    {
        let first_register_number: usize = self.x();
        let second_register_number: usize = self.y();
        let first_register_value: u8 = cpu.get_v_register(first_register_number);
        let second_register_value: u8 = cpu.get_v_register(second_register_number);
        let value: u8 = first_register_value.wrapping_sub(second_register_value);
        let borrowed: bool = first_register_value.checked_sub(second_register_value).is_none();
        cpu.set_v_register(0xF, if borrowed { 0x0 } else { 0x1 });
        cpu.set_v_register(first_register_number, value);
    }

    /// `8x_6`: register `x` one bit to the right; the flag is the bit that left.
    fn put_value_of_bitwise_shift_right_operation_between_v_registers_on_first_passed_register(
        &self,
        cpu: &mut Cpu,
    )
        ensures
            final(cpu)@ == old(cpu)@.shift_right(x_of(self@)),
    {
        let first_register_number: usize = self.x();
        let first_register_value: u8 = cpu.get_v_register(first_register_number);
        let value: u8 = first_register_value >> 1;
        let shifted_out: u8 = first_register_value & 0x1;
        assert(value == first_register_value / 2 && shifted_out == first_register_value % 2)
            by (bit_vector)
            requires
                value == first_register_value >> 1,
                shifted_out == first_register_value & 0x1,
        ;
        cpu.set_v_register(0xF, shifted_out);
        cpu.set_v_register(first_register_number, value);
    }

    /// `8xy7`: register `x` subtracted from register `y`, into register `x`; the
    /// flag is 1 where nothing was borrowed.
    fn put_value_of_inverted_subtraction_operation_between_v_registers_on_first_passed_register(
        &self,
        cpu: &mut Cpu,
    )
        ensures
            final(cpu)@ == old(cpu)@.subtract_reversed(x_of(self@), y_of(self@)),
    {
        let first_register_number: usize = self.x();
        let second_register_number: usize = self.y();
        let first_register_value: u8 = cpu.get_v_register(first_register_number);
        let second_register_value: u8 = cpu.get_v_register(second_register_number);
        let value: u8 = second_register_value.wrapping_sub(first_register_value);
        let borrowed: bool = second_register_value.checked_sub(first_register_value).is_none();
        cpu.set_v_register(0xF, if borrowed { 0x0 } else { 0x1 });
        cpu.set_v_register(first_register_number, value);
    }

    /// `8x_E`: register `x` one bit to the left; the flag is the bit that left.
    fn put_value_of_bitwise_shift_left_operation_between_v_registers_on_first_passed_register(
        &self,
        cpu: &mut Cpu,
    )
        ensures
            final(cpu)@ == old(cpu)@.shift_left(x_of(self@)),
    {
        let first_register_number: usize = self.x();
        let first_register_value: u8 = cpu.get_v_register(first_register_number);
        let value: u8 = first_register_value << 1;
        let shifted_out: u8 = (first_register_value >> 7) & 0x1;
        assert(value == (first_register_value * 2) % 0x100 && shifted_out == first_register_value
            / 0x80) by (bit_vector)
            requires
                value == first_register_value << 1,
                shifted_out == (first_register_value >> 7) & 0x1,
        ;
        cpu.set_v_register(0xF, shifted_out);
        cpu.set_v_register(first_register_number, value);
    }

    /// `9xy_`: past the next instruction unless registers `x` and `y` hold the same.
    fn skip_next_instruction_if_v_registers_values_are_different(&self, cpu: &mut Cpu)
        requires
            old(cpu)@.skip_if(
                old(cpu)@.v(x_of(self@)) != old(cpu)@.v(y_of(self@)),
            ).program_counter <= usize::MAX,
        ensures
            final(cpu)@ == old(cpu)@.skip_if(old(cpu)@.v(x_of(self@)) != old(cpu)@.v(y_of(self@))),
    {
        let first_register_number: usize = self.x();
        let second_register_number: usize = self.y();
        let first_register_value: u8 = cpu.get_v_register(first_register_number);
        let second_register_value: u8 = cpu.get_v_register(second_register_number);
        if first_register_value != second_register_value {
            cpu.increase_program_counter(0x2);
        }
    }

    /// `Annn`: `nnn` into the index register.
    fn put_argument_value_on_i_register(&self, cpu: &mut Cpu)
        ensures
            final(cpu)@ == old(cpu)@.with_i_register(nnn_of(self@)),
    {
        let argument: u16 = self.nnn();
        cpu.set_i_register(argument);
    }

    /// `Bnnn`: on at `nnn` plus register 0.
    fn jump_to_argument_value_plus_v0(&self, cpu: &mut Cpu)
        ensures
            final(cpu)@ == old(cpu)@.jump_plus_v0(nnn_of(self@) as int),
    {
        let argument: u16 = self.nnn();
        let address: usize = (argument as usize) + (cpu.get_v_register(0x0) as usize);
        cpu.set_program_counter(address);
    }

    /// `Cxnn`: `nn` OR the byte that chance contributed into register `x`.
    fn put_value_of_bitwise_or_operation_between_argument_and_random_byte_on_passed_v_register(
        &self,
        cpu: &mut Cpu,
        random_byte: u8,
    )
        ensures
            final(cpu)@ == old(cpu)@.or_random(x_of(self@), nn_of(self@), random_byte),
    {
        let register_number: usize = self.x();
        let argument: u8 = self.nn();
        cpu.set_v_register(register_number, argument | random_byte);
    }

    /// `Fx07`: the delay timer into register `x`.
    fn put_delay_timer_value_on_v_register(&self, cpu: &mut Cpu)
        ensures
            final(cpu)@ == old(cpu)@.load_delay(x_of(self@)),
    {
        let register_number: usize = self.x();
        let delay_timer: u8 = cpu.get_delay_timer();
        cpu.set_v_register(register_number, delay_timer);
    }

    /// `Fx15`: register `x` into the delay timer.
    fn put_v_register_value_on_delay_timer(&self, cpu: &mut Cpu)
        ensures
            final(cpu)@ == old(cpu)@.store_delay(x_of(self@)),
    {
        let register_number: usize = self.x();
        let register_value: u8 = cpu.get_v_register(register_number);
        cpu.set_delay_timer(register_value);
    }

    /// `Fx18`: register `x` into the sound timer.
    fn put_v_register_value_on_sound_timer(&self, cpu: &mut Cpu)
        ensures
            final(cpu)@ == old(cpu)@.store_sound(x_of(self@)),
    {
        let register_number: usize = self.x();
        let register_value: u8 = cpu.get_v_register(register_number);
        cpu.set_sound_timer(register_value);
    }

    /// `Fx1E`: register `x` added to the index register modulo 65536; no flag.
    fn add_v_register_value_to_i_register_value(&self, cpu: &mut Cpu)
        ensures
            final(cpu)@ == old(cpu)@.add_to_index(x_of(self@)),
    {
        let register_number: usize = self.x();
        let register_value: u16 = cpu.get_v_register(register_number) as u16;
        let i_register: u16 = cpu.get_i_register();
        cpu.set_i_register(i_register.wrapping_add(register_value));
    }

    /// `Fx29`: the index register at the glyph of the digit in register `x`.
    fn put_location_of_sprite_for_v_register_digit_on_i_register(&self, cpu: &mut Cpu)
        ensures
            final(cpu)@ == old(cpu)@.load_font_address(x_of(self@)),
    {
        let register_number: usize = self.x();
        let digit: u16 = cpu.get_v_register(register_number) as u16;
        cpu.set_i_register(0x50 + (digit * 5));
    }

    /// `00E0`: every pixel off.
    fn clear_display(&self, interface: &mut Interface)
        ensures
            final(interface)@ == old(interface)@.cleared(),
    {
        interface.clear();
    }

    /// `Ex9E`: past the next instruction if the key named by register `x` is
    /// held down. A value that names no key is a key that is not held down.
    fn skip_next_instruction_if_key_with_v_register_value_is_pressed(
        &self,
        interface: &Interface,
        cpu: &mut Cpu,
    )
        requires
            old(cpu)@.skip_if(
                interface@.key_down(old(cpu)@.v(x_of(self@)) as int),
            ).program_counter <= usize::MAX,
        ensures
            final(cpu)@ == old(cpu)@.skip_if(interface@.key_down(old(cpu)@.v(x_of(self@)) as int)),
    {
        proof {
            interface.lemma_wf();
        }
        let register_number: usize = self.x();
        let key_index: usize = cpu.get_v_register(register_number) as usize;
        if key_index < KEY_COUNT && interface.is_pressed(key_index) {
            cpu.increase_program_counter(2);
        }
    }

    /// `ExA1`: past the next instruction unless the key named by register `x`
    /// is held down.
    fn skip_next_instruction_if_key_with_v_register_value_is_not_pressed(
        &self,
        interface: &Interface,
        cpu: &mut Cpu,
    )
        requires
            old(cpu)@.skip_if(
                !interface@.key_down(old(cpu)@.v(x_of(self@)) as int),
            ).program_counter <= usize::MAX,
        ensures
            final(cpu)@ == old(cpu)@.skip_if(
                !interface@.key_down(old(cpu)@.v(x_of(self@)) as int),
            ),
    {
        proof {
            interface.lemma_wf();
        }
        let register_number: usize = self.x();
        let key_index: usize = cpu.get_v_register(register_number) as usize;
        if key_index >= KEY_COUNT || interface.is_not_pressed(key_index) {
            cpu.increase_program_counter(2);
        }
    }

    /// `Fx0A`: the lowest key held down into register `x`; with none held down,
    /// the program counter back by one instruction, so that this one runs again.
    fn wait_for_key_press_and_store_value_on_v_register(
        &self,
        cpu: &mut Cpu,
        interface: &Interface,
    )
        requires
            old(cpu)@.wait_for_key(x_of(self@), interface@).program_counter >= 0,
        ensures
            final(cpu)@ == old(cpu)@.wait_for_key(x_of(self@), interface@),
    {
        proof {
            interface.lemma_wf();
        }
        let register_number: usize = self.x();
        match interface.get_pressed_key() {
            Some(key) => {
                cpu.set_v_register(register_number, key as u8)
            },
            None => cpu.decrease_program_counter(2),
        }
    }

    /// `Fx33`: the three decimal digits of register `x` at the index register on.
    fn put_bcd_representation_of_v_register_in_memory_locations_starting_on_i_register_location(
        &self,
        cpu: &Cpu,
        memory: &mut Memory,
    ) -> (result: Result<(), Fault>)
        ensures
            cpu@.addressable(3) ==> result.is_ok() && final(memory)@ == cpu@.store_decimal(
                x_of(self@),
                old(memory)@,
            ),
            !cpu@.addressable(3) ==> result == Err::<(), Fault>(Fault::AddressOutOfRange)
                && final(memory)@ == old(memory)@,
    {
        let register_number: usize = self.x();
        let register_value: u8 = cpu.get_v_register(register_number);
        let mut memory_location: usize = cpu.get_i_register() as usize;
        if memory_location + 3 > MEMORY_SIZE {
            return Err(Fault::AddressOutOfRange);
        }
        proof {
            memory.lemma_size();
        }
        let hundreds: u8 = register_value / 100;
        let tens: u8 = (register_value - hundreds * 100) / 10;
        let ones: u8 = register_value - hundreds * 100 - tens * 10;

        memory.set(memory_location, hundreds);
        memory_location += 1;
        memory.set(memory_location, tens);
        memory_location += 1;
        memory.set(memory_location, ones);
        Ok(())
    }

    /// `Fx55`: registers 0 to `x` written at the index register on.
    fn put_values_of_v_registers_from_v0_to_passed_v_register_in_memory_starting_on_i_register_location(
        &self,
        cpu: &Cpu,
        memory: &mut Memory,
    ) -> (result: Result<(), Fault>)
        ensures
            cpu@.addressable(x_of(self@) + 1) ==> result.is_ok() && final(memory)@
                == cpu@.store_registers(x_of(self@), old(memory)@),
            !cpu@.addressable(x_of(self@) + 1) ==> result == Err::<(), Fault>(
                Fault::AddressOutOfRange,
            ) && final(memory)@ == old(memory)@,
    {
        let final_register_number: usize = self.x();
        let mut memory_location: usize = cpu.get_i_register() as usize;
        if memory_location + final_register_number + 1 > MEMORY_SIZE {
            return Err(Fault::AddressOutOfRange);
        }
        proof {
            memory.lemma_size();
            cpu.lemma_wf();
        }
        let mut register_number: usize = 0;
        while register_number <= final_register_number
            invariant
                register_number <= final_register_number + 1,
                final_register_number < REGISTER_COUNT,
                cpu@.wf(),
                memory@.len() == MEMORY_SIZE,
                old(memory)@.len() == MEMORY_SIZE,
                cpu@.i_register + final_register_number + 1 <= MEMORY_SIZE,
                memory_location == cpu@.i_register + register_number,
                memory@ == Memory::with_block(
                    old(memory)@,
                    cpu@.i_register as int,
                    cpu@.v_registers.take(register_number as int),
                ),
            decreases final_register_number + 1 - register_number,
        {
            let register_value: u8 = cpu.get_v_register(register_number);
            memory.set(memory_location, register_value);
            memory_location += 1;
            register_number += 1;
        }
        Ok(())
    }

    /// `Fx65`: registers 0 to `x` read at the index register on.
    fn put_values_on_v_registers_from_v0_to_passed_v_register_from_memory_starting_on_i_register_location(
        &self,
        cpu: &mut Cpu,
        memory: &Memory,
    ) -> (result: Result<(), Fault>)
        ensures
            old(cpu)@.addressable(x_of(self@) + 1) ==> result.is_ok() && final(cpu)@ == old(
                cpu
            )@.load_registers(x_of(self@), memory@),
            !old(cpu)@.addressable(x_of(self@) + 1) ==> result == Err::<(), Fault>(
                Fault::AddressOutOfRange,
            ) && final(cpu)@ == old(cpu)@,
    {
        let final_register_number: usize = self.x();
        let mut memory_location: usize = cpu.get_i_register() as usize;
        if memory_location + final_register_number + 1 > MEMORY_SIZE {
            return Err(Fault::AddressOutOfRange);
        }
        proof {
            memory.lemma_size();
            cpu.lemma_wf();
            assert(cpu@.v_registers =~= old(cpu)@.load_registers(-1, memory@).v_registers);
        }
        let mut register_number: usize = 0;
        while register_number <= final_register_number
            invariant
                register_number <= final_register_number + 1,
                final_register_number < REGISTER_COUNT,
                old(cpu)@.wf(),
                memory@.len() == MEMORY_SIZE,
                old(cpu)@.i_register + final_register_number + 1 <= MEMORY_SIZE,
                memory_location == old(cpu)@.i_register + register_number,
                cpu@ == old(cpu)@.load_registers(register_number - 1, memory@),
            decreases final_register_number + 1 - register_number,
        {
            let memory_value: u8 = memory.get(memory_location);
            cpu.set_v_register(register_number, memory_value);
            memory_location += 1;
            register_number += 1;
            assert(cpu@.v_registers =~= old(cpu)@.load_registers(
                register_number - 1,
                memory@,
            ).v_registers);
        }
        Ok(())
    }

    /// `Dxyn`: the sprite of `n` rows at the index register XOR-ed onto the
    /// display at the origin held in registers `x` and `y`. The origin wraps
    /// onto the surface; what would fall beyond an edge from there is left out.
    fn draw_byte_sprite_starting_at_location_i_on_register_stored_location(
        &self,
        cpu: &mut Cpu,
        memory: &Memory,
        interface: &mut Interface,
    ) -> (result: Result<Action, Fault>)
        ensures
            ({
                let step = Machine::of(*old(cpu), *memory, *old(interface)).draw(
                    x_of(self@),
                    y_of(self@),
                    n_of(self@),
                );
                &&& result == step.result
                &&& final(cpu)@ == step.machine.cpu
                &&& final(interface)@ == step.machine.interface
            }),
    {
        let number_of_sprite_bytes: usize = self.n();
        let mut memory_position: usize = cpu.get_i_register() as usize;
        if number_of_sprite_bytes != 0 && memory_position + number_of_sprite_bytes > MEMORY_SIZE {
            return Err(Fault::AddressOutOfRange);
        }
        proof {
            cpu.lemma_wf();
        }
        cpu.set_v_register(0xF, 0x0);

        let first_register_number: usize = self.x();
        let second_register_number: usize = self.y();
        let initial_width_position: usize = (cpu.get_v_register(first_register_number) as usize)
            % Interface::WIDTH;
        let initial_height_position: usize = (cpu.get_v_register(second_register_number) as usize)
            % Interface::HEIGHT;

        let ghost reset = cpu@;
        let ghost surface = interface@;
        let ghost x = initial_width_position as int;
        let ghost y = initial_height_position as int;
        let ghost sprite = Machine::of(*old(cpu), *memory, *old(interface)).indexed_bytes(
            number_of_sprite_bytes as int,
        );
        proof {
            memory.lemma_size();
            interface.lemma_wf();
            assert(interface@.pixels =~= blitted_until(surface, x, y, sprite, 0, 0).pixels);
            assert(cpu@.v_registers =~= reset.with_register(
                FLAG_REGISTER as int,
                flag(collides_until(surface, x, y, sprite, 0, 0)),
            ).v_registers);
        }

        let mut current_height_position: usize = initial_height_position;
        let mut row: usize = 0;
        while row < number_of_sprite_bytes
            invariant
                row <= number_of_sprite_bytes < 0x10,
                number_of_sprite_bytes != 0 ==> reset.i_register + number_of_sprite_bytes
                    <= MEMORY_SIZE,
                memory_position == reset.i_register + row,
                memory@.len() == MEMORY_SIZE,
                current_height_position == y + row,
                initial_width_position == x,
                0 <= x < Interface::WIDTH,
                0 <= y < Interface::HEIGHT,
                surface.wf(),
                reset.wf(),
                sprite.len() == number_of_sprite_bytes,
                forall|offset: int|
                    0 <= offset < number_of_sprite_bytes ==> sprite[offset] == memory@[reset.i_register
                        + offset],
                interface@ == blitted_until(surface, x, y, sprite, row as int, 0),
                cpu@ == reset.with_register(
                    FLAG_REGISTER as int,
                    flag(collides_until(surface, x, y, sprite, row as int, 0)),
                ),
            decreases number_of_sprite_bytes - row,
        {
            let byte: u8 = memory.get(memory_position);
            let mut current_width_position: usize = initial_width_position;
            let mut column: usize = 0;
            while column < SPRITE_WIDTH
                invariant
                    column <= SPRITE_WIDTH,
                    row < number_of_sprite_bytes < 0x10,
                    byte == sprite[row as int],
                    sprite.len() == number_of_sprite_bytes,
                    current_height_position == y + row,
                    current_width_position == x + column,
                    0 <= x < Interface::WIDTH,
                    0 <= y < Interface::HEIGHT,
                    surface.wf(),
                    reset.wf(),
                    interface@ == blitted_until(surface, x, y, sprite, row as int, column as int),
                    cpu@ == reset.with_register(
                        FLAG_REGISTER as int,
                        flag(collides_until(surface, x, y, sprite, row as int, column as int)),
                    ),
                decreases SPRITE_WIDTH - column,
            {
                if current_width_position < Interface::WIDTH && current_height_position
                    < Interface::HEIGHT {
                    let shift_size: u8 = (SPRITE_WIDTH - 1 - column) as u8;
                    let has_flag = interface.draw_pixel(
                        (byte >> shift_size & 0b1) == 0b1,
                        current_width_position,
                        current_height_position,
                    );
                    if has_flag {
                        cpu.set_v_register(0xF, 0x1);
                    }
                }
                proof {
                    assert(interface@.pixels =~= blitted_until(
                        surface,
                        x,
                        y,
                        sprite,
                        row as int,
                        column + 1,
                    ).pixels);
                    lemma_collides_next_column(surface, x, y, sprite, row as int, column as int);
                    assert(cpu@.v_registers =~= reset.with_register(
                        FLAG_REGISTER as int,
                        flag(collides_until(surface, x, y, sprite, row as int, column + 1)),
                    ).v_registers);
                }
                current_width_position += 1;
                column += 1;
            }
            proof {
                assert(interface@.pixels =~= blitted_until(
                    surface,
                    x,
                    y,
                    sprite,
                    row + 1,
                    0,
                ).pixels);
                lemma_collides_next_row(surface, x, y, sprite, row as int);
            }
            memory_position += 1;
            current_height_position += 1;
            row += 1;
        }
        proof {
            assert(interface@.pixels =~= surface.blitted(x, y, sprite).pixels);
            lemma_collides_all_rows(surface, x, y, sprite);
        }
        Ok(Action::Refresh)
    }
}

/// One byte from rand's thread-local generator (`rand::thread_rng`, then
/// `Rng::gen_range` over the whole range of a byte). Nothing is claimed of
/// the byte. The generator seeds itself from the operating system on the
/// thread's first draw and panics if that source fails.
#[verifier::external_body]
fn random_byte() -> (byte: u8) {
    rand::thread_rng().gen_range(0x0..=0xFF)
}

/// The surface once the rows before `rows_done` of the sprite have been
/// composed, and of row `rows_done` the columns before `columns_done`.
spec fn blitted_until(
    surface: InterfaceState,
    x: int,
    y: int,
    sprite: Seq<u8>,
    rows_done: int,
    columns_done: int,
) -> InterfaceState {
    InterfaceState {
        pixels: Seq::new(
            surface.pixels.len(),
            |k: int|
                {
                    let column = k % (Interface::WIDTH as int) - x;
                    let row = k / (Interface::WIDTH as int) - y;
                    if 0 <= row < sprite.len() && 0 <= column < SPRITE_WIDTH && composed_before(
                        row,
                        column,
                        rows_done,
                        columns_done,
                    ) {
                        surface.pixels[k] != sprite_bit(sprite[row], column)
                    } else {
                        surface.pixels[k]
                    }
                },
        ),
        ..surface
    }
}

/// Whether the sprite's bit (`row`, `column`) comes before the bit
/// (`rows_done`, `columns_done`) in the order of composition.
spec fn composed_before(row: int, column: int, rows_done: int, columns_done: int) -> bool {
    row < rows_done || (row == rows_done && column < columns_done)
}

/// Whether a bit of the sprite composed before (`rows_done`, `columns_done`)
/// collides.
spec fn collides_until(
    surface: InterfaceState,
    x: int,
    y: int,
    sprite: Seq<u8>,
    rows_done: int,
    columns_done: int,
) -> bool {
    exists|row: int, column: int|
        composed_before(row, column, rows_done, columns_done) && #[trigger] surface.collides_at(
            x,
            y,
            sprite,
            row,
            column,
        )
}

/// A collision before the next column is one before this column or one at it.
proof fn lemma_collides_next_column(
    surface: InterfaceState,
    x: int,
    y: int,
    sprite: Seq<u8>,
    row: int,
    column: int,
)
    ensures
        collides_until(surface, x, y, sprite, row, column + 1) == (collides_until(
            surface,
            x,
            y,
            sprite,
            row,
            column,
        ) || surface.collides_at(x, y, sprite, row, column)),
{
}

/// The first column of the next row comes right after the last of this row.
proof fn lemma_collides_next_row(
    surface: InterfaceState,
    x: int,
    y: int,
    sprite: Seq<u8>,
    row: int,
)
    ensures
        collides_until(surface, x, y, sprite, row + 1, 0) == collides_until(
            surface,
            x,
            y,
            sprite,
            row,
            SPRITE_WIDTH as int,
        ),
{
}

/// Once every row has been composed, every bit of the sprite has been.
proof fn lemma_collides_all_rows(surface: InterfaceState, x: int, y: int, sprite: Seq<u8>)
    ensures
        collides_until(surface, x, y, sprite, sprite.len() as int, 0) == surface.collides(
            x,
            y,
            sprite,
        ),
{
}

} // verus!
