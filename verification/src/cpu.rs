//! The register bank: general registers, index register, timers, program
//! counter and the bounded call stack.

use vstd::prelude::*;
use crate::fault::{Action, Fault};
use crate::instruction::Instruction;
use crate::interface::Interface;
use crate::machine::{class_of, Machine, Step};
use crate::memory::{Memory, MEMORY_SIZE};

verus! {

/// Number of general registers.
pub const REGISTER_COUNT: usize = 16;

/// Greatest number of return addresses the call stack holds.
pub const STACK_CAPACITY: usize = 15;

/// Value of the program counter at start-up.
pub const ENTRY_POINT: usize = 0x200;

/// The register bank as a mathematical value.
pub struct CpuState {
    /// The sixteen general registers, V0 first.
    pub v_registers: Seq<u8>,
    pub i_register: u16,
    pub delay_timer: u8,
    pub sound_timer: u8,
    pub program_counter: int,
    /// Return addresses, oldest first.
    pub stack: Seq<u16>,
}

impl CpuState {
    /// Sixteen registers, at most fifteen return addresses, and a program
    /// counter that fits the machine word.
    pub open spec fn wf(self) -> bool {
        &&& self.v_registers.len() == REGISTER_COUNT
        &&& self.stack.len() <= STACK_CAPACITY
        &&& 0 <= self.program_counter <= usize::MAX
    }

    /// Index of the topmost occupied slot, or 0 for the empty stack.
    pub open spec fn stack_pointer(self) -> int {
        if self.stack.len() == 0 {
            0
        } else {
            self.stack.len() - 1
        }
    }

    /// Whether no return address is on the stack.
    pub open spec fn stack_empty(self) -> bool {
        self.stack.len() == 0
    }

    pub open spec fn with_register(self, register: int, value: u8) -> CpuState {
        CpuState { v_registers: self.v_registers.update(register, value), ..self }
    }

    pub open spec fn with_i_register(self, value: u16) -> CpuState {
        CpuState { i_register: value, ..self }
    }

    pub open spec fn with_delay_timer(self, value: u8) -> CpuState {
        CpuState { delay_timer: value, ..self }
    }

    pub open spec fn with_sound_timer(self, value: u8) -> CpuState {
        CpuState { sound_timer: value, ..self }
    }

    pub open spec fn with_program_counter(self, value: int) -> CpuState {
        CpuState { program_counter: value, ..self }
    }

    /// `value` on top of the stack.
    pub open spec fn push(self, value: u16) -> CpuState {
        CpuState { stack: self.stack.push(value), ..self }
    }

    /// The stack without its topmost return address.
    pub open spec fn pop(self) -> CpuState {
        CpuState { stack: self.stack.drop_last(), ..self }
    }
}

/// The register bank. The call stack is an array of fifteen slots with a
/// pointer to the topmost occupied one; since slot 0 may be occupied, a flag
/// tells the empty stack from the stack of one return address.
#[derive(Debug)]
pub struct Cpu {
    v_registers: [u8; 16],
    i_register: u16,
    delay_timer: u8,
    sound_timer: u8,
    program_counter: usize,
    stack_empty: bool,
    stack_pointer: usize,
    stack: [u16; 0xF],
}

impl View for Cpu {
    type V = CpuState;

    closed spec fn view(&self) -> CpuState {
        CpuState {
            v_registers: self.v_registers@,
            i_register: self.i_register,
            delay_timer: self.delay_timer,
            sound_timer: self.sound_timer,
            program_counter: self.program_counter as int,
            stack: self.stack@.take(self.depth()),
        }
    }
}

impl Cpu {
    /// The pointer stays inside the stack, the empty stack keeps it at 0, and
    /// every slot above the top holds 0.
    #[verifier::type_invariant]
    spec fn well_formed(&self) -> bool {
        &&& self.stack_pointer < STACK_CAPACITY
        &&& self.stack_empty ==> self.stack_pointer == 0
        &&& forall|slot: int| self.depth() <= slot < STACK_CAPACITY ==> self.stack@[slot] == 0
    }

    /// Number of return addresses on the stack, which never exceeds its capacity.
    spec fn depth(&self) -> int {
        if self.stack_empty {
            0
        } else if self.stack_pointer < STACK_CAPACITY {
            self.stack_pointer + 1
        } else {
            STACK_CAPACITY as int
        }
    }

    /// Every register bank has sixteen general registers, at most fifteen
    /// return addresses and a program counter that fits the machine word.
    pub proof fn lemma_wf(&self)
        ensures
            self@.wf(),
    {
    }

    /// Registers and timers at 0, an empty stack, and the program counter at
    /// the entry point.
    pub fn initialize() -> (cpu: Self)
        ensures
            cpu@.v_registers == Seq::new(REGISTER_COUNT as nat, |i: int| 0u8),
            cpu@.i_register == 0,
            cpu@.delay_timer == 0,
            cpu@.sound_timer == 0,
            cpu@.program_counter == ENTRY_POINT,
            cpu@.stack == Seq::<u16>::empty(),
    {
        Cpu {
            v_registers: [0x0;16],
            i_register: 0x0,
            delay_timer: 0x0,
            sound_timer: 0x0,
            program_counter: 0x200,
            stack_empty: true,
            stack_pointer: 0x0,
            stack: [0x0;0xF],
        }
    }

    /// Runs one cycle: fetches the opcode at the program counter, moves the
    /// counter past it and runs the instruction. The outcome is that of
    /// `Machine::cycle` for some byte of chance, which only an opcode of
    /// class C reads.
    pub fn fetch_and_decode(&mut self, memory: &mut Memory, interface: &mut Interface) -> (result:
        Result<Action, Fault>)
        ensures
            exists|random_byte: u8|
                (Step {
                    machine: Machine::of(*final(self), *final(memory), *final(interface)),
                    result,
                }) == #[trigger] Machine::of(*old(self), *old(memory), *old(interface)).cycle(
                    random_byte,
                ),
            class_of(Machine::of(*old(self), *old(memory), *old(interface)).fetched_opcode())
                != 0xC ==> (Step {
                machine: Machine::of(*final(self), *final(memory), *final(interface)),
                result,
            }) == Machine::of(*old(self), *old(memory), *old(interface)).cycle(0),
    {
        let ghost before = Machine::of(*old(self), *old(memory), *old(interface));
        proof {
            self.lemma_wf();
            memory.lemma_size();
            interface.lemma_wf();
        }
        if self.program_counter >= MEMORY_SIZE - 1 {
            return Err(Fault::AddressOutOfRange);
        }
        let first_byte: u8 = memory.get(self.program_counter);
        self.increase_program_counter(0x1);
        let second_byte: u8 = memory.get(self.program_counter);
        self.increase_program_counter(0x1);
        let mut instruction = Instruction::initialize(first_byte, second_byte);
        assert(instruction@ == before.fetched_opcode());
        assert(Machine::of(*self, *memory, *interface) == before.fetched());
        let result = instruction.interpret(self, memory, interface);
        proof {
            let random_byte = choose|random_byte: u8|
                (Step { machine: Machine::of(*self, *memory, *interface), result })
                    == #[trigger] before.fetched().step(instruction@, random_byte);
            assert((Step { machine: Machine::of(*self, *memory, *interface), result })
                == before.cycle(random_byte));
        }
        result
    }

    pub fn increase_program_counter(&mut self, amount: usize)
        requires
            old(self)@.program_counter + amount <= usize::MAX,
        ensures
            final(self)@ == old(self)@.with_program_counter(old(self)@.program_counter + amount),
    {
        proof {
            use_type_invariant(&*self);
        }
        self.program_counter += amount;
    }

    pub fn decrease_program_counter(&mut self, amount: usize)
        requires
            old(self)@.program_counter >= amount,
        ensures
            final(self)@ == old(self)@.with_program_counter(old(self)@.program_counter - amount),
    {
        proof {
            use_type_invariant(&*self);
        }
        self.program_counter -= amount;
    }

    pub fn set_program_counter(&mut self, value: usize)
        ensures
            final(self)@ == old(self)@.with_program_counter(value as int),
    {
        proof {
            use_type_invariant(&*self);
        }
        self.program_counter = value;
    }

    pub fn get_program_counter(&self) -> (value: usize)
        ensures
            value == self@.program_counter,
    {
        self.program_counter
    }

    /// Pushes `value`, unless the stack is full.
    pub fn stack_push(&mut self, value: u16) -> (result: Result<(), Fault>)
        ensures
            old(self)@.stack.len() < STACK_CAPACITY ==> result == Ok::<(), Fault>(())
                && final(self)@ == old(self)@.push(value),
            old(self)@.stack.len() >= STACK_CAPACITY ==> result == Err::<(), Fault>(Fault::StackOverflow)
                && final(self)@ == old(self)@,
    {
        proof {
            use_type_invariant(&*self);
        }
        if !self.stack_empty && self.stack_pointer == 0xE {
            return Err(Fault::StackOverflow);
        }
        if self.stack_empty {
            self.stack_empty = false;
        } else {
            self.stack_pointer += 1;
        }
        self.stack[self.stack_pointer] = value;
        assert(self@.stack =~= old(self)@.stack.push(value));
        Ok(())
    }

    /// Pops the topmost return address, unless the stack is empty.
    pub fn stack_pop(&mut self) -> (result: Result<u16, Fault>)
        ensures
            old(self)@.stack.len() > 0 ==> result == Ok::<u16, Fault>(old(self)@.stack.last())
                && final(self)@ == old(self)@.pop(),
            old(self)@.stack.len() == 0 ==> result == Err::<u16, Fault>(Fault::StackUnderflow)
                && final(self)@ == old(self)@,
    {
        proof {
            use_type_invariant(&*self);
        }
        if self.stack_empty {
            return Err(Fault::StackUnderflow);
        }
        let stack_value: u16 = self.stack[self.stack_pointer];
        self.stack[self.stack_pointer] = 0x0;
        if self.stack_pointer == 0x0 {
            self.stack_empty = true;
        } else {
            self.stack_pointer -= 1;
        }
        assert(self@.stack =~= old(self)@.stack.drop_last());
        Ok(stack_value)
    }

    /// Whether no return address is on the stack.
    pub fn is_stack_empty(&self) -> (empty: bool)
        ensures
            empty == self@.stack_empty(),
    {
        proof {
            use_type_invariant(self);
        }
        self.stack_empty
    }

    /// Index of the topmost occupied slot; 0 when the stack is empty.
    pub fn get_stack_pointer(&self) -> (pointer: usize)
        ensures
            pointer == self@.stack_pointer(),
    {
        proof {
            use_type_invariant(self);
        }
        self.stack_pointer
    }

    /// The content of one stack slot: a return address up to the top, 0 above it.
    pub fn get_stack_slot(&self, slot: usize) -> (value: u16)
        requires
            slot < STACK_CAPACITY,
        ensures
            value == if slot < self@.stack.len() {
                self@.stack[slot as int]
            } else {
                0
            },
    {
        proof {
            use_type_invariant(self);
        }
        self.stack[slot]
    }

    pub fn set_v_register(&mut self, register: usize, value: u8)
        requires
            register < REGISTER_COUNT,
        ensures
            final(self)@ == old(self)@.with_register(register as int, value),
    {
        proof {
            use_type_invariant(&*self);
        }
        self.v_registers[register] = value;
    }

    pub fn get_v_register(&self, register: usize) -> (value: u8)
        requires
            register < REGISTER_COUNT,
        ensures
            value == self@.v_registers[register as int],
    {
        self.v_registers[register]
    }

    pub fn set_i_register(&mut self, value: u16)
        ensures
            final(self)@ == old(self)@.with_i_register(value),
    {
        proof {
            use_type_invariant(&*self);
        }
        self.i_register = value;
    }

    pub fn get_i_register(&self) -> (value: u16)
        ensures
            value == self@.i_register,
    {
        self.i_register
    }

    pub fn set_delay_timer(&mut self, value: u8)
        ensures
            final(self)@ == old(self)@.with_delay_timer(value),
    {
        proof {
            use_type_invariant(&*self);
        }
        self.delay_timer = value;
    }

    pub fn get_delay_timer(&self) -> (value: u8)
        ensures
            value == self@.delay_timer,
    {
        self.delay_timer
    }

    pub fn set_sound_timer(&mut self, value: u8)
        ensures
            final(self)@ == old(self)@.with_sound_timer(value),
    {
        proof {
            use_type_invariant(&*self);
        }
        self.sound_timer = value;
    }

    pub fn get_sound_timer(&self) -> (value: u8)
        ensures
            value == self@.sound_timer,
    {
        self.sound_timer
    }
}

} // verus!
