use chip8::cpu::Cpu;
use chip8::fault::{Action, Fault};
use chip8::instruction::Instruction;
use chip8::interface::Interface;
use chip8::memory::Memory;

fn lit(interface: &Interface, x: usize, y: usize) -> bool {
    interface.get_buffer()[x + y * Interface::WIDTH] == Interface::WHITE
}

fn count_lit(interface: &Interface) -> usize {
    interface
        .get_buffer()
        .iter()
        .filter(|color| **color == Interface::WHITE)
        .count()
}

#[test]
fn it_should_initialize_the_instruction() {
    let instruction: Instruction = Instruction::initialize(0xCA, 0xFE);

    assert_eq!(0xCAFE, instruction.get_opcode());
}

#[test]
fn it_should_clear_the_display() {
    let mut instruction: Instruction = Instruction::initialize(0x00, 0xE0);
    let mut cpu: Cpu = Cpu::initialize();
    let mut memory: Memory = Memory::initialize();
    let mut interface = Interface::initialize();

    interface.draw_pixel(true, 0, 0);
    interface.draw_pixel(true, 40, 10);
    interface.draw_pixel(true, 63, 31);
    assert_eq!(3, count_lit(&interface));

    let result = instruction.interpret(&mut cpu, &mut memory, &mut interface);

    assert_eq!(Ok(Action::Refresh), result);
    assert_eq!(0, count_lit(&interface));
    assert_eq!(0x200, cpu.get_program_counter());
}

#[test]
fn it_should_return_from_subroutine() {
    let mut instruction: Instruction = Instruction::initialize(0x00, 0xEE);
    let mut cpu: Cpu = Cpu::initialize();
    let mut memory: Memory = Memory::initialize();
    let mut interface = Interface::initialize();

    assert_eq!(Ok(()), cpu.stack_push(0xCAF));

    assert_eq!(0x200, cpu.get_program_counter());

    let result = instruction.interpret(&mut cpu, &mut memory, &mut interface);

    assert_eq!(Ok(Action::Continue), result);
    assert_eq!(0xCAF, cpu.get_program_counter());
    assert_eq!(true, cpu.is_stack_empty());
}

#[test]
fn it_should_jump_to_address() {
    let mut instruction: Instruction = Instruction::initialize(0x1C, 0xAF);
    let mut cpu: Cpu = Cpu::initialize();
    let mut memory: Memory = Memory::initialize();
    let mut interface = Interface::initialize();

    let result = instruction.interpret(&mut cpu, &mut memory, &mut interface);

    assert_eq!(Ok(Action::Continue), result);
    assert_eq!(0xCAF, cpu.get_program_counter());
}

#[test]
fn it_should_call_subroutine_at_address() {
    let mut instruction: Instruction = Instruction::initialize(0x2C, 0xAF);
    let mut cpu: Cpu = Cpu::initialize();
    let mut memory: Memory = Memory::initialize();
    let mut interface = Interface::initialize();

    let result = instruction.interpret(&mut cpu, &mut memory, &mut interface);

    assert_eq!(Ok(Action::Continue), result);
    assert_eq!(0xCAF, cpu.get_program_counter());
    assert_eq!(Ok(0x200), cpu.stack_pop());
}

#[test]
fn it_should_skip_next_instruction_if_argument_equals_v_register_value_with_different_values() {
    let mut instruction: Instruction = Instruction::initialize(0x3A, 0xFF);
    let mut cpu: Cpu = Cpu::initialize();
    let mut memory: Memory = Memory::initialize();
    let mut interface = Interface::initialize();

    cpu.set_v_register(0xA, 0xAA);

    let result = instruction.interpret(&mut cpu, &mut memory, &mut interface);

    assert_eq!(Ok(Action::Continue), result);
    assert_eq!(0x200, cpu.get_program_counter());
}

#[test]
fn it_should_skip_next_instruction_if_argument_equals_v_register_value_with_the_same_value() {
    let mut instruction: Instruction = Instruction::initialize(0x3A, 0xFF);
    let mut cpu: Cpu = Cpu::initialize();
    let mut memory: Memory = Memory::initialize();
    let mut interface = Interface::initialize();

    cpu.set_v_register(0xA, 0xFF);

    let result = instruction.interpret(&mut cpu, &mut memory, &mut interface);

    assert_eq!(Ok(Action::Continue), result);
    assert_eq!(0x202, cpu.get_program_counter());
}

#[test]
fn it_should_skip_next_instruction_if_argument_differs_v_register_value_with_different_values() {
    let mut instruction: Instruction = Instruction::initialize(0x4A, 0xFF);
    let mut cpu: Cpu = Cpu::initialize();
    let mut memory: Memory = Memory::initialize();
    let mut interface = Interface::initialize();

    cpu.set_v_register(0xA, 0xAA);

    let result = instruction.interpret(&mut cpu, &mut memory, &mut interface);

    assert_eq!(Ok(Action::Continue), result);
    assert_eq!(0x202, cpu.get_program_counter());
}

#[test]
fn it_should_skip_next_instruction_if_argument_differs_v_register_value_with_the_same_value() {
    let mut instruction: Instruction = Instruction::initialize(0x4A, 0xFF);
    let mut cpu: Cpu = Cpu::initialize();
    let mut memory: Memory = Memory::initialize();
    let mut interface = Interface::initialize();

    cpu.set_v_register(0xA, 0xFF);

    let result = instruction.interpret(&mut cpu, &mut memory, &mut interface);

    assert_eq!(Ok(Action::Continue), result);
    assert_eq!(0x200, cpu.get_program_counter());
}

#[test]
fn it_should_skip_next_instruction_if_v_registers_values_are_the_same_with_different_values() {
    let mut instruction: Instruction = Instruction::initialize(0x5A, 0xB0);
    let mut cpu: Cpu = Cpu::initialize();
    let mut memory: Memory = Memory::initialize();
    let mut interface = Interface::initialize();

    cpu.set_v_register(0xA, 0xFF);
    cpu.set_v_register(0xB, 0xAA);

    let result = instruction.interpret(&mut cpu, &mut memory, &mut interface);

    assert_eq!(Ok(Action::Continue), result);
    assert_eq!(0x200, cpu.get_program_counter());
}

#[test]
fn it_should_skip_next_instruction_if_v_registers_values_are_the_same_with_the_same_value() {
    let mut instruction: Instruction = Instruction::initialize(0x5A, 0xB0);
    let mut cpu: Cpu = Cpu::initialize();
    let mut memory: Memory = Memory::initialize();
    let mut interface = Interface::initialize();

    cpu.set_v_register(0xA, 0xFF);
    cpu.set_v_register(0xB, 0xFF);

    let result = instruction.interpret(&mut cpu, &mut memory, &mut interface);

    assert_eq!(Ok(Action::Continue), result);
    assert_eq!(0x202, cpu.get_program_counter());
}

#[test]
fn it_should_put_argument_value_on_v_register() {
    let mut instruction: Instruction = Instruction::initialize(0x6A, 0xCA);
    let mut cpu: Cpu = Cpu::initialize();
    let mut memory: Memory = Memory::initialize();
    let mut interface = Interface::initialize();

    assert_eq!(0x00, cpu.get_v_register(0xA));

    let result = instruction.interpret(&mut cpu, &mut memory, &mut interface);

    assert_eq!(Ok(Action::Continue), result);
    assert_eq!(0xCA, cpu.get_v_register(0xA));
}

#[test]
fn it_should_add_argument_value_to_v_register_without_overflow() {
    let mut instruction: Instruction = Instruction::initialize(0x7A, 0x07);
    let mut cpu: Cpu = Cpu::initialize();
    let mut memory: Memory = Memory::initialize();
    let mut interface = Interface::initialize();

    cpu.set_v_register(0xA, 0x03);

    let result = instruction.interpret(&mut cpu, &mut memory, &mut interface);

    assert_eq!(Ok(Action::Continue), result);
    assert_eq!(0xA, cpu.get_v_register(0xA));
    assert_eq!(0x0, cpu.get_v_register(0xF));
}

#[test]
fn it_should_add_argument_value_to_v_register_with_overflow() {
    let mut instruction: Instruction = Instruction::initialize(0x7A, 0x01);
    let mut cpu: Cpu = Cpu::initialize();
    let mut memory: Memory = Memory::initialize();
    let mut interface = Interface::initialize();

    cpu.set_v_register(0xA, 0xFF);

    let result = instruction.interpret(&mut cpu, &mut memory, &mut interface);

    assert_eq!(Ok(Action::Continue), result);
    assert_eq!(0x00, cpu.get_v_register(0xA));
    assert_eq!(0x0, cpu.get_v_register(0xF));
}

#[test]
fn it_should_put_v_register_value_on_other_v_register() {
    let mut instruction: Instruction = Instruction::initialize(0x8A, 0xC0);
    let mut cpu: Cpu = Cpu::initialize();
    let mut memory: Memory = Memory::initialize();
    let mut interface = Interface::initialize();

    cpu.set_v_register(0xC, 0xFE);

    assert_eq!(0x00, cpu.get_v_register(0xA));

    let result = instruction.interpret(&mut cpu, &mut memory, &mut interface);

    assert_eq!(Ok(Action::Continue), result);
    assert_eq!(0xFE, cpu.get_v_register(0xA));
    assert_eq!(0xFE, cpu.get_v_register(0xC));
}

#[test]
fn it_should_put_value_of_bitwise_or_operation_between_v_registers_on_first_passed_register() {
    let mut instruction: Instruction = Instruction::initialize(0x8A, 0xC1);
    let mut cpu: Cpu = Cpu::initialize();
    let mut memory: Memory = Memory::initialize();
    let mut interface = Interface::initialize();

    cpu.set_v_register(0xA, 0b10101010);
    cpu.set_v_register(0xC, 0b11110000);

    let result = instruction.interpret(&mut cpu, &mut memory, &mut interface);

    assert_eq!(Ok(Action::Continue), result);
    assert_eq!(0b11111010, cpu.get_v_register(0xA));
}

#[test]
fn it_should_put_value_of_bitwise_and_operation_between_v_registers_on_first_passed_register() {
    let mut instruction: Instruction = Instruction::initialize(0x8A, 0xC2);
    let mut cpu: Cpu = Cpu::initialize();
    let mut memory: Memory = Memory::initialize();
    let mut interface = Interface::initialize();

    cpu.set_v_register(0xA, 0b10101010);
    cpu.set_v_register(0xC, 0b11110000);

    let result = instruction.interpret(&mut cpu, &mut memory, &mut interface);

    assert_eq!(Ok(Action::Continue), result);
    assert_eq!(0b10100000, cpu.get_v_register(0xA));
}

#[test]
fn it_should_put_value_of_bitwise_xor_operation_between_v_registers_on_first_passed_register() {
    let mut instruction: Instruction = Instruction::initialize(0x8A, 0xC3);
    let mut cpu: Cpu = Cpu::initialize();
    let mut memory: Memory = Memory::initialize();
    let mut interface = Interface::initialize();

    cpu.set_v_register(0xA, 0b10101010);
    cpu.set_v_register(0xC, 0b11110000);

    let result = instruction.interpret(&mut cpu, &mut memory, &mut interface);

    assert_eq!(Ok(Action::Continue), result);
    assert_eq!(0b01011010, cpu.get_v_register(0xA));
}

#[test]
fn it_should_put_value_of_sum_operation_between_v_registers_on_first_passed_register_without_overflow() {
    let mut instruction: Instruction = Instruction::initialize(0x8A, 0xC4);
    let mut cpu: Cpu = Cpu::initialize();
    let mut memory: Memory = Memory::initialize();
    let mut interface = Interface::initialize();

    cpu.set_v_register(0xA, 0x03);
    cpu.set_v_register(0xC, 0x07);

    let result = instruction.interpret(&mut cpu, &mut memory, &mut interface);

    assert_eq!(Ok(Action::Continue), result);
    assert_eq!(0xA, cpu.get_v_register(0xA));
    assert_eq!(0x0, cpu.get_v_register(0xF));
}

#[test]
fn it_should_put_value_of_sum_operation_between_v_registers_on_first_passed_register_with_overflow() {
    let mut instruction: Instruction = Instruction::initialize(0x8A, 0xC4);
    let mut cpu: Cpu = Cpu::initialize();
    let mut memory: Memory = Memory::initialize();
    let mut interface = Interface::initialize();

    cpu.set_v_register(0xA, 0xFF);
    cpu.set_v_register(0xC, 0x01);

    let result = instruction.interpret(&mut cpu, &mut memory, &mut interface);

    assert_eq!(Ok(Action::Continue), result);
    assert_eq!(0x00, cpu.get_v_register(0xA));
    assert_eq!(0x1, cpu.get_v_register(0xF));
}

#[test]
fn it_should_put_value_of_subtraction_operation_between_v_registers_on_first_passed_register_without_underflow() {
    let mut instruction: Instruction = Instruction::initialize(0x8A, 0xC5);
    let mut cpu: Cpu = Cpu::initialize();
    let mut memory: Memory = Memory::initialize();
    let mut interface = Interface::initialize();

    cpu.set_v_register(0xA, 0x07);
    cpu.set_v_register(0xC, 0x03);

    let result = instruction.interpret(&mut cpu, &mut memory, &mut interface);

    assert_eq!(Ok(Action::Continue), result);
    assert_eq!(0x4, cpu.get_v_register(0xA));
    assert_eq!(0x1, cpu.get_v_register(0xF));
}

#[test]
fn it_should_put_value_of_subtraction_operation_between_v_registers_on_first_passed_register_with_underflow() {
    let mut instruction: Instruction = Instruction::initialize(0x8A, 0xC5);
    let mut cpu: Cpu = Cpu::initialize();
    let mut memory: Memory = Memory::initialize();
    let mut interface = Interface::initialize();

    cpu.set_v_register(0xA, 0x00);
    cpu.set_v_register(0xC, 0x01);

    let result = instruction.interpret(&mut cpu, &mut memory, &mut interface);

    assert_eq!(Ok(Action::Continue), result);
    assert_eq!(0xFF, cpu.get_v_register(0xA));
    assert_eq!(0x0, cpu.get_v_register(0xF));
}

#[test]
fn it_should_put_value_of_bitwise_shift_right_operation_on_first_passed_register_with_0_on_least_significant_bit() {
    let mut instruction: Instruction = Instruction::initialize(0x8A, 0xC6);
    let mut cpu: Cpu = Cpu::initialize();
    let mut memory: Memory = Memory::initialize();
    let mut interface = Interface::initialize();

    cpu.set_v_register(0xA, 0b10101010);

    let result = instruction.interpret(&mut cpu, &mut memory, &mut interface);

    assert_eq!(Ok(Action::Continue), result);
    assert_eq!(0b01010101, cpu.get_v_register(0xA));
    assert_eq!(0x0, cpu.get_v_register(0xF));
}

#[test]
fn it_should_put_value_of_bitwise_shift_right_operation_on_first_passed_register_with_1_on_least_significant_bit() {
    let mut instruction: Instruction = Instruction::initialize(0x8A, 0xC6);
    let mut cpu: Cpu = Cpu::initialize();
    let mut memory: Memory = Memory::initialize();
    let mut interface = Interface::initialize();

    cpu.set_v_register(0xA, 0b01010101);

    let result = instruction.interpret(&mut cpu, &mut memory, &mut interface);

    assert_eq!(Ok(Action::Continue), result);
    assert_eq!(0b00101010, cpu.get_v_register(0xA));
    assert_eq!(0x1, cpu.get_v_register(0xF));
}

#[test]
fn it_should_put_value_of_inverted_subtraction_operation_between_v_registers_on_first_passed_register_without_underflow() {
    let mut instruction: Instruction = Instruction::initialize(0x8A, 0xC7);
    let mut cpu: Cpu = Cpu::initialize();
    let mut memory: Memory = Memory::initialize();
    let mut interface = Interface::initialize();

    cpu.set_v_register(0xA, 0x03);
    cpu.set_v_register(0xC, 0x07);

    let result = instruction.interpret(&mut cpu, &mut memory, &mut interface);

    assert_eq!(Ok(Action::Continue), result);
    assert_eq!(0x4, cpu.get_v_register(0xA));
    assert_eq!(0x1, cpu.get_v_register(0xF));
}

#[test]
fn it_should_put_value_of_inverted_subtraction_operation_between_v_registers_on_first_passed_register_with_underflow() {
    let mut instruction: Instruction = Instruction::initialize(0x8A, 0xC7);
    let mut cpu: Cpu = Cpu::initialize();
    let mut memory: Memory = Memory::initialize();
    let mut interface = Interface::initialize();

    cpu.set_v_register(0xA, 0x01);
    cpu.set_v_register(0xC, 0x00);

    let result = instruction.interpret(&mut cpu, &mut memory, &mut interface);

    assert_eq!(Ok(Action::Continue), result);
    assert_eq!(0xFF, cpu.get_v_register(0xA));
    assert_eq!(0x0, cpu.get_v_register(0xF));
}

#[test]
fn it_should_put_value_of_bitwise_shift_left_operation_on_first_passed_register_with_0_on_most_significant_bit() {
    let mut instruction: Instruction = Instruction::initialize(0x8A, 0xCE);
    let mut cpu: Cpu = Cpu::initialize();
    let mut memory: Memory = Memory::initialize();
    let mut interface = Interface::initialize();

    cpu.set_v_register(0xA, 0b01010101);

    let result = instruction.interpret(&mut cpu, &mut memory, &mut interface);

    assert_eq!(Ok(Action::Continue), result);
    assert_eq!(0b10101010, cpu.get_v_register(0xA));
    assert_eq!(0x0, cpu.get_v_register(0xF));
}

#[test]
fn it_should_put_value_of_bitwise_shift_left_operation_on_first_passed_register_with_1_on_most_significant_bit() {
    let mut instruction: Instruction = Instruction::initialize(0x8A, 0xCE);
    let mut cpu: Cpu = Cpu::initialize();
    let mut memory: Memory = Memory::initialize();
    let mut interface = Interface::initialize();

    cpu.set_v_register(0xA, 0b10101010);

    let result = instruction.interpret(&mut cpu, &mut memory, &mut interface);

    assert_eq!(Ok(Action::Continue), result);
    assert_eq!(0b01010100, cpu.get_v_register(0xA));
    assert_eq!(0x1, cpu.get_v_register(0xF));
}

#[test]
fn it_should_skip_next_instruction_if_v_registers_values_are_different_with_different_values() {
    let mut instruction: Instruction = Instruction::initialize(0x9A, 0xB0);
    let mut cpu: Cpu = Cpu::initialize();
    let mut memory: Memory = Memory::initialize();
    let mut interface = Interface::initialize();

    cpu.set_v_register(0xA, 0xFF);
    cpu.set_v_register(0xB, 0xAA);

    let result = instruction.interpret(&mut cpu, &mut memory, &mut interface);

    assert_eq!(Ok(Action::Continue), result);
    assert_eq!(0x202, cpu.get_program_counter());
}

#[test]
fn it_should_skip_next_instruction_if_v_registers_values_are_different_with_the_same_value() {
    let mut instruction: Instruction = Instruction::initialize(0x9A, 0xB0);
    let mut cpu: Cpu = Cpu::initialize();
    let mut memory: Memory = Memory::initialize();
    let mut interface = Interface::initialize();

    cpu.set_v_register(0xA, 0xFF);
    cpu.set_v_register(0xB, 0xFF);

    let result = instruction.interpret(&mut cpu, &mut memory, &mut interface);

    assert_eq!(Ok(Action::Continue), result);
    assert_eq!(0x200, cpu.get_program_counter());
}

#[test]
fn it_should_put_argument_value_on_i_register() {
    let mut instruction: Instruction = Instruction::initialize(0xAC, 0xAF);
    let mut cpu: Cpu = Cpu::initialize();
    let mut memory: Memory = Memory::initialize();
    let mut interface = Interface::initialize();

    let result = instruction.interpret(&mut cpu, &mut memory, &mut interface);

    assert_eq!(Ok(Action::Continue), result);
    assert_eq!(0x0CAF, cpu.get_i_register());
}

#[test]
fn it_should_jump_to_argument_value_plus_v0() {
    let mut instruction: Instruction = Instruction::initialize(0xB0, 0x03);
    let mut cpu: Cpu = Cpu::initialize();
    let mut memory: Memory = Memory::initialize();
    let mut interface = Interface::initialize();

    cpu.set_v_register(0x0, 0x4);

    let result = instruction.interpret(&mut cpu, &mut memory, &mut interface);

    assert_eq!(Ok(Action::Continue), result);
    assert_eq!(0x7, cpu.get_program_counter());
}

#[test]
fn it_should_put_value_of_bitwise_or_operation_between_argument_and_random_byte_on_passed_v_register() {
    let mut instruction: Instruction = Instruction::initialize(0xCA, 0xFF);
    let mut cpu: Cpu = Cpu::initialize();
    let mut memory: Memory = Memory::initialize();
    let mut interface = Interface::initialize();

    assert_eq!(0x0, cpu.get_v_register(0xA));

    let result = instruction.interpret(&mut cpu, &mut memory, &mut interface);

    assert_eq!(Ok(Action::Continue), result);
    assert_eq!(0xFF, cpu.get_v_register(0xA));
}

#[test]
fn it_should_draw_byte_sprite_starting_at_location_i_on_register_stored_location_without_collisions() {
    let mut instruction: Instruction = Instruction::initialize(0xDA, 0xC1);
    let mut cpu: Cpu = Cpu::initialize();
    let mut memory: Memory = Memory::initialize();
    let mut interface = Interface::initialize();

    cpu.set_i_register(0x400);
    cpu.set_v_register(0xA, 0x3);
    cpu.set_v_register(0xC, 0x0);

    memory.set(0x400, 0b11001010);

    // No bit of the sprite meets a pixel in its own state: the pixels under
    // its off bits are lit beforehand.
    interface.draw_pixel(true, 0x5, 0x0);
    interface.draw_pixel(true, 0x6, 0x0);
    interface.draw_pixel(true, 0x8, 0x0);
    interface.draw_pixel(true, 0xA, 0x0);

    let result = instruction.interpret(&mut cpu, &mut memory, &mut interface);

    assert_eq!(Ok(Action::Refresh), result);
    assert_eq!(0x0, cpu.get_v_register(0xF));
    for x in 0x3..=0xA {
        assert_eq!(true, lit(&interface, x, 0x0));
    }
    assert_eq!(8, count_lit(&interface));
}

#[test]
fn it_should_draw_byte_sprite_starting_at_location_i_on_register_stored_location_with_collisions() {
    let mut instruction: Instruction = Instruction::initialize(0xDA, 0xC1);
    let mut cpu: Cpu = Cpu::initialize();
    let mut memory: Memory = Memory::initialize();
    let mut interface = Interface::initialize();

    cpu.set_i_register(0x400);
    cpu.set_v_register(0xA, 0x3);
    cpu.set_v_register(0xC, 0x0);

    memory.set(0x400, 0b11001010);

    // As above, but the pixel at column 7 is lit too, where the sprite has
    // an on bit: that one collides.
    interface.draw_pixel(true, 0x5, 0x0);
    interface.draw_pixel(true, 0x6, 0x0);
    interface.draw_pixel(true, 0x7, 0x0);
    interface.draw_pixel(true, 0x8, 0x0);
    interface.draw_pixel(true, 0xA, 0x0);

    let result = instruction.interpret(&mut cpu, &mut memory, &mut interface);

    assert_eq!(Ok(Action::Refresh), result);
    assert_eq!(0x1, cpu.get_v_register(0xF));
    assert_eq!(true, lit(&interface, 0x3, 0x0));
    assert_eq!(true, lit(&interface, 0x4, 0x0));
    assert_eq!(true, lit(&interface, 0x5, 0x0));
    assert_eq!(true, lit(&interface, 0x6, 0x0));
    assert_eq!(false, lit(&interface, 0x7, 0x0));
    assert_eq!(true, lit(&interface, 0x8, 0x0));
    assert_eq!(true, lit(&interface, 0x9, 0x0));
    assert_eq!(true, lit(&interface, 0xA, 0x0));
    assert_eq!(7, count_lit(&interface));
}

#[test]
fn it_should_draw_byte_sprite_starting_at_location_i_on_register_stored_location_with_multiple_height_values() {
    let mut instruction: Instruction = Instruction::initialize(0xDA, 0xC2);
    let mut cpu: Cpu = Cpu::initialize();
    let mut memory: Memory = Memory::initialize();
    let mut interface = Interface::initialize();

    cpu.set_i_register(0x400);
    cpu.set_v_register(0xA, 0x3);
    cpu.set_v_register(0xC, 0x0);

    memory.set(0x400, 0b11001010);
    memory.set(0x401, 0b11111111);

    interface.draw_pixel(true, 0x5, 0x0);
    interface.draw_pixel(true, 0x6, 0x0);
    interface.draw_pixel(true, 0x8, 0x0);
    interface.draw_pixel(true, 0xA, 0x0);

    let result = instruction.interpret(&mut cpu, &mut memory, &mut interface);

    assert_eq!(Ok(Action::Refresh), result);
    assert_eq!(0x0, cpu.get_v_register(0xF));
    for x in 0x3..=0xA {
        assert_eq!(true, lit(&interface, x, 0x0));
        assert_eq!(true, lit(&interface, x, 0x1));
    }
    assert_eq!(16, count_lit(&interface));
}

#[test]
fn it_should_draw_byte_sprite_starting_at_location_i_on_register_stored_location_wrapping_the_width() {
    let mut instruction: Instruction = Instruction::initialize(0xDA, 0xC1);
    let mut cpu: Cpu = Cpu::initialize();
    let mut memory: Memory = Memory::initialize();
    let mut interface = Interface::initialize();

    cpu.set_i_register(0x400);
    cpu.set_v_register(0xA, 67);
    cpu.set_v_register(0xC, 0x0);

    memory.set(0x400, 0b11001010);

    interface.draw_pixel(true, 0x5, 0x0);
    interface.draw_pixel(true, 0x6, 0x0);
    interface.draw_pixel(true, 0x8, 0x0);
    interface.draw_pixel(true, 0xA, 0x0);

    let result = instruction.interpret(&mut cpu, &mut memory, &mut interface);

    assert_eq!(Ok(Action::Refresh), result);
    assert_eq!(0x0, cpu.get_v_register(0xF));
    for x in 0x3..=0xA {
        assert_eq!(true, lit(&interface, x, 0x0));
    }
    assert_eq!(8, count_lit(&interface));
    assert_eq!(67, cpu.get_v_register(0xA));
}

#[test]
fn it_should_draw_byte_sprite_starting_at_location_i_on_register_stored_location_cutting_extra_bits() {
    let mut instruction: Instruction = Instruction::initialize(0xDA, 0xC1);
    let mut cpu: Cpu = Cpu::initialize();
    let mut memory: Memory = Memory::initialize();
    let mut interface = Interface::initialize();

    cpu.set_i_register(0x400);
    cpu.set_v_register(0xA, 60);
    cpu.set_v_register(0xC, 0x0);

    memory.set(0x400, 0b11111111);

    let result = instruction.interpret(&mut cpu, &mut memory, &mut interface);

    assert_eq!(Ok(Action::Refresh), result);
    assert_eq!(0x0, cpu.get_v_register(0xF));
    assert_eq!(true, lit(&interface, 60, 0x0));
    assert_eq!(true, lit(&interface, 61, 0x0));
    assert_eq!(true, lit(&interface, 62, 0x0));
    assert_eq!(true, lit(&interface, 63, 0x0));
    for x in 0..4 {
        assert_eq!(false, lit(&interface, x, 0x0));
        assert_eq!(false, lit(&interface, x, 0x1));
    }
    assert_eq!(4, count_lit(&interface));
}

#[test]
fn it_should_skip_next_instruction_if_key_with_v_register_value_is_pressed_with_key_press() {
    let mut instruction: Instruction = Instruction::initialize(0xEA, 0x9E);
    let mut cpu: Cpu = Cpu::initialize();
    let mut memory: Memory = Memory::initialize();
    let mut interface = Interface::initialize();

    cpu.set_v_register(0xA, 0xA);
    interface.set_key(0xA, true);

    let result = instruction.interpret(&mut cpu, &mut memory, &mut interface);

    assert_eq!(Ok(Action::Continue), result);
    assert_eq!(0x202, cpu.get_program_counter());
}

#[test]
fn it_should_skip_next_instruction_if_key_with_v_register_value_is_pressed_without_key_press() {
    let mut instruction: Instruction = Instruction::initialize(0xEA, 0x9E);
    let mut cpu: Cpu = Cpu::initialize();
    let mut memory: Memory = Memory::initialize();
    let mut interface = Interface::initialize();

    cpu.set_v_register(0xA, 0xA);
    interface.set_key(0xB, true);

    let result = instruction.interpret(&mut cpu, &mut memory, &mut interface);

    assert_eq!(Ok(Action::Continue), result);
    assert_eq!(0x200, cpu.get_program_counter());
}

#[test]
fn it_should_skip_next_instruction_if_key_with_v_register_value_is_not_pressed_with_key_press() {
    let mut instruction: Instruction = Instruction::initialize(0xEA, 0xA1);
    let mut cpu: Cpu = Cpu::initialize();
    let mut memory: Memory = Memory::initialize();
    let mut interface = Interface::initialize();

    cpu.set_v_register(0xA, 0xA);
    interface.set_key(0xA, true);

    let result = instruction.interpret(&mut cpu, &mut memory, &mut interface);

    assert_eq!(Ok(Action::Continue), result);
    assert_eq!(0x200, cpu.get_program_counter());
}

#[test]
fn it_should_skip_next_instruction_if_key_with_v_register_value_is_not_pressed_without_key_press() {
    let mut instruction: Instruction = Instruction::initialize(0xEA, 0xA1);
    let mut cpu: Cpu = Cpu::initialize();
    let mut memory: Memory = Memory::initialize();
    let mut interface = Interface::initialize();

    cpu.set_v_register(0xA, 0xA);

    let result = instruction.interpret(&mut cpu, &mut memory, &mut interface);

    assert_eq!(Ok(Action::Continue), result);
    assert_eq!(0x202, cpu.get_program_counter());
}

#[test]
fn it_should_put_delay_timer_value_on_v_register() {
    let mut instruction: Instruction = Instruction::initialize(0xFC, 0x07);
    let mut cpu: Cpu = Cpu::initialize();
    let mut memory: Memory = Memory::initialize();
    let mut interface = Interface::initialize();

    cpu.set_delay_timer(0xCA);

    assert_eq!(0x0, cpu.get_v_register(0xC));

    let result = instruction.interpret(&mut cpu, &mut memory, &mut interface);

    assert_eq!(Ok(Action::Continue), result);
    assert_eq!(0xCA, cpu.get_v_register(0xC));
}

#[test]
fn it_should_wait_for_key_press_and_store_value_on_v_register_with_a_key_press() {
    let mut instruction: Instruction = Instruction::initialize(0xFC, 0x0A);
    let mut cpu: Cpu = Cpu::initialize();
    let mut memory: Memory = Memory::initialize();
    let mut interface = Interface::initialize();

    interface.set_key(0xA, true);

    let result = instruction.interpret(&mut cpu, &mut memory, &mut interface);

    assert_eq!(Ok(Action::Continue), result);
    assert_eq!(0xA, cpu.get_v_register(0xC));
    assert_eq!(0x200, cpu.get_program_counter());
}

#[test]
fn it_should_wait_for_key_press_and_store_value_on_v_register_without_a_key_press() {
    let mut instruction: Instruction = Instruction::initialize(0xFC, 0x0A);
    let mut cpu: Cpu = Cpu::initialize();
    let mut memory: Memory = Memory::initialize();
    let mut interface = Interface::initialize();

    cpu.set_program_counter(0x202);

    let result = instruction.interpret(&mut cpu, &mut memory, &mut interface);

    assert_eq!(Ok(Action::Continue), result);
    assert_eq!(0x200, cpu.get_program_counter());
    assert_eq!(0x0, cpu.get_v_register(0xC));
}

#[test]
fn it_should_put_v_register_value_on_delay_timer() {
    let mut instruction: Instruction = Instruction::initialize(0xFC, 0x15);
    let mut cpu: Cpu = Cpu::initialize();
    let mut memory: Memory = Memory::initialize();
    let mut interface = Interface::initialize();

    cpu.set_v_register(0xC, 0xFE);

    assert_eq!(0x0, cpu.get_delay_timer());

    let result = instruction.interpret(&mut cpu, &mut memory, &mut interface);

    assert_eq!(Ok(Action::Continue), result);
    assert_eq!(0xFE, cpu.get_delay_timer());
}

#[test]
fn it_should_put_v_register_value_on_sound_timer() {
    let mut instruction: Instruction = Instruction::initialize(0xFC, 0x18);
    let mut cpu: Cpu = Cpu::initialize();
    let mut memory: Memory = Memory::initialize();
    let mut interface = Interface::initialize();

    cpu.set_v_register(0xC, 0xFE);

    assert_eq!(0x0, cpu.get_sound_timer());

    let result = instruction.interpret(&mut cpu, &mut memory, &mut interface);

    assert_eq!(Ok(Action::Continue), result);
    assert_eq!(0xFE, cpu.get_sound_timer());
}

#[test]
fn it_should_add_v_register_value_to_i_register_value_without_overflow() {
    let mut instruction: Instruction = Instruction::initialize(0xFC, 0x1E);
    let mut cpu: Cpu = Cpu::initialize();
    let mut memory: Memory = Memory::initialize();
    let mut interface = Interface::initialize();

    cpu.set_i_register(0x3);
    cpu.set_v_register(0xC, 0x4);

    let result = instruction.interpret(&mut cpu, &mut memory, &mut interface);

    assert_eq!(Ok(Action::Continue), result);
    assert_eq!(0x7, cpu.get_i_register());
}

#[test]
fn it_should_add_v_register_value_to_i_register_value_with_overflow() {
    let mut instruction: Instruction = Instruction::initialize(0xFC, 0x1E);
    let mut cpu: Cpu = Cpu::initialize();
    let mut memory: Memory = Memory::initialize();
    let mut interface = Interface::initialize();

    cpu.set_i_register(0xFFFF);
    cpu.set_v_register(0xC, 0x1);

    let result = instruction.interpret(&mut cpu, &mut memory, &mut interface);

    assert_eq!(Ok(Action::Continue), result);
    assert_eq!(0x0, cpu.get_i_register());
    assert_eq!(0x0, cpu.get_v_register(0xF));
}

#[test]
fn it_should_put_location_of_sprite_for_v_register_digit_on_i_register() {
    for digit in 0x0..0x10 {
        let mut instruction: Instruction = Instruction::initialize(0xF3, 0x29);
        let mut cpu: Cpu = Cpu::initialize();
        let mut memory: Memory = Memory::initialize();
        let mut interface = Interface::initialize();

        cpu.set_v_register(0x3, digit);

        let result = instruction.interpret(&mut cpu, &mut memory, &mut interface);

        assert_eq!(Ok(Action::Continue), result);
        assert_eq!(80 + 5 * u16::from(digit), cpu.get_i_register());
    }
}

#[test]
fn it_should_put_location_of_sprite_for_the_digit_a_on_i_register() {
    let mut instruction: Instruction = Instruction::initialize(0xF0, 0x29);
    let mut cpu: Cpu = Cpu::initialize();
    let mut memory: Memory = Memory::initialize();
    let mut interface = Interface::initialize();

    memory.set_font();
    cpu.set_v_register(0x0, 0xA);

    let result = instruction.interpret(&mut cpu, &mut memory, &mut interface);

    assert_eq!(Ok(Action::Continue), result);
    assert_eq!(130, cpu.get_i_register());
    assert_eq!(0xF0, memory.get(130));
    assert_eq!(0x90, memory.get(131));
    assert_eq!(0xF0, memory.get(132));
    assert_eq!(0x90, memory.get(133));
    assert_eq!(0x90, memory.get(134));
}

#[test]
fn it_should_put_bcd_representation_of_v_register_in_memory_locations_starting_on_i_register_location() {
    let mut instruction: Instruction = Instruction::initialize(0xFC, 0x33);
    let mut cpu: Cpu = Cpu::initialize();
    let mut memory: Memory = Memory::initialize();
    let mut interface = Interface::initialize();

    cpu.set_i_register(0x200);
    cpu.set_v_register(0xC, 198);

    let result = instruction.interpret(&mut cpu, &mut memory, &mut interface);

    assert_eq!(Ok(Action::Continue), result);
    assert_eq!(1, memory.get(0x200));
    assert_eq!(9, memory.get(0x201));
    assert_eq!(8, memory.get(0x202));
}

#[test]
fn it_should_put_values_of_v_registers_from_v0_to_passed_v_register_in_memory_starting_on_i_register_location() {
    let mut instruction: Instruction = Instruction::initialize(0xFF, 0x55);
    let mut cpu: Cpu = Cpu::initialize();
    let mut memory: Memory = Memory::initialize();
    let mut interface = Interface::initialize();

    cpu.set_v_register(0x0, 0x10);
    cpu.set_v_register(0x1, 0x11);
    cpu.set_v_register(0x2, 0x12);
    cpu.set_v_register(0x3, 0x13);
    cpu.set_v_register(0x4, 0x14);
    cpu.set_v_register(0x5, 0x15);
    cpu.set_v_register(0x6, 0x16);
    cpu.set_v_register(0x7, 0x17);
    cpu.set_v_register(0x8, 0x18);
    cpu.set_v_register(0x9, 0x19);
    cpu.set_v_register(0xA, 0x1A);
    cpu.set_v_register(0xB, 0x1B);
    cpu.set_v_register(0xC, 0x1C);
    cpu.set_v_register(0xD, 0x1D);
    cpu.set_v_register(0xE, 0x1E);
    cpu.set_v_register(0xF, 0x1F);

    cpu.set_i_register(0x200);

    let result = instruction.interpret(&mut cpu, &mut memory, &mut interface);

    assert_eq!(Ok(Action::Continue), result);
    assert_eq!(0x10, memory.get(0x200));
    assert_eq!(0x11, memory.get(0x201));
    assert_eq!(0x12, memory.get(0x202));
    assert_eq!(0x13, memory.get(0x203));
    assert_eq!(0x14, memory.get(0x204));
    assert_eq!(0x15, memory.get(0x205));
    assert_eq!(0x16, memory.get(0x206));
    assert_eq!(0x17, memory.get(0x207));
    assert_eq!(0x18, memory.get(0x208));
    assert_eq!(0x19, memory.get(0x209));
    assert_eq!(0x1A, memory.get(0x20A));
    assert_eq!(0x1B, memory.get(0x20B));
    assert_eq!(0x1C, memory.get(0x20C));
    assert_eq!(0x1D, memory.get(0x20D));
    assert_eq!(0x1E, memory.get(0x20E));
    assert_eq!(0x1F, memory.get(0x20F));
}

#[test]
fn it_should_put_values_on_v_registers_from_v0_to_passed_v_register_from_memory_starting_on_i_register_location() {
    let mut instruction: Instruction = Instruction::initialize(0xFF, 0x65);
    let mut cpu: Cpu = Cpu::initialize();
    let mut memory: Memory = Memory::initialize();
    let mut interface = Interface::initialize();

    memory.set(0x200, 0x10);
    memory.set(0x201, 0x11);
    memory.set(0x202, 0x12);
    memory.set(0x203, 0x13);
    memory.set(0x204, 0x14);
    memory.set(0x205, 0x15);
    memory.set(0x206, 0x16);
    memory.set(0x207, 0x17);
    memory.set(0x208, 0x18);
    memory.set(0x209, 0x19);
    memory.set(0x20A, 0x1A);
    memory.set(0x20B, 0x1B);
    memory.set(0x20C, 0x1C);
    memory.set(0x20D, 0x1D);
    memory.set(0x20E, 0x1E);
    memory.set(0x20F, 0x1F);

    cpu.set_i_register(0x200);

    let result = instruction.interpret(&mut cpu, &mut memory, &mut interface);

    assert_eq!(Ok(Action::Continue), result);
    assert_eq!(0x10, cpu.get_v_register(0x0));
    assert_eq!(0x11, cpu.get_v_register(0x1));
    assert_eq!(0x12, cpu.get_v_register(0x2));
    assert_eq!(0x13, cpu.get_v_register(0x3));
    assert_eq!(0x14, cpu.get_v_register(0x4));
    assert_eq!(0x15, cpu.get_v_register(0x5));
    assert_eq!(0x16, cpu.get_v_register(0x6));
    assert_eq!(0x17, cpu.get_v_register(0x7));
    assert_eq!(0x18, cpu.get_v_register(0x8));
    assert_eq!(0x19, cpu.get_v_register(0x9));
    assert_eq!(0x1A, cpu.get_v_register(0xA));
    assert_eq!(0x1B, cpu.get_v_register(0xB));
    assert_eq!(0x1C, cpu.get_v_register(0xC));
    assert_eq!(0x1D, cpu.get_v_register(0xD));
    assert_eq!(0x1E, cpu.get_v_register(0xE));
    assert_eq!(0x1F, cpu.get_v_register(0xF));
}
