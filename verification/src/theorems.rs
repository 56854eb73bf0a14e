//! What holds of every machine: statements that relate the instructions to
//! one another and to arithmetic, each proved from the definition of `step`.

use vstd::prelude::*;
use crate::cpu::{CpuState, STACK_CAPACITY};
use crate::fault::{Action, Fault};
use crate::interface::{sprite_bit, Interface, InterfaceState, SPRITE_WIDTH};
use crate::machine::{
    class_of, decimal_digits, n_of, nn_of, nnn_of, x_of, y_of, Machine, FLAG_REGISTER, GLYPH_SIZE,
    INSTRUCTION_SIZE,
};
use crate::memory::{Memory, FONT_START};

verus! {

/// An instruction leaves a well-formed machine well-formed, provided the
/// program counter it arrives at fits the machine word.
pub proof fn theorem_step_preserves_well_formedness(machine: Machine, opcode: u16, random_byte: u8)
    requires
        machine.wf(),
        0 <= machine.next_program_counter(opcode) <= usize::MAX,
    ensures
        machine.step(opcode, random_byte).machine.wf(),
{
}

/// An opcode that selects no operation changes nothing and reports no
/// fault: in class 0 every opcode but the two that clear and return, in
/// class 8 the low nibbles 8 to D and F, in class E every low byte but two,
/// in class F every low byte but nine.
pub proof fn theorem_undefined_opcode_is_idle(machine: Machine, opcode: u16, random_byte: u8)
    requires
        ({
            let class = class_of(opcode);
            let n = n_of(opcode);
            let nn = nn_of(opcode);
            ||| class == 0x0 && opcode != 0x00E0 && opcode != 0x00EE
            ||| class == 0x8 && (0x8 <= n <= 0xD || n == 0xF)
            ||| class == 0xE && nn != 0x9E && nn != 0xA1
            ||| class == 0xF && nn != 0x07 && nn != 0x0A && nn != 0x15 && nn != 0x18 && nn != 0x1E
                && nn != 0x29 && nn != 0x33 && nn != 0x55 && nn != 0x65
        }),
    ensures
        machine.step(opcode, random_byte).machine == machine,
        machine.step(opcode, random_byte).result == Ok::<Action, Fault>(Action::Continue),
{
}

/// An instruction that faults changes nothing.
pub proof fn theorem_fault_changes_nothing(machine: Machine, opcode: u16, random_byte: u8)
    requires
        machine.step(opcode, random_byte).result is Err,
    ensures
        machine.step(opcode, random_byte).machine == machine,
{
}

/// With room for one instruction before the program counter and for one
/// after it, every instruction arrives at a program counter that fits the
/// machine word.
pub proof fn theorem_program_counter_stays_in_range(machine: Machine, opcode: u16)
    requires
        machine.wf(),
        INSTRUCTION_SIZE <= machine.cpu.program_counter <= usize::MAX - INSTRUCTION_SIZE,
    ensures
        0 <= machine.next_program_counter(opcode) <= usize::MAX,
{
}

/// No byte of chance moves the program counter, and none matters outside
/// class C.
pub proof fn theorem_chance_matters_in_class_c_only(
    machine: Machine,
    opcode: u16,
    random_byte: u8,
    other_byte: u8,
)
    ensures
        machine.step(opcode, random_byte).machine.cpu.program_counter == machine.next_program_counter(
            opcode,
        ),
        class_of(opcode) != 0xC ==> machine.step(opcode, random_byte) == machine.step(
            opcode,
            other_byte,
        ),
{
}

/// An instruction reads the keys and never changes them.
pub proof fn theorem_keys_are_only_read(machine: Machine, opcode: u16, random_byte: u8)
    ensures
        machine.step(opcode, random_byte).machine.interface.keys == machine.interface.keys,
{
}

/// The display changes by the instruction that clears it and by the one
/// that draws, and by no other.
pub proof fn theorem_display_changes_by_clear_and_draw_only(
    machine: Machine,
    opcode: u16,
    random_byte: u8,
)
    requires
        opcode != 0x00E0,
        class_of(opcode) != 0xD,
    ensures
        machine.step(opcode, random_byte).machine.interface == machine.interface,
{
}

/// Memory changes by the instruction that writes decimal digits and by the
/// one that stores registers, and by no other.
pub proof fn theorem_memory_changes_by_stores_only(machine: Machine, opcode: u16, random_byte: u8)
    requires
        !(class_of(opcode) == 0xF && (nn_of(opcode) == 0x33 || nn_of(opcode) == 0x55)),
    ensures
        machine.step(opcode, random_byte).machine.memory == machine.memory,
{
}

/// The timers change by the two instructions that set them from a register,
/// and by no other: counting them down is left to the host.
pub proof fn theorem_timers_change_by_their_stores_only(
    machine: Machine,
    opcode: u16,
    random_byte: u8,
)
    ensures
        !(class_of(opcode) == 0xF && nn_of(opcode) == 0x15) ==> machine.step(
            opcode,
            random_byte,
        ).machine.cpu.delay_timer == machine.cpu.delay_timer,
        !(class_of(opcode) == 0xF && nn_of(opcode) == 0x18) ==> machine.step(
            opcode,
            random_byte,
        ).machine.cpu.sound_timer == machine.cpu.sound_timer,
{
}

/// Adding a literal to a register and adding a register to the index
/// register wrap without a flag: unless the flag register is itself the
/// operand, it holds what it held. A jump changes no general register.
pub proof fn theorem_flag_is_left_alone(machine: Machine, opcode: u16, random_byte: u8)
    requires
        machine.wf(),
    ensures
        (class_of(opcode) == 0x7 || (class_of(opcode) == 0xF && nn_of(opcode) == 0x1E)) && x_of(
            opcode,
        ) != FLAG_REGISTER ==> machine.step(opcode, random_byte).machine.cpu.v(
            FLAG_REGISTER as int,
        ) == machine.cpu.v(FLAG_REGISTER as int),
        class_of(opcode) == 0x1 || class_of(opcode) == 0xB ==> machine.step(
            opcode,
            random_byte,
        ).machine.cpu.v_registers == machine.cpu.v_registers,
{
}

/// The display has to be presented after exactly two instructions: the one
/// that clears it and the one that draws, unless it faults.
pub proof fn theorem_refresh_follows_clear_and_draw(machine: Machine, opcode: u16, random_byte: u8)
    ensures
        machine.step(opcode, random_byte).result == Ok::<Action, Fault>(Action::Refresh) <==> (
        opcode == 0x00E0 || (class_of(opcode) == 0xD && machine.cpu.addressable(n_of(opcode)))),
{
}

/// Adding register `y` to register `x` leaves their sum modulo 256 in
/// register `x`. Unless `x` is the flag register, the flag is 1 if the sum
/// reached 256 and 0 if it did not.
pub proof fn theorem_add_sets_sum_and_carry(machine: Machine, opcode: u16, random_byte: u8)
    requires
        machine.wf(),
        class_of(opcode) == 0x8,
        n_of(opcode) == 0x4,
    ensures
        ({
            let a = machine.cpu.v(x_of(opcode));
            let b = machine.cpu.v(y_of(opcode));
            let after = machine.step(opcode, random_byte).machine.cpu;
            &&& after.v(x_of(opcode)) == (a + b) % 256
            &&& x_of(opcode) != FLAG_REGISTER ==> after.v(FLAG_REGISTER as int) == if a + b >= 256 {
                1u8
            } else {
                0u8
            }
        }),
{
}

/// Subtracting register `y` from register `x` leaves their difference modulo
/// 256 in register `x`. Unless `x` is the flag register, the flag is 1 if
/// register `x` was at least register `y` and 0 if it was not.
pub proof fn theorem_subtract_sets_difference_and_no_borrow(
    machine: Machine,
    opcode: u16,
    random_byte: u8,
)
    requires
        machine.wf(),
        class_of(opcode) == 0x8,
        n_of(opcode) == 0x5,
    ensures
        ({
            let a = machine.cpu.v(x_of(opcode));
            let b = machine.cpu.v(y_of(opcode));
            let after = machine.step(opcode, random_byte).machine.cpu;
            &&& after.v(x_of(opcode)) == (a - b) % 256
            &&& x_of(opcode) != FLAG_REGISTER ==> after.v(FLAG_REGISTER as int) == if a >= b {
                1u8
            } else {
                0u8
            }
        }),
{
}

/// Subtracting register `x` from register `y` leaves their difference modulo
/// 256 in register `x`. Unless `x` is the flag register, the flag is 1 if
/// register `y` was at least register `x` and 0 if it was not.
pub proof fn theorem_subtract_reversed_sets_difference_and_no_borrow(
    machine: Machine,
    opcode: u16,
    random_byte: u8,
)
    requires
        machine.wf(),
        class_of(opcode) == 0x8,
        n_of(opcode) == 0x7,
    ensures
        ({
            let a = machine.cpu.v(x_of(opcode));
            let b = machine.cpu.v(y_of(opcode));
            let after = machine.step(opcode, random_byte).machine.cpu;
            &&& after.v(x_of(opcode)) == (b - a) % 256
            &&& x_of(opcode) != FLAG_REGISTER ==> after.v(FLAG_REGISTER as int) == if b >= a {
                1u8
            } else {
                0u8
            }
        }),
{
}

/// A shift to the right loses nothing: unless `x` is the flag register, the
/// flag holds the lowest bit of what register `x` held, and register `x` the
/// bits above it.
pub proof fn theorem_shift_right_keeps_the_bit_that_left(
    machine: Machine,
    opcode: u16,
    random_byte: u8,
)
    requires
        machine.wf(),
        class_of(opcode) == 0x8,
        n_of(opcode) == 0x6,
        x_of(opcode) != FLAG_REGISTER,
    ensures
        ({
            let a = machine.cpu.v(x_of(opcode));
            let after = machine.step(opcode, random_byte).machine.cpu;
            &&& after.v(FLAG_REGISTER as int) <= 1
            &&& after.v(FLAG_REGISTER as int) == a % 2
            &&& a == 2 * after.v(x_of(opcode)) + after.v(FLAG_REGISTER as int)
        }),
{
}

/// A shift to the left loses nothing: unless `x` is the flag register, the
/// flag holds the highest bit of what register `x` held, and register `x` the
/// bits below it, each one place up.
pub proof fn theorem_shift_left_keeps_the_bit_that_left(
    machine: Machine,
    opcode: u16,
    random_byte: u8,
)
    requires
        machine.wf(),
        class_of(opcode) == 0x8,
        n_of(opcode) == 0xE,
        x_of(opcode) != FLAG_REGISTER,
    ensures
        ({
            let a = machine.cpu.v(x_of(opcode));
            let after = machine.step(opcode, random_byte).machine.cpu;
            &&& after.v(FLAG_REGISTER as int) <= 1
            &&& after.v(FLAG_REGISTER as int) == a / 128
            &&& 2 * a == 256 * after.v(FLAG_REGISTER as int) + after.v(x_of(opcode))
        }),
{
    let x = x_of(opcode);
    assert(machine.step(opcode, random_byte) == machine.proceed(machine.cpu.shift_left(x)));
    lemma_doubling(machine.cpu.v(x));
}

/// Twice a byte is 256 times its highest bit plus the doubled rest.
proof fn lemma_doubling(a: u8)
    ensures
        a / 128 <= 1,
        2 * a == 256 * (a / 128) + (a * 2) % 256,
{
}

/// A push followed by a pop gives back the value pushed and the stack as it
/// was before, pointer and emptiness included.
pub proof fn theorem_push_then_pop(cpu: CpuState, value: u16)
    ensures
        cpu.push(value).stack.last() == value,
        cpu.push(value).pop() == cpu,
        cpu.push(value).pop().stack_pointer() == cpu.stack_pointer(),
        cpu.push(value).pop().stack_empty() == cpu.stack_empty(),
        !cpu.push(value).stack_empty(),
{
    assert(cpu.push(value).pop().stack =~= cpu.stack);
}

/// A call followed at once by a return restores the stack and, where the
/// program counter fits sixteen bits, the program counter.
pub proof fn theorem_call_then_return(machine: Machine, call: u16, random_byte: u8)
    requires
        machine.wf(),
        class_of(call) == 0x2,
        machine.cpu.stack.len() < STACK_CAPACITY,
        machine.cpu.program_counter < 0x1_0000,
    ensures
        machine.step(call, random_byte).result is Ok,
        machine.step(call, random_byte).machine.cpu.program_counter == nnn_of(call),
        machine.step(call, random_byte).machine.step(0x00EE, random_byte).result is Ok,
        machine.step(call, random_byte).machine.step(0x00EE, random_byte).machine == machine,
{
    let called = machine.call_subroutine(nnn_of(call) as int);
    assert(machine.step(call, random_byte) == called);
    assert(called.machine.step(0x00EE, random_byte) == called.machine.return_from_subroutine());
    assert(called.machine.cpu.pop().stack =~= machine.cpu.stack);
}

/// A call faults exactly when the stack holds fifteen return addresses, and
/// a return exactly when it holds none.
pub proof fn theorem_stack_faults(machine: Machine, opcode: u16, random_byte: u8)
    requires
        machine.wf(),
    ensures
        class_of(opcode) == 0x2 ==> (machine.step(opcode, random_byte).result == Err::<
            Action,
            Fault,
        >(Fault::StackOverflow) <==> machine.cpu.stack.len() == STACK_CAPACITY),
        class_of(opcode) == 0x2 ==> (machine.step(opcode, random_byte).result is Ok
            <==> machine.cpu.stack.len() < STACK_CAPACITY),
        opcode == 0x00EE ==> (machine.step(opcode, random_byte).result == Err::<Action, Fault>(
            Fault::StackUnderflow,
        ) <==> machine.cpu.stack.len() == 0),
        opcode == 0x00EE ==> (machine.step(opcode, random_byte).result is Ok
            <==> machine.cpu.stack.len() > 0),
{
}

/// A sprite wraps at its origin only: two machines with the same memory,
/// interface and index register, whose registers `x` agree modulo the width
/// and whose registers `y` agree modulo the height, draw the same display
/// and the same flag. A selector that names the flag register reads 0.
pub proof fn theorem_draw_wraps_the_origin(
    machine: Machine,
    other: Machine,
    opcode: u16,
    random_byte: u8,
)
    requires
        machine.wf(),
        other.wf(),
        class_of(opcode) == 0xD,
        machine.cpu.addressable(n_of(opcode)),
        other.memory == machine.memory,
        other.interface == machine.interface,
        other.cpu.i_register == machine.cpu.i_register,
        x_of(opcode) != FLAG_REGISTER ==> other.cpu.v(x_of(opcode)) as int % (
        Interface::WIDTH as int) == machine.cpu.v(x_of(opcode)) as int % (Interface::WIDTH as int),
        y_of(opcode) != FLAG_REGISTER ==> other.cpu.v(y_of(opcode)) as int % (
        Interface::HEIGHT as int) == machine.cpu.v(y_of(opcode)) as int % (
        Interface::HEIGHT as int),
    ensures
        other.step(opcode, random_byte).result == machine.step(opcode, random_byte).result,
        other.step(opcode, random_byte).machine.interface == machine.step(
            opcode,
            random_byte,
        ).machine.interface,
        other.step(opcode, random_byte).machine.cpu.v(FLAG_REGISTER as int) == machine.step(
            opcode,
            random_byte,
        ).machine.cpu.v(FLAG_REGISTER as int),
{
    lemma_class_d_draws(machine, opcode, random_byte);
    lemma_class_d_draws(other, opcode, random_byte);
    lemma_draw_reads_the_wrapped_origin(
        machine,
        other,
        x_of(opcode),
        y_of(opcode),
        n_of(opcode),
    );
}

/// An opcode of class D draws.
proof fn lemma_class_d_draws(machine: Machine, opcode: u16, random_byte: u8)
    requires
        class_of(opcode) == 0xD,
    ensures
        machine.step(opcode, random_byte) == machine.draw(x_of(opcode), y_of(opcode), n_of(opcode)),
{
}

/// Two machines that differ in their registers only, and there by multiples
/// of the width in register `x` and of the height in register `y`, draw alike.
proof fn lemma_draw_reads_the_wrapped_origin(
    machine: Machine,
    other: Machine,
    x: int,
    y: int,
    n: int,
)
    requires
        machine.wf(),
        other.wf(),
        0 <= x < 16,
        0 <= y < 16,
        0 <= n < 16,
        other.memory == machine.memory,
        other.interface == machine.interface,
        other.cpu.i_register == machine.cpu.i_register,
        machine.cpu.addressable(n),
        x != FLAG_REGISTER ==> other.cpu.v(x) as int % (Interface::WIDTH as int) == machine.cpu.v(
            x,
        ) as int % (Interface::WIDTH as int),
        y != FLAG_REGISTER ==> other.cpu.v(y) as int % (Interface::HEIGHT as int) == machine.cpu.v(
            y,
        ) as int % (Interface::HEIGHT as int),
    ensures
        other.draw(x, y, n).result == machine.draw(x, y, n).result,
        other.draw(x, y, n).machine.interface == machine.draw(x, y, n).machine.interface,
        other.draw(x, y, n).machine.cpu.v(FLAG_REGISTER as int) == machine.draw(
            x,
            y,
            n,
        ).machine.cpu.v(FLAG_REGISTER as int),
{
    assert(other.indexed_bytes(n) =~= machine.indexed_bytes(n));
}

/// A sprite is clipped, not wrapped: a draw changes the pixels that lie in
/// the eight columns from the origin on and in the sprite's rows from the
/// origin on, each by XOR with its bit of the sprite, and no other pixel.
pub proof fn theorem_blit_clips(
    surface: InterfaceState,
    x: int,
    y: int,
    sprite: Seq<u8>,
    column: int,
    row: int,
)
    requires
        surface.wf(),
        0 <= x < Interface::WIDTH,
        0 <= y < Interface::HEIGHT,
        0 <= column < Interface::WIDTH,
        0 <= row < Interface::HEIGHT,
    ensures
        surface.blitted(x, y, sprite).wf(),
        surface.blitted(x, y, sprite).keys == surface.keys,
        surface.blitted(x, y, sprite).pixel(column, row) == if x <= column < x + SPRITE_WIDTH && y
            <= row < y + sprite.len() {
            surface.pixel(column, row) != sprite_bit(sprite[row - y], column - x)
        } else {
            surface.pixel(column, row)
        },
{
    let k = InterfaceState::index(column, row);
    assert(k % (Interface::WIDTH as int) == column && k / (Interface::WIDTH as int) == row);
}

/// The three bytes that the decimal instruction writes are the decimal
/// digits of the register: each is below ten, and they make up its value.
pub proof fn theorem_decimal_digits(machine: Machine, opcode: u16, random_byte: u8)
    requires
        machine.wf(),
        class_of(opcode) == 0xF,
        nn_of(opcode) == 0x33,
        machine.cpu.addressable(3),
    ensures
        ({
            let value = machine.cpu.v(x_of(opcode));
            let i = machine.cpu.i_register as int;
            let after = machine.step(opcode, random_byte).machine.memory;
            &&& after[i] < 10 && after[i + 1] < 10 && after[i + 2] < 10
            &&& 100 * after[i] + 10 * after[i + 1] + after[i + 2] == value
            &&& forall|address: int|
                0 <= address < after.len() && !(i <= address < i + 3) ==> after[address]
                    == machine.memory[address]
        }),
{
    let x = x_of(opcode);
    assert(machine.step(opcode, random_byte) == machine.store_decimal(x));
    lemma_decimal_digits(machine.cpu.v(x));
}

/// The decimal digits of a byte are three, each below ten, and make up the byte.
proof fn lemma_decimal_digits(value: u8)
    ensures
        decimal_digits(value).len() == 3,
        decimal_digits(value)[0] < 10,
        decimal_digits(value)[1] < 10,
        decimal_digits(value)[2] < 10,
        100 * decimal_digits(value)[0] + 10 * decimal_digits(value)[1] + decimal_digits(value)[2]
            == value,
{
}

/// Storing registers 0 to `x` and loading registers 0 to `x` are inverse to
/// one another: whatever the registers hold when the load runs, with the
/// index register where it was for the store, they end as they were stored.
pub proof fn theorem_store_then_load(
    machine: Machine,
    store: u16,
    load: u16,
    later: Machine,
    random_byte: u8,
)
    requires
        machine.wf(),
        later.wf(),
        class_of(store) == 0xF,
        nn_of(store) == 0x55,
        class_of(load) == 0xF,
        nn_of(load) == 0x65,
        x_of(load) == x_of(store),
        machine.cpu.addressable(x_of(store) + 1),
        later.memory == machine.step(store, random_byte).machine.memory,
        later.cpu.i_register == machine.cpu.i_register,
    ensures
        machine.step(store, random_byte).result is Ok,
        later.step(load, random_byte).result is Ok,
        forall|register: int|
            0 <= register <= x_of(store) ==> later.step(load, random_byte).machine.cpu.v(register)
                == machine.cpu.v(register),
        later.step(load, random_byte).machine.memory == later.memory,
{
}

/// The font instruction points the index register at the glyph of the digit
/// in register `x`: five bytes on from the start of the font table for each
/// digit below it. With the font table in memory, the five bytes there are
/// the digit's rows.
pub proof fn theorem_font_address(machine: Machine, opcode: u16, random_byte: u8)
    requires
        machine.wf(),
        class_of(opcode) == 0xF,
        nn_of(opcode) == 0x29,
        machine.cpu.v(x_of(opcode)) < 16,
    ensures
        ({
            let digit = machine.cpu.v(x_of(opcode)) as int;
            let after = machine.step(opcode, random_byte).machine.cpu;
            &&& after.i_register == FONT_START + GLYPH_SIZE * digit
            &&& forall|row: int|
                0 <= row < GLYPH_SIZE ==> #[trigger] Memory::with_block(
                    machine.memory,
                    FONT_START as int,
                    Memory::FONT@,
                )[after.i_register + row] == Memory::FONT@[GLYPH_SIZE * digit + row]
        }),
{
}

} // verus!
