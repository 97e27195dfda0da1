use crate::error::EmulatorError;
use crate::instruction::{decode_spec, Instruction};
use crate::machine::{flag, Input, MachineState, FLAG_REGISTER};
use crate::platform::Platform;
use crate::sprite::Sprite;
use vstd::prelude::*;

verus! {

/// Whether the next step of the machine fetches a word that decodes to
/// `instruction`.
pub open spec fn stands_on(state: MachineState, instruction: Instruction) -> bool {
    &&& state.waiting is None
    &&& state.memory.in_bounds(state.memory.pc + 1)
    &&& decode_spec(state.memory.read_u16(state.memory.pc as int)) == Some(instruction)
}

/// A step runs the instruction that the machine stands on.
pub proof fn law_step_runs_fetched_instruction(
    state: MachineState,
    instruction: Instruction,
    input: Input,
)
    requires
        stands_on(state, instruction),
    ensures
        state.step(input) == state.execute(instruction, input),
        instruction.wf(),
{
    crate::instruction::lemma_decode_wf(state.memory.read_u16(state.memory.pc as int));
}

/// A step depends on the outside only for what it asks: a step that asks
/// nothing is the same on every input, one that asks for a key only looks
/// at whether it is held, one that polls only at the key newly pressed,
/// and one that asks for a random byte only at that byte.
pub proof fn law_step_reads_only_what_it_asks(state: MachineState, a: Input, b: Input)
    ensures
        state.query() is Nothing ==> state.step(a) == state.step(b),
        state.query() is KeyPressed && a.key_pressed == b.key_pressed ==> state.step(a)
            == state.step(b),
        state.query() is JustPressed && a.just_pressed == b.just_pressed ==> state.step(a)
            == state.step(b),
        state.query() is Random && a.random == b.random ==> state.step(a) == state.step(b),
{
}

/// Adding an immediate wraps at 256 and has no side effect on the flag:
/// register `x` ends as `(old + value) mod 256`, and every other register,
/// the flag register among them, keeps its value.
pub proof fn law_add_immediate_wraps(state: MachineState, x: u8, value: u8, input: Input)
    requires
        state.wf(),
        x < 16,
    ensures
        state.execute(Instruction::AddImmediate { x, value }, input) matches Ok(next)
            && next.register(x) as int == (state.register(x) + value) % 256 && (forall|other: u8|
            other < 16 && other != x ==> next.register(other) == state.register(other)),
{
}

/// Adding two registers wraps at 256, and the flag register ends as 1 if
/// the true sum exceeds 255 and as 0 otherwise. Where the destination is
/// the flag register itself, the flag is what stays.
pub proof fn law_add_registers_carries(state: MachineState, x: u8, y: u8, input: Input)
    requires
        state.wf(),
        x < 16,
        y < 16,
    ensures
        state.execute(Instruction::AddRegisters { x, y }, input) matches Ok(next) && next.register(
            FLAG_REGISTER,
        ) == flag(state.register(x) + state.register(y) > 255) && (x != FLAG_REGISTER
            ==> next.register(x) as int == (state.register(x) + state.register(y)) % 256),
{
}

/// Subtracting register `y` from register `x` wraps at 256, and the flag
/// register ends as 1 if nothing was borrowed, that is if `x` was at least
/// `y`, and as 0 otherwise.
pub proof fn law_subtract_borrows(state: MachineState, x: u8, y: u8, input: Input)
    requires
        state.wf(),
        x < 16,
        y < 16,
    ensures
        state.execute(Instruction::Subtract { x, y }, input) matches Ok(next) && next.register(
            FLAG_REGISTER,
        ) == flag(state.register(x) >= state.register(y)) && (x != FLAG_REGISTER ==> next.register(
            x,
        ) as int == (state.register(x) - state.register(y)) % 256),
{
}

/// Clearing the display leaves no pixel set, whatever was set before: the
/// step of a machine that stands on a clear instruction succeeds and ends
/// with every pixel unset.
pub proof fn law_clear_display_unsets_all(state: MachineState, input: Input)
    ensures
        state.execute(Instruction::ClearDisplay, input) matches Ok(next) && next.pixels.len()
            == state.pixels.len() && (forall|i: int|
            0 <= i < next.pixels.len() ==> !next.pixels[i]),
        stands_on(state, Instruction::ClearDisplay) ==> state.step(input) == state.execute(
            Instruction::ClearDisplay,
            input,
        ),
{
}

/// Returning with an empty call stack fails with the underflow error, as
/// does the step of a machine that stands on such a return; with a return
/// address on the stack the return succeeds.
pub proof fn law_return_needs_a_caller(state: MachineState, input: Input)
    ensures
        state.memory.stack.len() == 0 ==> state.execute(Instruction::Return, input) == Err::<
            MachineState,
            EmulatorError,
        >(EmulatorError::StackUnderflow),
        state.memory.stack.len() == 0 && stands_on(state, Instruction::Return) ==> state.step(
            input,
        ) == Err::<MachineState, EmulatorError>(EmulatorError::StackUnderflow),
        state.memory.stack.len() > 0 ==> state.execute(Instruction::Return, input) is Ok,
{
}

/// The three digits that are stored for a byte are its decimal digits: each
/// is below ten, and hundreds, tens and units make up the byte.
pub proof fn law_decimal_digits(state: MachineState, value: u8)
    requires
        state.memory.in_bounds(state.memory.index_register + 2),
    ensures
        ({
            let stored = state.decimal_stored(value);
            let index = state.memory.index_register as int;
            &&& stored.len() == state.memory.mem.len()
            &&& stored[index] < 10 && stored[index + 1] < 10 && stored[index + 2] < 10
            &&& stored[index] * 100 + stored[index + 1] * 10 + stored[index + 2] == value
            &&& forall|a: int|
                0 <= a < stored.len() && !(index <= a <= index + 2) ==> stored[a]
                    == state.memory.mem[a]
        }),
{
}

impl Sprite {
    /// Whether drawing the sprite turns on a pixel that was unset.
    pub open spec fn lights(self, platform: Platform, pixels: Seq<bool>) -> bool {
        exists|i: int|
            0 <= i < pixels.len() && !pixels[i] && #[trigger] self.covers_index(platform, i)
    }
}

/// Drawing a sprite twice at the same place restores the grid, and the
/// second drawing collides exactly if the first one turned a pixel on.
pub proof fn law_sprite_twice_restores(sprite: Sprite, platform: Platform, pixels: Seq<bool>)
    ensures
        sprite.draw(platform, sprite.draw(platform, pixels)) == pixels,
        sprite.collides(platform, sprite.draw(platform, pixels)) == sprite.lights(platform, pixels),
{
    let once = sprite.draw(platform, pixels);
    assert(sprite.draw(platform, once) =~= pixels);
    if sprite.collides(platform, once) {
        let i = choose|i: int|
            0 <= i < once.len() && once[i] && #[trigger] sprite.covers_index(platform, i);
        assert(!pixels[i]);
    }
    if sprite.lights(platform, pixels) {
        let i = choose|i: int|
            0 <= i < pixels.len() && !pixels[i] && #[trigger] sprite.covers_index(platform, i);
        assert(once[i]);
    }
}

/// Two draw instructions in a row that draw the same sprite at the same
/// place restore the pixels that were there before the first, and the flag
/// register tells after the second whether the first turned a pixel on.
pub proof fn law_draw_twice_restores(
    state: MachineState,
    x: u8,
    y: u8,
    rows: u8,
    a: Input,
    b: Input,
)
    requires
        state.wf(),
        x < 16,
        y < 16,
        state.execute(Instruction::Draw { x, y, rows }, a) matches Ok(first) && first.sprite(
            x,
            y,
            rows,
        ) == state.sprite(x, y, rows),
    ensures
        state.execute(Instruction::Draw { x, y, rows }, a) matches Ok(first) && (first.execute(
            Instruction::Draw { x, y, rows },
            b,
        ) matches Ok(second) && second.pixels == state.pixels && second.register(FLAG_REGISTER)
            == flag(state.sprite(x, y, rows).lights(state.platform, state.pixels))),
{
    law_sprite_twice_restores(state.sprite(x, y, rows), state.platform, state.pixels);
}

/// Where the first of two such draw instructions turns a pixel on, the
/// second sets the collision flag.
pub proof fn law_draw_twice_collides(
    state: MachineState,
    x: u8,
    y: u8,
    rows: u8,
    a: Input,
    b: Input,
)
    requires
        state.wf(),
        x < 16,
        y < 16,
        state.execute(Instruction::Draw { x, y, rows }, a) matches Ok(first) && first.sprite(
            x,
            y,
            rows,
        ) == state.sprite(x, y, rows),
        state.sprite(x, y, rows).lights(state.platform, state.pixels),
    ensures
        state.execute(Instruction::Draw { x, y, rows }, a) matches Ok(first) && (first.execute(
            Instruction::Draw { x, y, rows },
            b,
        ) matches Ok(second) && second.register(FLAG_REGISTER) == 1),
{
    law_draw_twice_restores(state, x, y, rows, a, b);
}

/// Whether none of `inputs` reports a key newly pressed.
pub open spec fn no_key_pressed(inputs: Seq<Input>) -> bool {
    forall|i: int| 0 <= i < inputs.len() ==> (#[trigger] inputs[i]).just_pressed is None
}

/// The machine as it waits for a key for register `x`.
pub open spec fn held_for_key(state: MachineState, x: u8) -> MachineState {
    MachineState { waiting: Some(x), ..state }
}

/// One step of a machine that stands on a wait for a key, or that waits
/// already: without a newly pressed key it waits on, with one it loads the
/// key's code and moves on.
pub proof fn lemma_wait_step(state: MachineState, x: u8, input: Input)
    requires
        stands_on(state, Instruction::WaitForKey { x }),
    ensures
        input.just_pressed is None ==> state.step(input) == Ok::<MachineState, EmulatorError>(
            held_for_key(state, x),
        ) && held_for_key(state, x).step(input) == Ok::<MachineState, EmulatorError>(
            held_for_key(state, x),
        ),
        input.just_pressed matches Some(key) ==> state.step(input) == Ok::<
            MachineState,
            EmulatorError,
        >(state.set_register(x, key).advance()) && held_for_key(state, x).step(input) == Ok::<
            MachineState,
            EmulatorError,
        >(state.set_register(x, key).advance()),
{
}

/// A machine that stands on a wait for a key stays where it is for as many
/// steps as no key is newly pressed: the program counter, the registers,
/// the memory and the pixels do not change. The first step that is told of
/// a newly pressed key loads its code into the destination register and
/// moves the program counter on by one instruction, once.
pub proof fn law_wait_for_key(
    state: MachineState,
    x: u8,
    idle: Seq<Input>,
    pressed: Input,
    key: u8,
)
    requires
        state.wf(),
        stands_on(state, Instruction::WaitForKey { x }),
        no_key_pressed(idle),
        pressed.just_pressed == Some(key),
    ensures
        state.run(idle) == Ok::<MachineState, EmulatorError>(
            if idle.len() == 0 {
                state
            } else {
                held_for_key(state, x)
            },
        ),
        state.run(idle) matches Ok(held) && held.memory.pc == state.memory.pc && held.memory
            == state.memory && held.pixels == state.pixels && held.clock == state.clock,
        state.run(idle.push(pressed)) matches Ok(done) && done.register(x) == key
            && done.memory.pc == state.memory.pc + 2 && done.waiting is None && done
            == state.set_register(x, key).advance(),
    decreases idle.len(),
{
    let held = held_for_key(state, x);
    if idle.len() > 0 {
        law_wait_for_key(state, x, idle.drop_last(), pressed, key);
        let last = idle.last();
        assert(last.just_pressed is None);
        lemma_wait_step(state, x, last);
        let earlier = state.run(idle.drop_last());
        assert(state.run(idle) == earlier->Ok_0.step(last));
    }
    lemma_wait_step(state, x, pressed);
    let all = idle.push(pressed);
    assert(all.drop_last() =~= idle);
    assert(all.last() == pressed);
    assert(state.run(all) == state.run(idle)->Ok_0.step(pressed));
    crate::instruction::lemma_decode_wf(state.memory.read_u16(state.memory.pc as int));
}

} // verus!
