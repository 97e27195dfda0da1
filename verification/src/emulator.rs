use crate::clock::Clock;
use crate::error::EmulatorError;
use crate::gpu::Gpu;
use crate::instruction::{decode, Instruction};
use crate::io::{RenderContext, IO};
use crate::machine::{Input, MachineState, Query, FLAG_REGISTER, MEMORY_SIZE, PROGRAM_START};
use crate::memory::Memory;
use crate::platform::Platform;
use crate::sprite::{
    bit_is_set, lemma_draw_bit_step, lemma_draw_row_step, lemma_draw_start_and_end, sprite_bit,
};
use rand::{thread_rng, Rng};
use vstd::prelude::*;

verus! {

/// Draws a byte from the thread's random number generator, through
/// `thread_rng` and `Rng::gen`. Any byte may come back, so nothing is
/// claimed of it. `thread_rng` stops the program where the system has no
/// entropy to seed the generator with.
#[verifier::external_body]
fn random_byte() -> (byte: u8) {
    thread_rng().gen::<u8>()
}

/// The wrapping operations of the machine's integers, as remainders.
proof fn lemma_wrapping(a: u8, b: u8, wide: u16)
    ensures
        a.wrapping_add(b) == ((a + b) % 256) as u8,
        a.wrapping_sub(b) == ((a - b) % 256) as u8,
        (a % 128) * 2 == (a * 2) % 256,
        wide.wrapping_add(a as u16) == ((wide + a) % 65536) as u16,
{
}

/// The interpreter: it owns the state store, the framebuffer and the
/// timers, and runs one instruction per step.
#[derive(Debug)]
pub struct Emulator {
    program_name: String,
    platform: Platform,
    memory: Memory,
    display: Gpu,
    clock: Clock,
    waiting: Option<u8>,
}

impl View for Emulator {
    type V = MachineState;

    closed spec fn view(&self) -> MachineState {
        MachineState {
            platform: self.platform,
            memory: self.memory@,
            pixels: self.display@,
            clock: self.clock@,
            waiting: self.waiting,
        }
    }
}

impl Emulator {
    /// The title under which the machine's program is shown.
    pub closed spec fn title(&self) -> Seq<char> {
        self.program_name@
    }

    pub open spec fn wf(&self) -> bool {
        self@.wf()
    }

    /// Builds a machine for `platform` with `program` loaded at its start
    /// address, or fails where the program does not fit into memory.
    pub fn new(program: Vec<u8>, program_name: String, platform: Platform) -> (r: Result<
        Emulator,
        EmulatorError,
    >)
        ensures
            program@.len() <= MEMORY_SIZE - PROGRAM_START ==> (r matches Ok(emulator)
                && emulator.wf() && emulator.title() == program_name@ && emulator@
                == MachineState::loaded(platform, program@, emulator@.clock)
                && emulator@.clock.delay_timer == 0 && emulator@.clock.sound_timer == 0),
            program@.len() > MEMORY_SIZE - PROGRAM_START ==> (r matches Err(error) && error
                == EmulatorError::OutOfBounds),
    {
        let mut memory = Memory::new(MEMORY_SIZE);
        match memory.write_slice(PROGRAM_START as usize, program.as_slice()) {
            Ok(()) => {},
            Err(error) => {
                return Err(error);
            },
        }
        memory.write_pc(PROGRAM_START);
        proof {
            memory.lemma_wf();
        }
        Ok(
            Emulator {
                program_name,
                platform,
                memory,
                display: Gpu::new(platform),
                clock: Clock::default(),
                waiting: None,
            },
        )
    }

    pub fn platform(&self) -> (platform: Platform)
        ensures
            platform == self@.platform,
    {
        self.platform
    }

    /// The state store, for reading.
    pub fn memory(&self) -> (memory: &Memory)
        ensures
            memory@ == self@.memory,
    {
        &self.memory
    }

    /// The framebuffer, for reading.
    pub fn display(&self) -> (display: &Gpu)
        ensures
            display@ == self@.pixels,
    {
        &self.display
    }

    /// The timers, for reading.
    pub fn clock(&self) -> (clock: &Clock)
        ensures
            clock@ == self@.clock,
    {
        &self.clock
    }

    /// The register that awaits a key, while the machine waits for one.
    pub fn waiting(&self) -> (waiting: Option<u8>)
        ensures
            waiting == self@.waiting,
    {
        self.waiting
    }

    /// A snapshot for a renderer: title, registers and pixel grid.
    pub fn get_render_context(&self) -> (context: RenderContext<'_>)
        ensures
            context.platform == self@.platform,
            context.title@ == self.title(),
            context.registries@ == self@.memory.registers,
            context.pixels@ == self@.pixels,
    {
        RenderContext {
            platform: self.platform,
            title: self.program_name.as_str(),
            registries: self.memory.registers(),
            pixels: self.display.pixels(),
        }
    }

    /// What the next step has to be told.
    pub fn query(&self) -> (query: Query)
        ensures
            query == self@.query(),
    {
        if self.waiting.is_some() {
            return Query::JustPressed;
        }
        let word = match self.memory.read_u16(self.memory.read_pc() as usize) {
            Ok(word) => word,
            Err(_) => {
                return Query::Nothing;
            },
        };
        match decode(word) {
            Ok(Instruction::SkipIfKeyPressed { x }) => Query::KeyPressed(
                self.memory.read_register(x as usize),
            ),
            Ok(Instruction::SkipIfKeyNotPressed { x }) => Query::KeyPressed(
                self.memory.read_register(x as usize),
            ),
            Ok(Instruction::WaitForKey { .. }) => Query::JustPressed,
            Ok(Instruction::Random { .. }) => Query::Random,
            _ => Query::Nothing,
        }
    }
}

impl Emulator {
    fn register(&self, x: u8) -> (value: u8)
        requires
            x < 16,
        ensures
            value == self@.register(x),
    {
        self.memory.read_register(x as usize)
    }

    fn set_register(&mut self, x: u8, value: u8)
        requires
            x < 16,
        ensures
            final(self)@ == old(self)@.set_register(x, value),
            final(self).title() == old(self).title(),
    {
        self.memory.write_register(x as usize, value);
    }

    fn set_register_and_flag(&mut self, x: u8, value: u8, raised: bool)
        requires
            x < 16,
        ensures
            final(self)@ == old(self)@.set_register_and_flag(x, value, raised),
            final(self).title() == old(self).title(),
    {
        self.memory.write_register(x as usize, value);
        self.memory.write_register(FLAG_REGISTER as usize, if raised { 1 } else { 0 });
    }

    fn jump(&mut self, address: u16)
        ensures
            final(self)@ == old(self)@.jump(address),
            final(self).title() == old(self).title(),
    {
        self.memory.write_pc(address);
    }

    fn advance(&mut self)
        requires
            old(self)@.memory.pc + 2 <= u16::MAX,
        ensures
            final(self)@ == old(self)@.advance(),
            final(self).title() == old(self).title(),
    {
        self.memory.increment_pc();
    }

    fn advance_or_skip(&mut self, skip: bool)
        requires
            old(self)@.memory.pc + 4 <= u16::MAX,
        ensures
            final(self)@ == old(self)@.advance_or_skip(skip),
            final(self).title() == old(self).title(),
    {
        self.memory.increment_pc();
        if skip {
            self.memory.increment_pc();
        }
    }

    /// Stores the decimal digits of register `x` at the index register.
    fn store_decimal(&mut self, x: u8) -> (r: Result<(), EmulatorError>)
        requires
            old(self).wf(),
            x < 16,
            old(self)@.memory.in_bounds(old(self)@.memory.pc + 1),
        ensures
            match old(self)@.execute(Instruction::StoreDecimal { x }, Input::idle()) {
                Ok(next) => r is Ok && final(self)@ == next,
                Err(error) => r == Err::<(), EmulatorError>(error) && final(self)@ == old(self)@,
            },
            final(self).title() == old(self).title(),
    {
        let value = self.register(x);
        let index = self.memory.read_index_register() as usize;
        if index + 2 >= self.memory.size() {
            return Err(EmulatorError::OutOfBounds);
        }
        // The three writes are in bounds by the test above.
        let _ = self.memory.write_u8(index, value / 100);
        let _ = self.memory.write_u8(index + 1, (value / 10) % 10);
        let _ = self.memory.write_u8(index + 2, value % 10);
        self.memory.increment_pc();
        Ok(())
    }

    /// Stores registers 0 to `x` at the index register.
    fn store_registers(&mut self, x: u8) -> (r: Result<(), EmulatorError>)
        requires
            old(self).wf(),
            x < 16,
            old(self)@.memory.in_bounds(old(self)@.memory.pc + 1),
        ensures
            match old(self)@.execute(Instruction::StoreRegisters { x }, Input::idle()) {
                Ok(next) => r is Ok && final(self)@ == next,
                Err(error) => r == Err::<(), EmulatorError>(error) && final(self)@ == old(self)@,
            },
            final(self).title() == old(self).title(),
    {
        let index = self.memory.read_index_register() as usize;
        if index + x as usize >= self.memory.size() {
            return Err(EmulatorError::OutOfBounds);
        }
        let mut register: u8 = 0;
        while register <= x
            invariant
                x < 16,
                register <= x + 1,
                index == old(self)@.memory.index_register,
                index + x < old(self)@.memory.mem.len(),
                self@.memory.mem.len() == old(self)@.memory.mem.len(),
                self@.memory.registers == old(self)@.memory.registers,
                self@.memory.registers.len() == 16,
                self@.memory.index_register == old(self)@.memory.index_register,
                self@.memory.stack == old(self)@.memory.stack,
                self@.memory.pc == old(self)@.memory.pc,
                self@.platform == old(self)@.platform,
                self@.pixels == old(self)@.pixels,
                self@.clock == old(self)@.clock,
                self@.waiting == old(self)@.waiting,
                self.title() == old(self).title(),
                forall|a: int|
                    0 <= a < self@.memory.mem.len() ==> self@.memory.mem[a] == if index <= a
                        < index + register {
                        old(self)@.memory.registers[a - index]
                    } else {
                        old(self)@.memory.mem[a]
                    },
            decreases x + 1 - register,
        {
            let value = self.memory.read_register(register as usize);
            // In bounds by the test above.
            let _ = self.memory.write_u8(index + register as usize, value);
            register = register + 1;
        }
        assert(self@.memory.mem =~= old(self)@.registers_stored(x));
        self.memory.increment_pc();
        Ok(())
    }

    /// Loads registers 0 to `x` from the index register.
    fn load_registers(&mut self, x: u8) -> (r: Result<(), EmulatorError>)
        requires
            old(self).wf(),
            x < 16,
            old(self)@.memory.in_bounds(old(self)@.memory.pc + 1),
        ensures
            match old(self)@.execute(Instruction::LoadRegisters { x }, Input::idle()) {
                Ok(next) => r is Ok && final(self)@ == next,
                Err(error) => r == Err::<(), EmulatorError>(error) && final(self)@ == old(self)@,
            },
            final(self).title() == old(self).title(),
    {
        let index = self.memory.read_index_register() as usize;
        if index + x as usize >= self.memory.size() {
            return Err(EmulatorError::OutOfBounds);
        }
        let mut register: u8 = 0;
        while register <= x
            invariant
                x < 16,
                register <= x + 1,
                index == old(self)@.memory.index_register,
                index + x < old(self)@.memory.mem.len(),
                self@.memory.mem == old(self)@.memory.mem,
                self@.memory.registers.len() == 16,
                old(self)@.memory.registers.len() == 16,
                self@.memory.index_register == old(self)@.memory.index_register,
                self@.memory.stack == old(self)@.memory.stack,
                self@.memory.pc == old(self)@.memory.pc,
                self@.platform == old(self)@.platform,
                self@.pixels == old(self)@.pixels,
                self@.clock == old(self)@.clock,
                self@.waiting == old(self)@.waiting,
                self.title() == old(self).title(),
                forall|k: int|
                    0 <= k < 16 ==> self@.memory.registers[k] == if k < register {
                        old(self)@.memory.mem[index + k]
                    } else {
                        old(self)@.memory.registers[k]
                    },
            decreases x + 1 - register,
        {
            // The read is in bounds by the test above.
            match self.memory.read_u8(index + register as usize) {
                Ok(value) => {
                    self.memory.write_register(register as usize, value);
                },
                Err(_) => {},
            }
            register = register + 1;
        }
        assert(self@.memory.registers =~= old(self)@.registers_loaded(x));
        self.memory.increment_pc();
        Ok(())
    }
}

impl Emulator {
    /// Draws the sprite of `rows` rows at the index register to the
    /// position held by registers `x` and `y`.
    fn draw(&mut self, x: u8, y: u8, rows: u8) -> (r: Result<(), EmulatorError>)
        requires
            old(self).wf(),
            x < 16,
            y < 16,
            rows < 16,
            old(self)@.memory.in_bounds(old(self)@.memory.pc + 1),
        ensures
            match old(self)@.execute(Instruction::Draw { x, y, rows }, Input::idle()) {
                Ok(next) => r is Ok && final(self)@ == next,
                Err(error) => r == Err::<(), EmulatorError>(error) && final(self)@ == old(self)@,
            },
            final(self).title() == old(self).title(),
    {
        let index = self.memory.read_index_register() as usize;
        let count = rows as usize;
        if count > 0 && index + count > self.memory.size() {
            return Err(EmulatorError::OutOfBounds);
        }
        let platform = self.platform;
        let width = platform.width();
        let x0: usize = self.register(x) as usize % width;
        let y0: usize = self.register(y) as usize % platform.height();
        let ghost sprite = old(self)@.sprite(x, y, rows);
        let ghost before = old(self)@.pixels;
        let mut collided = false;
        let mut row: usize = 0;
        proof {
            lemma_draw_start_and_end(sprite, platform, before);
        }
        while row < count
            invariant
                row <= count,
                count == rows,
                platform == old(self)@.platform,
                width == platform.spec_width(),
                index == old(self)@.memory.index_register,
                count > 0 ==> index + count <= old(self)@.memory.mem.len(),
                sprite == old(self)@.sprite(x, y, rows),
                before == old(self)@.pixels,
                before.len() == platform.spec_width() * platform.spec_height(),
                x0 == sprite.x0,
                y0 == sprite.y0,
                x0 < platform.spec_width(),
                y0 < platform.spec_height(),
                self@.memory == old(self)@.memory,
                self@.platform == old(self)@.platform,
                self@.clock == old(self)@.clock,
                self@.waiting == old(self)@.waiting,
                self.title() == old(self).title(),
                self.display.wf(platform),
                self@.pixels == sprite.draw_so_far(platform, before, row as int, 0),
                collided == sprite.collides_so_far(platform, before, row as int, 0),
            decreases count - row,
        {
            // The read is in bounds by the test above.
            let byte = match self.memory.read_u8(index + row) {
                Ok(byte) => byte,
                Err(error) => {
                    return Err(error);
                },
            };
            assert(byte == sprite.rows[row as int]);
            let mut col: usize = 0;
            while col < 8
                invariant
                    col <= 8,
                    row < count,
                    count == rows,
                    sprite.rows.len() == rows,
                    byte == sprite.rows[row as int],
                    width == platform.spec_width(),
                    before.len() == platform.spec_width() * platform.spec_height(),
                    x0 == sprite.x0,
                    y0 == sprite.y0,
                    x0 < platform.spec_width(),
                    y0 < platform.spec_height(),
                    platform == old(self)@.platform,
                    self@.memory == old(self)@.memory,
                    self@.platform == old(self)@.platform,
                    self@.clock == old(self)@.clock,
                    self@.waiting == old(self)@.waiting,
                    self.title() == old(self).title(),
                    self.display.wf(platform),
                    self@.pixels == sprite.draw_so_far(platform, before, row as int, col as int),
                    collided == sprite.collides_so_far(platform, before, row as int, col as int),
                decreases 8 - col,
            {
                proof {
                    lemma_draw_bit_step(
                        sprite,
                        platform,
                        before,
                        row as int,
                        col as int,
                        self@.pixels,
                        collided,
                    );
                    reveal(bit_is_set);
                }
                let mask: u8 = 0x80u8 >> (col as u8);
                if byte & mask != 0 {
                    assert(sprite_bit(byte, col as int));
                    if self.display.flip_pixel(platform, (x0 + col) % width, y0 + row) {
                        collided = true;
                    }
                } else {
                    assert(!sprite_bit(byte, col as int));
                }
                col = col + 1;
            }
            proof {
                lemma_draw_row_step(sprite, platform, before, row as int);
            }
            row = row + 1;
        }
        self.memory.write_register(FLAG_REGISTER as usize, if collided { 1 } else { 0 });
        self.memory.increment_pc();
        Ok(())
    }

    /// The instructions that decide where the program goes on, and the one
    /// that clears the display.
    spec fn changes_flow(instruction: Instruction) -> bool {
        match instruction {
            Instruction::ClearDisplay
            | Instruction::Return
            | Instruction::Jump { .. }
            | Instruction::Call { .. }
            | Instruction::SkipIfEqual { .. }
            | Instruction::SkipIfNotEqual { .. }
            | Instruction::SkipIfRegistersEqual { .. }
            | Instruction::SkipIfRegistersNotEqual { .. }
            | Instruction::JumpWithOffset { .. }
            | Instruction::SkipIfKeyPressed { .. }
            | Instruction::SkipIfKeyNotPressed { .. } => true,
            _ => false,
        }
    }

    /// The instructions that compute a register from registers and
    /// immediates.
    spec fn computes(instruction: Instruction) -> bool {
        match instruction {
            Instruction::Load { .. }
            | Instruction::AddImmediate { .. }
            | Instruction::Copy { .. }
            | Instruction::Or { .. }
            | Instruction::And { .. }
            | Instruction::Xor { .. }
            | Instruction::AddRegisters { .. }
            | Instruction::Subtract { .. }
            | Instruction::ShiftRight { .. }
            | Instruction::SubtractReversed { .. }
            | Instruction::ShiftLeft { .. }
            | Instruction::Random { .. } => true,
            _ => false,
        }
    }

    /// The instructions that move values between registers, timers and the
    /// index register.
    spec fn moves_state(instruction: Instruction) -> bool {
        match instruction {
            Instruction::LoadIndex { .. }
            | Instruction::LoadDelayTimer { .. }
            | Instruction::WaitForKey { .. }
            | Instruction::SetDelayTimer { .. }
            | Instruction::SetSoundTimer { .. }
            | Instruction::AddToIndex { .. } => true,
            _ => false,
        }
    }

    /// Runs an instruction that decides where the program goes on, or clears
    /// the display.
    fn execute_flow(&mut self, instruction: Instruction, input: Input) -> (r: Result<
        (),
        EmulatorError,
    >)
        requires
            old(self).wf(),
            instruction.wf(),
            Self::changes_flow(instruction),
            old(self)@.memory.in_bounds(old(self)@.memory.pc + 1),
        ensures
            match old(self)@.execute(instruction, input) {
                Ok(next) => r is Ok && final(self)@ == next,
                Err(error) => r == Err::<(), EmulatorError>(error) && final(self)@ == old(self)@,
            },
            final(self).title() == old(self).title(),
    {
        match instruction {
            Instruction::ClearDisplay => {
                self.display.clear();
                self.advance();
            },
            Instruction::Return => {
                let address = match self.memory.pop_stack() {
                    Ok(address) => address,
                    Err(error) => {
                        return Err(error);
                    },
                };
                self.jump(address);
            },
            Instruction::Jump { address } => {
                self.jump(address);
            },
            Instruction::Call { address } => {
                let next: u16 = self.memory.read_pc() + 2;
                self.memory.push_stack(next);
                self.jump(address);
            },
            Instruction::SkipIfEqual { x, value } => {
                let skip = self.register(x) == value;
                self.advance_or_skip(skip);
            },
            Instruction::SkipIfNotEqual { x, value } => {
                let skip = self.register(x) != value;
                self.advance_or_skip(skip);
            },
            Instruction::SkipIfRegistersEqual { x, y } => {
                let skip = self.register(x) == self.register(y);
                self.advance_or_skip(skip);
            },
            Instruction::SkipIfRegistersNotEqual { x, y } => {
                let skip = self.register(x) != self.register(y);
                self.advance_or_skip(skip);
            },
            Instruction::JumpWithOffset { address } => {
                let offset = if self.platform.jump_offset_from_v0() {
                    self.register(0)
                } else {
                    self.register((address / 256) as u8)
                };
                self.jump(address + offset as u16);
            },
            Instruction::SkipIfKeyPressed { x } => {
                self.advance_or_skip(input.key_pressed);
            },
            Instruction::SkipIfKeyNotPressed { x } => {
                self.advance_or_skip(!input.key_pressed);
            },
            _ => {},
        }
        Ok(())
    }

    /// Runs an instruction that computes a register.
    fn execute_computation(&mut self, instruction: Instruction, input: Input) -> (r: Result<
        (),
        EmulatorError,
    >)
        requires
            old(self).wf(),
            instruction.wf(),
            Self::computes(instruction),
            old(self)@.memory.in_bounds(old(self)@.memory.pc + 1),
        ensures
            match old(self)@.execute(instruction, input) {
                Ok(next) => r is Ok && final(self)@ == next,
                Err(error) => r == Err::<(), EmulatorError>(error) && final(self)@ == old(self)@,
            },
            final(self).title() == old(self).title(),
    {
        match instruction {
            Instruction::Load { x, value } => {
                self.set_register(x, value);
                self.advance();
            },
            Instruction::AddImmediate { x, value } => {
                let sum = self.register(x).wrapping_add(value);
                proof {
                    lemma_wrapping(self@.register(x), value, 0);
                }
                self.set_register(x, sum);
                self.advance();
            },
            Instruction::Copy { x, y } => {
                let value = self.register(y);
                self.set_register(x, value);
                self.advance();
            },
            Instruction::Or { x, y } => {
                let value = self.register(x) | self.register(y);
                self.set_register(x, value);
                self.advance();
            },
            Instruction::And { x, y } => {
                let value = self.register(x) & self.register(y);
                self.set_register(x, value);
                self.advance();
            },
            Instruction::Xor { x, y } => {
                let value = self.register(x) ^ self.register(y);
                self.set_register(x, value);
                self.advance();
            },
            Instruction::AddRegisters { x, y } => {
                let x_val = self.register(x);
                let y_val = self.register(y);
                let carry = x_val as u16 + y_val as u16 > 255;
                proof {
                    lemma_wrapping(x_val, y_val, 0);
                }
                self.set_register_and_flag(x, x_val.wrapping_add(y_val), carry);
                self.advance();
            },
            Instruction::Subtract { x, y } => {
                let x_val = self.register(x);
                let y_val = self.register(y);
                proof {
                    lemma_wrapping(x_val, y_val, 0);
                }
                self.set_register_and_flag(x, x_val.wrapping_sub(y_val), x_val >= y_val);
                self.advance();
            },
            Instruction::ShiftRight { x, y } => {
                let source = if self.platform.shift_reads_source() {
                    self.register(y)
                } else {
                    self.register(x)
                };
                self.set_register_and_flag(x, source / 2, source % 2 == 1);
                self.advance();
            },
            Instruction::SubtractReversed { x, y } => {
                let x_val = self.register(x);
                let y_val = self.register(y);
                proof {
                    lemma_wrapping(y_val, x_val, 0);
                }
                self.set_register_and_flag(x, y_val.wrapping_sub(x_val), y_val >= x_val);
                self.advance();
            },
            Instruction::ShiftLeft { x, y } => {
                let source = if self.platform.shift_reads_source() {
                    self.register(y)
                } else {
                    self.register(x)
                };
                proof {
                    lemma_wrapping(source, 0, 0);
                }
                self.set_register_and_flag(x, (source % 128) * 2, source >= 128);
                self.advance();
            },
            Instruction::Random { x, mask } => {
                self.set_register(x, input.random & mask);
                self.advance();
            },
            _ => {},
        }
        Ok(())
    }

    /// Runs an instruction that moves a value between parts of the state.
    fn execute_move(&mut self, instruction: Instruction, input: Input) -> (r: Result<
        (),
        EmulatorError,
    >)
        requires
            old(self).wf(),
            instruction.wf(),
            Self::moves_state(instruction),
            old(self)@.memory.in_bounds(old(self)@.memory.pc + 1),
        ensures
            match old(self)@.execute(instruction, input) {
                Ok(next) => r is Ok && final(self)@ == next,
                Err(error) => r == Err::<(), EmulatorError>(error) && final(self)@ == old(self)@,
            },
            final(self).title() == old(self).title(),
    {
        match instruction {
            Instruction::LoadIndex { address } => {
                self.memory.write_index_register(address);
                self.advance();
            },
            Instruction::LoadDelayTimer { x } => {
                let value = self.clock.delay_timer();
                self.set_register(x, value);
                self.advance();
            },
            Instruction::WaitForKey { x } => {
                match input.just_pressed {
                    Some(key) => {
                        self.set_register(x, key);
                        self.advance();
                    },
                    None => {
                        self.waiting = Some(x);
                    },
                }
            },
            Instruction::SetDelayTimer { x } => {
                let value = self.register(x);
                self.clock.set_delay_timer(value);
                self.advance();
            },
            Instruction::SetSoundTimer { x } => {
                let value = self.register(x);
                self.clock.set_sound_timer(value);
                self.advance();
            },
            Instruction::AddToIndex { x } => {
                let index = self.memory.read_index_register();
                let offset = self.register(x) as u16;
                proof {
                    lemma_wrapping(self@.register(x), 0, index);
                }
                self.memory.write_index_register(index.wrapping_add(offset));
                self.advance();
            },
            _ => {},
        }
        Ok(())
    }

    /// Runs `instruction` on a machine that stands on it.
    fn execute(&mut self, instruction: Instruction, input: Input) -> (r: Result<
        (),
        EmulatorError,
    >)
        requires
            old(self).wf(),
            instruction.wf(),
            old(self)@.memory.in_bounds(old(self)@.memory.pc + 1),
        ensures
            match old(self)@.execute(instruction, input) {
                Ok(next) => r is Ok && final(self)@ == next,
                Err(error) => r == Err::<(), EmulatorError>(error) && final(self)@ == old(self)@,
            },
            final(self).title() == old(self).title(),
    {
        match instruction {
            Instruction::ClearDisplay
            | Instruction::Return
            | Instruction::Jump { .. }
            | Instruction::Call { .. }
            | Instruction::SkipIfEqual { .. }
            | Instruction::SkipIfNotEqual { .. }
            | Instruction::SkipIfRegistersEqual { .. }
            | Instruction::SkipIfRegistersNotEqual { .. }
            | Instruction::JumpWithOffset { .. }
            | Instruction::SkipIfKeyPressed { .. }
            | Instruction::SkipIfKeyNotPressed { .. } => self.execute_flow(instruction, input),
            Instruction::Load { .. }
            | Instruction::AddImmediate { .. }
            | Instruction::Copy { .. }
            | Instruction::Or { .. }
            | Instruction::And { .. }
            | Instruction::Xor { .. }
            | Instruction::AddRegisters { .. }
            | Instruction::Subtract { .. }
            | Instruction::ShiftRight { .. }
            | Instruction::SubtractReversed { .. }
            | Instruction::ShiftLeft { .. }
            | Instruction::Random { .. } => self.execute_computation(instruction, input),
            Instruction::LoadIndex { .. }
            | Instruction::LoadDelayTimer { .. }
            | Instruction::WaitForKey { .. }
            | Instruction::SetDelayTimer { .. }
            | Instruction::SetSoundTimer { .. }
            | Instruction::AddToIndex { .. } => self.execute_move(instruction, input),
            Instruction::Draw { x, y, rows } => self.draw(x, y, rows),
            Instruction::StoreDecimal { x } => self.store_decimal(x),
            Instruction::StoreRegisters { x } => self.store_registers(x),
            Instruction::LoadRegisters { x } => self.load_registers(x),
        }
    }

    /// Runs one step on what `input` tells of the outside. A step that
    /// fails leaves the machine as it was, the program counter on the
    /// instruction that failed.
    pub fn step(&mut self, input: Input) -> (r: Result<(), EmulatorError>)
        requires
            old(self).wf(),
        ensures
            final(self).wf(),
            old(self)@.steps_to(input, r, final(self)@),
            final(self).title() == old(self).title(),
    {
        proof {
            crate::machine::law_step_keeps_well_formed(self@, input);
        }
        match self.waiting {
            Some(x) => {
                match input.just_pressed {
                    Some(key) => {
                        self.waiting = None;
                        self.set_register(x, key);
                        self.advance();
                    },
                    None => {},
                }
                Ok(())
            },
            None => {
                let word = match self.memory.read_u16(self.memory.read_pc() as usize) {
                    Ok(word) => word,
                    Err(error) => {
                        return Err(error);
                    },
                };
                let instruction = match decode(word) {
                    Ok(instruction) => instruction,
                    Err(error) => {
                        return Err(error);
                    },
                };
                self.execute(instruction, input)
            },
        }
    }
}

/// The first of the key codes that a poll returned, if there is one.
fn first_key(keys: &Vec<u8>) -> (key: Option<u8>)
    ensures
        key == if keys@.len() > 0 {
            Some(keys@[0])
        } else {
            None
        },
{
    if keys.len() > 0 {
        Some(keys[0])
    } else {
        None
    }
}

impl Emulator {
    /// Runs one step, asking `io` and the random number generator for what
    /// the step has to be told: for some input the step is a step on that
    /// input, and where it consults nothing it is the step on an idle
    /// input.
    pub fn run_instruction(&mut self, io: &dyn IO) -> (r: Result<(), EmulatorError>)
        requires
            old(self).wf(),
        ensures
            final(self).wf(),
            exists|input: Input| #[trigger] old(self)@.steps_to(input, r, final(self)@),
            old(self)@.query() is Nothing ==> old(self)@.steps_to(Input::idle(), r, final(self)@),
            final(self).title() == old(self).title(),
    {
        let input = match self.query() {
            Query::Nothing => Input::idle(),
            Query::KeyPressed(code) => Input {
                key_pressed: io.is_code_pressed(code),
                just_pressed: None,
                random: 0,
            },
            Query::JustPressed => {
                let keys = io.get_just_pressed();
                Input { key_pressed: false, just_pressed: first_key(&keys), random: 0 }
            },
            Query::Random => Input { key_pressed: false, just_pressed: None, random: random_byte() },
        };
        self.step(input)
    }

    /// Runs one step and then ticks the timers at the present time. A step
    /// that fails leaves the machine as it was, timers included.
    pub fn tick(&mut self, io: &dyn IO) -> (r: Result<(), EmulatorError>)
        requires
            old(self).wf(),
        ensures
            final(self).wf(),
            exists|input: Input, reading: Option<nat>| #[trigger]
                old(self)@.ticks_to(input, reading, r, final(self)@),
            final(self).title() == old(self).title(),
    {
        let ghost before = self@;
        let r = self.run_instruction(io);
        let ghost input = choose|input: Input| #[trigger] before.steps_to(input, r, self@);
        let ghost next = self@;
        match r {
            Ok(()) => {
                self.clock.tick();
                let ghost reading = choose|reading: Option<nat>|
                    self.clock@ == #[trigger] next.clock.tick_on(reading);
                assert(before.ticks_to(input, reading, r, self@));
            },
            Err(_) => {
                assert(before.ticks_to(input, None, r, self@));
            },
        }
        r
    }
}

} // verus!
