use crate::clock::ClockState;
use crate::display::blank_pixels;
use crate::error::EmulatorError;
use crate::instruction::{decode_spec, Instruction};
use crate::memory::MemoryState;
use crate::platform::Platform;
use crate::sprite::Sprite;
use vstd::prelude::*;

verus! {

/// The number of bytes of memory of every machine.
pub const MEMORY_SIZE: usize = 4096;

/// The address at which a program is loaded and started.
pub const PROGRAM_START: u16 = 0x200;

/// The register that several instructions overwrite with a flag.
pub const FLAG_REGISTER: u8 = 15;

/// What one step may learn from outside the machine. A step reads at most
/// one of the three, and which one follows from the machine's state.
#[derive(Clone, Copy, Debug)]
pub struct Input {
    /// Whether the key that the instruction asks about is held down.
    pub key_pressed: bool,
    /// The first key that went down since the last poll, if any did.
    pub just_pressed: Option<u8>,
    /// A random byte.
    pub random: u8,
}

impl Input {
    pub open spec fn spec_idle() -> Input {
        Input { key_pressed: false, just_pressed: None, random: 0 }
    }

    /// An input for a step that consults nothing: no key held, none newly
    /// pressed.
    #[verifier::when_used_as_spec(spec_idle)]
    pub fn idle() -> (input: Input)
        ensures
            input == Input::spec_idle(),
    {
        Input { key_pressed: false, just_pressed: None, random: 0 }
    }
}

/// What a step needs to be told before it can run.
#[derive(Clone, Copy, Debug, PartialEq, Eq)]
pub enum Query {
    /// The step consults nothing.
    Nothing,
    /// Whether the key with this code is held down.
    KeyPressed(u8),
    /// Which keys went down since the last poll.
    JustPressed,
    /// A random byte.
    Random,
}

/// The whole state of a machine, as mathematics.
pub struct MachineState {
    pub platform: Platform,
    pub memory: MemoryState,
    /// The framebuffer, row by row.
    pub pixels: Seq<bool>,
    pub clock: ClockState,
    /// The register that awaits a key, while the machine waits for one.
    pub waiting: Option<u8>,
}

/// The value of a flag as a register holds it.
pub open spec fn flag(raised: bool) -> u8 {
    if raised {
        1
    } else {
        0
    }
}

impl MachineState {
    /// The machine's memory has its fixed size, the framebuffer matches the
    /// platform, and a machine that waits for a key stands at the
    /// instruction that made it wait.
    pub open spec fn wf(self) -> bool {
        &&& self.memory.wf()
        &&& self.memory.mem.len() == MEMORY_SIZE
        &&& self.pixels.len() == self.platform.spec_width() * self.platform.spec_height()
        &&& (self.waiting matches Some(x) ==> x < 16 && self.memory.in_bounds(
            self.memory.pc + 1,
        ))
    }

    /// The machine as it is built: the program at its start address, the
    /// program counter on it, everything else at rest.
    pub open spec fn loaded(platform: Platform, program: Seq<u8>, clock: ClockState) -> MachineState {
        MachineState {
            platform,
            memory: MemoryState::blank(MEMORY_SIZE as nat).write_slice(
                PROGRAM_START as int,
                program,
            ).write_pc(PROGRAM_START),
            pixels: blank_pixels(platform.spec_width() * platform.spec_height()),
            clock,
            waiting: None,
        }
    }

    pub open spec fn register(self, x: u8) -> u8 {
        self.memory.registers[x as int]
    }

    /// The address of the instruction after the current one.
    pub open spec fn next_pc(self) -> u16 {
        (self.memory.pc + 2) as u16
    }

    pub open spec fn jump(self, address: u16) -> MachineState {
        MachineState { memory: self.memory.write_pc(address), ..self }
    }

    /// The machine moved on to the next instruction.
    pub open spec fn advance(self) -> MachineState {
        self.jump(self.next_pc())
    }

    /// The machine moved on, past one more instruction if `skip` holds.
    pub open spec fn advance_or_skip(self, skip: bool) -> MachineState {
        if skip {
            self.advance().advance()
        } else {
            self.advance()
        }
    }

    pub open spec fn set_register(self, x: u8, value: u8) -> MachineState {
        MachineState { memory: self.memory.write_register(x as int, value), ..self }
    }

    /// Register `x` set to `value`, and after that the flag register to
    /// the flag: where `x` is the flag register, the flag stays.
    pub open spec fn set_register_and_flag(self, x: u8, value: u8, raised: bool) -> MachineState {
        self.set_register(x, value).set_register(FLAG_REGISTER, flag(raised))
    }

    /// The register that a shift reads.
    pub open spec fn shift_source(self, x: u8, y: u8) -> u8 {
        if self.platform.spec_shift_reads_source() {
            self.register(y)
        } else {
            self.register(x)
        }
    }

    /// The register that offsets a computed jump to `address`.
    pub open spec fn jump_offset(self, address: u16) -> u8 {
        if self.platform.spec_jump_offset_from_v0() {
            self.register(0)
        } else {
            self.register((address / 256) as u8)
        }
    }

    /// The sprite of `rows` rows at the index register, placed where
    /// registers `x` and `y` say.
    pub open spec fn sprite(self, x: u8, y: u8, rows: u8) -> Sprite {
        Sprite::place(
            self.platform,
            Seq::new(rows as nat, |row: int| self.memory.mem[self.memory.index_register + row]),
            self.register(x),
            self.register(y),
        )
    }

    /// Memory with registers 0 to `x` stored from the index register on.
    pub open spec fn registers_stored(self, x: u8) -> Seq<u8> {
        let start = self.memory.index_register as int;
        Seq::new(
            self.memory.mem.len(),
            |a: int|
                if start <= a <= start + x {
                    self.memory.registers[a - start]
                } else {
                    self.memory.mem[a]
                },
        )
    }

    /// The registers with 0 to `x` loaded from the index register on.
    pub open spec fn registers_loaded(self, x: u8) -> Seq<u8> {
        let start = self.memory.index_register as int;
        Seq::new(
            16,
            |r: int|
                if r <= x {
                    self.memory.mem[start + r]
                } else {
                    self.memory.registers[r]
                },
        )
    }

    /// Memory with the three decimal digits of `value` stored from the
    /// index register on, the hundreds first.
    pub open spec fn decimal_stored(self, value: u8) -> Seq<u8> {
        let start = self.memory.index_register as int;
        self.memory.mem.update(start, value / 100).update(start + 1, (value / 10) % 10).update(
            start + 2,
            value % 10,
        )
    }

    /// The outcome of running `instruction` on a machine that stands on it
    /// and does not wait: the next state, or the error that stops the
    /// machine.
    pub open spec fn execute(self, instruction: Instruction, input: Input) -> Result<
        MachineState,
        EmulatorError,
    > {
        let index = self.memory.index_register as int;
        match instruction {
            Instruction::ClearDisplay => Ok(
                MachineState { pixels: blank_pixels(self.pixels.len()), ..self }.advance(),
            ),
            Instruction::Return => if self.memory.stack.len() == 0 {
                Err(EmulatorError::StackUnderflow)
            } else {
                Ok(
                    MachineState { memory: self.memory.pop_stack(), ..self }.jump(
                        self.memory.stack.last(),
                    ),
                )
            },
            Instruction::Jump { address } => Ok(self.jump(address)),
            Instruction::Call { address } => Ok(
                MachineState { memory: self.memory.push_stack(self.next_pc()), ..self }.jump(
                    address,
                ),
            ),
            Instruction::SkipIfEqual { x, value } => Ok(
                self.advance_or_skip(self.register(x) == value),
            ),
            Instruction::SkipIfNotEqual { x, value } => Ok(
                self.advance_or_skip(self.register(x) != value),
            ),
            Instruction::SkipIfRegistersEqual { x, y } => Ok(
                self.advance_or_skip(self.register(x) == self.register(y)),
            ),
            Instruction::Load { x, value } => Ok(self.set_register(x, value).advance()),
            Instruction::AddImmediate { x, value } => Ok(
                self.set_register(x, ((self.register(x) + value) % 256) as u8).advance(),
            ),
            Instruction::Copy { x, y } => Ok(self.set_register(x, self.register(y)).advance()),
            Instruction::Or { x, y } => Ok(
                self.set_register(x, self.register(x) | self.register(y)).advance(),
            ),
            Instruction::And { x, y } => Ok(
                self.set_register(x, self.register(x) & self.register(y)).advance(),
            ),
            Instruction::Xor { x, y } => Ok(
                self.set_register(x, self.register(x) ^ self.register(y)).advance(),
            ),
            Instruction::AddRegisters { x, y } => Ok(
                self.set_register_and_flag(
                    x,
                    ((self.register(x) + self.register(y)) % 256) as u8,
                    self.register(x) + self.register(y) > 255,
                ).advance(),
            ),
            Instruction::Subtract { x, y } => Ok(
                self.set_register_and_flag(
                    x,
                    ((self.register(x) - self.register(y)) % 256) as u8,
                    self.register(x) >= self.register(y),
                ).advance(),
            ),
            Instruction::ShiftRight { x, y } => Ok(
                self.set_register_and_flag(
                    x,
                    self.shift_source(x, y) / 2,
                    self.shift_source(x, y) % 2 == 1,
                ).advance(),
            ),
            Instruction::SubtractReversed { x, y } => Ok(
                self.set_register_and_flag(
                    x,
                    ((self.register(y) - self.register(x)) % 256) as u8,
                    self.register(y) >= self.register(x),
                ).advance(),
            ),
            Instruction::ShiftLeft { x, y } => Ok(
                self.set_register_and_flag(
                    x,
                    ((self.shift_source(x, y) * 2) % 256) as u8,
                    self.shift_source(x, y) >= 128,
                ).advance(),
            ),
            Instruction::SkipIfRegistersNotEqual { x, y } => Ok(
                self.advance_or_skip(self.register(x) != self.register(y)),
            ),
            Instruction::LoadIndex { address } => Ok(
                MachineState { memory: self.memory.write_index_register(address), ..self }.advance(),
            ),
            Instruction::JumpWithOffset { address } => Ok(
                self.jump((address + self.jump_offset(address)) as u16),
            ),
            Instruction::Random { x, mask } => Ok(
                self.set_register(x, input.random & mask).advance(),
            ),
            Instruction::Draw { x, y, rows } => if rows > 0 && !self.memory.in_bounds(
                index + rows - 1,
            ) {
                Err(EmulatorError::OutOfBounds)
            } else {
                let sprite = self.sprite(x, y, rows);
                Ok(
                    MachineState {
                        pixels: sprite.draw(self.platform, self.pixels),
                        ..self
                    }.set_register(
                        FLAG_REGISTER,
                        flag(sprite.collides(self.platform, self.pixels)),
                    ).advance(),
                )
            },
            Instruction::SkipIfKeyPressed { x } => Ok(self.advance_or_skip(input.key_pressed)),
            Instruction::SkipIfKeyNotPressed { x } => Ok(self.advance_or_skip(!input.key_pressed)),
            Instruction::LoadDelayTimer { x } => Ok(
                self.set_register(x, self.clock.delay_timer).advance(),
            ),
            Instruction::WaitForKey { x } => match input.just_pressed {
                Some(key) => Ok(self.set_register(x, key).advance()),
                None => Ok(MachineState { waiting: Some(x), ..self }),
            },
            Instruction::SetDelayTimer { x } => Ok(
                MachineState { clock: self.clock.set_delay_timer(self.register(x)), ..self }.advance(),
            ),
            Instruction::SetSoundTimer { x } => Ok(
                MachineState { clock: self.clock.set_sound_timer(self.register(x)), ..self }.advance(),
            ),
            Instruction::AddToIndex { x } => Ok(
                MachineState {
                    memory: self.memory.write_index_register(
                        ((self.memory.index_register + self.register(x)) % 65536) as u16,
                    ),
                    ..self
                }.advance(),
            ),
            Instruction::StoreDecimal { x } => if !self.memory.in_bounds(index + 2) {
                Err(EmulatorError::OutOfBounds)
            } else {
                Ok(
                    MachineState {
                        memory: MemoryState {
                            mem: self.decimal_stored(self.register(x)),
                            ..self.memory
                        },
                        ..self
                    }.advance(),
                )
            },
            Instruction::StoreRegisters { x } => if !self.memory.in_bounds(index + x) {
                Err(EmulatorError::OutOfBounds)
            } else {
                Ok(
                    MachineState {
                        memory: MemoryState { mem: self.registers_stored(x), ..self.memory },
                        ..self
                    }.advance(),
                )
            },
            Instruction::LoadRegisters { x } => if !self.memory.in_bounds(index + x) {
                Err(EmulatorError::OutOfBounds)
            } else {
                Ok(
                    MachineState {
                        memory: MemoryState { registers: self.registers_loaded(x), ..self.memory },
                        ..self
                    }.advance(),
                )
            },
        }
    }

    /// Whether a step on `input` gives the result `r` and leaves the machine
    /// as `after`: a step that fails changes nothing.
    pub open spec fn steps_to(
        self,
        input: Input,
        r: Result<(), EmulatorError>,
        after: MachineState,
    ) -> bool {
        match self.step(input) {
            Ok(next) => r is Ok && after == next,
            Err(error) => r == Err::<(), EmulatorError>(error) && after == self,
        }
    }

    /// Whether a step on `input`, followed where it succeeds by a tick of
    /// the timers on `reading`, gives the result `r` and leaves the machine
    /// as `after`.
    pub open spec fn ticks_to(
        self,
        input: Input,
        reading: Option<nat>,
        r: Result<(), EmulatorError>,
        after: MachineState,
    ) -> bool {
        match self.step(input) {
            Ok(next) => r is Ok && after == (MachineState {
                clock: next.clock.tick_on(reading),
                ..next
            }),
            Err(error) => r == Err::<(), EmulatorError>(error) && after == self,
        }
    }

    /// The outcome of one step: a machine that waits for a key goes on once
    /// a key went down; any other fetches the instruction at the program
    /// counter, decodes it and runs it.
    pub open spec fn step(self, input: Input) -> Result<MachineState, EmulatorError> {
        match self.waiting {
            Some(x) => match input.just_pressed {
                Some(key) => Ok(
                    MachineState { waiting: None, ..self }.set_register(x, key).advance(),
                ),
                None => Ok(self),
            },
            None => if !self.memory.in_bounds(self.memory.pc + 1) {
                Err(EmulatorError::OutOfBounds)
            } else {
                match decode_spec(self.memory.read_u16(self.memory.pc as int)) {
                    Some(instruction) => self.execute(instruction, input),
                    None => Err(
                        EmulatorError::UnknownInstruction(
                            self.memory.read_u16(self.memory.pc as int),
                        ),
                    ),
                }
            },
        }
    }

    /// What the next step has to be told.
    pub open spec fn query(self) -> Query {
        match self.waiting {
            Some(x) => Query::JustPressed,
            None => if !self.memory.in_bounds(self.memory.pc + 1) {
                Query::Nothing
            } else {
                match decode_spec(self.memory.read_u16(self.memory.pc as int)) {
                    Some(Instruction::SkipIfKeyPressed { x }) => Query::KeyPressed(
                        self.register(x),
                    ),
                    Some(Instruction::SkipIfKeyNotPressed { x }) => Query::KeyPressed(
                        self.register(x),
                    ),
                    Some(Instruction::WaitForKey { x }) => Query::JustPressed,
                    Some(Instruction::Random { x, mask }) => Query::Random,
                    _ => Query::Nothing,
                }
            },
        }
    }

    /// The machine after one step on each of `inputs`, in order, as long as
    /// no step fails.
    pub open spec fn run(self, inputs: Seq<Input>) -> Result<MachineState, EmulatorError>
        decreases inputs.len(),
    {
        if inputs.len() == 0 {
            Ok(self)
        } else {
            match self.run(inputs.drop_last()) {
                Ok(state) => state.step(inputs.last()),
                Err(error) => Err(error),
            }
        }
    }
}

/// Running an instruction on a well-formed machine that stands on it
/// leaves a well-formed machine on the same platform.
pub proof fn lemma_execute_keeps_well_formed(
    state: MachineState,
    instruction: Instruction,
    input: Input,
)
    requires
        state.wf(),
        state.waiting is None,
        instruction.wf(),
        state.memory.in_bounds(state.memory.pc + 1),
    ensures
        state.execute(instruction, input) matches Ok(next) ==> next.wf() && next.platform
            == state.platform,
{
    match instruction {
        Instruction::Draw { x, y, rows } => {
            assert(state.sprite(x, y, rows).draw(state.platform, state.pixels).len()
                == state.pixels.len());
        },
        Instruction::StoreDecimal { x } => {},
        Instruction::StoreRegisters { x } => {},
        Instruction::LoadRegisters { x } => {},
        Instruction::WaitForKey { x } => {},
        Instruction::Return => {},
        Instruction::Call { address } => {},
        Instruction::ClearDisplay => {},
        _ => {},
    }
}

/// A well-formed machine stays well formed: whatever a step is told, the
/// state it leads to has the same memory size and framebuffer size, and a
/// machine that came to wait stands on the instruction that made it wait.
pub proof fn law_step_keeps_well_formed(state: MachineState, input: Input)
    requires
        state.wf(),
    ensures
        state.step(input) matches Ok(next) ==> next.wf() && next.platform == state.platform,
{
    if state.waiting is None && state.memory.in_bounds(state.memory.pc + 1) {
        let word = state.memory.read_u16(state.memory.pc as int);
        crate::instruction::lemma_decode_wf(word);
        match decode_spec(word) {
            Some(instruction) => {
                lemma_execute_keeps_well_formed(state, instruction, input);
            },
            None => {},
        }
    }
}

} // verus!
