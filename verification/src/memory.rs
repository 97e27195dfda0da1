use crate::error::EmulatorError;
use vstd::prelude::*;

verus! {

/// The mathematical content of a [`Memory`]: what its operations read and
/// change, free of machine representation.
pub struct MemoryState {
    /// The addressable bytes, by address.
    pub mem: Seq<u8>,
    /// The sixteen general registers; the last one doubles as the flag.
    pub registers: Seq<u8>,
    /// The pointer for indirect memory access.
    pub index_register: u16,
    /// The return addresses, the most recent call last.
    pub stack: Seq<u16>,
    /// The address of the next instruction.
    pub pc: u16,
}

impl MemoryState {
    /// A state store has exactly sixteen general registers.
    pub open spec fn wf(self) -> bool {
        self.registers.len() == 16
    }

    /// The store as it is created: `size` zero bytes, zero registers, an
    /// empty stack.
    pub open spec fn blank(size: nat) -> MemoryState {
        MemoryState {
            mem: Seq::new(size, |i: int| 0u8),
            registers: Seq::new(16, |i: int| 0u8),
            index_register: 0,
            stack: Seq::empty(),
            pc: 0,
        }
    }

    /// Whether `index` addresses a byte.
    pub open spec fn in_bounds(self, index: int) -> bool {
        0 <= index < self.mem.len()
    }

    pub open spec fn read_u8(self, index: int) -> u8 {
        self.mem[index]
    }

    pub open spec fn write_u8(self, index: int, data: u8) -> MemoryState {
        MemoryState { mem: self.mem.update(index, data), ..self }
    }

    /// The big-endian 16-bit value of the two bytes at `index` and `index + 1`.
    pub open spec fn read_u16(self, index: int) -> u16 {
        (self.mem[index] as int * 256 + self.mem[index + 1] as int) as u16
    }

    /// The store with `data` copied over the bytes from `index` on.
    pub open spec fn write_slice(self, index: int, data: Seq<u8>) -> MemoryState {
        MemoryState {
            mem: Seq::new(
                self.mem.len(),
                |i: int|
                    if index <= i < index + data.len() {
                        data[i - index]
                    } else {
                        self.mem[i]
                    },
            ),
            ..self
        }
    }

    pub open spec fn read_register(self, index: int) -> u8 {
        self.registers[index]
    }

    pub open spec fn write_register(self, index: int, value: u8) -> MemoryState {
        MemoryState { registers: self.registers.update(index, value), ..self }
    }

    pub open spec fn write_index_register(self, index: u16) -> MemoryState {
        MemoryState { index_register: index, ..self }
    }

    pub open spec fn write_pc(self, pc: u16) -> MemoryState {
        MemoryState { pc, ..self }
    }

    pub open spec fn push_stack(self, value: u16) -> MemoryState {
        MemoryState { stack: self.stack.push(value), ..self }
    }

    /// The store without its most recent return address.
    pub open spec fn pop_stack(self) -> MemoryState {
        MemoryState { stack: self.stack.drop_last(), ..self }
    }
}

/// The state store: byte-addressable memory, the register file, the index
/// register, the program counter and the call stack.
#[derive(Debug)]
pub struct Memory {
    mem: Vec<u8>,
    registers: [u8; 16],
    index_register: u16,
    stack: Vec<u16>,
    pc: u16,
}

impl View for Memory {
    type V = MemoryState;

    closed spec fn view(&self) -> MemoryState {
        MemoryState {
            mem: self.mem@,
            registers: self.registers@,
            index_register: self.index_register,
            stack: self.stack@,
            pc: self.pc,
        }
    }
}

impl Memory {
    /// Every store has sixteen registers, however it was reached.
    pub proof fn lemma_wf(&self)
        ensures
            self@.wf(),
    {
    }

    pub fn new(size: usize) -> (m: Memory)
        ensures
            m@ == MemoryState::blank(size as nat),
    {
        let m = Memory {
            mem: vec![0u8; size],
            registers: [0u8; 16],
            index_register: 0,
            stack: Vec::new(),
            pc: 0,
        };
        assert(m@.mem =~= MemoryState::blank(size as nat).mem);
        assert(m@.registers =~= MemoryState::blank(size as nat).registers);
        m
    }

    /// The number of addressable bytes.
    pub fn size(&self) -> (n: usize)
        ensures
            n == self@.mem.len(),
    {
        self.mem.len()
    }

    pub fn write_pc(&mut self, pc: u16)
        ensures
            final(self)@ == old(self)@.write_pc(pc),
    {
        self.pc = pc;
    }

    /// Moves the program counter back by one instruction.
    pub fn decrement_pc(&mut self)
        requires
            old(self)@.pc >= 2,
        ensures
            final(self)@ == old(self)@.write_pc((old(self)@.pc - 2) as u16),
    {
        self.pc = self.pc - 2;
    }

    /// Moves the program counter forward by one instruction.
    pub fn increment_pc(&mut self)
        requires
            old(self)@.pc + 2 <= u16::MAX,
        ensures
            final(self)@ == old(self)@.write_pc((old(self)@.pc + 2) as u16),
    {
        self.pc = self.pc + 2;
    }

    pub fn read_pc(&self) -> (pc: u16)
        ensures
            pc == self@.pc,
    {
        self.pc
    }

    /// Copies `data` into memory from `index` on, or changes nothing and
    /// fails if it does not fit.
    pub fn write_slice(&mut self, index: usize, data: &[u8]) -> (r: Result<(), EmulatorError>)
        ensures
            index + data@.len() <= old(self)@.mem.len() ==> r == Ok::<(), EmulatorError>(())
                && final(self)@ == old(self)@.write_slice(index as int, data@),
            index + data@.len() > old(self)@.mem.len() ==> r == Err::<(), EmulatorError>(
                EmulatorError::OutOfBounds,
            ) && final(self)@ == old(self)@,
    {
        let size = self.mem.len();
        if index > size || data.len() > size - index {
            return Err(EmulatorError::OutOfBounds);
        }
        let mut i: usize = 0;
        while i < data.len()
            invariant
                i <= data@.len(),
                index + data@.len() <= size,
                size == self.mem@.len(),
                self.mem@.len() == old(self).mem@.len(),
                self.registers == old(self).registers,
                self.index_register == old(self).index_register,
                self.stack == old(self).stack,
                self.pc == old(self).pc,
                forall|j: int|
                    0 <= j < size ==> self.mem@[j] == if index <= j < index + i {
                        data@[j - index]
                    } else {
                        old(self).mem@[j]
                    },
            decreases data@.len() - i,
        {
            self.mem[index + i] = data[i];
            i = i + 1;
        }
        assert(self.mem@ =~= old(self)@.write_slice(index as int, data@).mem);
        Ok(())
    }

    pub fn read_u8(&self, index: usize) -> (r: Result<u8, EmulatorError>)
        ensures
            self@.in_bounds(index as int) ==> r == Ok::<u8, EmulatorError>(
                self@.read_u8(index as int),
            ),
            !self@.in_bounds(index as int) ==> r == Err::<u8, EmulatorError>(
                EmulatorError::OutOfBounds,
            ),
    {
        if index < self.mem.len() {
            Ok(self.mem[index])
        } else {
            Err(EmulatorError::OutOfBounds)
        }
    }

    pub fn write_u8(&mut self, index: usize, data: u8) -> (r: Result<(), EmulatorError>)
        ensures
            old(self)@.in_bounds(index as int) ==> r == Ok::<(), EmulatorError>(())
                && final(self)@ == old(self)@.write_u8(index as int, data),
            !old(self)@.in_bounds(index as int) ==> r == Err::<(), EmulatorError>(
                EmulatorError::OutOfBounds,
            ) && final(self)@ == old(self)@,
    {
        if index < self.mem.len() {
            self.mem[index] = data;
            Ok(())
        } else {
            Err(EmulatorError::OutOfBounds)
        }
    }

    /// Reads two adjacent bytes as one value, the most significant first.
    pub fn read_u16(&self, index: usize) -> (r: Result<u16, EmulatorError>)
        ensures
            self@.in_bounds(index + 1) ==> r == Ok::<u16, EmulatorError>(
                self@.read_u16(index as int),
            ),
            !self@.in_bounds(index + 1) ==> r == Err::<u16, EmulatorError>(
                EmulatorError::OutOfBounds,
            ),
    {
        let size = self.mem.len();
        if size < 2 || index > size - 2 {
            return Err(EmulatorError::OutOfBounds);
        }
        let high: u16 = self.mem[index] as u16;
        let low: u16 = self.mem[index + 1] as u16;
        Ok(high * 256 + low)
    }

    pub fn registers(&self) -> (r: &[u8; 16])
        ensures
            r@ == self@.registers,
    {
        &self.registers
    }

    pub fn read_register(&self, index: usize) -> (value: u8)
        requires
            index < 16,
        ensures
            value == self@.read_register(index as int),
    {
        self.registers[index]
    }

    pub fn write_register(&mut self, index: usize, values: u8)
        requires
            index < 16,
        ensures
            final(self)@ == old(self)@.write_register(index as int, values),
    {
        self.registers[index] = values;
    }

    pub fn read_index_register(&self) -> (index: u16)
        ensures
            index == self@.index_register,
    {
        self.index_register
    }

    pub fn write_index_register(&mut self, index: u16)
        ensures
            final(self)@ == old(self)@.write_index_register(index),
    {
        self.index_register = index;
    }

    pub fn push_stack(&mut self, value: u16)
        ensures
            final(self)@ == old(self)@.push_stack(value),
    {
        self.stack.push(value);
    }

    /// Takes the most recent return address off the stack, or changes
    /// nothing and fails if there is none.
    pub fn pop_stack(&mut self) -> (r: Result<u16, EmulatorError>)
        ensures
            old(self)@.stack.len() > 0 ==> r == Ok::<u16, EmulatorError>(old(self)@.stack.last())
                && final(self)@ == old(self)@.pop_stack(),
            old(self)@.stack.len() == 0 ==> r == Err::<u16, EmulatorError>(
                EmulatorError::StackUnderflow,
            ) && final(self)@ == old(self)@,
    {
        match self.stack.pop() {
            Some(value) => Ok(value),
            None => Err(EmulatorError::StackUnderflow),
        }
    }
}

/// The `position`-th 4-bit nibble of `value`, counted from the most
/// significant one.
pub open spec fn nibble(value: u16, position: int) -> int {
    if position == 0 {
        value as int / 4096
    } else if position == 1 {
        (value as int / 256) % 16
    } else if position == 2 {
        (value as int / 16) % 16
    } else {
        value as int % 16
    }
}

/// Splits a 16-bit value into its four nibbles, the most significant first.
pub fn u16_to_u4_array(value: u16) -> (nibbles: [u8; 4])
    ensures
        forall|k: int| 0 <= k < 4 ==> nibbles@[k] as int == #[trigger] nibble(value, k),
        nibbles@[0] * 4096 + nibbles@[1] * 256 + nibbles@[2] * 16 + nibbles@[3] == value,
{
    let nibbles: [u8; 4] = [
        (value / 4096) as u8,
        ((value / 256) % 16) as u8,
        ((value / 16) % 16) as u8,
        (value % 16) as u8,
    ];
    nibbles
}

/// Values that join into one 16-bit value.
pub trait ToU16: Sized {
    /// The joined value, as a number.
    spec fn joined_u16(self) -> int;

    fn to_u16(self) -> (r: u16)
        requires
            self.joined_u16() <= u16::MAX,
        ensures
            r == self.joined_u16(),
    ;
}

/// Three nibbles, the most significant first, join into a 12-bit address.
impl ToU16 for (u8, u8, u8) {
    open spec fn joined_u16(self) -> int {
        self.0 * 256 + self.1 * 16 + self.2
    }

    fn to_u16(self) -> (r: u16) {
        let high: u16 = self.0 as u16;
        let middle: u16 = self.1 as u16;
        let low: u16 = self.2 as u16;
        high * 256 + middle * 16 + low
    }
}

/// Values that join into one byte.
pub trait ToU8: Sized {
    /// The joined value, as a number.
    spec fn joined_u8(self) -> int;

    fn to_u8(self) -> (r: u8)
        requires
            self.joined_u8() <= u8::MAX,
        ensures
            r == self.joined_u8(),
    ;
}

/// Two nibbles, the high one first, join into a byte. Of the first
/// component only the low nibble counts.
impl ToU8 for (u8, u8) {
    open spec fn joined_u8(self) -> int {
        (self.0 % 16) * 16 + self.1
    }

    fn to_u8(self) -> (r: u8) {
        let high: u8 = (self.0 % 16) * 16;
        high + self.1
    }
}

/// A register holds what was last written to it: after
/// `write_register(r, v)`, `read_register(r)` is `v`, for each of the
/// sixteen registers; every other register keeps its value.
pub proof fn law_register_write_then_read(state: MemoryState, r: int, v: u8)
    requires
        state.wf(),
        0 <= r < 16,
    ensures
        state.write_register(r, v).read_register(r) == v,
        state.write_register(r, v).wf(),
        forall|other: int|
            0 <= other < 16 && other != r ==> state.write_register(r, v).read_register(other)
                == state.read_register(other),
{
}

} // verus!
