use vstd::prelude::*;

verus! {

/// The platform variant that a machine is built for.
///
/// The variant fixes the size of the framebuffer and the two points on which
/// the historical interpreters of this instruction family disagree: which
/// register a shift reads, and which register offsets a computed jump.
#[derive(Clone, Copy, Debug, PartialEq, Eq, Structural)]
pub enum Platform {
    /// The COSMAC VIP interpreter: 64 by 32 pixels, a shift reads the second
    /// operand register, a computed jump is offset by register 0.
    Chip8,
    /// The SUPER-CHIP interpreter: 128 by 64 pixels, a shift reads the
    /// destination register itself, a computed jump is offset by the
    /// register that the high nibble of its address names.
    SuperChip,
}

impl Platform {
    /// The number of pixel columns.
    pub open spec fn spec_width(self) -> nat {
        match self {
            Platform::Chip8 => 64,
            Platform::SuperChip => 128,
        }
    }

    /// The number of pixel rows.
    pub open spec fn spec_height(self) -> nat {
        match self {
            Platform::Chip8 => 32,
            Platform::SuperChip => 64,
        }
    }

    /// Whether a shift takes its input from the second operand register
    /// (otherwise it shifts the destination register in place).
    pub open spec fn spec_shift_reads_source(self) -> bool {
        self == Platform::Chip8
    }

    /// Whether a computed jump is offset by register 0 (otherwise by the
    /// register named by the high nibble of the jump address).
    pub open spec fn spec_jump_offset_from_v0(self) -> bool {
        self == Platform::Chip8
    }

    pub fn width(&self) -> (w: usize)
        ensures
            w == self.spec_width(),
    {
        match self {
            Platform::Chip8 => 64,
            Platform::SuperChip => 128,
        }
    }

    pub fn height(&self) -> (h: usize)
        ensures
            h == self.spec_height(),
    {
        match self {
            Platform::Chip8 => 32,
            Platform::SuperChip => 64,
        }
    }

    pub fn shift_reads_source(&self) -> (b: bool)
        ensures
            b == self.spec_shift_reads_source(),
    {
        match self {
            Platform::Chip8 => true,
            Platform::SuperChip => false,
        }
    }

    pub fn jump_offset_from_v0(&self) -> (b: bool)
        ensures
            b == self.spec_jump_offset_from_v0(),
    {
        match self {
            Platform::Chip8 => true,
            Platform::SuperChip => false,
        }
    }
}

} // verus!
