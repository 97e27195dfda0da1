use vstd::prelude::*;

verus! {

/// Whether the coordinates name a pixel of a grid `width` wide and `height`
/// high.
pub open spec fn in_grid(width: nat, height: nat, x: int, y: int) -> bool {
    0 <= x < width && 0 <= y < height
}

/// The place of the pixel at column `x`, row `y` in a row-major grid
/// `width` wide.
pub open spec fn grid_index(width: nat, x: int, y: int) -> int {
    y * width + x
}

/// A grid with no pixel set.
pub open spec fn blank_pixels(len: nat) -> Seq<bool> {
    Seq::new(len, |i: int| false)
}

/// The grid after toggling the pixel at (`x`, `y`); coordinates off the
/// grid leave it as it is.
pub open spec fn grid_flip(pixels: Seq<bool>, width: nat, height: nat, x: int, y: int) -> Seq<
    bool,
> {
    if in_grid(width, height, x, y) {
        pixels.update(grid_index(width, x, y), !pixels[grid_index(width, x, y)])
    } else {
        pixels
    }
}

/// A pixel of the grid has its place inside the row-major sequence.
pub proof fn lemma_grid_index_bounds(width: nat, height: nat, x: int, y: int)
    requires
        in_grid(width, height, x, y),
    ensures
        0 <= grid_index(width, x, y) < width * height,
{
    let w = width as int;
    let h = height as int;
    assert(y * w + x < w * h) by (nonlinear_arith)
        requires
            0 <= x < w,
            0 <= y < h,
    ;
    assert(0 <= y * w) by (nonlinear_arith)
        requires
            0 <= y,
            0 <= w,
    ;
}

/// The mathematical content of a [`Display`].
pub struct DisplayState {
    /// The pixels, row by row.
    pub pixels: Seq<bool>,
    pub width: nat,
    pub height: nat,
}

impl DisplayState {
    /// The grid holds one pixel for each place.
    pub open spec fn wf(self) -> bool {
        self.pixels.len() == self.width * self.height
    }

    pub open spec fn blank(width: nat, height: nat) -> DisplayState {
        DisplayState { pixels: blank_pixels(width * height), width, height }
    }

    pub open spec fn flip_pixel(self, x: int, y: int) -> DisplayState {
        DisplayState { pixels: grid_flip(self.pixels, self.width, self.height, x, y), ..self }
    }

    pub open spec fn clear(self) -> DisplayState {
        DisplayState { pixels: blank_pixels(self.pixels.len()), ..self }
    }
}

/// A monochrome pixel grid of a size chosen when it is made.
#[derive(Debug)]
pub struct Display {
    pixels: Vec<bool>,
    width: usize,
    height: usize,
}

impl View for Display {
    type V = DisplayState;

    closed spec fn view(&self) -> DisplayState {
        DisplayState {
            pixels: self.pixels@,
            width: self.width as nat,
            height: self.height as nat,
        }
    }
}

impl Display {
    /// A grid of `width` by `height` pixels, none of them set. The number
    /// of pixels has to be one that the machine can count.
    pub fn new(width: usize, height: usize) -> (display: Display)
        requires
            width * height <= usize::MAX,
        ensures
            display@ == DisplayState::blank(width as nat, height as nat),
            display@.wf(),
    {
        let display = Display { pixels: vec![false; width * height], width, height };
        assert(display@.pixels =~= blank_pixels((width * height) as nat));
        display
    }

    pub fn width(&self) -> (width: usize)
        ensures
            width == self@.width,
    {
        self.width
    }

    pub fn height(&self) -> (height: usize)
        ensures
            height == self@.height,
    {
        self.height
    }

    /// Toggles the pixel at (`x`, `y`); coordinates off the grid change
    /// nothing.
    pub fn flip_pixel(&mut self, x: usize, y: usize)
        requires
            old(self)@.wf(),
        ensures
            final(self)@ == old(self)@.flip_pixel(x as int, y as int),
            final(self)@.wf(),
    {
        if x >= self.width || y >= self.height {
            return ;
        }
        let len = self.pixels.len();
        proof {
            lemma_grid_index_bounds(self.width as nat, self.height as nat, x as int, y as int);
            assert(grid_index(self.width as nat, x as int, y as int) == y * self.width + x);
            assert(0 <= y * self.width) by (nonlinear_arith);
            assert(y * self.width + x < len);
        }
        let place: usize = y * self.width + x;
        let was_set = self.pixels[place];
        self.pixels[place] = !was_set;
    }

    /// The whole grid, row by row, for reading.
    pub fn pixels(&self) -> (pixels: &[bool])
        ensures
            pixels@ == self@.pixels,
    {
        self.pixels.as_slice()
    }

    /// Resets every pixel to unset.
    pub fn clear(&mut self)
        ensures
            final(self)@ == old(self)@.clear(),
    {
        let mut i: usize = 0;
        while i < self.pixels.len()
            invariant
                i <= self.pixels@.len(),
                self.pixels@.len() == old(self).pixels@.len(),
                self.width == old(self).width,
                self.height == old(self).height,
                forall|j: int| 0 <= j < i ==> !self.pixels@[j],
            decreases self.pixels@.len() - i,
        {
            self.pixels[i] = false;
            i = i + 1;
        }
        assert(self@.pixels =~= blank_pixels(old(self)@.pixels.len()));
    }
}

} // verus!
