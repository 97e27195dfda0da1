use crate::display::{blank_pixels, grid_flip, grid_index, in_grid, lemma_grid_index_bounds};
use crate::platform::Platform;
use vstd::prelude::*;

verus! {

/// Whether the coordinates name a pixel of the platform's screen.
pub open spec fn on_screen(platform: Platform, x: int, y: int) -> bool {
    in_grid(platform.spec_width(), platform.spec_height(), x, y)
}

/// The place of the pixel at column `x`, row `y` in the platform's grid.
pub open spec fn pixel_index(platform: Platform, x: int, y: int) -> int {
    grid_index(platform.spec_width(), x, y)
}

/// The grid after toggling the pixel at (`x`, `y`); coordinates off the
/// screen leave it as it is.
pub open spec fn flip(pixels: Seq<bool>, platform: Platform, x: int, y: int) -> Seq<bool> {
    grid_flip(pixels, platform.spec_width(), platform.spec_height(), x, y)
}

/// Whether toggling the pixel at (`x`, `y`) turns off a pixel that was set.
pub open spec fn flip_collides(pixels: Seq<bool>, platform: Platform, x: int, y: int) -> bool {
    on_screen(platform, x, y) && pixels[pixel_index(platform, x, y)]
}

/// A pixel on the screen has its place inside the grid.
pub proof fn lemma_pixel_index_bounds(platform: Platform, x: int, y: int)
    requires
        on_screen(platform, x, y),
    ensures
        0 <= pixel_index(platform, x, y) < platform.spec_width() * platform.spec_height(),
{
    lemma_grid_index_bounds(platform.spec_width(), platform.spec_height(), x, y);
}

/// The framebuffer: a monochrome pixel grid, stored row by row.
#[derive(Debug)]
pub struct Gpu {
    pixels: Vec<bool>,
}

impl View for Gpu {
    type V = Seq<bool>;

    closed spec fn view(&self) -> Seq<bool> {
        self.pixels@
    }
}

impl Gpu {
    /// The grid has one pixel for each place on the platform's screen.
    pub open spec fn wf(&self, platform: Platform) -> bool {
        self@.len() == platform.spec_width() * platform.spec_height()
    }

    pub fn new(platform: Platform) -> (gpu: Gpu)
        ensures
            gpu.wf(platform),
            gpu@ == blank_pixels(platform.spec_width() * platform.spec_height()),
    {
        let gpu = Gpu { pixels: vec![false; platform.width() * platform.height()] };
        assert(gpu@ =~= blank_pixels(platform.spec_width() * platform.spec_height()));
        gpu
    }

    /// Toggles the pixel at (`x`, `y`) and tells whether that turned a set
    /// pixel off. Coordinates off the screen change nothing and report
    /// nothing.
    pub fn flip_pixel(&mut self, platform: Platform, x: usize, y: usize) -> (turned_off: bool)
        requires
            old(self).wf(platform),
        ensures
            final(self).wf(platform),
            final(self)@ == flip(old(self)@, platform, x as int, y as int),
            turned_off == flip_collides(old(self)@, platform, x as int, y as int),
    {
        if x >= platform.width() || y >= platform.height() {
            return false;
        }
        proof {
            lemma_pixel_index_bounds(platform, x as int, y as int);
        }
        let index: usize = y * platform.width() + x;
        let was_set = self.pixels[index];
        self.pixels[index] = !was_set;
        was_set
    }

    /// Resets every pixel to unset.
    pub fn clear(&mut self)
        ensures
            final(self)@ == blank_pixels(old(self)@.len()),
    {
        let mut i: usize = 0;
        while i < self.pixels.len()
            invariant
                i <= self.pixels@.len(),
                self.pixels@.len() == old(self).pixels@.len(),
                forall|j: int| 0 <= j < i ==> !self.pixels@[j],
            decreases self.pixels@.len() - i,
        {
            self.pixels[i] = false;
            i = i + 1;
        }
        assert(self@ =~= blank_pixels(old(self)@.len()));
    }

    /// The whole grid, row by row, for reading.
    pub fn pixels(&self) -> (pixels: &[bool])
        ensures
            pixels@ == self@,
    {
        self.pixels.as_slice()
    }
}

} // verus!
