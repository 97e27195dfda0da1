use crate::gpu::{flip, flip_collides, on_screen, pixel_index};
use crate::platform::Platform;
use vstd::prelude::*;

verus! {

/// Whether a sprite row has its bit for column `col` set. Column 0 is the
/// leftmost one and the most significant bit.
pub open spec fn sprite_bit(byte: u8, col: int) -> bool {
    0 <= col < 8 && bit_is_set(byte, col)
}

/// Whether the bit of `byte` that is `col` places below the most
/// significant one is set.
#[verifier::opaque]
pub open spec fn bit_is_set(byte: u8, col: int) -> bool {
    byte & (0x80u8 >> (col as u8)) != 0
}

/// A sprite placed on the screen: its rows, top first, and the position of
/// its top left corner.
pub struct Sprite {
    pub rows: Seq<u8>,
    pub x0: int,
    pub y0: int,
}

impl Sprite {
    /// The sprite that a draw instruction places: the position is taken
    /// from two register values, each wrapped onto the screen once.
    pub open spec fn place(platform: Platform, rows: Seq<u8>, vx: u8, vy: u8) -> Sprite {
        Sprite {
            rows,
            x0: vx as int % platform.spec_width() as int,
            y0: vy as int % platform.spec_height() as int,
        }
    }

    /// The column on the screen of the sprite's column `col`: columns wrap
    /// around the right edge.
    pub open spec fn target_x(self, platform: Platform, col: int) -> int {
        (self.x0 + col) % platform.spec_width() as int
    }

    /// The row on the screen of the sprite's row `row`: rows below the
    /// bottom edge are off the screen.
    pub open spec fn target_y(self, row: int) -> int {
        self.y0 + row
    }

    /// Whether the sprite has a set bit that lands on the pixel at
    /// (`px`, `py`). On a screen at least eight pixels wide at most one bit
    /// of the sprite lands on any pixel.
    pub open spec fn covers(self, platform: Platform, px: int, py: int) -> bool {
        let row = py - self.y0;
        let col = (px - self.x0) % platform.spec_width() as int;
        0 <= row < self.rows.len() && sprite_bit(self.rows[row], col)
    }

    /// Whether the sprite has a set bit that lands on the `i`-th pixel of
    /// the row-major grid.
    pub open spec fn covers_index(self, platform: Platform, i: int) -> bool {
        self.covers(platform, i % platform.spec_width() as int, i / platform.spec_width() as int)
    }

    /// The grid after the sprite is drawn: every pixel that a set bit lands
    /// on is toggled.
    pub open spec fn draw(self, platform: Platform, pixels: Seq<bool>) -> Seq<bool> {
        Seq::new(pixels.len(), |i: int| pixels[i] != self.covers_index(platform, i))
    }

    /// Whether drawing the sprite turns off a pixel that was set.
    pub open spec fn collides(self, platform: Platform, pixels: Seq<bool>) -> bool {
        exists|i: int| 0 <= i < pixels.len() && pixels[i] && #[trigger] self.covers_index(platform, i)
    }

    /// Whether one of the sprite's bits drawn so far lands on the `i`-th
    /// pixel, when the rows before `row_count` are drawn in full and of row
    /// `row_count` the columns before `col_count`.
    pub open spec fn covers_so_far(
        self,
        platform: Platform,
        row_count: int,
        col_count: int,
        i: int,
    ) -> bool {
        let w = platform.spec_width() as int;
        let row = i / w - self.y0;
        let col = (i % w - self.x0) % w;
        self.covers_index(platform, i) && (row < row_count || (row == row_count && col
            < col_count))
    }

    /// The grid when the sprite is drawn as far as `covers_so_far` says.
    pub open spec fn draw_so_far(
        self,
        platform: Platform,
        pixels: Seq<bool>,
        row_count: int,
        col_count: int,
    ) -> Seq<bool> {
        Seq::new(
            pixels.len(),
            |i: int| pixels[i] != self.covers_so_far(platform, row_count, col_count, i),
        )
    }

    /// Whether the part of the sprite drawn so far turned off a pixel that
    /// was set.
    pub open spec fn collides_so_far(
        self,
        platform: Platform,
        pixels: Seq<bool>,
        row_count: int,
        col_count: int,
    ) -> bool {
        exists|i: int|
            0 <= i < pixels.len() && pixels[i] && #[trigger] self.covers_so_far(
                platform,
                row_count,
                col_count,
                i,
            )
    }
}

/// A column wraps onto a pixel column exactly if the pixel column, counted
/// from the sprite's corner and wrapping, is that column.
proof fn lemma_wrap_inverse(w: int, x0: int, col: int, px: int)
    requires
        w == 64 || w == 128,
        0 <= x0 < w,
        0 <= col < 8,
        0 <= px < w,
    ensures
        ((x0 + col) % w == px) <==> ((px - x0) % w == col),
{
}

/// A set bit of the sprite lands on a pixel exactly if the pixel is the
/// target of that bit: the pixel at (`px`, `py`) is covered if and only if
/// some row and column of the sprite with a set bit has it as its target.
pub proof fn law_sprite_covers_its_targets(sprite: Sprite, platform: Platform, px: int, py: int)
    requires
        0 <= sprite.x0 < platform.spec_width(),
        0 <= px < platform.spec_width(),
    ensures
        sprite.covers(platform, px, py) <==> exists|row: int, col: int|
            0 <= row < sprite.rows.len() && #[trigger] sprite_bit(sprite.rows[row], col)
                && sprite.target_x(platform, col) == px && sprite.target_y(row) == py,
{
    let w = platform.spec_width() as int;
    if sprite.covers(platform, px, py) {
        let row = py - sprite.y0;
        let col = (px - sprite.x0) % w;
        assert(sprite_bit(sprite.rows[row], col));
        lemma_wrap_inverse(w, sprite.x0, col, px);
        assert(sprite.target_x(platform, col) == px && sprite.target_y(row) == py);
    }
    if exists|row: int, col: int|
        0 <= row < sprite.rows.len() && #[trigger] sprite_bit(sprite.rows[row], col)
            && sprite.target_x(platform, col) == px && sprite.target_y(row) == py {
        let (row, col) = choose|row: int, col: int|
            0 <= row < sprite.rows.len() && #[trigger] sprite_bit(sprite.rows[row], col)
                && sprite.target_x(platform, col) == px && sprite.target_y(row) == py;
        lemma_wrap_inverse(w, sprite.x0, col, px);
        assert(row == py - sprite.y0);
        assert(sprite.covers(platform, px, py));
    }
}

/// On a screen `w` wide, the pixel in place `i` of the grid is the target of
/// the sprite bit at (`row`, `col`) exactly if, counted from the sprite's
/// corner, it lies `row` down and `col` to the right, wrapping.
proof fn lemma_target_place(w: int, h: int, x0: int, y0: int, row: int, col: int, i: int)
    requires
        w == 64 || w == 128,
        0 <= x0 < w,
        0 <= col < 8,
        0 <= i < w * h,
    ensures
        (i == (y0 + row) * w + (x0 + col) % w && y0 + row < h && 0 <= y0 + row) <==> (i / w - y0
            == row && (i % w - x0) % w == col),
{
    if w == 64 {
        assert(i == (i / 64) * 64 + i % 64);
        assert(i / 64 < h);
    } else {
        assert(i == (i / 128) * 128 + i % 128);
        assert(i / 128 < h);
    }
}

/// Drawing one more bit of a sprite: the pixels covered so far grow by the
/// target of the bit at (`row`, `col`), if that bit is set and its target
/// is on the screen, and by nothing else.
pub proof fn lemma_draw_one_bit(sprite: Sprite, platform: Platform, row: int, col: int, i: int)
    requires
        0 <= sprite.x0 < platform.spec_width(),
        0 <= sprite.y0,
        0 <= row < sprite.rows.len(),
        0 <= col < 8,
        0 <= i < platform.spec_width() * platform.spec_height(),
    ensures
        sprite.covers_so_far(platform, row, col + 1, i) == (sprite.covers_so_far(
            platform,
            row,
            col,
            i,
        ) || (sprite_bit(sprite.rows[row], col) && on_screen(
            platform,
            sprite.target_x(platform, col),
            sprite.target_y(row),
        ) && i == pixel_index(platform, sprite.target_x(platform, col), sprite.target_y(row)))),
        i == pixel_index(platform, sprite.target_x(platform, col), sprite.target_y(row))
            && on_screen(platform, sprite.target_x(platform, col), sprite.target_y(row))
            ==> !sprite.covers_so_far(platform, row, col, i),
{
    let w = platform.spec_width() as int;
    let h = platform.spec_height() as int;
    lemma_target_place(w, h, sprite.x0, sprite.y0, row, col, i);
    let tx = sprite.target_x(platform, col);
    assert(0 <= tx < w);
}

/// A row drawn in full is the start of the next row.
pub proof fn lemma_draw_row_done(sprite: Sprite, platform: Platform, row: int, i: int)
    ensures
        sprite.covers_so_far(platform, row, 8, i) == sprite.covers_so_far(platform, row + 1, 0, i),
{
}

/// Before the first bit nothing is covered; after the last row everything
/// is that the sprite covers.
pub proof fn lemma_draw_ends(sprite: Sprite, platform: Platform, i: int)
    requires
        0 <= sprite.y0,
        0 <= i,
    ensures
        !sprite.covers_so_far(platform, 0, 0, i),
        sprite.covers_so_far(platform, sprite.rows.len() as int, 0, i) == sprite.covers_index(
            platform,
            i,
        ),
{
    let w = platform.spec_width() as int;
    assert(w == 64 || w == 128);
}

/// One bit of the sprite drawn on top of what was drawn so far: toggling
/// the target of a set bit takes the grid, and the collision found so far,
/// from column `col` to column `col + 1` of row `row`.
pub proof fn lemma_draw_bit_step(
    sprite: Sprite,
    platform: Platform,
    before: Seq<bool>,
    row: int,
    col: int,
    current: Seq<bool>,
    collided: bool,
)
    requires
        0 <= sprite.x0 < platform.spec_width(),
        0 <= sprite.y0,
        0 <= row < sprite.rows.len(),
        0 <= col < 8,
        before.len() == platform.spec_width() * platform.spec_height(),
        current == sprite.draw_so_far(platform, before, row, col),
        collided == sprite.collides_so_far(platform, before, row, col),
    ensures
        ({
            let tx = sprite.target_x(platform, col);
            let ty = sprite.target_y(row);
            let hit = sprite_bit(sprite.rows[row], col);
            &&& 0 <= tx < platform.spec_width()
            &&& (if hit {
                flip(current, platform, tx, ty)
            } else {
                current
            }) == sprite.draw_so_far(platform, before, row, col + 1)
            &&& (collided || (hit && flip_collides(current, platform, tx, ty)))
                == sprite.collides_so_far(platform, before, row, col + 1)
        }),
{
    let tx = sprite.target_x(platform, col);
    let ty = sprite.target_y(row);
    let hit = sprite_bit(sprite.rows[row], col);
    let target = pixel_index(platform, tx, ty);
    let w = platform.spec_width() as int;
    assert(w == 64 || w == 128);
    assert(0 <= tx < w);
    let next = if hit {
        flip(current, platform, tx, ty)
    } else {
        current
    };
    let goal = sprite.draw_so_far(platform, before, row, col + 1);
    if on_screen(platform, tx, ty) {
        crate::gpu::lemma_pixel_index_bounds(platform, tx, ty);
    }
    assert forall|i: int| 0 <= i < before.len() implies next[i] == goal[i] by {
        lemma_draw_one_bit(sprite, platform, row, col, i);
    }
    assert(next =~= goal);
    let found = collided || (hit && flip_collides(current, platform, tx, ty));
    if sprite.collides_so_far(platform, before, row, col + 1) {
        let i = choose|i: int|
            0 <= i < before.len() && before[i] && #[trigger] sprite.covers_so_far(
                platform,
                row,
                col + 1,
                i,
            );
        lemma_draw_one_bit(sprite, platform, row, col, i);
        if sprite.covers_so_far(platform, row, col, i) {
            assert(collided);
        } else {
            assert(i == target);
            assert(current[i] == before[i]);
        }
        assert(found);
    }
    if collided {
        let i = choose|i: int|
            0 <= i < before.len() && before[i] && #[trigger] sprite.covers_so_far(
                platform,
                row,
                col,
                i,
            );
        lemma_draw_one_bit(sprite, platform, row, col, i);
        assert(sprite.covers_so_far(platform, row, col + 1, i));
    }
    if hit && flip_collides(current, platform, tx, ty) {
        lemma_draw_one_bit(sprite, platform, row, col, target);
        assert(current[target] == before[target]);
        assert(sprite.covers_so_far(platform, row, col + 1, target));
    }
}

/// A row drawn in full is the start of the next row, for the grid and for
/// the collision found so far.
pub proof fn lemma_draw_row_step(sprite: Sprite, platform: Platform, before: Seq<bool>, row: int)
    ensures
        sprite.draw_so_far(platform, before, row, 8) == sprite.draw_so_far(
            platform,
            before,
            row + 1,
            0,
        ),
        sprite.collides_so_far(platform, before, row, 8) == sprite.collides_so_far(
            platform,
            before,
            row + 1,
            0,
        ),
{
    assert forall|i: int|
        sprite.covers_so_far(platform, row, 8, i) == sprite.covers_so_far(
            platform,
            row + 1,
            0,
            i,
        ) by {
        lemma_draw_row_done(sprite, platform, row, i);
    }
    assert(sprite.draw_so_far(platform, before, row, 8) =~= sprite.draw_so_far(
        platform,
        before,
        row + 1,
        0,
    ));
    if sprite.collides_so_far(platform, before, row, 8) {
        let i = choose|i: int|
            0 <= i < before.len() && before[i] && #[trigger] sprite.covers_so_far(
                platform,
                row,
                8,
                i,
            );
        assert(sprite.covers_so_far(platform, row + 1, 0, i));
    }
    if sprite.collides_so_far(platform, before, row + 1, 0) {
        let i = choose|i: int|
            0 <= i < before.len() && before[i] && #[trigger] sprite.covers_so_far(
                platform,
                row + 1,
                0,
                i,
            );
        assert(sprite.covers_so_far(platform, row, 8, i));
    }
}

/// Drawing starts from the grid as it was, with no collision, and ends
/// with the sprite drawn in full.
pub proof fn lemma_draw_start_and_end(sprite: Sprite, platform: Platform, before: Seq<bool>)
    requires
        0 <= sprite.y0,
    ensures
        sprite.draw_so_far(platform, before, 0, 0) == before,
        !sprite.collides_so_far(platform, before, 0, 0),
        sprite.draw_so_far(platform, before, sprite.rows.len() as int, 0) == sprite.draw(
            platform,
            before,
        ),
        sprite.collides_so_far(platform, before, sprite.rows.len() as int, 0) == sprite.collides(
            platform,
            before,
        ),
{
    let n = sprite.rows.len() as int;
    assert forall|i: int| 0 <= i implies !sprite.covers_so_far(platform, 0, 0, i)
        && sprite.covers_so_far(platform, n, 0, i) == sprite.covers_index(platform, i) by {
        lemma_draw_ends(sprite, platform, i);
    }
    assert(sprite.draw_so_far(platform, before, 0, 0) =~= before);
    assert(sprite.draw_so_far(platform, before, n, 0) =~= sprite.draw(platform, before));
    if sprite.collides(platform, before) {
        let i = choose|i: int|
            0 <= i < before.len() && before[i] && #[trigger] sprite.covers_index(platform, i);
        assert(sprite.covers_so_far(platform, n, 0, i));
    }
    if sprite.collides_so_far(platform, before, n, 0) {
        let i = choose|i: int|
            0 <= i < before.len() && before[i] && #[trigger] sprite.covers_so_far(
                platform,
                n,
                0,
                i,
            );
        assert(sprite.covers_index(platform, i));
    }
}

} // verus!
