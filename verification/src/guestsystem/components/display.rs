//! The frame buffer: a grid of 64 by 32 pixels, and the blitting of sprites
//! onto it.

use vstd::prelude::*;

verus! {

/// The number of pixel columns.
pub const WIDTH: usize = 64;

/// The number of pixel rows.
pub const HEIGHT: usize = 32;

/// The number of pixels in one sprite row: one per bit of a byte.
pub const SPRITE_WIDTH: u8 = 8;

/// A grid has 64 columns of 32 pixels each; `grid[x][y]` is the pixel in
/// column `x` and row `y`.
pub open spec fn grid_wf(grid: Seq<Seq<bool>>) -> bool {
    &&& grid.len() == WIDTH
    &&& forall|x: int| 0 <= x < WIDTH ==> (#[trigger] grid[x]).len() == HEIGHT
}

/// The grid with every pixel off.
pub open spec fn blank_grid() -> Seq<Seq<bool>> {
    Seq::new(WIDTH as nat, |x: int| Seq::new(HEIGHT as nat, |y: int| false))
}

/// The weight of bit `column` of a byte, counting from the most
/// significant: 128 for column 0, down to 1 for column 7.
pub open spec fn column_weight(column: int) -> int {
    if column == 0 {
        128
    } else if column == 1 {
        64
    } else if column == 2 {
        32
    } else if column == 3 {
        16
    } else if column == 4 {
        8
    } else if column == 5 {
        4
    } else if column == 6 {
        2
    } else {
        1
    }
}

/// Whether a sprite row lights its pixel number `column`, counting from the
/// left: whether bit `column` of the byte is set.
pub open spec fn sprite_bit(byte: u8, column: int) -> bool {
    (byte as int / column_weight(column)) % 2 == 1
}

/// The sprite row that lands on pixel row `y` when the sprite is placed at
/// `y_coord`.  Rows do not wrap: below the placement the result is negative.
pub open spec fn sprite_row(y_coord: u8, y: int) -> int {
    y - (y_coord as int % HEIGHT as int)
}

/// The sprite column that lands on pixel column `x` when the sprite is
/// placed at `x_coord`.  Columns wrap around the right edge.
pub open spec fn sprite_column(x_coord: u8, x: int) -> int {
    (x - x_coord) % (WIDTH as int)
}

/// Whether the sprite, placed at `(x_coord, y_coord)`, has a set bit on the
/// pixel `(x, y)` of the grid.
pub open spec fn sprite_covers(sprite: Seq<u8>, x_coord: u8, y_coord: u8, x: int, y: int) -> bool {
    let row = sprite_row(y_coord, y);
    let column = sprite_column(x_coord, x);
    &&& 0 <= row < sprite.len()
    &&& column < SPRITE_WIDTH
    &&& sprite_bit(sprite[row], column)
}

/// The grid after the sprite was blitted onto it: every pixel that the
/// sprite covers is flipped, and no other.
pub open spec fn blitted(grid: Seq<Seq<bool>>, sprite: Seq<u8>, x_coord: u8, y_coord: u8) -> Seq<
    Seq<bool>,
> {
    Seq::new(
        WIDTH as nat,
        |x: int|
            Seq::new(
                HEIGHT as nat,
                |y: int| grid[x][y] != sprite_covers(sprite, x_coord, y_coord, x, y),
            ),
    )
}

/// Whether the sprite covers the pixel `(x, y)` and that pixel is on.
pub open spec fn hit(
    grid: Seq<Seq<bool>>,
    sprite: Seq<u8>,
    x_coord: u8,
    y_coord: u8,
    x: int,
    y: int,
) -> bool {
    grid[x][y] && sprite_covers(sprite, x_coord, y_coord, x, y)
}

/// Whether blitting the sprite turns some pixel off.
pub open spec fn collides(grid: Seq<Seq<bool>>, sprite: Seq<u8>, x_coord: u8, y_coord: u8) -> bool {
    exists|x: int, y: int|
        0 <= x < WIDTH && 0 <= y < HEIGHT && #[trigger] hit(grid, sprite, x_coord, y_coord, x, y)
}

/// Whether a blit that has finished `rows` sprite rows, and `columns`
/// pixels of the next, has come past the pixel `(x, y)`.
spec fn reached(x_coord: u8, y_coord: u8, x: int, y: int, rows: int, columns: int) -> bool {
    let row = sprite_row(y_coord, y);
    row < rows || (row == rows && sprite_column(x_coord, x) < columns)
}

/// Whether the pixel `(x, y)` of `current` is what such a blit has made of
/// that pixel of `grid`.
spec fn blitted_by(
    current: Seq<Seq<bool>>,
    grid: Seq<Seq<bool>>,
    sprite: Seq<u8>,
    x_coord: u8,
    y_coord: u8,
    rows: int,
    columns: int,
    x: int,
    y: int,
) -> bool {
    current[x][y] == (grid[x][y] != (sprite_covers(sprite, x_coord, y_coord, x, y) && reached(
        x_coord,
        y_coord,
        x,
        y,
        rows,
        columns,
    )))
}

/// Whether `current` is what such a blit has made of `grid`, and
/// `collision` tells whether it has turned a pixel off.
spec fn blit_in_progress(
    current: Seq<Seq<bool>>,
    collision: bool,
    grid: Seq<Seq<bool>>,
    sprite: Seq<u8>,
    x_coord: u8,
    y_coord: u8,
    rows: int,
    columns: int,
) -> bool {
    &&& grid_wf(current)
    &&& grid_wf(grid)
    &&& forall|x: int, y: int|
        0 <= x < WIDTH && 0 <= y < HEIGHT ==> #[trigger] blitted_by(
            current,
            grid,
            sprite,
            x_coord,
            y_coord,
            rows,
            columns,
            x,
            y,
        )
    &&& collision <==> exists|x: int, y: int|
        0 <= x < WIDTH && 0 <= y < HEIGHT && #[trigger] hit(grid, sprite, x_coord, y_coord, x, y)
            && reached(x_coord, y_coord, x, y, rows, columns)
}

/// A blit that has not begun has changed nothing.
proof fn lemma_blit_begins(grid: Seq<Seq<bool>>, sprite: Seq<u8>, x_coord: u8, y_coord: u8)
    requires
        grid_wf(grid),
    ensures
        blit_in_progress(grid, false, grid, sprite, x_coord, y_coord, 0, 0),
{
    assert forall|x: int, y: int| 0 <= x < WIDTH && 0 <= y < HEIGHT implies #[trigger] blitted_by(
        grid,
        grid,
        sprite,
        x_coord,
        y_coord,
        0,
        0,
        x,
        y,
    ) by {}
}

/// One pixel further: the blit flips the pixel that column `columns` of
/// sprite row `rows` lands on if the sprite has a bit there, and has then
/// turned a pixel off if it had before or does so now.
proof fn lemma_blit_pixel(
    before: Seq<Seq<bool>>,
    collided: bool,
    after: Seq<Seq<bool>>,
    grid: Seq<Seq<bool>>,
    sprite: Seq<u8>,
    x_coord: u8,
    y_coord: u8,
    rows: int,
    columns: int,
)
    requires
        blit_in_progress(before, collided, grid, sprite, x_coord, y_coord, rows, columns),
        0 <= rows < sprite.len(),
        y_coord % 32 + rows < HEIGHT,
        0 <= columns < SPRITE_WIDTH,
        ({
            let x = (x_coord % 64 + columns) % 64;
            let y = y_coord % 32 + rows;
            after == before.update(
                x,
                before[x].update(y, before[x][y] != sprite_bit(sprite[rows], columns)),
            )
        }),
    ensures
        ({
            let x = (x_coord % 64 + columns) % 64;
            let y = y_coord % 32 + rows;
            &&& before[x][y] == grid[x][y]
            &&& blit_in_progress(
                after,
                collided || (grid[x][y] && sprite_bit(sprite[rows], columns)),
                grid,
                sprite,
                x_coord,
                y_coord,
                rows,
                columns + 1,
            )
        }),
{
    let x = (x_coord % 64 + columns) % 64;
    let y = y_coord % 32 + rows;
    let bit = sprite_bit(sprite[rows], columns);
    assert(sprite_row(y_coord, y) == rows && sprite_column(x_coord, x) == columns);
    assert(blitted_by(before, grid, sprite, x_coord, y_coord, rows, columns, x, y));
    assert forall|px: int, py: int| 0 <= px < WIDTH && 0 <= py < HEIGHT implies #[trigger] blitted_by(
        after,
        grid,
        sprite,
        x_coord,
        y_coord,
        rows,
        columns + 1,
        px,
        py,
    ) by {
        assert(blitted_by(before, grid, sprite, x_coord, y_coord, rows, columns, px, py));
    }
    if collided {
        let (wx, wy) = choose|wx: int, wy: int|
            0 <= wx < WIDTH && 0 <= wy < HEIGHT && #[trigger] hit(
                grid,
                sprite,
                x_coord,
                y_coord,
                wx,
                wy,
            ) && reached(x_coord, y_coord, wx, wy, rows, columns);
        assert(hit(grid, sprite, x_coord, y_coord, wx, wy) && reached(
            x_coord,
            y_coord,
            wx,
            wy,
            rows,
            columns + 1,
        ));
    }
    if grid[x][y] && bit {
        assert(hit(grid, sprite, x_coord, y_coord, x, y) && reached(
            x_coord,
            y_coord,
            x,
            y,
            rows,
            columns + 1,
        ));
    }
}

/// A sprite row is eight pixels wide: past the eighth the row is finished.
proof fn lemma_blit_row(
    current: Seq<Seq<bool>>,
    collision: bool,
    grid: Seq<Seq<bool>>,
    sprite: Seq<u8>,
    x_coord: u8,
    y_coord: u8,
    rows: int,
)
    requires
        blit_in_progress(
            current,
            collision,
            grid,
            sprite,
            x_coord,
            y_coord,
            rows,
            SPRITE_WIDTH as int,
        ),
    ensures
        blit_in_progress(current, collision, grid, sprite, x_coord, y_coord, rows + 1, 0),
{
    assert forall|x: int, y: int| 0 <= x < WIDTH && 0 <= y < HEIGHT implies #[trigger] blitted_by(
        current,
        grid,
        sprite,
        x_coord,
        y_coord,
        rows + 1,
        0,
        x,
        y,
    ) by {
        assert(blitted_by(current, grid, sprite, x_coord, y_coord, rows, 8, x, y));
    }
    if collision {
        let (wx, wy) = choose|wx: int, wy: int|
            0 <= wx < WIDTH && 0 <= wy < HEIGHT && #[trigger] hit(
                grid,
                sprite,
                x_coord,
                y_coord,
                wx,
                wy,
            ) && reached(x_coord, y_coord, wx, wy, rows, 8);
        assert(hit(grid, sprite, x_coord, y_coord, wx, wy) && reached(
            x_coord,
            y_coord,
            wx,
            wy,
            rows + 1,
            0,
        ));
    }
}

/// Past the last sprite row, or the last pixel row, the blit is finished.
proof fn lemma_blit_ends(
    current: Seq<Seq<bool>>,
    collision: bool,
    grid: Seq<Seq<bool>>,
    sprite: Seq<u8>,
    x_coord: u8,
    y_coord: u8,
    rows: int,
)
    requires
        blit_in_progress(current, collision, grid, sprite, x_coord, y_coord, rows, 0),
        rows >= sprite.len() || y_coord % 32 + rows >= HEIGHT,
    ensures
        current == blitted(grid, sprite, x_coord, y_coord),
        collision == collides(grid, sprite, x_coord, y_coord),
{
    let finished = blitted(grid, sprite, x_coord, y_coord);
    assert forall|x: int| 0 <= x < WIDTH implies current[x] == finished[x] by {
        assert forall|y: int| 0 <= y < HEIGHT implies current[x][y] == finished[x][y] by {
            assert(blitted_by(current, grid, sprite, x_coord, y_coord, rows, 0, x, y));
        }
        assert(current[x] =~= finished[x]);
    }
    assert(current =~= finished);
    if collision {
        let (wx, wy) = choose|wx: int, wy: int|
            0 <= wx < WIDTH && 0 <= wy < HEIGHT && #[trigger] hit(
                grid,
                sprite,
                x_coord,
                y_coord,
                wx,
                wy,
            ) && reached(x_coord, y_coord, wx, wy, rows, 0);
        assert(hit(grid, sprite, x_coord, y_coord, wx, wy));
    }
    if collides(grid, sprite, x_coord, y_coord) {
        let (wx, wy) = choose|wx: int, wy: int|
            0 <= wx < WIDTH && 0 <= wy < HEIGHT && #[trigger] hit(
                grid,
                sprite,
                x_coord,
                y_coord,
                wx,
                wy,
            );
        assert(hit(grid, sprite, x_coord, y_coord, wx, wy) && reached(
            x_coord,
            y_coord,
            wx,
            wy,
            rows,
            0,
        ));
    }
}

/// A mask with a single bit, shifted to its column, tells whether the bit
/// of that column is set.
proof fn lemma_mask(byte: u8, column: u8)
    by (bit_vector)
    requires
        column < 8,
    ensures
        (byte & (0x80u8 >> column) != 0) == ((byte / (if column == 0 {
            128u8
        } else if column == 1 {
            64u8
        } else if column == 2 {
            32u8
        } else if column == 3 {
            16u8
        } else if column == 4 {
            8u8
        } else if column == 5 {
            4u8
        } else if column == 6 {
            2u8
        } else {
            1u8
        })) % 2 == 1),
{
}

/// The screen: its pixels, column by column.
#[derive(Debug)]
pub struct DisplayScreen {
    pixels: [[bool; HEIGHT]; WIDTH],
}

impl View for DisplayScreen {
    type V = Seq<Seq<bool>>;

    closed spec fn view(&self) -> Seq<Seq<bool>> {
        Seq::new(WIDTH as nat, |x: int| self.pixels@[x]@)
    }
}

impl DisplayScreen {
    /// Every screen shows a grid of 64 by 32 pixels.
    pub proof fn lemma_view_wf(&self)
        ensures
            grid_wf(self@),
    {
    }

    /// A screen with every pixel off.
    pub fn new() -> (screen: DisplayScreen)
        ensures
            screen@ == blank_grid(),
    {
        let screen = DisplayScreen { pixels: [[false; HEIGHT]; WIDTH] };
        assert(screen@ =~~= blank_grid());
        screen
    }

    /// Turns every pixel off.
    pub fn clear_screen(&mut self)
        ensures
            final(self)@ == blank_grid(),
    {
        self.pixels = [[false; HEIGHT]; WIDTH];
        assert(self@ =~~= blank_grid());
    }

    /// Whether the pixel in column `x` and row `y` is on.
    pub fn pixel(&self, x: u8, y: u8) -> (on: bool)
        requires
            x < WIDTH,
            y < HEIGHT,
        ensures
            on == self@[x as int][y as int],
    {
        self.pixels[x as usize][y as usize]
    }

    /// Blits `sprite`, one byte per row and the most significant bit
    /// leftmost, with its top left corner at column `x_coord % 64` and row
    /// `y_coord % 32`.  A set bit flips its pixel.  Columns past the right
    /// edge wrap to the left edge; rows past the bottom edge are dropped.
    /// Returns whether some pixel was turned off.
    pub fn display(&mut self, x_coord: u8, y_coord: u8, sprite: &[u8]) -> (collision: bool)
        ensures
            final(self)@ == blitted(old(self)@, sprite@, x_coord, y_coord),
            collision == collides(old(self)@, sprite@, x_coord, y_coord),
    {
        let x_start: u8 = x_coord % (WIDTH as u8);
        let y_start: u8 = y_coord % (HEIGHT as u8);
        let mut collision: bool = false;
        let mut row: usize = 0;
        proof {
            lemma_blit_begins(self@, sprite@, x_coord, y_coord);
        }
        while row < sprite.len() && y_start as usize + row < HEIGHT
            invariant
                x_start == x_coord % 64,
                y_start == y_coord % 32,
                row <= sprite@.len(),
                y_start + row <= HEIGHT,
                blit_in_progress(
                    self@,
                    collision,
                    old(self)@,
                    sprite@,
                    x_coord,
                    y_coord,
                    row as int,
                    0,
                ),
            decreases sprite@.len() - row,
        {
            let data: u8 = sprite[row];
            let y: u8 = y_start + row as u8;
            let mut column: u8 = 0;
            while column < SPRITE_WIDTH
                invariant
                    x_start == x_coord % 64,
                    y_start == y_coord % 32,
                    row < sprite@.len(),
                    data == sprite@[row as int],
                    y == y_start + row,
                    y < HEIGHT,
                    column <= SPRITE_WIDTH,
                    blit_in_progress(
                        self@,
                        collision,
                        old(self)@,
                        sprite@,
                        x_coord,
                        y_coord,
                        row as int,
                        column as int,
                    ),
                decreases SPRITE_WIDTH - column,
            {
                let x: u8 = (x_start + column) % (WIDTH as u8);
                let bit: bool = data & (0x80u8 >> column) != 0;
                let pixel: bool = self.pixels[x as usize][y as usize];
                let ghost before = self@;
                let ghost collided = collision;
                if bit && pixel {
                    self.erase_pixel(x, y);
                    collision = true;
                } else if bit && !pixel {
                    self.draw_pixel(x, y);
                }
                proof {
                    lemma_mask(data, column);
                    assert(self@ =~~= before.update(
                        x as int,
                        before[x as int].update(y as int, pixel != bit),
                    ));
                    lemma_blit_pixel(
                        before,
                        collided,
                        self@,
                        old(self)@,
                        sprite@,
                        x_coord,
                        y_coord,
                        row as int,
                        column as int,
                    );
                }
                column += 1;
            }
            proof {
                lemma_blit_row(
                    self@,
                    collision,
                    old(self)@,
                    sprite@,
                    x_coord,
                    y_coord,
                    row as int,
                );
            }
            row += 1;
        }
        proof {
            lemma_blit_ends(self@, collision, old(self)@, sprite@, x_coord, y_coord, row as int);
        }
        collision
    }

    /// Turns one pixel on.
    fn draw_pixel(&mut self, x: u8, y: u8)
        requires
            x < WIDTH,
            y < HEIGHT,
        ensures
            final(self)@ == old(self)@.update(x as int, old(self)@[x as int].update(y as int, true)),
    {
        self.pixels[x as usize][y as usize] = true;
        assert(self@ =~~= old(self)@.update(x as int, old(self)@[x as int].update(y as int, true)));
    }

    /// Turns one pixel off.
    fn erase_pixel(&mut self, x: u8, y: u8)
        requires
            x < WIDTH,
            y < HEIGHT,
        ensures
            final(self)@ == old(self)@.update(
                x as int,
                old(self)@[x as int].update(y as int, false),
            ),
    {
        self.pixels[x as usize][y as usize] = false;
        assert(self@ =~~= old(self)@.update(
            x as int,
            old(self)@[x as int].update(y as int, false),
        ));
    }
}

} // verus!
