//! The display: a 64×32 grid of monochrome pixels that is drawn on by
//! exclusive-or and wraps around at its edges.

use vstd::prelude::*;

verus! {

/// Number of pixel columns.
pub const COLS: usize = 64;

/// Number of pixel rows.
pub const ROWS: usize = 32;

/// Side of the square that stands for one pixel when the display is shown.
pub const PIXEL_SIZE: usize = 24;

/// Where the pixel at `row`, `col` is stored: rows and columns wrap around,
/// and rows are laid out one after another.
pub open spec fn pixel_index(row: int, col: int) -> int {
    (row % 32) * 64 + col % 64
}

/// Whether drawing `val` at `row`, `col` turns off a pixel that was lit.
pub open spec fn collides(pixels: Seq<bool>, row: int, col: int, val: bool) -> bool {
    pixels[pixel_index(row, col)] && val
}

/// The grid after `val` has been drawn at `row`, `col`: that one pixel is
/// flipped if `val` is set, and nothing else changes.
pub open spec fn toggled(pixels: Seq<bool>, row: int, col: int, val: bool) -> Seq<bool> {
    pixels.update(pixel_index(row, col), pixels[pixel_index(row, col)] != val)
}

/// The grid with every pixel off.
pub open spec fn blank() -> Seq<bool> {
    Seq::new(2048, |i: int| false)
}

/// A filled rectangle to be painted: its top-left corner and its size.
#[derive(Clone, Copy, Debug, PartialEq, Eq, Structural)]
pub struct Rect {
    pub x: usize,
    pub y: usize,
    pub w: usize,
    pub h: usize,
}

/// The square that shows the pixel stored at index `i`.
pub open spec fn cell(i: int) -> Rect {
    Rect { x: (i % 64 * 24) as usize, y: (i / 64 * 24) as usize, w: 24, h: 24 }
}

/// The squares of the lit pixels among the first `k` pixels, in storage order.
pub open spec fn lit_cells(pixels: Seq<bool>, k: int) -> Seq<Rect>
    decreases k,
{
    if k <= 0 {
        Seq::empty()
    } else if pixels[k - 1] {
        lit_cells(pixels, k - 1).push(cell(k - 1))
    } else {
        lit_cells(pixels, k - 1)
    }
}

/// The display buffer.
pub struct Screen {
    pixels: [bool; 2048],
}

impl View for Screen {
    type V = Seq<bool>;

    /// The pixels in storage order, row after row.
    closed spec fn view(&self) -> Seq<bool> {
        self.pixels@
    }
}

impl Screen {
    /// A display always has `ROWS * COLS` pixels.
    pub proof fn lemma_view_len(&self)
        ensures
            self@.len() == 2048,
    {
    }

    /// A blank display.
    pub fn new() -> (screen: Self)
        ensures
            screen@ == blank(),
    {
        Screen { pixels: [false; 2048] }
    }

    /// Draws `val` at `row`, `col` by exclusive-or, wrapping both coordinates
    /// into the grid. Returns 1 if that turned a lit pixel off, else 0.
    pub fn set(&mut self, row: usize, col: usize, val: bool) -> (hit: u8)
        ensures
            hit == if collides(old(self)@, row as int, col as int, val) { 1u8 } else { 0u8 },
            final(self)@ == toggled(old(self)@, row as int, col as int, val),
    {
        let row_: usize = row % ROWS;
        let col_: usize = col % COLS;
        let was: bool = self.pixels[row_ * COLS + col_];
        self.pixels[row_ * COLS + col_] = was ^ val;
        if was && val {
            1
        } else {
            0
        }
    }

    /// Whether the pixel at `row`, `col` is lit, with both coordinates wrapped
    /// into the grid.
    pub fn get(&self, row: usize, col: usize) -> (lit: bool)
        ensures
            lit == self@[pixel_index(row as int, col as int)],
    {
        self.pixels[(row % ROWS) * COLS + col % COLS]
    }

    /// Turns every pixel off.
    pub fn clear(&mut self)
        ensures
            final(self)@ == blank(),
    {
        self.pixels = [false; 2048];
    }

    /// The squares to paint in order to show the display: one for every lit
    /// pixel, row by row from the top and left to right within a row.
    pub fn draw(&self) -> (squares: Vec<Rect>)
        ensures
            squares@ == lit_cells(self@, 2048),
    {
        let mut squares: Vec<Rect> = Vec::new();
        let mut row: usize = 0;
        while row < ROWS
            invariant
                row <= 32,
                squares@ == lit_cells(self@, row * 64),
            decreases 32 - row,
        {
            let mut col: usize = 0;
            while col < COLS
                invariant
                    row < 32,
                    col <= 64,
                    squares@ == lit_cells(self@, row * 64 + col),
                decreases 64 - col,
            {
                if self.pixels[row * COLS + col] {
                    squares.push(
                        Rect {
                            x: col * PIXEL_SIZE,
                            y: row * PIXEL_SIZE,
                            w: PIXEL_SIZE,
                            h: PIXEL_SIZE,
                        },
                    );
                }
                col += 1;
            }
            row += 1;
        }
        squares
    }
}

} // verus!
