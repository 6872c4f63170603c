//! The pixel canvas: `width` by `height` colors, stored row by row.

use vstd::prelude::*;
use crate::color::Color;

verus! {

/// What a canvas is: its size, and its pixels row by row.
pub struct CanvasView {
    pub width: nat,
    pub height: nat,
    pub grid: Seq<Color>,
}

impl CanvasView {
    /// The store holds one pixel for each position.
    pub open spec fn wf(self) -> bool {
        self.grid.len() == self.width * self.height
    }

    /// The place in the store of the pixel in column `x` of row `y`.
    pub open spec fn position(self, x: int, y: int) -> int {
        self.width * y + x
    }

    /// Whether column `x` of row `y` lies on the canvas.
    pub open spec fn contains(self, x: int, y: int) -> bool {
        0 <= x < self.width && 0 <= y < self.height
    }

    /// The canvas of the given size with every pixel black.
    pub open spec fn blank(width: nat, height: nat) -> CanvasView {
        CanvasView { width, height, grid: Seq::new(width * height, |k: int| Color::black()) }
    }
}

/// A position on the canvas lies inside its store.
pub proof fn lemma_position_in_store(v: CanvasView, x: int, y: int)
    by (nonlinear_arith)
    requires
        v.wf(),
        v.contains(x, y),
    ensures
        0 <= v.width * y <= v.position(x, y) < v.grid.len(),
{
}

/// A rectangle of pixels.
#[derive(Debug)]
pub struct Canvas {
    width: usize,
    height: usize,
    grid: Vec<Color>,
}

impl View for Canvas {
    type V = CanvasView;

    closed spec fn view(&self) -> CanvasView {
        CanvasView { width: self.width as nat, height: self.height as nat, grid: self.grid@ }
    }
}

impl Canvas {
    /// A black canvas of the given size.
    pub fn new(width: usize, height: usize) -> (r: Canvas)
        requires
            width * height <= usize::MAX,
        ensures
            r@ == CanvasView::blank(width as nat, height as nat),
            r@.wf(),
    {
        let n: usize = width * height;
        let mut grid: Vec<Color> = Vec::new();
        let mut k: usize = 0;
        while k < n
            invariant
                k <= n,
                grid@.len() == k,
                forall|a: int| 0 <= a < k ==> grid@[a] == Color::black(),
            decreases n - k,
        {
            grid.push(Color::black());
            k += 1;
        }
        assert(grid@ =~= CanvasView::blank(width as nat, height as nat).grid);
        Canvas { width, height, grid }
    }

    /// The number of columns.
    pub fn get_width(&self) -> (r: usize)
        ensures
            r == self@.width,
    {
        self.width
    }

    /// The number of rows.
    pub fn get_height(&self) -> (r: usize)
        ensures
            r == self@.height,
    {
        self.height
    }

    /// The pixels, row by row.
    pub fn pixels(&self) -> (r: &Vec<Color>)
        ensures
            r@ == self@.grid,
    {
        &self.grid
    }

    /// The pixel at place `width * y + x` of the store. For a position on
    /// the canvas that is the pixel in column `x` of row `y`.
    pub fn pixel_at(&self, x: usize, y: usize) -> (r: Color)
        requires
            self@.position(x as int, y as int) < self@.grid.len(),
        ensures
            r == self@.grid[self@.position(x as int, y as int)],
    {
        assert(0 <= self.width * y) by (nonlinear_arith);
        assert(self.grid@.len() == self.grid.len());
        self.grid[self.width * y + x]
    }

    /// Colors the pixel in column `x` of row `y`. A position off the canvas
    /// is ignored.
    pub fn write_pixel(&mut self, x: usize, y: usize, c: Color)
        requires
            old(self)@.wf(),
        ensures
            final(self)@.width == old(self)@.width,
            final(self)@.height == old(self)@.height,
            final(self)@.wf(),
            old(self)@.contains(x as int, y as int) ==> final(self)@.grid == old(self)@.grid.update(
                old(self)@.position(x as int, y as int),
                c,
            ),
            !old(self)@.contains(x as int, y as int) ==> final(self)@.grid == old(self)@.grid,
    {
        if x < self.width && y < self.height {
            proof {
                lemma_position_in_store(self@, x as int, y as int);
            }
            assert(self.grid@.len() == self.grid.len());
            self.grid.set(self.width * y + x, c);
        }
    }
}

/// A pixel that was written is read back, and the other pixels are as they
/// were.
pub proof fn lemma_write_then_read(v: CanvasView, x: int, y: int, c: Color, x2: int, y2: int)
    requires
        v.wf(),
        v.contains(x, y),
        v.contains(x2, y2),
    ensures
        v.grid.update(v.position(x, y), c)[v.position(x, y)] == c,
        (x2 != x || y2 != y) ==> v.grid.update(v.position(x, y), c)[v.position(x2, y2)]
            == v.grid[v.position(x2, y2)],
{
    lemma_position_in_store(v, x, y);
    lemma_position_in_store(v, x2, y2);
    if x2 != x || y2 != y {
        lemma_positions_differ(v.width as int, x, y, x2, y2);
    }
}

/// Two different positions on a canvas have different places in the store.
pub proof fn lemma_positions_differ(width: int, x: int, y: int, x2: int, y2: int)
    by (nonlinear_arith)
    requires
        0 <= x < width,
        0 <= x2 < width,
        0 <= y,
        0 <= y2,
        x != x2 || y != y2,
    ensures
        width * y + x != width * y2 + x2,
{
}

} // verus!
