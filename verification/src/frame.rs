//! The pixels of a frame and the order in which a sweep visits them.
//!
//! A sweep goes through the columns from left to right and through each
//! column from top to bottom. The pixel at column `x` and row `y` is
//! therefore the one at place `x * height + y`, counted from zero.

use vstd::prelude::*;
use vstd::arithmetic::div_mod::lemma_fundamental_div_mod_converse;
use vstd::arithmetic::div_mod::lemma_fundamental_div_mod;
use vstd::arithmetic::div_mod::lemma_mod_bound;

verus! {

/// The dimensions of a frame, in pixels.
#[derive(Clone, Copy, Debug, PartialEq, Eq, Structural)]
pub struct Frame {
    pub width: u32,
    pub height: u32,
}

impl Frame {
    /// The number of pixels.
    pub open spec fn area(self) -> int {
        self.width * self.height
    }

    /// Whether the frame has a pixel at column `x` and row `y`.
    pub open spec fn contains(self, x: int, y: int) -> bool {
        0 <= x < self.width && 0 <= y < self.height
    }

    /// The place in the sweep of the pixel at column `x` and row `y`.
    pub open spec fn place(self, x: int, y: int) -> int {
        x * self.height + y
    }

    /// The column of the pixel at place `k`.
    pub open spec fn column(self, k: int) -> int {
        k / (self.height as int)
    }

    /// The row of the pixel at place `k`.
    pub open spec fn row(self, k: int) -> int {
        k % (self.height as int)
    }

    /// A frame of the given dimensions.
    pub fn new(width: u32, height: u32) -> (frame: Frame)
        ensures
            frame.width == width,
            frame.height == height,
    {
        Frame { width, height }
    }

    /// The number of pixels.
    pub fn pixel_count(&self) -> (count: u64)
        ensures
            count == self.area(),
    {
        let w: u64 = self.width as u64;
        let h: u64 = self.height as u64;
        assert(w * h <= 4294967295 * 4294967295) by (nonlinear_arith)
            requires
                w <= 4294967295,
                h <= 4294967295,
        ;
        w * h
    }

    /// The pixel at place `k` of the sweep, as column and row; nothing where
    /// the frame has fewer than `k + 1` pixels.
    pub fn pixel_at(&self, k: u64) -> (pixel: Option<(u32, u32)>)
        ensures
            pixel.is_some() <==> k < self.area(),
            pixel.is_some() ==> pixel.unwrap().0 == self.column(k as int) && pixel.unwrap().1
                == self.row(k as int),
            pixel.is_some() ==> self.contains(pixel.unwrap().0 as int, pixel.unwrap().1 as int),
    {
        if k >= self.pixel_count() {
            return None;
        }
        proof {
            lemma_sweep_visits_frame(*self, k as int);
        }
        let h: u64 = self.height as u64;
        let x: u64 = k / h;
        let y: u64 = k % h;
        Some((x as u32, y as u32))
    }

    /// The place in the sweep of the pixel at column `x` and row `y`; nothing
    /// where the frame has no such pixel.
    pub fn place_of(&self, x: u32, y: u32) -> (k: Option<u64>)
        ensures
            k.is_some() <==> self.contains(x as int, y as int),
            k.is_some() ==> k.unwrap() == self.place(x as int, y as int),
            k.is_some() ==> k.unwrap() < self.area(),
    {
        if x >= self.width || y >= self.height {
            return None;
        }
        proof {
            lemma_place_is_visited(*self, x as int, y as int);
        }
        let h: u64 = self.height as u64;
        assert(0 <= x * h <= x * h + y < self.area() <= 4294967295 * 4294967295) by (nonlinear_arith)
            requires
                0 <= x < self.width <= 4294967295,
                0 <= y < self.height <= 4294967295,
                h == self.height,
                0 <= x * h + y < self.area(),
                self.area() == self.width * self.height,
        ;
        Some((x as u64) * h + (y as u64))
    }
}

/// Every place of the sweep holds a pixel of the frame, and that pixel's
/// place is the place it was taken from.
pub proof fn lemma_sweep_visits_frame(frame: Frame, k: int)
    requires
        0 <= k < frame.area(),
    ensures
        frame.contains(frame.column(k), frame.row(k)),
        frame.place(frame.column(k), frame.row(k)) == k,
{
    let h = frame.height as int;
    let w = frame.width as int;
    assert(h > 0) by (nonlinear_arith)
        requires
            0 <= k < w * h,
            h >= 0,
    ;
    lemma_fundamental_div_mod(k, h);
    lemma_mod_bound(k, h);
    let x = k / h;
    assert(h * x == x * h) by (nonlinear_arith);
    assert(0 <= x < w) by (nonlinear_arith)
        requires
            0 <= k < w * h,
            h > 0,
            k == x * h + k % h,
            0 <= k % h < h,
    ;
}

/// Every pixel of the frame has a place in the sweep, and the sweep holds
/// that pixel there: each pixel is visited once and only once.
pub proof fn lemma_place_is_visited(frame: Frame, x: int, y: int)
    requires
        frame.contains(x, y),
    ensures
        0 <= frame.place(x, y) < frame.area(),
        frame.column(frame.place(x, y)) == x,
        frame.row(frame.place(x, y)) == y,
{
    let h = frame.height as int;
    let w = frame.width as int;
    assert(0 <= x * h + y < w * h) by (nonlinear_arith)
        requires
            0 <= x < w,
            0 <= y < h,
    ;
    lemma_fundamental_div_mod_converse(x * h + y, h, x, y);
}

} // verus!
