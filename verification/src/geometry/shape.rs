//! The extent of pixel grids.
use vstd::prelude::*;

verus! {

/// The extent of a pixel grid: columns, rows and bytes per pixel.
#[derive(Debug, Clone, Copy, PartialEq, Eq, Structural)]
pub struct Shape {
    pub width: usize,
    pub height: usize,
    pub ndim: usize,
}

impl Shape {
    /// The number of bytes a grid of this shape holds, as a mathematical
    /// integer: `width * height * ndim`.
    pub open spec fn spec_size(&self) -> int {
        self.width * self.height * self.ndim
    }

    /// A shape with the given extent; one byte per pixel unless `ndim` says
    /// otherwise.
    pub fn new(width: usize, height: usize, ndim: Option<usize>) -> (shape: Shape)
        ensures
            shape.width == width,
            shape.height == height,
            shape.ndim == match ndim {
                Some(value) => value,
                None => 1usize,
            },
    {
        let ndim: usize = match ndim {
            Some(value) => value,
            None => 1,
        };
        Shape { width, height, ndim }
    }

    /// The byte count if the machine can address it, `None` if it cannot.
    pub fn checked_size(&self) -> (size: Option<usize>)
        ensures
            match size {
                Some(n) => n == self.spec_size(),
                None => self.spec_size() > usize::MAX,
            },
    {
        if self.width == 0 || self.height == 0 || self.ndim == 0 {
            assert(self.spec_size() == 0) by (nonlinear_arith)
                requires
                    self.width == 0 || self.height == 0 || self.ndim == 0,
            ;
            return Some(0);
        }
        match self.width.checked_mul(self.height) {
            Some(area) => {
                let total = area.checked_mul(self.ndim);
                total
            },
            None => {
                assert(self.width * self.height * self.ndim >= self.width * self.height)
                    by (nonlinear_arith)
                    requires
                        self.ndim >= 1,
                        self.width >= 0,
                        self.height >= 0,
                ;
                None
            },
        }
    }

    /// The number of bytes a grid of this shape holds.
    pub fn size(&self) -> (size: usize)
        requires
            self.spec_size() <= usize::MAX,
        ensures
            size == self.spec_size(),
    {
        match self.checked_size() {
            Some(n) => n,
            None => 0,
        }
    }
}

} // verus!
