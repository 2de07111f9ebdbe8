//! Points, shapes and the row-major index formula.
pub mod point;
pub mod shape;

use crate::error::Error;
pub use point::Point;
pub use shape::Shape;
use vstd::prelude::*;

verus! {

/// The row-major byte offset of pixel `(x, y)` in a grid that is `width`
/// pixels wide with `ndim` bytes per pixel: `(y * width + x) * ndim`.
pub open spec fn spec_index(x: int, y: int, width: int, ndim: int) -> int {
    (y * width + x) * ndim
}

/// The offsets of the pixels of a grid stay below the grid's byte count,
/// with room for all of the pixel's bytes.
pub proof fn lemma_index_in_grid(x: int, y: int, width: int, height: int, ndim: int)
    requires
        0 <= x < width,
        0 <= y < height,
        0 <= ndim,
    ensures
        0 <= y * width + x < width * height,
        0 <= spec_index(x, y, width, ndim),
        spec_index(x, y, width, ndim) + ndim <= width * height * ndim,
{
    assert(0 <= y * width && y * width + width <= height * width) by (nonlinear_arith)
        requires
            0 <= y < height,
            0 <= width,
    ;
    assert((y * width + x) * ndim + ndim <= (width * height) * ndim && 0 <= (y * width + x) * ndim)
        by (nonlinear_arith)
        requires
            0 <= y * width + x < width * height,
            0 <= ndim,
    ;
}

/// Two different pixels of a grid have different offsets, a whole pixel
/// apart: the formula orders pixels row by row.
pub proof fn lemma_index_orders_pixels(x1: int, y1: int, x2: int, y2: int, width: int, ndim: int)
    requires
        0 <= x1 < width,
        0 <= x2 < width,
        0 <= y1,
        0 <= y2,
        0 <= ndim,
        y1 < y2 || (y1 == y2 && x1 < x2),
    ensures
        spec_index(x1, y1, width, ndim) + ndim <= spec_index(x2, y2, width, ndim),
{
    assert(y1 * width + x1 + 1 <= y2 * width + x2) by (nonlinear_arith)
        requires
            0 <= x1 < width,
            0 <= x2 < width,
            0 <= y1,
            0 <= y2,
            y1 < y2 || (y1 == y2 && x1 < x2),
    ;
    assert((y1 * width + x1) * ndim + ndim <= (y2 * width + x2) * ndim) by (nonlinear_arith)
        requires
            y1 * width + x1 + 1 <= y2 * width + x2,
            0 <= ndim,
    ;
}

/// The error for a pixel that lies outside its grid, or whose offset the
/// machine cannot hold.
fn invalid_coordinates() -> (e: Error)
    ensures
        e is IndexOutOfBounds,
        Error::spec_details(e) == "Invalid coordinates"@,
{
    Error::IndexOutOfBounds("Invalid coordinates".to_string())
}

/// Computes the row-major byte offset of pixel `(x, y)` in a grid of
/// `width` by `height` pixels with `ndim` bytes per pixel.
///
/// The offset is returned exactly when the pixel lies inside the grid and
/// the offset can be held in a `usize`.
pub fn get_index_from_xywh(x: usize, y: usize, width: usize, height: usize, ndim: usize) -> (index:
    Result<usize, Error>)
    ensures
        match index {
            Ok(i) => x < width && y < height && i == spec_index(
                x as int,
                y as int,
                width as int,
                ndim as int,
            ),
            Err(e) => e is IndexOutOfBounds && (x >= width || y >= height || spec_index(
                x as int,
                y as int,
                width as int,
                ndim as int,
            ) > usize::MAX),
        },
{
    if x >= width || y >= height {
        return Err(invalid_coordinates());
    }
    proof {
        if ndim >= 1 {
            assert((y * width + x) * ndim >= y * width + x) by (nonlinear_arith)
                requires
                    ndim >= 1,
                    y * width + x >= 0,
            ;
        }
    }
    match y.checked_mul(width) {
        Some(row) => match row.checked_add(x) {
            Some(pixel) => {
                if ndim == 0 {
                    Ok(0)
                } else {
                    match pixel.checked_mul(ndim) {
                        Some(i) => Ok(i),
                        None => Err(invalid_coordinates()),
                    }
                }
            },
            None => {
                if ndim == 0 {
                    Ok(0)
                } else {
                    Err(invalid_coordinates())
                }
            },
        },
        None => {
            if ndim == 0 {
                Ok(0)
            } else {
                Err(invalid_coordinates())
            }
        },
    }
}

/// The offset of pixel `(x, y)` in a grid of shape `shape`.
pub fn get_index_from_xyshape(x: usize, y: usize, shape: &Shape) -> (index: Result<usize, Error>)
    ensures
        match index {
            Ok(i) => x < shape.width && y < shape.height && i == spec_index(
                x as int,
                y as int,
                shape.width as int,
                shape.ndim as int,
            ),
            Err(e) => e is IndexOutOfBounds && (x >= shape.width || y >= shape.height
                || spec_index(x as int, y as int, shape.width as int, shape.ndim as int)
                > usize::MAX),
        },
{
    get_index_from_xywh(x, y, shape.width, shape.height, shape.ndim)
}

/// The offset of the pixel at `point` in a grid of shape `shape`.
pub fn get_index_from_point_and_shape(point: Point, shape: &Shape) -> (index: Result<
    usize,
    Error,
>)
    ensures
        match index {
            Ok(i) => point.x < shape.width && point.y < shape.height && i == spec_index(
                point.x as int,
                point.y as int,
                shape.width as int,
                shape.ndim as int,
            ),
            Err(e) => e is IndexOutOfBounds && (point.x >= shape.width || point.y >= shape.height
                || spec_index(
                point.x as int,
                point.y as int,
                shape.width as int,
                shape.ndim as int,
            ) > usize::MAX),
        },
{
    get_index_from_xyshape(point.x, point.y, shape)
}

} // verus!
