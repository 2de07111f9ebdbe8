//! Figures and the traits for drawing them.
use crate::color::Color;
use crate::error::Error;
use crate::geometry::{Point, Shape};
use vstd::prelude::*;

verus! {

/// An axis-aligned rectangle to draw: its outline, and its inside if a fill
/// colour is given.
#[derive(Debug, Clone, Copy)]
pub struct RectParams {
    /// The top-left corner.
    pub topleft: Point,
    /// The extent of the rectangle; only width and height are read.
    pub shape: Shape,
    /// The colour of the outline.
    pub color: Color,
    /// The thickness of the outline; a single line of pixels if absent.
    pub border_width: Option<usize>,
    /// Reserved for rounded corners. It has no effect.
    pub corner_radius: Option<usize>,
    /// The colour of the inside; the inside is left alone if absent.
    pub fill_color: Option<Color>,
}

impl RectParams {
    pub fn new(
        topleft: Point,
        shape: Shape,
        color: Color,
        border_width: Option<usize>,
        corner_radius: Option<usize>,
        fill_color: Option<Color>,
    ) -> (params: RectParams)
        ensures
            params == (RectParams {
                topleft,
                shape,
                color,
                border_width,
                corner_radius,
                fill_color,
            }),
    {
        RectParams { topleft, shape, color, border_width, corner_radius, fill_color }
    }
}

/// A circle to draw: its outline, and its inside if a fill colour is given.
#[derive(Debug, Clone, Copy)]
pub struct CircleParams {
    pub center: Point,
    pub radius: usize,
    /// The colour of the outline.
    pub color: Color,
    /// The colour of the inside; the inside is left alone if absent.
    pub fill_color: Option<Color>,
}

impl CircleParams {
    pub fn new(center: Point, radius: usize, color: Color, fill_color: Option<Color>) -> (params:
        CircleParams)
        ensures
            params == (CircleParams { center, radius, color, fill_color }),
    {
        CircleParams { center, radius, color, fill_color }
    }
}

/// A triangle to draw. Nothing draws triangles yet.
#[derive(Debug, Clone, Copy)]
pub struct TriangleParams;

/// Something a figure described by `T` can be drawn on.
pub trait Drawable<T> {
    /// What must hold of the canvas and the figure before drawing.
    spec fn draw_req(&self, params: &T) -> bool;

    /// Draws the figure. A figure that does not fit is refused.
    fn draw(&mut self, params: &T) -> (outcome: Result<(), Error>)
        requires
            old(self).draw_req(params),
    ;
}

/// Drawing by the name of the figure.
pub trait Drawing {
    /// What must hold of the canvas before drawing.
    spec fn drawing_req(&self) -> bool;

    /// Draws the outline of a rectangle.
    fn rect(&mut self, params: &RectParams) -> (outcome: Result<(), Error>)
        requires
            old(self).drawing_req(),
    ;

    /// Draws the outline of a square, which is a rectangle like any other.
    fn square(&mut self, params: &RectParams) -> (outcome: Result<(), Error>)
        requires
            old(self).drawing_req(),
    ;

    /// Draws the outline of a circle.
    fn circle(&mut self, params: &CircleParams) -> (outcome: Result<(), Error>)
        requires
            old(self).drawing_req(),
    ;
}

} // verus!
