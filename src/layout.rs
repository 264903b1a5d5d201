use vstd::prelude::*;

verus! {

/// Where a scale is drawn: along the top or bottom edge, or along the left or
/// right edge.
#[derive(Debug, PartialEq, Eq, Clone, Copy)]
pub enum Layout {
    Horizontal(HorizontalPosition),
    Vertical(VerticalPosition),
}

#[derive(Debug, PartialEq, Eq, Clone, Copy)]
pub enum HorizontalPosition {
    Top,
    Bottom,
}

#[derive(Debug, PartialEq, Eq, Clone, Copy)]
pub enum VerticalPosition {
    Left,
    Right,
}

/// How a scale's labels are written; the flag says whether the unit is
/// shown.
#[derive(Debug, PartialEq, Eq, Clone, Copy)]
pub enum LabelFormat {
    Frequency(bool),
    FrequencyShort(bool),
    Gain(bool),
    GainShort(bool),
    Q,
}

impl Layout {
    /// Whether the pixel axis of the scale runs against the screen's
    /// direction: only a vertical scale is turned, and only when asked.
    pub fn inverts_pixels(&self, invert_y: bool) -> (r: bool)
        ensures
            r == (*self is Vertical && invert_y),
    {
        match self {
            Layout::Horizontal(_) => false,
            Layout::Vertical(_) => invert_y,
        }
    }

    /// The two ends `(x, y)` of the grid line for a marker at pixel `v`: a
    /// horizontal scale draws it across from `start` to `end` in y, a vertical
    /// one in x.
    pub fn line_ends<V: Copy>(&self, v: V, start: V, end: V) -> (r: ((V, V), (V, V)))
        ensures
            *self is Horizontal ==> r == ((v, start), (v, end)),
            *self is Vertical ==> r == ((start, v), (end, v)),
    {
        match self {
            Layout::Horizontal(_) => ((v, start), (v, end)),
            Layout::Vertical(_) => ((start, v), (end, v)),
        }
    }

    /// The point `(x, y)` of the label for a marker at pixel `v`: at the
    /// scale's own edge, which is `start` for the top and the left, `end`
    /// for the bottom and the right.
    pub fn label_position<V: Copy>(&self, v: V, start: V, end: V) -> (r: (V, V))
        ensures
            *self == Layout::Horizontal(HorizontalPosition::Top) ==> r == (v, start),
            *self == Layout::Horizontal(HorizontalPosition::Bottom) ==> r == (v, end),
            *self == Layout::Vertical(VerticalPosition::Left) ==> r == (start, v),
            *self == Layout::Vertical(VerticalPosition::Right) ==> r == (end, v),
    {
        match self {
            Layout::Horizontal(HorizontalPosition::Top) => (v, start),
            Layout::Horizontal(HorizontalPosition::Bottom) => (v, end),
            Layout::Vertical(VerticalPosition::Left) => (start, v),
            Layout::Vertical(VerticalPosition::Right) => (end, v),
        }
    }
}

/// Discards a result whose failure the caller has no use for.
pub trait Ignore {
    fn ignore(self);
}

impl<E> Ignore for Result<(), E> {
    fn ignore(self) {
    }
}

} // verus!
