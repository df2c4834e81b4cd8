//! The box-model style state a view carries for the layout engine.
//!
//! The layout engine itself (measurement and arrangement) is an external
//! collaborator: this core records the per-node style and the
//! needs-layout flag that the engine consumes. Scalar magnitudes are
//! carried as integer-scaled values chosen by the embedder; the core only
//! stores and compares them.

use vstd::prelude::*;

verus! {

/// A dimension or offset: absent, automatic, absolute points, or a
/// percentage of the parent, with the magnitude integer-scaled.
#[derive(Clone, Copy, Debug, PartialEq, Eq, Structural)]
pub enum StyleUnit {
    Undefined,
    Auto,
    Point(i64),
    Percent(i64),
}

/// An RGBA color for native rendering; it bypasses layout.
#[derive(Clone, Copy, Debug, PartialEq, Eq, Structural)]
pub struct Color {
    pub r: u8,
    pub g: u8,
    pub b: u8,
    pub a: u8,
}

impl Color {
    /// The fully transparent color, the default background of a view.
    pub open spec fn transparent_spec() -> Color {
        Color { r: 0, g: 0, b: 0, a: 0 }
    }

    /// Returns the fully transparent color.
    pub fn transparent() -> (r: Color)
        ensures
            r == Color::transparent_spec(),
    {
        Color { r: 0, g: 0, b: 0, a: 0 }
    }
}

/// Distribution of lines or items along an axis.
#[derive(Clone, Copy, Debug, PartialEq, Eq, Structural)]
pub enum Align {
    Auto,
    FlexStart,
    Center,
    FlexEnd,
    Stretch,
    Baseline,
    SpaceBetween,
    SpaceAround,
}

/// Main-axis direction of a flex container.
#[derive(Clone, Copy, Debug, PartialEq, Eq, Structural)]
pub enum FlexDirection {
    Column,
    ColumnReverse,
    Row,
    RowReverse,
}

/// Main-axis content justification.
#[derive(Clone, Copy, Debug, PartialEq, Eq, Structural)]
pub enum Justify {
    FlexStart,
    Center,
    FlexEnd,
    SpaceBetween,
    SpaceAround,
    SpaceEvenly,
}

/// Line-wrapping behaviour of a flex container.
#[derive(Clone, Copy, Debug, PartialEq, Eq, Structural)]
pub enum Wrap {
    NoWrap,
    Wrap,
    WrapReverse,
}

/// How a node is positioned within its parent.
#[derive(Clone, Copy, Debug, PartialEq, Eq, Structural)]
pub enum PositionType {
    Relative,
    Absolute,
}

/// An edge selector for per-edge properties (margin, padding, position).
#[derive(Clone, Copy, Debug, PartialEq, Eq, Structural)]
pub enum Edge {
    Left,
    Top,
    Right,
    Bottom,
    Start,
    End,
    Horizontal,
    Vertical,
    All,
}

/// One style value per edge slot, as the layout engine keys them: the
/// four physical edges, the two writing-direction edges, and the three
/// grouped slots. Resolution among slots happens in the layout engine.
#[derive(Clone, Copy, Debug, PartialEq, Eq, Structural)]
pub struct EdgeValues {
    pub left: StyleUnit,
    pub top: StyleUnit,
    pub right: StyleUnit,
    pub bottom: StyleUnit,
    pub start: StyleUnit,
    pub end: StyleUnit,
    pub horizontal: StyleUnit,
    pub vertical: StyleUnit,
    pub all: StyleUnit,
}

impl EdgeValues {
    /// Every slot unset.
    pub open spec fn initial() -> EdgeValues {
        EdgeValues {
            left: StyleUnit::Undefined,
            top: StyleUnit::Undefined,
            right: StyleUnit::Undefined,
            bottom: StyleUnit::Undefined,
            start: StyleUnit::Undefined,
            end: StyleUnit::Undefined,
            horizontal: StyleUnit::Undefined,
            vertical: StyleUnit::Undefined,
            all: StyleUnit::Undefined,
        }
    }

    /// The slots with the one named by `edge` replaced by `value`.
    pub open spec fn with_edge(self, edge: Edge, value: StyleUnit) -> EdgeValues {
        match edge {
            Edge::Left => EdgeValues { left: value, ..self },
            Edge::Top => EdgeValues { top: value, ..self },
            Edge::Right => EdgeValues { right: value, ..self },
            Edge::Bottom => EdgeValues { bottom: value, ..self },
            Edge::Start => EdgeValues { start: value, ..self },
            Edge::End => EdgeValues { end: value, ..self },
            Edge::Horizontal => EdgeValues { horizontal: value, ..self },
            Edge::Vertical => EdgeValues { vertical: value, ..self },
            Edge::All => EdgeValues { all: value, ..self },
        }
    }

    /// Returns the all-unset slots.
    pub fn initial_value() -> (r: EdgeValues)
        ensures
            r == EdgeValues::initial(),
    {
        EdgeValues {
            left: StyleUnit::Undefined,
            top: StyleUnit::Undefined,
            right: StyleUnit::Undefined,
            bottom: StyleUnit::Undefined,
            start: StyleUnit::Undefined,
            end: StyleUnit::Undefined,
            horizontal: StyleUnit::Undefined,
            vertical: StyleUnit::Undefined,
            all: StyleUnit::Undefined,
        }
    }

    /// Replaces the slot named by `edge` with `value`.
    pub fn set(&mut self, edge: Edge, value: StyleUnit)
        ensures
            *final(self) == old(self).with_edge(edge, value),
    {
        match edge {
            Edge::Left => self.left = value,
            Edge::Top => self.top = value,
            Edge::Right => self.right = value,
            Edge::Bottom => self.bottom = value,
            Edge::Start => self.start = value,
            Edge::End => self.end = value,
            Edge::Horizontal => self.horizontal = value,
            Edge::Vertical => self.vertical = value,
            Edge::All => self.all = value,
        }
    }
}

/// The per-view flexbox node: every style property the layout engine
/// reads, plus the needs-layout flag this core raises whenever a
/// geometry-affecting property changes.
#[derive(Clone, Copy, Debug, PartialEq, Eq, Structural)]
pub struct LayoutNode {
    pub position_type: PositionType,
    pub position: EdgeValues,
    pub align_content: Align,
    pub align_items: Align,
    pub align_self: Align,
    pub flex_direction: FlexDirection,
    pub flex_wrap: Wrap,
    pub flex_grow: i64,
    pub flex_shrink: i64,
    pub flex_basis: StyleUnit,
    pub justify_content: Justify,
    pub margin: EdgeValues,
    pub padding: EdgeValues,
    pub min_width: StyleUnit,
    pub max_width: StyleUnit,
    pub min_height: StyleUnit,
    pub max_height: StyleUnit,
    pub width: StyleUnit,
    pub height: StyleUnit,
    pub needs_layout: bool,
}

impl LayoutNode {
    /// The flexbox initial values: column direction, relative position,
    /// items stretched, nothing grown or shrunk, automatic size — and a
    /// clean layout state.
    pub open spec fn initial() -> LayoutNode {
        LayoutNode {
            position_type: PositionType::Relative,
            position: EdgeValues::initial(),
            align_content: Align::FlexStart,
            align_items: Align::Stretch,
            align_self: Align::Auto,
            flex_direction: FlexDirection::Column,
            flex_wrap: Wrap::NoWrap,
            flex_grow: 0,
            flex_shrink: 0,
            flex_basis: StyleUnit::Auto,
            justify_content: Justify::FlexStart,
            margin: EdgeValues::initial(),
            padding: EdgeValues::initial(),
            min_width: StyleUnit::Undefined,
            max_width: StyleUnit::Undefined,
            min_height: StyleUnit::Undefined,
            max_height: StyleUnit::Undefined,
            width: StyleUnit::Auto,
            height: StyleUnit::Auto,
            needs_layout: false,
        }
    }
}

impl Default for LayoutNode {
    /// A fresh node carrying the flexbox initial values.
    fn default() -> (r: Self)
        ensures
            r == LayoutNode::initial(),
    {
        LayoutNode {
            position_type: PositionType::Relative,
            position: EdgeValues::initial_value(),
            align_content: Align::FlexStart,
            align_items: Align::Stretch,
            align_self: Align::Auto,
            flex_direction: FlexDirection::Column,
            flex_wrap: Wrap::NoWrap,
            flex_grow: 0,
            flex_shrink: 0,
            flex_basis: StyleUnit::Auto,
            justify_content: Justify::FlexStart,
            margin: EdgeValues::initial_value(),
            padding: EdgeValues::initial_value(),
            min_width: StyleUnit::Undefined,
            max_width: StyleUnit::Undefined,
            min_height: StyleUnit::Undefined,
            max_height: StyleUnit::Undefined,
            width: StyleUnit::Auto,
            height: StyleUnit::Auto,
            needs_layout: false,
        }
    }
}

} // verus!
