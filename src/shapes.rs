//! The glyphs of the flowchart markup: node shapes, line and arrow styles,
//! and the flow direction written in the header.
use vstd::prelude::*;

verus! {

/// The shapes a node can be drawn with.
#[derive(Debug, Clone, Copy, PartialEq, Eq)]
pub enum Shape {
    Circle,
    Hexagon,
    Rectangle,
    Flag,
}

impl Shape {
    /// The opening bracket of the shape.
    pub open spec fn left(self) -> Seq<char> {
        match self {
            Shape::Circle => "(("@,
            Shape::Hexagon => "{{"@,
            Shape::Rectangle => "["@,
            Shape::Flag => ">"@,
        }
    }

    /// The closing bracket of the shape.
    pub open spec fn right(self) -> Seq<char> {
        match self {
            Shape::Circle => "))"@,
            Shape::Hexagon => "}}"@,
            Shape::Rectangle => "]"@,
            Shape::Flag => "]"@,
        }
    }

    pub fn left_str(&self) -> (r: &'static str)
        ensures
            r@ == self.left(),
    {
        match self {
            Shape::Circle => "((",
            Shape::Hexagon => "{{",
            Shape::Rectangle => "[",
            Shape::Flag => ">",
        }
    }

    pub fn right_str(&self) -> (r: &'static str)
        ensures
            r@ == self.right(),
    {
        match self {
            Shape::Circle => "))",
            Shape::Hexagon => "}}",
            Shape::Rectangle => "]",
            Shape::Flag => "]",
        }
    }
}

/// The line styles of a connection.
#[derive(Debug, Clone, Copy, PartialEq, Eq)]
pub enum LineType {
    Solid,
    Dashed,
}

/// The arrow heads of a connection.
#[derive(Debug, Clone, Copy, PartialEq, Eq)]
pub enum ArrowType {
    Standard,
    X,
    O,
}

/// Which ends of a connection carry an arrow head.
#[derive(Debug, Clone, Copy, PartialEq, Eq)]
pub enum ArrowDirection {
    BiDirectional,
    Left,
    Right,
    Neither,
}

impl ArrowType {
    /// The glyph of the arrow head at the left end of a line.
    pub open spec fn left_head(self) -> Seq<char> {
        match self {
            ArrowType::Standard => "<"@,
            ArrowType::X => "x"@,
            ArrowType::O => "o"@,
        }
    }

    /// The glyph of the arrow head at the right end of a line.
    pub open spec fn right_head(self) -> Seq<char> {
        match self {
            ArrowType::Standard => ">"@,
            ArrowType::X => "x"@,
            ArrowType::O => "o"@,
        }
    }

    pub fn left_head_str(&self) -> (r: &'static str)
        ensures
            r@ == self.left_head(),
    {
        match self {
            ArrowType::Standard => "<",
            ArrowType::X => "x",
            ArrowType::O => "o",
        }
    }

    pub fn right_head_str(&self) -> (r: &'static str)
        ensures
            r@ == self.right_head(),
    {
        match self {
            ArrowType::Standard => ">",
            ArrowType::X => "x",
            ArrowType::O => "o",
        }
    }
}

/// The direction in which the diagram flows.
#[derive(Debug, Clone, Copy, PartialEq, Eq)]
pub enum FlowDirection {
    /// top to bottom
    TB,
    /// top-down (same as top to bottom)
    TD,
    /// bottom to top
    BT,
    /// right to left
    BL,
    /// left to right
    LR,
}

impl FlowDirection {
    pub open spec fn name(self) -> Seq<char> {
        match self {
            FlowDirection::TB => "TB"@,
            FlowDirection::TD => "TD"@,
            FlowDirection::BT => "BT"@,
            FlowDirection::BL => "BL"@,
            FlowDirection::LR => "LR"@,
        }
    }

    pub fn as_str(&self) -> (r: &'static str)
        ensures
            r@ == self.name(),
    {
        match self {
            FlowDirection::TB => "TB",
            FlowDirection::TD => "TD",
            FlowDirection::BT => "BT",
            FlowDirection::BL => "BL",
            FlowDirection::LR => "LR",
        }
    }
}

/// `s` written `n` times.
pub open spec fn repeat(s: Seq<char>, n: nat) -> Seq<char>
    decreases n,
{
    if n == 0 {
        Seq::empty()
    } else {
        repeat(s, (n - 1) as nat) + s
    }
}

/// The number of extra length glyphs an optional count asks for.
pub open spec fn extra_count(extra: Option<u8>) -> nat {
    match extra {
        Some(n) => n as nat,
        None => 0,
    }
}

/// The number of indents an optional count asks for (one by default).
pub open spec fn indent_count(indents: Option<u8>) -> nat {
    match indents {
        Some(n) => n as nat,
        None => 1,
    }
}

/// A newline followed by `n` tabs.
pub open spec fn linebreak_text(n: nat) -> Seq<char> {
    "\n"@ + repeat("\t"@, n)
}

/// The first line of a diagram, with the line break that ends it.
pub open spec fn header_text(direction: FlowDirection) -> Seq<char> {
    "flowchart "@ + direction.name() + linebreak_text(1)
}

/// A node block: identifier, shape, label and an optional style class.
pub open spec fn node_text(
    id: Seq<char>,
    class: Option<Seq<char>>,
    shape: Shape,
    inner_text: Seq<char>,
) -> Seq<char> {
    id + shape.left() + inner_text + shape.right() + match class {
        Some(c) => ":::"@ + c,
        None => Seq::empty(),
    }
}

/// A line without arrow heads, `extra` glyphs longer than the shortest.
pub open spec fn line_text(line_type: LineType, extra: nat) -> Seq<char> {
    match line_type {
        LineType::Solid => "--"@ + repeat("-"@, extra),
        LineType::Dashed => "-."@ + repeat("."@, extra) + ".-"@,
    }
}

/// A connection: a line with its arrow heads, between single spaces.
pub open spec fn connection_text(
    line_type: LineType,
    arrow_type: ArrowType,
    arrow_direction: ArrowDirection,
    extra: nat,
) -> Seq<char> {
    let line = line_text(line_type, extra);
    " "@ + match arrow_direction {
        ArrowDirection::BiDirectional => arrow_type.left_head() + line + arrow_type.right_head(),
        ArrowDirection::Left => arrow_type.left_head() + line,
        ArrowDirection::Right => line + arrow_type.right_head(),
        ArrowDirection::Neither => line,
    } + " "@
}

} // verus!
