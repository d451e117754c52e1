//! The CSS position vocabulary: the one-, two- and four-value forms,
//! their alignment keywords, and their length-or-percentage offsets.

use vstd::prelude::*;

verus! {

/// Block-axis keywords of the two-value form.
#[derive(Copy, Clone, Debug, PartialEq, Eq, Structural)]
pub enum PositionTwoBlock {
    BlockStart,
    Center,
    BlockEnd,
}

impl PositionTwoBlock {
    /// The keyword this variant renders to.
    pub open spec fn spec_text(&self) -> Seq<char> {
        match self {
            PositionTwoBlock::BlockStart => "block-start"@,
            PositionTwoBlock::Center => "center"@,
            PositionTwoBlock::BlockEnd => "block-end"@,
        }
    }

    /// Renders the keyword.
    pub fn to_text(&self) -> (r: String)
        ensures
            r@ == self.spec_text(),
    {
        match self {
            PositionTwoBlock::BlockStart => "block-start".to_owned(),
            PositionTwoBlock::Center => "center".to_owned(),
            PositionTwoBlock::BlockEnd => "block-end".to_owned(),
        }
    }
}

/// Inline-axis keywords of the two-value form.
#[derive(Copy, Clone, Debug, PartialEq, Eq, Structural)]
pub enum PositionTwoInline {
    InlineStart,
    Center,
    InlineEnd,
}

impl PositionTwoInline {
    /// The keyword this variant renders to.
    pub open spec fn spec_text(&self) -> Seq<char> {
        match self {
            PositionTwoInline::InlineStart => "inline-start"@,
            PositionTwoInline::Center => "center"@,
            PositionTwoInline::InlineEnd => "inline-end"@,
        }
    }

    /// Renders the keyword.
    pub fn to_text(&self) -> (r: String)
        ensures
            r@ == self.spec_text(),
    {
        match self {
            PositionTwoInline::InlineStart => "inline-start".to_owned(),
            PositionTwoInline::Center => "center".to_owned(),
            PositionTwoInline::InlineEnd => "inline-end".to_owned(),
        }
    }
}

/// Axis-neutral keywords of the two-value form.
#[derive(Copy, Clone, Debug, PartialEq, Eq, Structural)]
pub enum PositionTwoSimple {
    Start,
    Center,
    End,
}

impl PositionTwoSimple {
    /// The keyword this variant renders to.
    pub open spec fn spec_text(&self) -> Seq<char> {
        match self {
            PositionTwoSimple::Start => "start"@,
            PositionTwoSimple::Center => "center"@,
            PositionTwoSimple::End => "end"@,
        }
    }

    /// Renders the keyword.
    pub fn to_text(&self) -> (r: String)
        ensures
            r@ == self.spec_text(),
    {
        match self {
            PositionTwoSimple::Start => "start".to_owned(),
            PositionTwoSimple::Center => "center".to_owned(),
            PositionTwoSimple::End => "end".to_owned(),
        }
    }
}

/// Horizontal anchors of the four-value form.
#[derive(Copy, Clone, Debug, PartialEq, Eq, Structural)]
pub enum PositionFourAlignHorizontal {
    Left,
    Right,
    XStart,
    XEnd,
}

impl PositionFourAlignHorizontal {
    /// The keyword this variant renders to.
    pub open spec fn spec_text(&self) -> Seq<char> {
        match self {
            PositionFourAlignHorizontal::Left => "left"@,
            PositionFourAlignHorizontal::Right => "right"@,
            PositionFourAlignHorizontal::XStart => "x-start"@,
            PositionFourAlignHorizontal::XEnd => "x-end"@,
        }
    }

    /// Renders the keyword.
    pub fn to_text(&self) -> (r: String)
        ensures
            r@ == self.spec_text(),
    {
        match self {
            PositionFourAlignHorizontal::Left => "left".to_owned(),
            PositionFourAlignHorizontal::Right => "right".to_owned(),
            PositionFourAlignHorizontal::XStart => "x-start".to_owned(),
            PositionFourAlignHorizontal::XEnd => "x-end".to_owned(),
        }
    }
}

/// Vertical anchors of the four-value form.
#[derive(Copy, Clone, Debug, PartialEq, Eq, Structural)]
pub enum PositionFourAlignVertical {
    Top,
    Bottom,
    YStart,
    YEnd,
}

impl PositionFourAlignVertical {
    /// The keyword this variant renders to.
    pub open spec fn spec_text(&self) -> Seq<char> {
        match self {
            PositionFourAlignVertical::Top => "top"@,
            PositionFourAlignVertical::Bottom => "bottom"@,
            PositionFourAlignVertical::YStart => "y-start"@,
            PositionFourAlignVertical::YEnd => "y-end"@,
        }
    }

    /// Renders the keyword.
    pub fn to_text(&self) -> (r: String)
        ensures
            r@ == self.spec_text(),
    {
        match self {
            PositionFourAlignVertical::Top => "top".to_owned(),
            PositionFourAlignVertical::Bottom => "bottom".to_owned(),
            PositionFourAlignVertical::YStart => "y-start".to_owned(),
            PositionFourAlignVertical::YEnd => "y-end".to_owned(),
        }
    }
}

/// Block-axis anchors of the four-value form.
#[derive(Copy, Clone, Debug, PartialEq, Eq, Structural)]
pub enum PositionFourBlock {
    BlockStart,
    BlockEnd,
}

impl PositionFourBlock {
    /// The keyword this variant renders to.
    pub open spec fn spec_text(&self) -> Seq<char> {
        match self {
            PositionFourBlock::BlockStart => "block-start"@,
            PositionFourBlock::BlockEnd => "block-end"@,
        }
    }

    /// Renders the keyword.
    pub fn to_text(&self) -> (r: String)
        ensures
            r@ == self.spec_text(),
    {
        match self {
            PositionFourBlock::BlockStart => "block-start".to_owned(),
            PositionFourBlock::BlockEnd => "block-end".to_owned(),
        }
    }
}

/// Inline-axis anchors of the four-value form.
#[derive(Copy, Clone, Debug, PartialEq, Eq, Structural)]
pub enum PositionFourInline {
    InlineStart,
    InlineEnd,
}

impl PositionFourInline {
    /// The keyword this variant renders to.
    pub open spec fn spec_text(&self) -> Seq<char> {
        match self {
            PositionFourInline::InlineStart => "inline-start"@,
            PositionFourInline::InlineEnd => "inline-end"@,
        }
    }

    /// Renders the keyword.
    pub fn to_text(&self) -> (r: String)
        ensures
            r@ == self.spec_text(),
    {
        match self {
            PositionFourInline::InlineStart => "inline-start".to_owned(),
            PositionFourInline::InlineEnd => "inline-end".to_owned(),
        }
    }
}

/// Axis-neutral anchors of the four-value form.
#[derive(Copy, Clone, Debug, PartialEq, Eq, Structural)]
pub enum PositionFourSimple {
    Start,
    End,
}

impl PositionFourSimple {
    /// The keyword this variant renders to.
    pub open spec fn spec_text(&self) -> Seq<char> {
        match self {
            PositionFourSimple::Start => "start"@,
            PositionFourSimple::End => "end"@,
        }
    }

    /// Renders the keyword.
    pub fn to_text(&self) -> (r: String)
        ensures
            r@ == self.spec_text(),
    {
        match self {
            PositionFourSimple::Start => "start".to_owned(),
            PositionFourSimple::End => "end".to_owned(),
        }
    }
}

/// A single-value position: a keyword or an offset.
#[derive(Copy, Clone, Debug, PartialEq, Eq, Structural)]
pub enum PositionOne {
    Left,
    Center,
    Right,
    Top,
    Bottom,
    XStart,
    XEnd,
    YStart,
    YEnd,
    BlockStart,
    BlockEnd,
    InlineStart,
    InlineEnd,
    LengthPercentage(crate::value::LengthPercentage),
}

impl PositionOne {
    pub open spec fn wf(&self) -> bool {
        match self {
            PositionOne::LengthPercentage(lp) => lp.wf(),
            _ => true,
        }
    }

    pub open spec fn spec_text(&self) -> Seq<char> {
        match self {
            PositionOne::Left => "left"@,
            PositionOne::Center => "center"@,
            PositionOne::Right => "right"@,
            PositionOne::Top => "top"@,
            PositionOne::Bottom => "bottom"@,
            PositionOne::XStart => "x-start"@,
            PositionOne::XEnd => "x-end"@,
            PositionOne::YStart => "y-start"@,
            PositionOne::YEnd => "y-end"@,
            PositionOne::BlockStart => "block-start"@,
            PositionOne::BlockEnd => "block-end"@,
            PositionOne::InlineStart => "inline-start"@,
            PositionOne::InlineEnd => "inline-end"@,
            PositionOne::LengthPercentage(lp) => lp.spec_text(),
        }
    }

    pub fn to_text(&self) -> (r: String)
        requires
            self.wf(),
        ensures
            r@ == self.spec_text(),
    {
        match self {
            PositionOne::Left => "left".to_owned(),
            PositionOne::Center => "center".to_owned(),
            PositionOne::Right => "right".to_owned(),
            PositionOne::Top => "top".to_owned(),
            PositionOne::Bottom => "bottom".to_owned(),
            PositionOne::XStart => "x-start".to_owned(),
            PositionOne::XEnd => "x-end".to_owned(),
            PositionOne::YStart => "y-start".to_owned(),
            PositionOne::YEnd => "y-end".to_owned(),
            PositionOne::BlockStart => "block-start".to_owned(),
            PositionOne::BlockEnd => "block-end".to_owned(),
            PositionOne::InlineStart => "inline-start".to_owned(),
            PositionOne::InlineEnd => "inline-end".to_owned(),
            PositionOne::LengthPercentage(lp) => lp.to_text(),
        }
    }
}

/// The horizontal half of a two-value position.
#[derive(Copy, Clone, Debug, PartialEq, Eq, Structural)]
pub enum PositionTwoAlignHorizontal {
    Left,
    Center,
    Right,
    XStart,
    XEnd,
    LengthPercentage(crate::value::LengthPercentage),
}

impl PositionTwoAlignHorizontal {
    pub open spec fn wf(&self) -> bool {
        match self {
            PositionTwoAlignHorizontal::LengthPercentage(lp) => lp.wf(),
            _ => true,
        }
    }

    pub open spec fn spec_text(&self) -> Seq<char> {
        match self {
            PositionTwoAlignHorizontal::Left => "left"@,
            PositionTwoAlignHorizontal::Center => "center"@,
            PositionTwoAlignHorizontal::Right => "right"@,
            PositionTwoAlignHorizontal::XStart => "x-start"@,
            PositionTwoAlignHorizontal::XEnd => "x-end"@,
            PositionTwoAlignHorizontal::LengthPercentage(lp) => lp.spec_text(),
        }
    }

    pub fn to_text(&self) -> (r: String)
        requires
            self.wf(),
        ensures
            r@ == self.spec_text(),
    {
        match self {
            PositionTwoAlignHorizontal::Left => "left".to_owned(),
            PositionTwoAlignHorizontal::Center => "center".to_owned(),
            PositionTwoAlignHorizontal::Right => "right".to_owned(),
            PositionTwoAlignHorizontal::XStart => "x-start".to_owned(),
            PositionTwoAlignHorizontal::XEnd => "x-end".to_owned(),
            PositionTwoAlignHorizontal::LengthPercentage(lp) => lp.to_text(),
        }
    }
}

/// The vertical half of a two-value position.
#[derive(Copy, Clone, Debug, PartialEq, Eq, Structural)]
pub enum PositionTwoAlignVertical {
    Top,
    Center,
    Bottom,
    YStart,
    YEnd,
    LengthPercentage(crate::value::LengthPercentage),
}

impl PositionTwoAlignVertical {
    pub open spec fn wf(&self) -> bool {
        match self {
            PositionTwoAlignVertical::LengthPercentage(lp) => lp.wf(),
            _ => true,
        }
    }

    pub open spec fn spec_text(&self) -> Seq<char> {
        match self {
            PositionTwoAlignVertical::Top => "top"@,
            PositionTwoAlignVertical::Center => "center"@,
            PositionTwoAlignVertical::Bottom => "bottom"@,
            PositionTwoAlignVertical::YStart => "y-start"@,
            PositionTwoAlignVertical::YEnd => "y-end"@,
            PositionTwoAlignVertical::LengthPercentage(lp) => lp.spec_text(),
        }
    }

    pub fn to_text(&self) -> (r: String)
        requires
            self.wf(),
        ensures
            r@ == self.spec_text(),
    {
        match self {
            PositionTwoAlignVertical::Top => "top".to_owned(),
            PositionTwoAlignVertical::Center => "center".to_owned(),
            PositionTwoAlignVertical::Bottom => "bottom".to_owned(),
            PositionTwoAlignVertical::YStart => "y-start".to_owned(),
            PositionTwoAlignVertical::YEnd => "y-end".to_owned(),
            PositionTwoAlignVertical::LengthPercentage(lp) => lp.to_text(),
        }
    }
}

/// A two-value position: both halves from one family.
#[derive(Copy, Clone, Debug, PartialEq, Eq, Structural)]
pub enum PositionTwo {
    Align(PositionTwoAlignHorizontal, PositionTwoAlignVertical),
    BlockInline(PositionTwoBlock, PositionTwoInline),
    Simple(PositionTwoSimple, PositionTwoSimple),
}

impl PositionTwo {
    pub open spec fn wf(&self) -> bool {
        match self {
            PositionTwo::Align(a, b) => a.wf() && b.wf(),
            _ => true,
        }
    }

    pub open spec fn spec_text(&self) -> Seq<char> {
        match self {
            PositionTwo::Align(a, b) => a.spec_text() + " "@ + b.spec_text(),
            PositionTwo::BlockInline(a, b) => a.spec_text() + " "@ + b.spec_text(),
            PositionTwo::Simple(a, b) => a.spec_text() + " "@ + b.spec_text(),
        }
    }

    pub fn to_text(&self) -> (r: String)
        requires
            self.wf(),
        ensures
            r@ == self.spec_text(),
    {
        let (a, b) = match self {
            PositionTwo::Align(a, b) => (a.to_text(), b.to_text()),
            PositionTwo::BlockInline(a, b) => (a.to_text(), b.to_text()),
            PositionTwo::Simple(a, b) => (a.to_text(), b.to_text()),
        };
        let mut out = a;
        out.append(" ");
        out.append(b.as_str());
        out
    }
}

/// A four-value position: two anchors, each with an offset.
#[derive(Copy, Clone, Debug, PartialEq)]
pub enum PositionFour {
    Align(
        (PositionFourAlignHorizontal, crate::value::LengthPercentage),
        (PositionFourAlignVertical, crate::value::LengthPercentage),
    ),
    BlockInline(
        (PositionFourBlock, crate::value::LengthPercentage),
        (PositionFourInline, crate::value::LengthPercentage),
    ),
    Simple(
        (PositionFourSimple, crate::value::LengthPercentage),
        (PositionFourSimple, crate::value::LengthPercentage),
    ),
}

impl PositionFour {
    pub open spec fn wf(&self) -> bool {
        match self {
            PositionFour::Align(a, c) => a.1.wf() && c.1.wf(),
            PositionFour::BlockInline(a, c) => a.1.wf() && c.1.wf(),
            PositionFour::Simple(a, c) => a.1.wf() && c.1.wf(),
        }
    }

    pub open spec fn spec_text(&self) -> Seq<char> {
        match self {
            PositionFour::Align(a, c) => a.0.spec_text() + " "@ + a.1.spec_text() + " "@
                + c.0.spec_text() + " "@ + c.1.spec_text(),
            PositionFour::BlockInline(a, c) => a.0.spec_text() + " "@ + a.1.spec_text() + " "@
                + c.0.spec_text() + " "@ + c.1.spec_text(),
            PositionFour::Simple(a, c) => a.0.spec_text() + " "@ + a.1.spec_text() + " "@
                + c.0.spec_text() + " "@ + c.1.spec_text(),
        }
    }

    pub fn to_text(&self) -> (r: String)
        requires
            self.wf(),
        ensures
            r@ == self.spec_text(),
    {
        let (a, b, c, d) = match self {
            PositionFour::Align(a, c) => (a.0.to_text(), a.1.to_text(), c.0.to_text(), c.1.to_text()),
            PositionFour::BlockInline(a, c) => (
                a.0.to_text(),
                a.1.to_text(),
                c.0.to_text(),
                c.1.to_text(),
            ),
            PositionFour::Simple(a, c) => (a.0.to_text(), a.1.to_text(), c.0.to_text(), c.1.to_text()),
        };
        let mut out = a;
        out.append(" ");
        out.append(b.as_str());
        out.append(" ");
        out.append(c.as_str());
        out.append(" ");
        out.append(d.as_str());
        assert(out@ =~= self.spec_text());
        out
    }
}

/// A position in any of its three arities.
#[derive(Copy, Clone, Debug, PartialEq)]
pub enum Position {
    One(PositionOne),
    Two(PositionTwo),
    Four(PositionFour),
}

impl Position {
    pub open spec fn wf(&self) -> bool {
        match self {
            Position::One(p) => p.wf(),
            Position::Two(p) => p.wf(),
            Position::Four(p) => p.wf(),
        }
    }

    pub open spec fn spec_text(&self) -> Seq<char> {
        match self {
            Position::One(p) => p.spec_text(),
            Position::Two(p) => p.spec_text(),
            Position::Four(p) => p.spec_text(),
        }
    }

    pub fn to_text(&self) -> (r: String)
        requires
            self.wf(),
        ensures
            r@ == self.spec_text(),
    {
        match self {
            Position::One(p) => p.to_text(),
            Position::Two(p) => p.to_text(),
            Position::Four(p) => p.to_text(),
        }
    }
}


} // verus!
