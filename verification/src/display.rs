//! The CSS `display` keyword vocabulary: outer and inner display
//! models, list items, table and ruby internals, boxes, and the legacy
//! inline forms, each with its keyword rendering.

use vstd::prelude::*;

verus! {

/// How a box participates in the parent's flow.
#[derive(Copy, Clone, Debug, PartialEq, Eq, Structural)]
pub enum DisplayOutside {
    Block,
    Inline,
    RunIn,
}

impl DisplayOutside {
    /// The keyword this variant renders to.
    pub open spec fn spec_text(&self) -> Seq<char> {
        match self {
            DisplayOutside::Block => "block"@,
            DisplayOutside::Inline => "inline"@,
            DisplayOutside::RunIn => "run-in"@,
        }
    }

    /// Renders the keyword.
    pub fn to_text(&self) -> (r: String)
        ensures
            r@ == self.spec_text(),
    {
        match self {
            DisplayOutside::Block => "block".to_owned(),
            DisplayOutside::Inline => "inline".to_owned(),
            DisplayOutside::RunIn => "run-in".to_owned(),
        }
    }
}

/// The formatting context a box establishes.
#[derive(Copy, Clone, Debug, PartialEq, Eq, Structural)]
pub enum DisplayInside {
    Flow,
    FlowRoot,
    Table,
    Flex,
    Grid,
    Ruby,
}

impl DisplayInside {
    /// The keyword this variant renders to.
    pub open spec fn spec_text(&self) -> Seq<char> {
        match self {
            DisplayInside::Flow => "flow"@,
            DisplayInside::FlowRoot => "flow-root"@,
            DisplayInside::Table => "table"@,
            DisplayInside::Flex => "flex"@,
            DisplayInside::Grid => "grid"@,
            DisplayInside::Ruby => "ruby"@,
        }
    }

    /// Renders the keyword.
    pub fn to_text(&self) -> (r: String)
        ensures
            r@ == self.spec_text(),
    {
        match self {
            DisplayInside::Flow => "flow".to_owned(),
            DisplayInside::FlowRoot => "flow-root".to_owned(),
            DisplayInside::Table => "table".to_owned(),
            DisplayInside::Flex => "flex".to_owned(),
            DisplayInside::Grid => "grid".to_owned(),
            DisplayInside::Ruby => "ruby".to_owned(),
        }
    }
}

/// An inner display, or the `math` context.
#[derive(Copy, Clone, Debug, PartialEq, Eq, Structural)]
pub enum DisplayInsideMath {
    Inside(DisplayInside),
    Math,
}

impl DisplayInsideMath {
    pub open spec fn spec_text(&self) -> Seq<char> {
        match self {
            DisplayInsideMath::Inside(di) => di.spec_text(),
            DisplayInsideMath::Math => "math"@,
        }
    }

    pub fn to_text(&self) -> (r: String)
        ensures
            r@ == self.spec_text(),
    {
        match self {
            DisplayInsideMath::Inside(di) => di.to_text(),
            DisplayInsideMath::Math => "math".to_owned(),
        }
    }
}

/// An outer and inner display pair, or either alone.
#[derive(Copy, Clone, Debug, PartialEq, Eq, Structural)]
pub enum DisplayOutsideInside {
    OutsideInside(DisplayOutside, DisplayInsideMath),
    Outside(DisplayOutside),
    Inside(DisplayInsideMath),
}

impl DisplayOutsideInside {
    pub open spec fn spec_text(&self) -> Seq<char> {
        match self {
            DisplayOutsideInside::OutsideInside(o, i) => o.spec_text() + " "@ + i.spec_text(),
            DisplayOutsideInside::Outside(o) => o.spec_text(),
            DisplayOutsideInside::Inside(i) => i.spec_text(),
        }
    }

    pub fn to_text(&self) -> (r: String)
        ensures
            r@ == self.spec_text(),
    {
        match self {
            DisplayOutsideInside::OutsideInside(o, i) => {
                let mut r = o.to_text();
                r.append(" ");
                let it = i.to_text();
                r.append(it.as_str());
                r
            },
            DisplayOutsideInside::Outside(o) => o.to_text(),
            DisplayOutsideInside::Inside(i) => i.to_text(),
        }
    }
}

/// The inner display a list item may name.
#[derive(Copy, Clone, Debug, PartialEq, Eq, Structural)]
pub enum FlowOrRoot {
    Flow,
    FlowRoot,
}

impl FlowOrRoot {
    /// The keyword this variant renders to.
    pub open spec fn spec_text(&self) -> Seq<char> {
        match self {
            FlowOrRoot::Flow => "flow"@,
            FlowOrRoot::FlowRoot => "flow-root"@,
        }
    }

    /// Renders the keyword.
    pub fn to_text(&self) -> (r: String)
        ensures
            r@ == self.spec_text(),
    {
        match self {
            FlowOrRoot::Flow => "flow".to_owned(),
            FlowOrRoot::FlowRoot => "flow-root".to_owned(),
        }
    }
}

/// A `list-item` display, with its optional outer display and flow.
#[derive(Copy, Clone, Debug, PartialEq, Eq, Structural)]
pub struct DisplayListItem(pub Option<DisplayOutside>, pub Option<FlowOrRoot>);

impl DisplayListItem {
    pub open spec fn spec_text(&self) -> Seq<char> {
        let o: Seq<char> = match self.0 {
            Some(d) => d.spec_text() + " "@,
            None => Seq::empty(),
        };
        let fl: Seq<char> = match self.1 {
            Some(f) => f.spec_text() + " "@,
            None => Seq::empty(),
        };
        o + fl + "list-item"@
    }

    pub fn to_text(&self) -> (r: String)
        ensures
            r@ == self.spec_text(),
    {
        let mut r = String::new();
        match &self.0 {
            Some(d) => {
                let t = d.to_text();
                r.append(t.as_str());
                r.append(" ");
            },
            None => {},
        }
        match &self.1 {
            Some(f) => {
                let t = f.to_text();
                r.append(t.as_str());
                r.append(" ");
            },
            None => {},
        }
        r.append("list-item");
        assert(r@ =~= self.spec_text());
        r
    }
}

/// The internal display roles of table and ruby layout.
#[derive(Copy, Clone, Debug, PartialEq, Eq, Structural)]
pub enum DisplayInternal {
    TableRowGroup,
    TableHeaderGroup,
    TableFooterGroup,
    TableRow,
    TableCell,
    TableColumnGroup,
    TableColumn,
    TableCaption,
    RubyBase,
    RubyText,
    RubyBaseContainer,
    RubyTextContainer,
}

impl DisplayInternal {
    /// The keyword this variant renders to.
    pub open spec fn spec_text(&self) -> Seq<char> {
        match self {
            DisplayInternal::TableRowGroup => "table-row-group"@,
            DisplayInternal::TableHeaderGroup => "table-header-group"@,
            DisplayInternal::TableFooterGroup => "table-footer-group"@,
            DisplayInternal::TableRow => "table-row"@,
            DisplayInternal::TableCell => "table-cell"@,
            DisplayInternal::TableColumnGroup => "table-column-group"@,
            DisplayInternal::TableColumn => "table-column"@,
            DisplayInternal::TableCaption => "table-caption"@,
            DisplayInternal::RubyBase => "ruby-base"@,
            DisplayInternal::RubyText => "ruby-text"@,
            DisplayInternal::RubyBaseContainer => "ruby-base-container"@,
            DisplayInternal::RubyTextContainer => "ruby-text-container"@,
        }
    }

    /// Renders the keyword.
    pub fn to_text(&self) -> (r: String)
        ensures
            r@ == self.spec_text(),
    {
        match self {
            DisplayInternal::TableRowGroup => "table-row-group".to_owned(),
            DisplayInternal::TableHeaderGroup => "table-header-group".to_owned(),
            DisplayInternal::TableFooterGroup => "table-footer-group".to_owned(),
            DisplayInternal::TableRow => "table-row".to_owned(),
            DisplayInternal::TableCell => "table-cell".to_owned(),
            DisplayInternal::TableColumnGroup => "table-column-group".to_owned(),
            DisplayInternal::TableColumn => "table-column".to_owned(),
            DisplayInternal::TableCaption => "table-caption".to_owned(),
            DisplayInternal::RubyBase => "ruby-base".to_owned(),
            DisplayInternal::RubyText => "ruby-text".to_owned(),
            DisplayInternal::RubyBaseContainer => "ruby-base-container".to_owned(),
            DisplayInternal::RubyTextContainer => "ruby-text-container".to_owned(),
        }
    }
}

/// Box-suppressing display values.
#[derive(Copy, Clone, Debug, PartialEq, Eq, Structural)]
pub enum DisplayBox {
    Contents,
    NoneValue,
}

impl DisplayBox {
    /// The keyword this variant renders to.
    pub open spec fn spec_text(&self) -> Seq<char> {
        match self {
            DisplayBox::Contents => "contents"@,
            DisplayBox::NoneValue => "none"@,
        }
    }

    /// Renders the keyword.
    pub fn to_text(&self) -> (r: String)
        ensures
            r@ == self.spec_text(),
    {
        match self {
            DisplayBox::Contents => "contents".to_owned(),
            DisplayBox::NoneValue => "none".to_owned(),
        }
    }
}

/// The single-keyword legacy inline forms.
#[derive(Copy, Clone, Debug, PartialEq, Eq, Structural)]
pub enum DisplayLegacy {
    InlineBlock,
    InlineTable,
    InlineFlex,
    InlineGrid,
}

impl DisplayLegacy {
    /// The keyword this variant renders to.
    pub open spec fn spec_text(&self) -> Seq<char> {
        match self {
            DisplayLegacy::InlineBlock => "inline-block"@,
            DisplayLegacy::InlineTable => "inline-table"@,
            DisplayLegacy::InlineFlex => "inline-flex"@,
            DisplayLegacy::InlineGrid => "inline-grid"@,
        }
    }

    /// Renders the keyword.
    pub fn to_text(&self) -> (r: String)
        ensures
            r@ == self.spec_text(),
    {
        match self {
            DisplayLegacy::InlineBlock => "inline-block".to_owned(),
            DisplayLegacy::InlineTable => "inline-table".to_owned(),
            DisplayLegacy::InlineFlex => "inline-flex".to_owned(),
            DisplayLegacy::InlineGrid => "inline-grid".to_owned(),
        }
    }
}

} // verus!
