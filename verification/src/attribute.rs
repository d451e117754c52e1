//! The attribute vocabulary: each type renders to a fixed attribute
//! name and a value string, through the `Attr` trait.

use crate::value::{BeginValue, ClockValue};
use vstd::prelude::*;

verus! {

/// Marks an attribute whose value is one keyword of a closed set.
pub trait EnumAttr {

}

/// Marks an attribute whose value is free text.
pub trait StringAttr {

}

/// Marks an attribute with bespoke value syntax.
pub trait SpecialAttr {

}

/// An attribute: a fixed name and a rendered value.
pub trait Attr {
    /// The attribute's name.
    spec fn spec_name(&self) -> Seq<char>;

    /// The attribute's rendered value.
    spec fn spec_value(&self) -> Seq<char>;

    /// Values on which rendering is defined.
    spec fn spec_attr_valid(&self) -> bool;

    /// Whether the attribute applies to a limited element set.
    spec fn spec_is_limited(&self) -> bool;

    fn name(&self) -> (r: String)
        requires
            self.spec_attr_valid(),
        ensures
            r@ == self.spec_name(),
    ;

    fn value(&self) -> (r: String)
        requires
            self.spec_attr_valid(),
        ensures
            r@ == self.spec_value(),
    ;

    fn is_limited(&self) -> (r: bool)
        ensures
            r == self.spec_is_limited(),
    ;

    /// The elements the attribute is valid on; none are enumerated.
    fn valid_elements(&self) -> (r: Vec<()>)
        ensures
            r@.len() == 0,
    {
        Vec::new()
    }

    /// The attribute as `name="value"` text.
    fn name_value(&self) -> (r: String)
        requires
            self.spec_attr_valid(),
        ensures
            r@ == self.spec_name() + "=\""@ + self.spec_value() + "\""@,
    {
        let mut out = self.name();
        out.append("=\"");
        let v = self.value();
        out.append(v.as_str());
        out.append("\"");
        out
    }
}

/// Texts joined by a separator; empty input renders empty.
pub open spec fn spec_join_texts(xs: Seq<Seq<char>>, sep: Seq<char>) -> Seq<char>
    decreases xs.len(),
{
    if xs.len() == 0 {
        Seq::empty()
    } else if xs.len() == 1 {
        xs[0]
    } else {
        xs[0] + sep + spec_join_texts(xs.drop_first(), sep)
    }
}

proof fn lemma_join_texts_push(xs: Seq<Seq<char>>, x: Seq<char>, sep: Seq<char>)
    requires
        xs.len() >= 1,
    ensures
        spec_join_texts(xs.push(x), sep) == spec_join_texts(xs, sep) + sep + x,
    decreases xs.len(),
{
    assert(xs.push(x)[0] == xs[0]);
    if xs.len() == 1 {
        assert(xs.push(x).drop_first() =~= seq![x]);
        assert(spec_join_texts(seq![x], sep) == x);
    } else {
        lemma_join_texts_push(xs.drop_first(), x, sep);
        assert(xs.push(x).drop_first() =~= xs.drop_first().push(x));
        assert(spec_join_texts(xs.push(x), sep) =~= spec_join_texts(xs, sep) + sep + x);
    }
}

/// Joins the strings with the separator between neighbours.
pub fn concat_str_list(input: &Vec<String>, separator: &str) -> (r: String)
    ensures
        r@ == spec_join_texts(input@.map_values(|s: String| s@), separator@),
{
    let ghost m = input@.map_values(|s: String| s@);
    let mut out = String::new();
    let n = input.len();
    let mut i: usize = 0;
    proof {
        assert(m.take(0) =~= Seq::<Seq<char>>::empty());
    }
    while i < n
        invariant
            i <= n == input@.len(),
            m == input@.map_values(|s: String| s@),
            out@ == spec_join_texts(m.take(i as int), separator@),
        decreases n - i,
    {
        if i > 0 {
            out.append(separator);
        }
        out.append(input[i].as_str());
        proof {
            assert(m.take(i as int + 1) =~= m.take(i as int).push(m[i as int]));
            if i > 0 {
                lemma_join_texts_push(m.take(i as int), m[i as int], separator@);
            } else {
                assert(m.take(1)[0] == m[0]);
            }
            assert(m[i as int] == input@[i as int]@);
        }
        i = i + 1;
    }
    proof {
        assert(m.take(n as int) =~= m);
    }
    out
}

/// The begin values' texts, joined by semicolons.
pub open spec fn spec_begin_list_text(xs: Seq<BeginValue>) -> Seq<char> {
    spec_join_texts(xs.map_values(|v: BeginValue| v.spec_text()), ";"@)
}

fn join_begin_values(xs: &Vec<BeginValue>) -> (r: String)
    ensures
        r@ == spec_begin_list_text(xs@),
{
    let ghost m = xs@.map_values(|v: BeginValue| v.spec_text());
    let mut texts: Vec<String> = Vec::new();
    let mut i: usize = 0;
    while i < xs.len()
        invariant
            i <= xs@.len(),
            texts@.len() == i,
            forall|j: int| 0 <= j < i ==> (#[trigger] texts@[j])@ == xs@[j].spec_text(),
        decreases xs@.len() - i,
    {
        let t = xs[i].to_text();
        texts.push(t);
        i = i + 1;
    }
    proof {
        assert(texts@.map_values(|s: String| s@) =~~= m);
    }
    concat_str_list(&texts, ";")
}

/// Whether repeat iterations build on one another.
#[derive(Copy, Clone, Debug, PartialEq, Eq, Structural)]
pub enum Accumulate {
    NoneValue,
    Sum,
}

impl EnumAttr for Accumulate {

}

impl Attr for Accumulate {
    open spec fn spec_name(&self) -> Seq<char> {
        "Accumulate"@
    }

    open spec fn spec_value(&self) -> Seq<char> {
        match self {
            Accumulate::NoneValue => "none"@,
            Accumulate::Sum => "sum"@,
        }
    }

    open spec fn spec_attr_valid(&self) -> bool {
        true
    }

    open spec fn spec_is_limited(&self) -> bool {
        false
    }

    fn name(&self) -> (r: String) {
        "Accumulate".to_owned()
    }

    fn value(&self) -> (r: String) {
        match self {
            Accumulate::NoneValue => "none".to_owned(),
            Accumulate::Sum => "sum".to_owned(),
        }
    }

    fn is_limited(&self) -> (r: bool) {
        false
    }
}

/// Whether an animation adds to or replaces the underlying value.
#[derive(Copy, Clone, Debug, PartialEq, Eq, Structural)]
pub enum Additive {
    Replace,
    Sum,
}

impl EnumAttr for Additive {

}

impl Attr for Additive {
    open spec fn spec_name(&self) -> Seq<char> {
        "Additive"@
    }

    open spec fn spec_value(&self) -> Seq<char> {
        match self {
            Additive::Replace => "replace"@,
            Additive::Sum => "sum"@,
        }
    }

    open spec fn spec_attr_valid(&self) -> bool {
        true
    }

    open spec fn spec_is_limited(&self) -> bool {
        false
    }

    fn name(&self) -> (r: String) {
        "Additive".to_owned()
    }

    fn value(&self) -> (r: String) {
        match self {
            Additive::Replace => "replace".to_owned(),
            Additive::Sum => "sum".to_owned(),
        }
    }

    fn is_limited(&self) -> (r: bool) {
        false
    }
}

/// How an element is aligned to its parent baseline.
#[derive(Copy, Clone, Debug, PartialEq, Eq, Structural)]
pub enum AlignmentBaseline {
    Auto,
    Baseline,
    BeforeEdge,
    TextBeforeEdge,
    Middle,
    Central,
    AfterEdge,
    TextAfterEdge,
    Ideographic,
    Alphabetic,
    Hanging,
    Mathematical,
    Top,
    Center,
    Bottom,
}

impl EnumAttr for AlignmentBaseline {

}

impl Attr for AlignmentBaseline {
    open spec fn spec_name(&self) -> Seq<char> {
        "alignment-baseline"@
    }

    open spec fn spec_value(&self) -> Seq<char> {
        match self {
            AlignmentBaseline::Auto => "auto"@,
            AlignmentBaseline::Baseline => "baseline"@,
            AlignmentBaseline::BeforeEdge => "before-edge"@,
            AlignmentBaseline::TextBeforeEdge => "text-before-edge"@,
            AlignmentBaseline::Middle => "middle"@,
            AlignmentBaseline::Central => "central"@,
            AlignmentBaseline::AfterEdge => "after-edge"@,
            AlignmentBaseline::TextAfterEdge => "text-after-edge"@,
            AlignmentBaseline::Ideographic => "ideographic"@,
            AlignmentBaseline::Alphabetic => "alphabetic"@,
            AlignmentBaseline::Hanging => "hanging"@,
            AlignmentBaseline::Mathematical => "mathematical"@,
            AlignmentBaseline::Top => "top"@,
            AlignmentBaseline::Center => "center"@,
            AlignmentBaseline::Bottom => "bottom"@,
        }
    }

    open spec fn spec_attr_valid(&self) -> bool {
        true
    }

    open spec fn spec_is_limited(&self) -> bool {
        true
    }

    fn name(&self) -> (r: String) {
        "alignment-baseline".to_owned()
    }

    fn value(&self) -> (r: String) {
        match self {
            AlignmentBaseline::Auto => "auto".to_owned(),
            AlignmentBaseline::Baseline => "baseline".to_owned(),
            AlignmentBaseline::BeforeEdge => "before-edge".to_owned(),
            AlignmentBaseline::TextBeforeEdge => "text-before-edge".to_owned(),
            AlignmentBaseline::Middle => "middle".to_owned(),
            AlignmentBaseline::Central => "central".to_owned(),
            AlignmentBaseline::AfterEdge => "after-edge".to_owned(),
            AlignmentBaseline::TextAfterEdge => "text-after-edge".to_owned(),
            AlignmentBaseline::Ideographic => "ideographic".to_owned(),
            AlignmentBaseline::Alphabetic => "alphabetic".to_owned(),
            AlignmentBaseline::Hanging => "hanging".to_owned(),
            AlignmentBaseline::Mathematical => "mathematical".to_owned(),
            AlignmentBaseline::Top => "top".to_owned(),
            AlignmentBaseline::Center => "center".to_owned(),
            AlignmentBaseline::Bottom => "bottom".to_owned(),
        }
    }

    fn is_limited(&self) -> (r: bool) {
        true
    }
}

/// The name of the attribute an animation targets.
#[derive(Clone, Debug, PartialEq, Eq)]
pub struct AttributeName(pub String);

impl StringAttr for AttributeName {

}

impl Attr for AttributeName {
    open spec fn spec_name(&self) -> Seq<char> {
        "attributeName"@
    }

    open spec fn spec_value(&self) -> Seq<char> {
        self.0@
    }

    open spec fn spec_attr_valid(&self) -> bool {
        true
    }

    open spec fn spec_is_limited(&self) -> bool {
        false
    }

    fn name(&self) -> (r: String) {
        "attributeName".to_owned()
    }

    fn value(&self) -> (r: String) {
        self.0.clone()
    }

    fn is_limited(&self) -> (r: bool) {
        false
    }
}

/// The namespace an animated attribute is looked up in.
#[derive(Copy, Clone, Debug, PartialEq, Eq, Structural)]
pub enum AttributeType {
    CSS,
    XML,
    Auto,
}

impl EnumAttr for AttributeType {

}

impl Attr for AttributeType {
    open spec fn spec_name(&self) -> Seq<char> {
        "attributeType"@
    }

    open spec fn spec_value(&self) -> Seq<char> {
        match self {
            AttributeType::CSS => "CSS"@,
            AttributeType::XML => "XML"@,
            AttributeType::Auto => "auto"@,
        }
    }

    open spec fn spec_attr_valid(&self) -> bool {
        true
    }

    open spec fn spec_is_limited(&self) -> bool {
        false
    }

    fn name(&self) -> (r: String) {
        "attributeType".to_owned()
    }

    fn value(&self) -> (r: String) {
        match self {
            AttributeType::CSS => "CSS".to_owned(),
            AttributeType::XML => "XML".to_owned(),
            AttributeType::Auto => "auto".to_owned(),
        }
    }

    fn is_limited(&self) -> (r: bool) {
        false
    }
}

/// The minimum SVG profile the document requires.
#[derive(Clone, Debug, PartialEq, Eq)]
pub struct BaseProfile(pub String);

impl StringAttr for BaseProfile {

}

impl Attr for BaseProfile {
    open spec fn spec_name(&self) -> Seq<char> {
        "baseProfile"@
    }

    open spec fn spec_value(&self) -> Seq<char> {
        self.0@
    }

    open spec fn spec_attr_valid(&self) -> bool {
        true
    }

    open spec fn spec_is_limited(&self) -> bool {
        false
    }

    fn name(&self) -> (r: String) {
        "baseProfile".to_owned()
    }

    fn value(&self) -> (r: String) {
        self.0.clone()
    }

    fn is_limited(&self) -> (r: bool) {
        false
    }
}

/// The moments at which an animation begins.
#[derive(Clone, Debug, PartialEq)]
pub struct Begin(pub Vec<BeginValue>);

impl Attr for Begin {
    open spec fn spec_name(&self) -> Seq<char> {
        "begin"@
    }

    open spec fn spec_value(&self) -> Seq<char> {
        spec_begin_list_text(self.0@)
    }

    open spec fn spec_attr_valid(&self) -> bool {
        true
    }

    open spec fn spec_is_limited(&self) -> bool {
        false
    }

    fn name(&self) -> (r: String) {
        "begin".to_owned()
    }

    fn value(&self) -> (r: String) {
        join_begin_values(&self.0)
    }

    fn is_limited(&self) -> (r: bool) {
        false
    }
}

/// A value change to apply over an animation; its rendering is not
/// defined by this vocabulary.
#[derive(Clone, Debug, PartialEq, Eq)]
pub struct By(pub String);

impl SpecialAttr for By {

}

/// How intermediate animation values are calculated.
#[derive(Copy, Clone, Debug, PartialEq, Eq, Structural)]
pub enum CalcMode {
    Discrete,
    Linear,
    Paced,
    Spline,
}

impl EnumAttr for CalcMode {

}

impl Attr for CalcMode {
    open spec fn spec_name(&self) -> Seq<char> {
        "calcMode"@
    }

    open spec fn spec_value(&self) -> Seq<char> {
        match self {
            CalcMode::Discrete => "discrete"@,
            CalcMode::Linear => "linear"@,
            CalcMode::Paced => "paced"@,
            CalcMode::Spline => "spline"@,
        }
    }

    open spec fn spec_attr_valid(&self) -> bool {
        true
    }

    open spec fn spec_is_limited(&self) -> bool {
        false
    }

    fn name(&self) -> (r: String) {
        "calcMode".to_owned()
    }

    fn value(&self) -> (r: String) {
        match self {
            CalcMode::Discrete => "discrete".to_owned(),
            CalcMode::Linear => "linear".to_owned(),
            CalcMode::Paced => "paced".to_owned(),
            CalcMode::Spline => "spline".to_owned(),
        }
    }

    fn is_limited(&self) -> (r: bool) {
        false
    }
}

/// The class names of an element, space separated.
#[derive(Clone, Debug, PartialEq, Eq)]
pub struct Class(pub Vec<String>);

impl SpecialAttr for Class {

}

impl Attr for Class {
    open spec fn spec_name(&self) -> Seq<char> {
        "class"@
    }

    open spec fn spec_value(&self) -> Seq<char> {
        spec_join_texts(self.0@.map_values(|s: String| s@), " "@)
    }

    open spec fn spec_attr_valid(&self) -> bool {
        true
    }

    open spec fn spec_is_limited(&self) -> bool {
        false
    }

    fn name(&self) -> (r: String) {
        "class".to_owned()
    }

    fn value(&self) -> (r: String) {
        concat_str_list(&self.0, " ")
    }

    fn is_limited(&self) -> (r: bool) {
        false
    }
}

/// Which fill rule clipping uses.
#[derive(Copy, Clone, Debug, PartialEq, Eq, Structural)]
pub enum ClipRule {
    NonZero,
    EvenOdd,
    Inherit,
}

impl EnumAttr for ClipRule {

}

impl Attr for ClipRule {
    open spec fn spec_name(&self) -> Seq<char> {
        "clip-rule"@
    }

    open spec fn spec_value(&self) -> Seq<char> {
        match self {
            ClipRule::NonZero => "nonzero"@,
            ClipRule::EvenOdd => "evenodd"@,
            ClipRule::Inherit => "inherit"@,
        }
    }

    open spec fn spec_attr_valid(&self) -> bool {
        true
    }

    open spec fn spec_is_limited(&self) -> bool {
        false
    }

    fn name(&self) -> (r: String) {
        "clip-rule".to_owned()
    }

    fn value(&self) -> (r: String) {
        match self {
            ClipRule::NonZero => "nonzero".to_owned(),
            ClipRule::EvenOdd => "evenodd".to_owned(),
            ClipRule::Inherit => "inherit".to_owned(),
        }
    }

    fn is_limited(&self) -> (r: bool) {
        false
    }
}

/// The coordinate system of a clip path.
#[derive(Copy, Clone, Debug, PartialEq, Eq, Structural)]
pub enum ClipPathUnits {
    UserSpaceOnUse,
    ObjectBoundingBox,
}

impl EnumAttr for ClipPathUnits {

}

impl Attr for ClipPathUnits {
    open spec fn spec_name(&self) -> Seq<char> {
        "clipPathUnits"@
    }

    open spec fn spec_value(&self) -> Seq<char> {
        match self {
            ClipPathUnits::UserSpaceOnUse => "userSpaceOnUse"@,
            ClipPathUnits::ObjectBoundingBox => "objectBoundingBox"@,
        }
    }

    open spec fn spec_attr_valid(&self) -> bool {
        true
    }

    open spec fn spec_is_limited(&self) -> bool {
        false
    }

    fn name(&self) -> (r: String) {
        "clipPathUnits".to_owned()
    }

    fn value(&self) -> (r: String) {
        match self {
            ClipPathUnits::UserSpaceOnUse => "userSpaceOnUse".to_owned(),
            ClipPathUnits::ObjectBoundingBox => "objectBoundingBox".to_owned(),
        }
    }

    fn is_limited(&self) -> (r: bool) {
        false
    }
}

/// The color space used for interpolation.
#[derive(Copy, Clone, Debug, PartialEq, Eq, Structural)]
pub enum ColorInterpolation {
    Auto,
    Srgb,
    LinearRgb,
}

impl EnumAttr for ColorInterpolation {

}

impl Attr for ColorInterpolation {
    open spec fn spec_name(&self) -> Seq<char> {
        "color-interpolation"@
    }

    open spec fn spec_value(&self) -> Seq<char> {
        match self {
            ColorInterpolation::Auto => "auto"@,
            ColorInterpolation::Srgb => "sRGB"@,
            ColorInterpolation::LinearRgb => "linearRGB"@,
        }
    }

    open spec fn spec_attr_valid(&self) -> bool {
        true
    }

    open spec fn spec_is_limited(&self) -> bool {
        false
    }

    fn name(&self) -> (r: String) {
        "color-interpolation".to_owned()
    }

    fn value(&self) -> (r: String) {
        match self {
            ColorInterpolation::Auto => "auto".to_owned(),
            ColorInterpolation::Srgb => "sRGB".to_owned(),
            ColorInterpolation::LinearRgb => "linearRGB".to_owned(),
        }
    }

    fn is_limited(&self) -> (r: bool) {
        false
    }
}

/// The color space filter primitives interpolate in.
#[derive(Copy, Clone, Debug, PartialEq, Eq, Structural)]
pub enum ColorInterpolationFilter {
    Auto,
    Srgb,
    LinearRgb,
}

impl EnumAttr for ColorInterpolationFilter {

}

impl Attr for ColorInterpolationFilter {
    open spec fn spec_name(&self) -> Seq<char> {
        "color-interpolation-filter"@
    }

    open spec fn spec_value(&self) -> Seq<char> {
        match self {
            ColorInterpolationFilter::Auto => "auto"@,
            ColorInterpolationFilter::Srgb => "sRGB"@,
            ColorInterpolationFilter::LinearRgb => "linearRGB"@,
        }
    }

    open spec fn spec_attr_valid(&self) -> bool {
        true
    }

    open spec fn spec_is_limited(&self) -> bool {
        false
    }

    fn name(&self) -> (r: String) {
        "color-interpolation-filter".to_owned()
    }

    fn value(&self) -> (r: String) {
        match self {
            ColorInterpolationFilter::Auto => "auto".to_owned(),
            ColorInterpolationFilter::Srgb => "sRGB".to_owned(),
            ColorInterpolationFilter::LinearRgb => "linearRGB".to_owned(),
        }
    }

    fn is_limited(&self) -> (r: bool) {
        false
    }
}

/// A cursor keyword.
#[derive(Copy, Clone, Debug, PartialEq, Eq, Structural)]
pub enum CursorType {
    Auto,
    Crosshair,
    DefaultCursor,
    Pointer,
    Move,
    EResize,
    NeResize,
    NwResize,
    NResize,
    SeResize,
    SwResize,
    SResize,
    WResize,
    Text,
    Wait,
    Help,
}

impl CursorType {
    /// The keyword this variant renders to.
    pub open spec fn spec_text(&self) -> Seq<char> {
        match self {
            CursorType::Auto => "auto"@,
            CursorType::Crosshair => "crosshair"@,
            CursorType::DefaultCursor => "default"@,
            CursorType::Pointer => "pointer"@,
            CursorType::Move => "move"@,
            CursorType::EResize => "e-resize"@,
            CursorType::NeResize => "ne-resize"@,
            CursorType::NwResize => "nw-resize"@,
            CursorType::NResize => "n-resize"@,
            CursorType::SeResize => "se-resize"@,
            CursorType::SwResize => "sw-resize"@,
            CursorType::SResize => "s-resize"@,
            CursorType::WResize => "w-resize"@,
            CursorType::Text => "text"@,
            CursorType::Wait => "wait"@,
            CursorType::Help => "help"@,
        }
    }

    /// Renders the keyword.
    pub fn to_text(&self) -> (r: String)
        ensures
            r@ == self.spec_text(),
    {
        match self {
            CursorType::Auto => "auto".to_owned(),
            CursorType::Crosshair => "crosshair".to_owned(),
            CursorType::DefaultCursor => "default".to_owned(),
            CursorType::Pointer => "pointer".to_owned(),
            CursorType::Move => "move".to_owned(),
            CursorType::EResize => "e-resize".to_owned(),
            CursorType::NeResize => "ne-resize".to_owned(),
            CursorType::NwResize => "nw-resize".to_owned(),
            CursorType::NResize => "n-resize".to_owned(),
            CursorType::SeResize => "se-resize".to_owned(),
            CursorType::SwResize => "sw-resize".to_owned(),
            CursorType::SResize => "s-resize".to_owned(),
            CursorType::WResize => "w-resize".to_owned(),
            CursorType::Text => "text".to_owned(),
            CursorType::Wait => "wait".to_owned(),
            CursorType::Help => "help".to_owned(),
        }
    }
}

/// Cursor image urls, comma separated, ending in a cursor keyword.
#[derive(Clone, Debug, PartialEq, Eq)]
pub struct ComplexCursor(pub Vec<String>, pub CursorType);

impl ComplexCursor {
    pub open spec fn spec_text(&self) -> Seq<char> {
        spec_join_texts(self.0@.map_values(|s: String| s@), ","@) + (if self.0@.len() > 0 {
            ","@
        } else {
            Seq::<char>::empty()
        }) + self.1.spec_text()
    }

    pub fn to_text(&self) -> (r: String)
        ensures
            r@ == self.spec_text(),
    {
        let mut out = concat_str_list(&self.0, ",");
        if self.0.len() > 0 {
            out.append(",");
        }
        let t = self.1.to_text();
        out.append(t.as_str());
        assert(out@ =~= self.spec_text());
        out
    }
}

/// The cursor shown over an element.
#[derive(Clone, Debug, PartialEq, Eq)]
pub enum Cursor {
    Complex(ComplexCursor),
    Inherit,
}

impl Attr for Cursor {
    open spec fn spec_name(&self) -> Seq<char> {
        "cursor"@
    }

    open spec fn spec_value(&self) -> Seq<char> {
        match self {
            Cursor::Complex(cc) => cc.spec_text(),
            Cursor::Inherit => "inherit"@,
        }
    }

    open spec fn spec_attr_valid(&self) -> bool {
        true
    }

    open spec fn spec_is_limited(&self) -> bool {
        false
    }

    fn name(&self) -> (r: String) {
        "cursor".to_owned()
    }

    fn value(&self) -> (r: String) {
        match self {
            Cursor::Complex(cc) => cc.to_text(),
            Cursor::Inherit => "inherit".to_owned(),
        }
    }

    fn is_limited(&self) -> (r: bool) {
        false
    }
}

/// A raw path-data value, kept as text.
#[derive(Clone, Debug, PartialEq, Eq)]
pub struct D(pub String);

impl StringAttr for D {

}

impl Attr for D {
    open spec fn spec_name(&self) -> Seq<char> {
        "d"@
    }

    open spec fn spec_value(&self) -> Seq<char> {
        self.0@
    }

    open spec fn spec_attr_valid(&self) -> bool {
        true
    }

    open spec fn spec_is_limited(&self) -> bool {
        false
    }

    fn name(&self) -> (r: String) {
        "d".to_owned()
    }

    fn value(&self) -> (r: String) {
        self.0.clone()
    }

    fn is_limited(&self) -> (r: bool) {
        false
    }
}

/// A custom `data-*` attribute: a suffix and a value.
#[derive(Clone, Debug, PartialEq, Eq)]
pub struct Data(pub String, pub String);

impl Attr for Data {
    open spec fn spec_name(&self) -> Seq<char> {
        "data-"@ + self.0@
    }

    open spec fn spec_value(&self) -> Seq<char> {
        self.1@
    }

    open spec fn spec_attr_valid(&self) -> bool {
        true
    }

    open spec fn spec_is_limited(&self) -> bool {
        false
    }

    fn name(&self) -> (r: String) {
        let mut out = "data-".to_owned();
        out.append(self.0.as_str());
        out
    }

    fn value(&self) -> (r: String) {
        self.1.clone()
    }

    fn is_limited(&self) -> (r: bool) {
        false
    }
}

/// How an image is decoded.
#[derive(Copy, Clone, Debug, PartialEq, Eq, Structural)]
pub enum Decoding {
    Sync,
    Async,
    Auto,
}

impl EnumAttr for Decoding {

}

impl Attr for Decoding {
    open spec fn spec_name(&self) -> Seq<char> {
        "decoding"@
    }

    open spec fn spec_value(&self) -> Seq<char> {
        match self {
            Decoding::Sync => "sync"@,
            Decoding::Async => "async"@,
            Decoding::Auto => "auto"@,
        }
    }

    open spec fn spec_attr_valid(&self) -> bool {
        true
    }

    open spec fn spec_is_limited(&self) -> bool {
        false
    }

    fn name(&self) -> (r: String) {
        "decoding".to_owned()
    }

    fn value(&self) -> (r: String) {
        match self {
            Decoding::Sync => "sync".to_owned(),
            Decoding::Async => "async".to_owned(),
            Decoding::Auto => "auto".to_owned(),
        }
    }

    fn is_limited(&self) -> (r: bool) {
        false
    }
}

/// The base text direction.
#[derive(Copy, Clone, Debug, PartialEq, Eq, Structural)]
pub enum Direction {
    Ltr,
    Rtl,
}

impl EnumAttr for Direction {

}

impl Attr for Direction {
    open spec fn spec_name(&self) -> Seq<char> {
        "direction"@
    }

    open spec fn spec_value(&self) -> Seq<char> {
        match self {
            Direction::Ltr => "ltr"@,
            Direction::Rtl => "rtl"@,
        }
    }

    open spec fn spec_attr_valid(&self) -> bool {
        true
    }

    open spec fn spec_is_limited(&self) -> bool {
        false
    }

    fn name(&self) -> (r: String) {
        "direction".to_owned()
    }

    fn value(&self) -> (r: String) {
        match self {
            Direction::Ltr => "ltr".to_owned(),
            Direction::Rtl => "rtl".to_owned(),
        }
    }

    fn is_limited(&self) -> (r: bool) {
        false
    }
}

/// A `display` value: one of the display families.
#[derive(Copy, Clone, Debug, PartialEq, Eq, Structural)]
pub enum DisplayA {
    OutsideInside(crate::display::DisplayOutsideInside),
    ListItem(crate::display::DisplayListItem),
    Internal(crate::display::DisplayInternal),
    Boxed(crate::display::DisplayBox),
    Legacy(crate::display::DisplayLegacy),
}

/// The baseline used to align text.
#[derive(Copy, Clone, Debug, PartialEq, Eq, Structural)]
pub enum DominantBaseline {
    Auto,
    TextBottom,
    Alphabetic,
    Ideographic,
    Middle,
    Central,
    Mathematical,
    Hanging,
    TextTop,
}

impl EnumAttr for DominantBaseline {

}

impl Attr for DominantBaseline {
    open spec fn spec_name(&self) -> Seq<char> {
        "dominant-baseline"@
    }

    open spec fn spec_value(&self) -> Seq<char> {
        match self {
            DominantBaseline::Auto => "auto"@,
            DominantBaseline::TextBottom => "text-bottom"@,
            DominantBaseline::Alphabetic => "alphabetic"@,
            DominantBaseline::Ideographic => "ideographic"@,
            DominantBaseline::Middle => "middle"@,
            DominantBaseline::Central => "central"@,
            DominantBaseline::Mathematical => "mathematical"@,
            DominantBaseline::Hanging => "hanging"@,
            DominantBaseline::TextTop => "text-top"@,
        }
    }

    open spec fn spec_attr_valid(&self) -> bool {
        true
    }

    open spec fn spec_is_limited(&self) -> bool {
        false
    }

    fn name(&self) -> (r: String) {
        "dominant-baseline".to_owned()
    }

    fn value(&self) -> (r: String) {
        match self {
            DominantBaseline::Auto => "auto".to_owned(),
            DominantBaseline::TextBottom => "text-bottom".to_owned(),
            DominantBaseline::Alphabetic => "alphabetic".to_owned(),
            DominantBaseline::Ideographic => "ideographic".to_owned(),
            DominantBaseline::Middle => "middle".to_owned(),
            DominantBaseline::Central => "central".to_owned(),
            DominantBaseline::Mathematical => "mathematical".to_owned(),
            DominantBaseline::Hanging => "hanging".to_owned(),
            DominantBaseline::TextTop => "text-top".to_owned(),
        }
    }

    fn is_limited(&self) -> (r: bool) {
        false
    }
}

/// How long an animation runs.
#[derive(Copy, Clone, Debug, PartialEq, Eq, Structural)]
pub enum Dur {
    ClockValue(ClockValue),
    Media,
    Indefinite,
}

impl Attr for Dur {
    open spec fn spec_name(&self) -> Seq<char> {
        "dur"@
    }

    open spec fn spec_value(&self) -> Seq<char> {
        match self {
            Dur::ClockValue(cv) => cv.spec_text(),
            Dur::Media => "media"@,
            Dur::Indefinite => "indefinite"@,
        }
    }

    open spec fn spec_attr_valid(&self) -> bool {
        true
    }

    open spec fn spec_is_limited(&self) -> bool {
        false
    }

    fn name(&self) -> (r: String) {
        "dur".to_owned()
    }

    fn value(&self) -> (r: String) {
        match self {
            Dur::ClockValue(cv) => cv.to_text(),
            Dur::Media => "media".to_owned(),
            Dur::Indefinite => "indefinite".to_owned(),
        }
    }

    fn is_limited(&self) -> (r: bool) {
        false
    }
}

/// How a filter treats pixels beyond an edge.
#[derive(Copy, Clone, Debug, PartialEq, Eq, Structural)]
pub enum EdgeMode {
    Duplicate,
    Wrap,
    NoneValue,
}

impl EnumAttr for EdgeMode {

}

impl Attr for EdgeMode {
    open spec fn spec_name(&self) -> Seq<char> {
        "edgeMode"@
    }

    open spec fn spec_value(&self) -> Seq<char> {
        match self {
            EdgeMode::Duplicate => "duplicate"@,
            EdgeMode::Wrap => "wrap"@,
            EdgeMode::NoneValue => "none"@,
        }
    }

    open spec fn spec_attr_valid(&self) -> bool {
        true
    }

    open spec fn spec_is_limited(&self) -> bool {
        false
    }

    fn name(&self) -> (r: String) {
        "edgeMode".to_owned()
    }

    fn value(&self) -> (r: String) {
        match self {
            EdgeMode::Duplicate => "duplicate".to_owned(),
            EdgeMode::Wrap => "wrap".to_owned(),
            EdgeMode::NoneValue => "none".to_owned(),
        }
    }

    fn is_limited(&self) -> (r: bool) {
        false
    }
}

/// The moments at which an animation ends.
#[derive(Clone, Debug, PartialEq)]
pub struct End(pub Vec<BeginValue>);

impl Attr for End {
    open spec fn spec_name(&self) -> Seq<char> {
        "end"@
    }

    open spec fn spec_value(&self) -> Seq<char> {
        spec_begin_list_text(self.0@)
    }

    open spec fn spec_attr_valid(&self) -> bool {
        true
    }

    open spec fn spec_is_limited(&self) -> bool {
        false
    }

    fn name(&self) -> (r: String) {
        "end".to_owned()
    }

    fn value(&self) -> (r: String) {
        join_begin_values(&self.0)
    }

    fn is_limited(&self) -> (r: bool) {
        false
    }
}

/// The amplitude of a component transfer function.
#[derive(Copy, Clone, Debug, PartialEq, Eq, Structural)]
pub struct Amplitude(pub crate::number::Number);

impl Default for Amplitude {
    /// The reference value `1`.
    fn default() -> (r: Self)
        ensures
            r == Amplitude(crate::number::Number { neg: false, mant: 1, scale: 0 }),
    {
        Amplitude(crate::number::Number { neg: false, mant: 1, scale: 0 })
    }
}

impl Attr for Amplitude {
    open spec fn spec_name(&self) -> Seq<char> {
        "amplitude"@
    }

    open spec fn spec_value(&self) -> Seq<char> {
        crate::number::spec_format_number(self.0)
    }

    open spec fn spec_attr_valid(&self) -> bool {
        self.0.wf()
    }

    open spec fn spec_is_limited(&self) -> bool {
        false
    }

    fn name(&self) -> (r: String) {
        "amplitude".to_owned()
    }

    fn value(&self) -> (r: String) {
        self.0.format()
    }

    fn is_limited(&self) -> (r: bool) {
        false
    }
}

/// The direction angle of a distant light source.
#[derive(Copy, Clone, Debug, PartialEq, Eq, Structural)]
pub struct Azimuth(pub crate::number::Number);

impl Attr for Azimuth {
    open spec fn spec_name(&self) -> Seq<char> {
        "azimuth"@
    }

    open spec fn spec_value(&self) -> Seq<char> {
        crate::number::spec_format_number(self.0)
    }

    open spec fn spec_attr_valid(&self) -> bool {
        self.0.wf()
    }

    open spec fn spec_is_limited(&self) -> bool {
        false
    }

    fn name(&self) -> (r: String) {
        "azimuth".to_owned()
    }

    fn value(&self) -> (r: String) {
        self.0.format()
    }

    fn is_limited(&self) -> (r: bool) {
        false
    }
}

/// The bias added after a convolution.
#[derive(Copy, Clone, Debug, PartialEq, Eq, Structural)]
pub struct Bias(pub crate::number::Number);

impl Attr for Bias {
    open spec fn spec_name(&self) -> Seq<char> {
        "bias"@
    }

    open spec fn spec_value(&self) -> Seq<char> {
        crate::number::spec_format_number(self.0)
    }

    open spec fn spec_attr_valid(&self) -> bool {
        self.0.wf()
    }

    open spec fn spec_is_limited(&self) -> bool {
        false
    }

    fn name(&self) -> (r: String) {
        "bias".to_owned()
    }

    fn value(&self) -> (r: String) {
        self.0.format()
    }

    fn is_limited(&self) -> (r: bool) {
        false
    }
}

/// The diffuse lighting constant.
#[derive(Copy, Clone, Debug, PartialEq, Eq, Structural)]
pub struct DiffuseConstant(pub crate::number::Number);

impl Default for DiffuseConstant {
    /// The reference value `1`.
    fn default() -> (r: Self)
        ensures
            r == DiffuseConstant(crate::number::Number { neg: false, mant: 1, scale: 0 }),
    {
        DiffuseConstant(crate::number::Number { neg: false, mant: 1, scale: 0 })
    }
}

impl Attr for DiffuseConstant {
    open spec fn spec_name(&self) -> Seq<char> {
        "diffuseConstant"@
    }

    open spec fn spec_value(&self) -> Seq<char> {
        crate::number::spec_format_number(self.0)
    }

    open spec fn spec_attr_valid(&self) -> bool {
        self.0.wf()
    }

    open spec fn spec_is_limited(&self) -> bool {
        false
    }

    fn name(&self) -> (r: String) {
        "diffuseConstant".to_owned()
    }

    fn value(&self) -> (r: String) {
        self.0.format()
    }

    fn is_limited(&self) -> (r: bool) {
        false
    }
}

/// The divisor applied after a convolution.
#[derive(Copy, Clone, Debug, PartialEq, Eq, Structural)]
pub struct Divisor(pub crate::number::Number);

impl Attr for Divisor {
    open spec fn spec_name(&self) -> Seq<char> {
        "divisor"@
    }

    open spec fn spec_value(&self) -> Seq<char> {
        crate::number::spec_format_number(self.0)
    }

    open spec fn spec_attr_valid(&self) -> bool {
        self.0.wf()
    }

    open spec fn spec_is_limited(&self) -> bool {
        false
    }

    fn name(&self) -> (r: String) {
        "divisor".to_owned()
    }

    fn value(&self) -> (r: String) {
        self.0.format()
    }

    fn is_limited(&self) -> (r: bool) {
        false
    }
}

/// The elevation angle of a distant light source.
#[derive(Copy, Clone, Debug, PartialEq, Eq, Structural)]
pub struct Elevation(pub crate::number::Number);

impl Attr for Elevation {
    open spec fn spec_name(&self) -> Seq<char> {
        "elevation"@
    }

    open spec fn spec_value(&self) -> Seq<char> {
        crate::number::spec_format_number(self.0)
    }

    open spec fn spec_attr_valid(&self) -> bool {
        self.0.wf()
    }

    open spec fn spec_is_limited(&self) -> bool {
        false
    }

    fn name(&self) -> (r: String) {
        "elevation".to_owned()
    }

    fn value(&self) -> (r: String) {
        self.0.format()
    }

    fn is_limited(&self) -> (r: bool) {
        false
    }
}

/// The exponent of a component transfer function.
#[derive(Copy, Clone, Debug, PartialEq, Eq, Structural)]
pub struct Exponent(pub crate::number::Number);

impl Attr for Exponent {
    open spec fn spec_name(&self) -> Seq<char> {
        "exponent"@
    }

    open spec fn spec_value(&self) -> Seq<char> {
        crate::number::spec_format_number(self.0)
    }

    open spec fn spec_attr_valid(&self) -> bool {
        self.0.wf()
    }

    open spec fn spec_is_limited(&self) -> bool {
        false
    }

    fn name(&self) -> (r: String) {
        "exponent".to_owned()
    }

    fn value(&self) -> (r: String) {
        self.0.format()
    }

    fn is_limited(&self) -> (r: bool) {
        false
    }
}

/// The base frequency of turbulence noise, optionally split by axis.
#[derive(Copy, Clone, Debug, PartialEq, Eq, Structural)]
pub struct BaseFrequency(pub crate::number::Number, pub Option<crate::number::Number>);

impl Attr for BaseFrequency {
    open spec fn spec_name(&self) -> Seq<char> {
        "baseFrequency"@
    }

    open spec fn spec_value(&self) -> Seq<char> {
        crate::number::spec_format_number(self.0) + match self.1 {
            Some(o) => " "@ + crate::number::spec_format_number(o),
            None => Seq::empty(),
        }
    }

    open spec fn spec_attr_valid(&self) -> bool {
        self.0.wf() && match self.1 {
            Some(o) => o.wf(),
            None => true,
        }
    }

    open spec fn spec_is_limited(&self) -> bool {
        false
    }

    fn name(&self) -> (r: String) {
        "baseFrequency".to_owned()
    }

    fn value(&self) -> (r: String) {
        let mut out = self.0.format();
        match &self.1 {
            Some(o) => {
                out.append(" ");
                let t = o.format();
                out.append(t.as_str());
            },
            None => {},
        }
        assert(out@ =~= self.spec_value());
        out
    }

    fn is_limited(&self) -> (r: bool) {
        false
    }
}

/// A baseline shift: an offset, or the `sub`/`super` keywords.
#[derive(Copy, Clone, Debug, PartialEq, Eq, Structural)]
pub enum BaselineShift {
    LengthPercentage(crate::number::Number),
    Sub,
    Super,
}

impl EnumAttr for BaselineShift {

}

impl Attr for BaselineShift {
    open spec fn spec_name(&self) -> Seq<char> {
        "baseline-shift"@
    }

    open spec fn spec_value(&self) -> Seq<char> {
        match self {
            BaselineShift::LengthPercentage(v) => crate::number::spec_format_number(*v),
            BaselineShift::Sub => "sub"@,
            BaselineShift::Super => "super"@,
        }
    }

    open spec fn spec_attr_valid(&self) -> bool {
        match self {
            BaselineShift::LengthPercentage(v) => v.wf(),
            _ => true,
        }
    }

    open spec fn spec_is_limited(&self) -> bool {
        false
    }

    fn name(&self) -> (r: String) {
        "baseline-shift".to_owned()
    }

    fn value(&self) -> (r: String) {
        match self {
            BaselineShift::LengthPercentage(v) => v.format(),
            BaselineShift::Sub => "sub".to_owned(),
            BaselineShift::Super => "super".to_owned(),
        }
    }

    fn is_limited(&self) -> (r: bool) {
        false
    }
}

/// A clip region: `auto`, or a `rect()` of four lengths.
#[derive(Copy, Clone, Debug, PartialEq, Eq, Structural)]
pub enum Clip {
    Auto,
    Rect(crate::value::Length, crate::value::Length, crate::value::Length, crate::value::Length),
}

impl EnumAttr for Clip {

}

impl Attr for Clip {
    open spec fn spec_name(&self) -> Seq<char> {
        "clip"@
    }

    open spec fn spec_value(&self) -> Seq<char> {
        match self {
            Clip::Auto => "auto"@,
            Clip::Rect(a, b, c, d) => "rect("@ + a.spec_text() + ","@ + b.spec_text() + ","@
                + c.spec_text() + ","@ + d.spec_text() + ")"@,
        }
    }

    open spec fn spec_attr_valid(&self) -> bool {
        match self {
            Clip::Auto => true,
            Clip::Rect(a, b, c, d) => a.wf() && b.wf() && c.wf() && d.wf(),
        }
    }

    open spec fn spec_is_limited(&self) -> bool {
        false
    }

    fn name(&self) -> (r: String) {
        "clip".to_owned()
    }

    fn value(&self) -> (r: String) {
        match self {
            Clip::Auto => "auto".to_owned(),
            Clip::Rect(a, b, c, d) => {
                proof {
                    reveal_strlit(",");
                    reveal_strlit(")");
                }
                let mut out = "rect(".to_owned();
                let t = a.to_text();
                out.append(t.as_str());
                out.push(',');
                let t = b.to_text();
                out.append(t.as_str());
                out.push(',');
                let t = c.to_text();
                out.append(t.as_str());
                out.push(',');
                let t = d.to_text();
                out.append(t.as_str());
                out.push(')');
                assert(out@ =~= self.spec_value());
                out
            },
        }
    }

    fn is_limited(&self) -> (r: bool) {
        false
    }
}

/// A clip path: a reference, a shape, a box, a shape within a box, or
/// none.
#[derive(Clone, Debug, PartialEq)]
pub enum ClipPath {
    Url(String),
    BasicShape(crate::value::BasicShape),
    GeometryBox(crate::value::GeometryBox),
    BasicShapeGeometryBox(crate::value::BasicShape, crate::value::GeometryBox),
    NoneValue,
}

impl EnumAttr for ClipPath {

}

impl Attr for ClipPath {
    open spec fn spec_name(&self) -> Seq<char> {
        "clip-path"@
    }

    open spec fn spec_value(&self) -> Seq<char> {
        match self {
            ClipPath::Url(url) => "url("@ + url@ + ")"@,
            ClipPath::BasicShape(bs) => bs.spec_text(),
            ClipPath::GeometryBox(gb) => gb.spec_text(),
            ClipPath::BasicShapeGeometryBox(bs, gb) => bs.spec_text() + " "@ + gb.spec_text(),
            ClipPath::NoneValue => "none"@,
        }
    }

    open spec fn spec_attr_valid(&self) -> bool {
        match self {
            ClipPath::BasicShape(bs) => bs.wf(),
            ClipPath::BasicShapeGeometryBox(bs, _) => bs.wf(),
            _ => true,
        }
    }

    open spec fn spec_is_limited(&self) -> bool {
        false
    }

    fn name(&self) -> (r: String) {
        "clip-path".to_owned()
    }

    fn value(&self) -> (r: String) {
        match self {
            ClipPath::Url(url) => {
                proof {
                    reveal_strlit(")");
                }
                let mut out = "url(".to_owned();
                out.append(url.as_str());
                out.push(')');
                assert(out@ =~= self.spec_value());
                out
            },
            ClipPath::BasicShape(bs) => bs.to_text(),
            ClipPath::GeometryBox(gb) => gb.to_text(),
            ClipPath::BasicShapeGeometryBox(bs, gb) => {
                let mut out = bs.to_text();
                out.append(" ");
                let t = gb.to_text();
                out.append(t.as_str());
                out
            },
            ClipPath::NoneValue => "none".to_owned(),
        }
    }

    fn is_limited(&self) -> (r: bool) {
        false
    }
}

/// The `color` property: a CSS color, or inherit.
#[derive(Debug)]
pub enum Color {
    Color(crate::color::CssColor),
    Inherit,
}

impl Attr for Color {
    open spec fn spec_name(&self) -> Seq<char> {
        "color"@
    }

    open spec fn spec_value(&self) -> Seq<char> {
        match self {
            Color::Color(c) => c.spec_text(),
            Color::Inherit => "inherit"@,
        }
    }

    open spec fn spec_attr_valid(&self) -> bool {
        match self {
            Color::Color(c) => c.wf(),
            Color::Inherit => true,
        }
    }

    open spec fn spec_is_limited(&self) -> bool {
        false
    }

    fn name(&self) -> (r: String) {
        "color".to_owned()
    }

    fn value(&self) -> (r: String) {
        match self {
            Color::Color(c) => c.to_text(),
            Color::Inherit => "inherit".to_owned(),
        }
    }

    fn is_limited(&self) -> (r: bool) {
        false
    }
}

/// The horizontal center of a circle or ellipse.
#[derive(Copy, Clone, Debug, PartialEq, Eq, Structural)]
pub struct Cx(pub crate::value::LengthPercentage);

impl Attr for Cx {
    open spec fn spec_name(&self) -> Seq<char> {
        "cx"@
    }

    open spec fn spec_value(&self) -> Seq<char> {
        self.0.spec_text()
    }

    open spec fn spec_attr_valid(&self) -> bool {
        self.0.wf()
    }

    open spec fn spec_is_limited(&self) -> bool {
        false
    }

    fn name(&self) -> (r: String) {
        "cx".to_owned()
    }

    fn value(&self) -> (r: String) {
        self.0.to_text()
    }

    fn is_limited(&self) -> (r: bool) {
        false
    }
}

/// The vertical center of a circle or ellipse.
#[derive(Copy, Clone, Debug, PartialEq, Eq, Structural)]
pub struct Cy(pub crate::value::LengthPercentage);

impl Attr for Cy {
    open spec fn spec_name(&self) -> Seq<char> {
        "cy"@
    }

    open spec fn spec_value(&self) -> Seq<char> {
        self.0.spec_text()
    }

    open spec fn spec_attr_valid(&self) -> bool {
        self.0.wf()
    }

    open spec fn spec_is_limited(&self) -> bool {
        false
    }

    fn name(&self) -> (r: String) {
        "cy".to_owned()
    }

    fn value(&self) -> (r: String) {
        self.0.to_text()
    }

    fn is_limited(&self) -> (r: bool) {
        false
    }
}

/// The horizontal displacement of glyphs or a filter primitive.
#[derive(Clone, Debug, PartialEq)]
pub enum Dx {
    Number(crate::number::Number),
    List(Vec<crate::value::LengthPercentage>),
}

pub open spec fn spec_lp_list_wf(xs: Seq<crate::value::LengthPercentage>) -> bool {
    forall|i: int| 0 <= i < xs.len() ==> (#[trigger] xs[i]).wf()
}

/// The offsets' texts, joined by spaces.
pub open spec fn spec_lp_list_text(xs: Seq<crate::value::LengthPercentage>) -> Seq<char> {
    spec_join_texts(
        xs.map_values(|lp: crate::value::LengthPercentage| lp.spec_text()),
        " "@,
    )
}

fn join_lp_list(xs: &Vec<crate::value::LengthPercentage>) -> (r: String)
    requires
        spec_lp_list_wf(xs@),
    ensures
        r@ == spec_lp_list_text(xs@),
{
    let ghost m = xs@.map_values(|lp: crate::value::LengthPercentage| lp.spec_text());
    let mut texts: Vec<String> = Vec::new();
    let mut i: usize = 0;
    while i < xs.len()
        invariant
            i <= xs@.len(),
            spec_lp_list_wf(xs@),
            texts@.len() == i,
            forall|j: int| 0 <= j < i ==> (#[trigger] texts@[j])@ == xs@[j].spec_text(),
        decreases xs@.len() - i,
    {
        let t = xs[i].to_text();
        texts.push(t);
        i = i + 1;
    }
    proof {
        assert(texts@.map_values(|s: String| s@) =~~= m);
    }
    concat_str_list(&texts, " ")
}

impl Attr for Dx {
    open spec fn spec_name(&self) -> Seq<char> {
        "dx"@
    }

    open spec fn spec_value(&self) -> Seq<char> {
        match self {
            Dx::Number(n) => crate::number::spec_format_number(*n),
            Dx::List(l) => spec_lp_list_text(l@),
        }
    }

    open spec fn spec_attr_valid(&self) -> bool {
        match self {
            Dx::Number(n) => n.wf(),
            Dx::List(l) => spec_lp_list_wf(l@),
        }
    }

    open spec fn spec_is_limited(&self) -> bool {
        false
    }

    fn name(&self) -> (r: String) {
        "dx".to_owned()
    }

    fn value(&self) -> (r: String) {
        match self {
            Dx::Number(n) => n.format(),
            Dx::List(l) => join_lp_list(l),
        }
    }

    fn is_limited(&self) -> (r: bool) {
        false
    }
}

/// The vertical displacement of glyphs or a filter primitive.
#[derive(Clone, Debug, PartialEq)]
pub enum Dy {
    Number(crate::number::Number),
    List(Vec<crate::value::LengthPercentage>),
}

impl Attr for Dy {
    open spec fn spec_name(&self) -> Seq<char> {
        "dy"@
    }

    open spec fn spec_value(&self) -> Seq<char> {
        match self {
            Dy::Number(n) => crate::number::spec_format_number(*n),
            Dy::List(l) => spec_lp_list_text(l@),
        }
    }

    open spec fn spec_attr_valid(&self) -> bool {
        match self {
            Dy::Number(n) => n.wf(),
            Dy::List(l) => spec_lp_list_wf(l@),
        }
    }

    open spec fn spec_is_limited(&self) -> bool {
        false
    }

    fn name(&self) -> (r: String) {
        "dy".to_owned()
    }

    fn value(&self) -> (r: String) {
        match self {
            Dy::Number(n) => n.format(),
            Dy::List(l) => join_lp_list(l),
        }
    }

    fn is_limited(&self) -> (r: bool) {
        false
    }
}


impl Default for Accumulate {
    /// Iterations do not build on one another.
    fn default() -> (r: Self)
        ensures
            r == Accumulate::NoneValue,
    {
        Accumulate::NoneValue
    }
}

impl Default for Additive {
    /// Animations replace the underlying value.
    fn default() -> (r: Self)
        ensures
            r == Additive::Replace,
    {
        Additive::Replace
    }
}

impl Default for AlignmentBaseline {
    /// Automatic baseline alignment.
    fn default() -> (r: Self)
        ensures
            r == AlignmentBaseline::Auto,
    {
        AlignmentBaseline::Auto
    }
}

impl Default for AttributeType {
    /// The namespace is chosen automatically.
    fn default() -> (r: Self)
        ensures
            r == AttributeType::Auto,
    {
        AttributeType::Auto
    }
}

impl Default for Azimuth {
    /// Light from the zero angle.
    fn default() -> (r: Self)
        ensures
            r == Azimuth(crate::number::Number { neg: false, mant: 0, scale: 0 }),
    {
        Azimuth(crate::number::Number { neg: false, mant: 0, scale: 0 })
    }
}

impl Default for BaseFrequency {
    /// No base frequency.
    fn default() -> (r: Self)
        ensures
            r == BaseFrequency(crate::number::Number { neg: false, mant: 0, scale: 0 }, None),
    {
        BaseFrequency(crate::number::Number { neg: false, mant: 0, scale: 0 }, None)
    }
}

impl Default for BaselineShift {
    /// No shift.
    fn default() -> (r: Self)
        ensures
            r == BaselineShift::LengthPercentage(crate::number::Number { neg: false, mant: 0, scale: 0 }),
    {
        BaselineShift::LengthPercentage(crate::number::Number { neg: false, mant: 0, scale: 0 })
    }
}

impl Default for Bias {
    /// No bias.
    fn default() -> (r: Self)
        ensures
            r == Bias(crate::number::Number { neg: false, mant: 0, scale: 0 }),
    {
        Bias(crate::number::Number { neg: false, mant: 0, scale: 0 })
    }
}

impl Default for CalcMode {
    /// Linear interpolation.
    fn default() -> (r: Self)
        ensures
            r == CalcMode::Linear,
    {
        CalcMode::Linear
    }
}

impl Default for Clip {
    /// No clipping rectangle.
    fn default() -> (r: Self)
        ensures
            r == Clip::Auto,
    {
        Clip::Auto
    }
}

impl Default for ClipPath {
    /// No clip path.
    fn default() -> (r: Self)
        ensures
            r == ClipPath::NoneValue,
    {
        ClipPath::NoneValue
    }
}

impl Default for ClipRule {
    /// The nonzero winding rule.
    fn default() -> (r: Self)
        ensures
            r == ClipRule::NonZero,
    {
        ClipRule::NonZero
    }
}

impl Default for ClipPathUnits {
    /// User-space coordinates.
    fn default() -> (r: Self)
        ensures
            r == ClipPathUnits::UserSpaceOnUse,
    {
        ClipPathUnits::UserSpaceOnUse
    }
}

impl Default for Color {
    /// The inherited color.
    fn default() -> (r: Self)
        ensures
            r == Color::Inherit,
    {
        Color::Inherit
    }
}

impl Default for ColorInterpolation {
    /// Interpolation in sRGB.
    fn default() -> (r: Self)
        ensures
            r == ColorInterpolation::Srgb,
    {
        ColorInterpolation::Srgb
    }
}

impl Default for ColorInterpolationFilter {
    /// Filters interpolate in linear RGB.
    fn default() -> (r: Self)
        ensures
            r == ColorInterpolationFilter::LinearRgb,
    {
        ColorInterpolationFilter::LinearRgb
    }
}

impl Default for Decoding {
    /// Decoding is chosen automatically.
    fn default() -> (r: Self)
        ensures
            r == Decoding::Auto,
    {
        Decoding::Auto
    }
}

impl Default for Direction {
    /// Left-to-right text.
    fn default() -> (r: Self)
        ensures
            r == Direction::Ltr,
    {
        Direction::Ltr
    }
}

impl Default for DominantBaseline {
    /// Automatic dominant baseline.
    fn default() -> (r: Self)
        ensures
            r == DominantBaseline::Auto,
    {
        DominantBaseline::Auto
    }
}

impl Default for Dur {
    /// No fixed duration.
    fn default() -> (r: Self)
        ensures
            r == Dur::Indefinite,
    {
        Dur::Indefinite
    }
}

impl Default for Elevation {
    /// Light from the horizon.
    fn default() -> (r: Self)
        ensures
            r == Elevation(crate::number::Number { neg: false, mant: 0, scale: 0 }),
    {
        Elevation(crate::number::Number { neg: false, mant: 0, scale: 0 })
    }
}


} // verus!
