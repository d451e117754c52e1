//! General attribute values: lengths with their units, clock values,
//! timing events, begin/end values with a wall-clock instant, and the
//! box and shape keyword vocabulary.

use vstd::prelude::*;

verus! {

/// A CSS length unit and its suffix.
#[derive(Copy, Clone, Debug, PartialEq, Eq, Structural)]
pub enum LengthUnit {
    Pixels,
    Points,
    Picas,
    Inches,
    QuarterMillimeters,
    Millimeters,
    Centimeters,
    FontSize,
    FontXSize,
    CharacterAdvance0,
    RootElementFontSize,
    ViewPort1PercentWidth,
    ViewPort1PercentHeight,
    ViewPort1PercentMin,
    ViewPort1PercentMax,
}

impl LengthUnit {
    /// The keyword this variant renders to.
    pub open spec fn spec_text(&self) -> Seq<char> {
        match self {
            LengthUnit::Pixels => "px"@,
            LengthUnit::Points => "pt"@,
            LengthUnit::Picas => "pc"@,
            LengthUnit::Inches => "in"@,
            LengthUnit::QuarterMillimeters => "Q"@,
            LengthUnit::Millimeters => "mm"@,
            LengthUnit::Centimeters => "cm"@,
            LengthUnit::FontSize => "em"@,
            LengthUnit::FontXSize => "ex"@,
            LengthUnit::CharacterAdvance0 => "ch"@,
            LengthUnit::RootElementFontSize => "rem"@,
            LengthUnit::ViewPort1PercentWidth => "vw"@,
            LengthUnit::ViewPort1PercentHeight => "vh"@,
            LengthUnit::ViewPort1PercentMin => "vmin"@,
            LengthUnit::ViewPort1PercentMax => "vmax"@,
        }
    }

    /// Renders the keyword.
    pub fn to_text(&self) -> (r: String)
        ensures
            r@ == self.spec_text(),
    {
        match self {
            LengthUnit::Pixels => "px".to_owned(),
            LengthUnit::Points => "pt".to_owned(),
            LengthUnit::Picas => "pc".to_owned(),
            LengthUnit::Inches => "in".to_owned(),
            LengthUnit::QuarterMillimeters => "Q".to_owned(),
            LengthUnit::Millimeters => "mm".to_owned(),
            LengthUnit::Centimeters => "cm".to_owned(),
            LengthUnit::FontSize => "em".to_owned(),
            LengthUnit::FontXSize => "ex".to_owned(),
            LengthUnit::CharacterAdvance0 => "ch".to_owned(),
            LengthUnit::RootElementFontSize => "rem".to_owned(),
            LengthUnit::ViewPort1PercentWidth => "vw".to_owned(),
            LengthUnit::ViewPort1PercentHeight => "vh".to_owned(),
            LengthUnit::ViewPort1PercentMin => "vmin".to_owned(),
            LengthUnit::ViewPort1PercentMax => "vmax".to_owned(),
        }
    }
}

/// A scalar with an optional unit suffix.
#[derive(Copy, Clone, Debug, PartialEq, Eq, Structural)]
pub struct Length(pub crate::number::Number, pub Option<LengthUnit>);

impl Length {
    pub open spec fn wf(&self) -> bool {
        self.0.wf()
    }

    pub open spec fn spec_text(&self) -> Seq<char> {
        crate::number::spec_format_number(self.0) + match self.1 {
            Some(u) => u.spec_text(),
            None => Seq::empty(),
        }
    }

    pub fn to_text(&self) -> (r: String)
        requires
            self.wf(),
        ensures
            r@ == self.spec_text(),
    {
        let mut out = self.0.format();
        match &self.1 {
            Some(u) => {
                let t = u.to_text();
                out.append(t.as_str());
            },
            None => {},
        }
        assert(out@ =~= self.spec_text());
        out
    }
}

/// A time offset held as whole seconds and milliseconds.
#[derive(Copy, Clone, Debug, PartialEq, Eq, Structural)]
pub struct ClockValue {
    pub secs: u64,
    pub millis: u32,
}

impl ClockValue {
    /// The milliseconds stay below one second.
    pub open spec fn wf(&self) -> bool {
        self.millis < 1000
    }

    pub open spec fn spec_secs(&self) -> nat {
        self.secs as nat
    }

    pub open spec fn spec_millis(&self) -> nat {
        self.millis as nat
    }

    pub fn new(secs: u64, millis: u32) -> (r: ClockValue)
        requires
            millis < 1000,
        ensures
            r.secs == secs && r.millis == millis,
            r.wf(),
    {
        ClockValue { secs, millis }
    }

    pub fn hours(&self) -> (r: u64)
        ensures
            r == self.spec_secs() / 3600,
    {
        self.secs / 3600
    }

    pub fn minutes(&self) -> (r: u64)
        ensures
            r == (self.spec_secs() % 3600) / 60,
    {
        (self.secs % 3600) / 60
    }

    pub fn seconds(&self) -> (r: u64)
        ensures
            r == self.spec_secs() % 60,
    {
        self.secs % 60
    }

    pub fn milliseconds(&self) -> (r: u32)
        ensures
            r == self.spec_millis(),
    {
        self.millis
    }

    /// `hh:mm:ss`, two digits at least each, and the milliseconds after
    /// a point when there are any.
    pub open spec fn spec_text(&self) -> Seq<char> {
        let base = crate::number::spec_pad2(self.spec_secs() / 3600) + ":"@
            + crate::number::spec_pad2((self.spec_secs() % 3600) / 60) + ":"@
            + crate::number::spec_pad2(self.spec_secs() % 60);
        if self.spec_millis() > 0 {
            base + "."@ + crate::number::spec_udigits(self.spec_millis())
        } else {
            base
        }
    }

    pub fn to_text(&self) -> (r: String)
        ensures
            r@ == self.spec_text(),
    {
        proof {
            reveal_strlit(":");
            reveal_strlit(".");
        }
        let mut out = String::new();
        crate::number::push_pad2(self.hours(), &mut out);
        out.push(':');
        crate::number::push_pad2(self.minutes(), &mut out);
        out.push(':');
        crate::number::push_pad2(self.seconds(), &mut out);
        if self.millis > 0 {
            out.push('.');
            crate::number::push_udigits(self.millis as u64, &mut out);
        }
        assert(out@ =~= self.spec_text());
        out
    }
}

impl Default for ClockValue {
    /// The zero offset.
    fn default() -> (r: Self)
        ensures
            r.spec_secs() == 0 && r.spec_millis() == 0,
            r.wf(),
    {
        ClockValue { secs: 0, millis: 0 }
    }
}

/// A clock value behind an explicit sign.
#[derive(Copy, Clone, Debug, PartialEq, Eq, Structural)]
pub struct SignedClockValue(pub bool, pub ClockValue);

impl SignedClockValue {
    pub open spec fn spec_text(&self) -> Seq<char> {
        (if self.0 {
            "+"@
        } else {
            "-"@
        }) + self.1.spec_text()
    }

    pub fn to_text(&self) -> (r: String)
        ensures
            r@ == self.spec_text(),
    {
        let mut out = if self.0 {
            "+".to_owned()
        } else {
            "-".to_owned()
        };
        let t = self.1.to_text();
        out.append(t.as_str());
        out
    }
}

/// Which edge of an interval a sync base names.
#[derive(Copy, Clone, Debug, PartialEq, Eq, Structural)]
pub enum BeginEnd {
    Begin,
    End,
}

impl BeginEnd {
    /// The keyword this variant renders to.
    pub open spec fn spec_text(&self) -> Seq<char> {
        match self {
            BeginEnd::Begin => "begin"@,
            BeginEnd::End => "end"@,
        }
    }

    /// Renders the keyword.
    pub fn to_text(&self) -> (r: String)
        ensures
            r@ == self.spec_text(),
    {
        match self {
            BeginEnd::Begin => "begin".to_owned(),
            BeginEnd::End => "end".to_owned(),
        }
    }
}

/// A DOM or timing event a begin value can wait on.
#[derive(Copy, Clone, Debug, PartialEq, Eq, Structural)]
pub enum Event {
    Focus,
    Blur,
    FocusIn,
    FocusOut,
    DOMActivate,
    AuxClick,
    Click,
    DblClick,
    MouseDown,
    MouseEnter,
    MouseLeave,
    MouseMove,
    MouseOut,
    MouseOver,
    MouseUp,
    Wheel,
    BeforeInput,
    Input,
    KeyDown,
    KeyUp,
    CompositionOnStart,
    CompositionOnUpdate,
    CompositionOnEnd,
    Load,
    Unload,
    Abort,
    Error,
    Select,
    Resize,
    Scroll,
    BeginEvent,
    EndEvent,
    RepeatEvent,
}

impl Event {
    /// The keyword this variant renders to.
    pub open spec fn spec_text(&self) -> Seq<char> {
        match self {
            Event::Focus => "focus"@,
            Event::Blur => "blur"@,
            Event::FocusIn => "focusin"@,
            Event::FocusOut => "focusout"@,
            Event::DOMActivate => "DOMActivate"@,
            Event::AuxClick => "auxclick"@,
            Event::Click => "click"@,
            Event::DblClick => "dblclick"@,
            Event::MouseDown => "mousedown"@,
            Event::MouseEnter => "mouseenter"@,
            Event::MouseLeave => "mouseleave"@,
            Event::MouseMove => "mousemove"@,
            Event::MouseOut => "mouseout"@,
            Event::MouseOver => "mouseover"@,
            Event::MouseUp => "mouseup"@,
            Event::Wheel => "wheel"@,
            Event::BeforeInput => "beforeinput"@,
            Event::Input => "input"@,
            Event::KeyDown => "keydown"@,
            Event::KeyUp => "keyup"@,
            Event::CompositionOnStart => "compositiononstart"@,
            Event::CompositionOnUpdate => "compositiononupdate"@,
            Event::CompositionOnEnd => "compositiononend"@,
            Event::Load => "load"@,
            Event::Unload => "unload"@,
            Event::Abort => "abort"@,
            Event::Error => "error"@,
            Event::Select => "select"@,
            Event::Resize => "resize"@,
            Event::Scroll => "scroll"@,
            Event::BeginEvent => "beginEvent"@,
            Event::EndEvent => "endEvent"@,
            Event::RepeatEvent => "repeatEvent"@,
        }
    }

    /// Renders the keyword.
    pub fn to_text(&self) -> (r: String)
        ensures
            r@ == self.spec_text(),
    {
        match self {
            Event::Focus => "focus".to_owned(),
            Event::Blur => "blur".to_owned(),
            Event::FocusIn => "focusin".to_owned(),
            Event::FocusOut => "focusout".to_owned(),
            Event::DOMActivate => "DOMActivate".to_owned(),
            Event::AuxClick => "auxclick".to_owned(),
            Event::Click => "click".to_owned(),
            Event::DblClick => "dblclick".to_owned(),
            Event::MouseDown => "mousedown".to_owned(),
            Event::MouseEnter => "mouseenter".to_owned(),
            Event::MouseLeave => "mouseleave".to_owned(),
            Event::MouseMove => "mousemove".to_owned(),
            Event::MouseOut => "mouseout".to_owned(),
            Event::MouseOver => "mouseover".to_owned(),
            Event::MouseUp => "mouseup".to_owned(),
            Event::Wheel => "wheel".to_owned(),
            Event::BeforeInput => "beforeinput".to_owned(),
            Event::Input => "input".to_owned(),
            Event::KeyDown => "keydown".to_owned(),
            Event::KeyUp => "keyup".to_owned(),
            Event::CompositionOnStart => "compositiononstart".to_owned(),
            Event::CompositionOnUpdate => "compositiononupdate".to_owned(),
            Event::CompositionOnEnd => "compositiononend".to_owned(),
            Event::Load => "load".to_owned(),
            Event::Unload => "unload".to_owned(),
            Event::Abort => "abort".to_owned(),
            Event::Error => "error".to_owned(),
            Event::Select => "select".to_owned(),
            Event::Resize => "resize".to_owned(),
            Event::Scroll => "scroll".to_owned(),
            Event::BeginEvent => "beginEvent".to_owned(),
            Event::EndEvent => "endEvent".to_owned(),
            Event::RepeatEvent => "repeatEvent".to_owned(),
        }
    }
}

/// A wall-clock instant held as its calendar and offset fields: what
/// the extended ISO-8601 rendering reads.
#[derive(Copy, Clone, Debug, PartialEq, Eq, Structural)]
pub struct Wallclock {
    pub year: u32,
    pub month: u8,
    pub day: u8,
    pub hour: u8,
    pub minute: u8,
    pub second: u8,
    pub nanosecond: u32,
    pub offset_negative: bool,
    pub offset_hour: u8,
    pub offset_minute: u8,
}

/// Trailing zeros removed, one digit kept at least.
pub open spec fn strip_zeros(s: Seq<char>) -> Seq<char>
    decreases s.len(),
{
    if s.len() > 1 && s.last() == '0' {
        strip_zeros(s.drop_last())
    } else {
        s
    }
}

/// The subsecond digits: nanoseconds to nine places, trailing zeros
/// dropped, at least one digit kept.
pub open spec fn spec_subsecond(nanos: nat) -> Seq<char> {
    strip_zeros(crate::number::spec_padded(nanos, 9))
}

fn push_subsecond(nanos: u32, out: &mut String)
    ensures
        final (out)@ == old(out)@ + spec_subsecond(nanos as nat),
{
    let mut digits: Vec<char> = Vec::new();
    let mut v: u64 = nanos as u64;
    let mut k: u32 = 9;
    while k > 0
        invariant
            k <= 9,
            digits@.len() + k == 9,
            crate::number::spec_padded(nanos as nat, 9) == crate::number::spec_padded(
                v as nat,
                k as nat,
            ) + digits@,
        decreases k,
    {
        let d = v % 10;
        let c = if d == 0 {
            '0'
        } else if d == 1 {
            '1'
        } else if d == 2 {
            '2'
        } else if d == 3 {
            '3'
        } else if d == 4 {
            '4'
        } else if d == 5 {
            '5'
        } else if d == 6 {
            '6'
        } else if d == 7 {
            '7'
        } else if d == 8 {
            '8'
        } else {
            '9'
        };
        digits.insert(0, c);
        proof {
            assert(crate::number::spec_padded(v as nat, k as nat) == crate::number::spec_padded(
                (v / 10) as nat,
                (k - 1) as nat,
            ).push(crate::number::digit_char((v % 10) as nat)));
            assert(c == crate::number::digit_char((v % 10) as nat));
            assert(crate::number::spec_padded((v / 10) as nat, (k - 1) as nat).push(c) + digits@.drop_first()
                =~= crate::number::spec_padded((v / 10) as nat, (k - 1) as nat) + digits@);
        }
        v = v / 10;
        k = k - 1;
    }
    proof {
        assert(crate::number::spec_padded(v as nat, 0) =~= Seq::<char>::empty());
        assert(digits@ =~= crate::number::spec_padded(nanos as nat, 9));
    }
    let mut e = digits.len();
    proof {
        assert(digits@.take(e as int) =~= digits@);
    }
    while e > 1 && digits[e - 1] == '0'
        invariant
            1 <= e <= digits@.len(),
            digits@.len() == 9,
            strip_zeros(digits@) == strip_zeros(digits@.take(e as int)),
        decreases e,
    {
        proof {
            assert(digits@.take(e as int).last() == digits@[e - 1]);
            assert(digits@.take(e as int).drop_last() =~= digits@.take(e - 1));
        }
        e = e - 1;
    }
    proof {
        assert(digits@.take(e as int).len() == e);
        if e > 1 {
            assert(digits@.take(e as int).last() == digits@[e - 1]);
        }
        assert(strip_zeros(digits@.take(e as int)) == digits@.take(e as int));
    }
    let mut i: usize = 0;
    let ghost base = final (out)@;
    let ghost start = out@;
    while i < e
        invariant
            i <= e <= digits@.len(),
            out@ =~= start + digits@.take(e as int).take(i as int).skip(0),
            out@ == start + digits@.subrange(0, i as int),
        decreases e - i,
    {
        out.push(digits[i]);
        proof {
            assert(out@ =~= start + digits@.subrange(0, i + 1));
        }
        i = i + 1;
    }
    proof {
        assert(digits@.subrange(0, e as int) =~= digits@.take(e as int));
        assert(out@ =~= start + strip_zeros(digits@));
    }
}

impl Wallclock {
    /// Extended ISO-8601: date, `T`, time with subseconds, and the
    /// signed offset.
    pub open spec fn spec_text(&self) -> Seq<char> {
        crate::number::spec_pad4(self.year as nat) + "-"@ + crate::number::spec_pad2(
            self.month as nat,
        ) + "-"@ + crate::number::spec_pad2(self.day as nat) + "T"@ + crate::number::spec_pad2(
            self.hour as nat,
        ) + ":"@ + crate::number::spec_pad2(self.minute as nat) + ":"@ + crate::number::spec_pad2(
            self.second as nat,
        ) + "."@ + spec_subsecond(self.nanosecond as nat) + (if self.offset_negative {
            "-"@
        } else {
            "+"@
        }) + crate::number::spec_pad2(self.offset_hour as nat) + ":"@
            + crate::number::spec_pad2(self.offset_minute as nat)
    }

    #[verifier::rlimit(60)]
    pub fn to_text(&self) -> (r: String)
        ensures
            r@ == self.spec_text(),
    {
        proof {
            reveal_strlit("-");
            reveal_strlit("+");
            reveal_strlit(":");
            reveal_strlit(".");
            reveal_strlit("T");
        }
        let mut out = String::new();
        crate::number::push_pad4(self.year as u64, &mut out);
        out.push('-');
        crate::number::push_pad2(self.month as u64, &mut out);
        out.push('-');
        crate::number::push_pad2(self.day as u64, &mut out);
        out.push('T');
        crate::number::push_pad2(self.hour as u64, &mut out);
        out.push(':');
        crate::number::push_pad2(self.minute as u64, &mut out);
        out.push(':');
        crate::number::push_pad2(self.second as u64, &mut out);
        out.push('.');
        push_subsecond(self.nanosecond, &mut out);
        out.push(if self.offset_negative {
            '-'
        } else {
            '+'
        });
        crate::number::push_pad2(self.offset_hour as u64, &mut out);
        out.push(':');
        crate::number::push_pad2(self.offset_minute as u64, &mut out);
        assert(out@ =~= self.spec_text());
        out
    }
}

/// One value of a `begin` or `end` timing list.
#[derive(Clone, Debug, PartialEq)]
pub enum BeginValue {
    Offset(ClockValue),
    SyncBase(String, BeginEnd, Option<SignedClockValue>),
    Event(String, Event, Option<SignedClockValue>),
    Repeat(String, usize, Option<SignedClockValue>),
    AccessKey(char, Option<SignedClockValue>),
    WallclockSync(Wallclock),
    Indefinite,
}

pub open spec fn spec_opt_cv(ocv: Option<SignedClockValue>) -> Seq<char> {
    match ocv {
        Some(cv) => cv.spec_text(),
        None => Seq::empty(),
    }
}

fn push_opt_cv(ocv: &Option<SignedClockValue>, out: &mut String)
    ensures
        final (out)@ == old(out)@ + spec_opt_cv(*ocv),
{
    match ocv {
        Some(cv) => {
            let t = cv.to_text();
            out.append(t.as_str());
        },
        None => {},
    }
    assert(final (out)@ =~= old(out)@ + spec_opt_cv(*ocv));
}

impl BeginValue {
    pub open spec fn spec_text(&self) -> Seq<char> {
        match self {
            BeginValue::Offset(cv) => cv.spec_text(),
            BeginValue::SyncBase(id, be, ocv) => id@ + "."@ + be.spec_text() + spec_opt_cv(*ocv),
            BeginValue::Event(id, ev, ocv) => id@ + "."@ + ev.spec_text() + spec_opt_cv(*ocv),
            BeginValue::Repeat(id, count, ocv) => id@ + ".repeat("@ + crate::number::spec_udigits(
                *count as nat,
            ) + ")"@ + spec_opt_cv(*ocv),
            BeginValue::AccessKey(key, ocv) => "accessKey("@ + seq![*key] + ")"@ + spec_opt_cv(
                *ocv,
            ),
            BeginValue::WallclockSync(w) => "wallclock("@ + w.spec_text() + ")"@,
            BeginValue::Indefinite => "indefinite"@,
        }
    }

    pub fn to_text(&self) -> (r: String)
        ensures
            r@ == self.spec_text(),
    {
        match self {
            BeginValue::Offset(cv) => cv.to_text(),
            BeginValue::SyncBase(id, be, ocv) => {
                let mut out = id.clone();
                out.append(".");
                let t = be.to_text();
                out.append(t.as_str());
                push_opt_cv(ocv, &mut out);
                assert(out@ =~= self.spec_text());
                out
            },
            BeginValue::Event(id, ev, ocv) => {
                let mut out = id.clone();
                out.append(".");
                let t = ev.to_text();
                out.append(t.as_str());
                push_opt_cv(ocv, &mut out);
                assert(out@ =~= self.spec_text());
                out
            },
            BeginValue::Repeat(id, count, ocv) => {
                proof {
                    reveal_strlit(".repeat(");
                    reveal_strlit(")");
                }
                let mut out = id.clone();
                out.append(".repeat(");
                crate::number::push_udigits(*count as u64, &mut out);
                out.push(')');
                push_opt_cv(ocv, &mut out);
                assert(out@ =~= self.spec_text());
                out
            },
            BeginValue::AccessKey(key, ocv) => {
                proof {
                    reveal_strlit("accessKey(");
                    reveal_strlit(")");
                }
                let mut out = "accessKey(".to_owned();
                out.push(*key);
                out.push(')');
                push_opt_cv(ocv, &mut out);
                assert(out@ =~= self.spec_text());
                out
            },
            BeginValue::WallclockSync(w) => {
                proof {
                    reveal_strlit("wallclock(");
                    reveal_strlit(")");
                }
                let mut out = "wallclock(".to_owned();
                let t = w.to_text();
                out.append(t.as_str());
                out.push(')');
                assert(out@ =~= self.spec_text());
                out
            },
            BeginValue::Indefinite => "indefinite".to_owned(),
        }
    }
}

/// How far a radial gradient reaches.
#[derive(Copy, Clone, Debug, PartialEq, Eq, Structural)]
pub enum RadialExtent {
    ClosestCorner,
    ClosestSide,
    FarthestCorner,
    FarthestSide,
}

impl RadialExtent {
    /// The keyword this variant renders to.
    pub open spec fn spec_text(&self) -> Seq<char> {
        match self {
            RadialExtent::ClosestCorner => "closest-corner"@,
            RadialExtent::ClosestSide => "closest-side"@,
            RadialExtent::FarthestCorner => "farthest-corner"@,
            RadialExtent::FarthestSide => "farthest-side"@,
        }
    }

    /// Renders the keyword.
    pub fn to_text(&self) -> (r: String)
        ensures
            r@ == self.spec_text(),
    {
        match self {
            RadialExtent::ClosestCorner => "closest-corner".to_owned(),
            RadialExtent::ClosestSide => "closest-side".to_owned(),
            RadialExtent::FarthestCorner => "farthest-corner".to_owned(),
            RadialExtent::FarthestSide => "farthest-side".to_owned(),
        }
    }
}

/// Which interior a self-crossing outline fills.
#[derive(Copy, Clone, Debug, PartialEq, Eq, Structural)]
pub enum FillRule {
    NonZero,
    EvenOdd,
}

impl FillRule {
    /// The keyword this variant renders to.
    pub open spec fn spec_text(&self) -> Seq<char> {
        match self {
            FillRule::NonZero => "nonzero"@,
            FillRule::EvenOdd => "evenodd"@,
        }
    }

    /// Renders the keyword.
    pub fn to_text(&self) -> (r: String)
        ensures
            r@ == self.spec_text(),
    {
        match self {
            FillRule::NonZero => "nonzero".to_owned(),
            FillRule::EvenOdd => "evenodd".to_owned(),
        }
    }
}

/// The visual box a geometry keyword can name.
#[derive(Copy, Clone, Debug, PartialEq, Eq, Structural)]
pub enum VisualBox {
    ContentBox,
    PaddingBox,
    BorderBox,
}

impl VisualBox {
    /// The keyword this variant renders to.
    pub open spec fn spec_text(&self) -> Seq<char> {
        match self {
            VisualBox::ContentBox => "content-box"@,
            VisualBox::PaddingBox => "padding-box"@,
            VisualBox::BorderBox => "border-box"@,
        }
    }

    /// Renders the keyword.
    pub fn to_text(&self) -> (r: String)
        ensures
            r@ == self.spec_text(),
    {
        match self {
            VisualBox::ContentBox => "content-box".to_owned(),
            VisualBox::PaddingBox => "padding-box".to_owned(),
            VisualBox::BorderBox => "border-box".to_owned(),
        }
    }
}

/// A visual box, or the margin box.
#[derive(Copy, Clone, Debug, PartialEq, Eq, Structural)]
pub enum ShapeBox {
    VisualBox(VisualBox),
    MarginBox,
}

impl ShapeBox {
    pub open spec fn spec_text(&self) -> Seq<char> {
        match self {
            ShapeBox::VisualBox(vb) => vb.spec_text(),
            ShapeBox::MarginBox => "margin-box"@,
        }
    }

    pub fn to_text(&self) -> (r: String)
        ensures
            r@ == self.spec_text(),
    {
        match self {
            ShapeBox::VisualBox(vb) => vb.to_text(),
            ShapeBox::MarginBox => "margin-box".to_owned(),
        }
    }
}

/// A shape box, or one of the SVG geometry boxes.
#[derive(Copy, Clone, Debug, PartialEq, Eq, Structural)]
pub enum GeometryBox {
    ShapeBox(ShapeBox),
    FillBox,
    StrokeBox,
    ViewBox,
}

impl GeometryBox {
    pub open spec fn spec_text(&self) -> Seq<char> {
        match self {
            GeometryBox::ShapeBox(sb) => sb.spec_text(),
            GeometryBox::FillBox => "fill-box"@,
            GeometryBox::StrokeBox => "stroke-box"@,
            GeometryBox::ViewBox => "view-box"@,
        }
    }

    pub fn to_text(&self) -> (r: String)
        ensures
            r@ == self.spec_text(),
    {
        match self {
            GeometryBox::ShapeBox(sb) => sb.to_text(),
            GeometryBox::FillBox => "fill-box".to_owned(),
            GeometryBox::StrokeBox => "stroke-box".to_owned(),
            GeometryBox::ViewBox => "view-box".to_owned(),
        }
    }
}

/// One hundred times the value: what a unit-interval fraction shows
/// as a percentage.
pub open spec fn spec_times100(n: crate::number::Number) -> crate::number::Number {
    if n.scale >= 2 {
        crate::number::Number { neg: n.neg, mant: n.mant, scale: (n.scale - 2) as u32 }
    } else if n.scale == 1 {
        crate::number::Number { neg: n.neg, mant: (n.mant * 10) as u64, scale: 0 }
    } else {
        crate::number::Number { neg: n.neg, mant: (n.mant * 100) as u64, scale: 0 }
    }
}

fn times100(n: &crate::number::Number) -> (r: crate::number::Number)
    requires
        n.wf(),
        n.mant < crate::number::pow10(15),
    ensures
        r == spec_times100(*n),
        r.wf(),
{
    proof {
        reveal_with_fuel(crate::number::pow10, 18);
    }
    if n.scale >= 2 {
        crate::number::Number { neg: n.neg, mant: n.mant, scale: n.scale - 2 }
    } else if n.scale == 1 {
        crate::number::Number { neg: n.neg, mant: n.mant * 10, scale: 0 }
    } else {
        crate::number::Number { neg: n.neg, mant: n.mant * 100, scale: 0 }
    }
}

/// A length, or a fraction shown as a percentage.
#[derive(Copy, Clone, Debug, PartialEq, Eq, Structural)]
pub enum LengthPercentage {
    Length(Length),
    Percentage(crate::number::Number),
}

impl LengthPercentage {
    /// Percentages keep two digits of slack for the shift to percent.
    pub open spec fn wf(&self) -> bool {
        match self {
            LengthPercentage::Length(l) => l.wf(),
            LengthPercentage::Percentage(p) => p.wf() && p.mant < crate::number::pow10(15),
        }
    }

    pub open spec fn spec_text(&self) -> Seq<char> {
        match self {
            LengthPercentage::Length(l) => l.spec_text(),
            LengthPercentage::Percentage(p) => crate::number::spec_format_number(spec_times100(*p))
                + "%"@,
        }
    }

    pub fn to_text(&self) -> (r: String)
        requires
            self.wf(),
        ensures
            r@ == self.spec_text(),
    {
        match self {
            LengthPercentage::Length(l) => l.to_text(),
            LengthPercentage::Percentage(p) => {
                let scaled = times100(p);
                let mut out = scaled.format();
                out.append("%");
                out
            },
        }
    }
}

/// A length or percentage, or `auto`.
#[derive(Copy, Clone, Debug, PartialEq, Eq, Structural)]
pub enum LengthPercentageAuto {
    LengthPercentage(LengthPercentage),
    Auto,
}

impl LengthPercentageAuto {
    pub open spec fn wf(&self) -> bool {
        match self {
            LengthPercentageAuto::LengthPercentage(lp) => lp.wf(),
            LengthPercentageAuto::Auto => true,
        }
    }

    pub open spec fn spec_text(&self) -> Seq<char> {
        match self {
            LengthPercentageAuto::LengthPercentage(lp) => lp.spec_text(),
            LengthPercentageAuto::Auto => "auto"@,
        }
    }

    pub fn to_text(&self) -> (r: String)
        requires
            self.wf(),
        ensures
            r@ == self.spec_text(),
    {
        match self {
            LengthPercentageAuto::LengthPercentage(lp) => lp.to_text(),
            LengthPercentageAuto::Auto => "auto".to_owned(),
        }
    }
}

/// A corner radius: one value, or two separated by a space.
#[derive(Copy, Clone, Debug, PartialEq, Eq, Structural)]
pub struct BorderRadius(pub LengthPercentage, pub Option<LengthPercentage>);

impl BorderRadius {
    pub open spec fn wf(&self) -> bool {
        self.0.wf() && match self.1 {
            Some(lp) => lp.wf(),
            None => true,
        }
    }

    pub open spec fn spec_text(&self) -> Seq<char> {
        self.0.spec_text() + match self.1 {
            Some(lp) => " "@ + lp.spec_text(),
            None => Seq::empty(),
        }
    }

    pub fn to_text(&self) -> (r: String)
        requires
            self.wf(),
        ensures
            r@ == self.spec_text(),
    {
        let mut out = self.0.to_text();
        match &self.1 {
            Some(lp) => {
                out.append(" ");
                let t = lp.to_text();
                out.append(t.as_str());
            },
            None => {},
        }
        assert(out@ =~= self.spec_text());
        out
    }
}


/// The reach of a radial gradient: a keyword, length, or percentage.
#[derive(Copy, Clone, Debug, PartialEq, Eq, Structural)]
pub enum RadialSize {
    RadialExtent(RadialExtent),
    Length(Length),
    LengthPercentage(LengthPercentage),
}

impl RadialSize {
    pub open spec fn wf(&self) -> bool {
        match self {
            RadialSize::RadialExtent(_) => true,
            RadialSize::Length(l) => l.wf(),
            RadialSize::LengthPercentage(lp) => lp.wf(),
        }
    }

    pub open spec fn spec_text(&self) -> Seq<char> {
        match self {
            RadialSize::RadialExtent(re) => re.spec_text(),
            RadialSize::Length(l) => l.spec_text(),
            RadialSize::LengthPercentage(lp) => lp.spec_text(),
        }
    }

    pub fn to_text(&self) -> (r: String)
        requires
            self.wf(),
        ensures
            r@ == self.spec_text(),
    {
        match self {
            RadialSize::RadialExtent(re) => re.to_text(),
            RadialSize::Length(l) => l.to_text(),
            RadialSize::LengthPercentage(lp) => lp.to_text(),
        }
    }
}

pub open spec fn spec_round_suffix(br: Option<BorderRadius>) -> Seq<char> {
    match br {
        Some(b) => " round "@ + b.spec_text(),
        None => Seq::empty(),
    }
}

pub open spec fn spec_round_wf(br: Option<BorderRadius>) -> bool {
    match br {
        Some(b) => b.wf(),
        None => true,
    }
}

fn push_round_suffix(br: &Option<BorderRadius>, out: &mut String)
    requires
        spec_round_wf(*br),
    ensures
        final (out)@ == old(out)@ + spec_round_suffix(*br),
{
    match br {
        Some(b) => {
            out.append(" round ");
            let t = b.to_text();
            out.append(t.as_str());
        },
        None => {},
    }
    assert(final (out)@ =~= old(out)@ + spec_round_suffix(*br));
}

/// A rectangle shape: `inset`, `xywh` or `rect` notation, with an
/// optional corner rounding.
#[derive(Copy, Clone, Debug, PartialEq)]
pub enum BasicShapeRect {
    Inset(
        LengthPercentage,
        Option<LengthPercentage>,
        Option<LengthPercentage>,
        Option<LengthPercentage>,
        Option<BorderRadius>,
    ),
    Xywh(
        LengthPercentage,
        LengthPercentage,
        LengthPercentage,
        LengthPercentage,
        Option<BorderRadius>,
    ),
    Rect(
        LengthPercentageAuto,
        LengthPercentageAuto,
        LengthPercentageAuto,
        LengthPercentageAuto,
        Option<BorderRadius>,
    ),
}

pub open spec fn spec_opt_lp_wf(o: Option<LengthPercentage>) -> bool {
    match o {
        Some(lp) => lp.wf(),
        None => true,
    }
}

/// The `inset` arguments: each further offset appears only behind the
/// ones before it.
pub open spec fn spec_inset_args(
    a: LengthPercentage,
    b: Option<LengthPercentage>,
    c: Option<LengthPercentage>,
    d: Option<LengthPercentage>,
) -> Seq<char> {
    a.spec_text() + match b {
        Some(bv) => " "@ + bv.spec_text() + match c {
            Some(cv) => " "@ + cv.spec_text() + match d {
                Some(dv) => " "@ + dv.spec_text(),
                None => Seq::empty(),
            },
            None => Seq::empty(),
        },
        None => Seq::empty(),
    }
}

impl BasicShapeRect {
    pub open spec fn wf(&self) -> bool {
        match self {
            BasicShapeRect::Inset(a, b, c, d, br) => a.wf() && spec_opt_lp_wf(*b) && spec_opt_lp_wf(
                *c,
            ) && spec_opt_lp_wf(*d) && spec_round_wf(*br),
            BasicShapeRect::Xywh(x, y, w, h, br) => x.wf() && y.wf() && w.wf() && h.wf()
                && spec_round_wf(*br),
            BasicShapeRect::Rect(a, b, c, d, br) => a.wf() && b.wf() && c.wf() && d.wf()
                && spec_round_wf(*br),
        }
    }

    pub open spec fn spec_text(&self) -> Seq<char> {
        match self {
            BasicShapeRect::Inset(a, b, c, d, br) => "inset("@ + spec_inset_args(*a, *b, *c, *d)
                + spec_round_suffix(*br) + ")"@,
            BasicShapeRect::Xywh(x, y, w, h, br) => "xywh("@ + x.spec_text() + " "@ + y.spec_text()
                + " "@ + w.spec_text() + " "@ + h.spec_text() + spec_round_suffix(*br) + ")"@,
            BasicShapeRect::Rect(a, b, c, d, br) => "rect("@ + a.spec_text() + " "@ + b.spec_text()
                + " "@ + c.spec_text() + " "@ + d.spec_text() + spec_round_suffix(*br) + ")"@,
        }
    }

    #[verifier::rlimit(60)]
    pub fn to_text(&self) -> (r: String)
        requires
            self.wf(),
        ensures
            r@ == self.spec_text(),
    {
        proof {
            reveal_strlit(")");
        }
        match self {
            BasicShapeRect::Inset(a, b, c, d, br) => {
                let mut out = "inset(".to_owned();
                let t = a.to_text();
                out.append(t.as_str());
                match b {
                    Some(bv) => {
                        out.append(" ");
                        let t = bv.to_text();
                        out.append(t.as_str());
                        match c {
                            Some(cv) => {
                                out.append(" ");
                                let t = cv.to_text();
                                out.append(t.as_str());
                                match d {
                                    Some(dv) => {
                                        out.append(" ");
                                        let t = dv.to_text();
                                        out.append(t.as_str());
                                    },
                                    None => {},
                                }
                            },
                            None => {},
                        }
                    },
                    None => {},
                }
                push_round_suffix(br, &mut out);
                out.push(')');
                assert(out@ =~= self.spec_text());
                out
            },
            BasicShapeRect::Xywh(x, y, w, h, br) => {
                let mut out = "xywh(".to_owned();
                let t = x.to_text();
                out.append(t.as_str());
                out.append(" ");
                let t = y.to_text();
                out.append(t.as_str());
                out.append(" ");
                let t = w.to_text();
                out.append(t.as_str());
                out.append(" ");
                let t = h.to_text();
                out.append(t.as_str());
                push_round_suffix(br, &mut out);
                out.push(')');
                assert(out@ =~= self.spec_text());
                out
            },
            BasicShapeRect::Rect(a, b, c, d, br) => {
                let mut out = "rect(".to_owned();
                let t = a.to_text();
                out.append(t.as_str());
                out.append(" ");
                let t = b.to_text();
                out.append(t.as_str());
                out.append(" ");
                let t = c.to_text();
                out.append(t.as_str());
                out.append(" ");
                let t = d.to_text();
                out.append(t.as_str());
                push_round_suffix(br, &mut out);
                out.push(')');
                assert(out@ =~= self.spec_text());
                out
            },
        }
    }
}

/// A basic shape: a rectangle notation, a circle or ellipse with an
/// optional position, a polygon, or raw path text.
#[derive(Clone, Debug, PartialEq)]
pub enum BasicShape {
    BasicShapeRect(BasicShapeRect),
    Circle(RadialSize, Option<crate::position::Position>),
    Ellipse(RadialSize, Option<crate::position::Position>),
    Polygon(
        Option<FillRule>,
        Option<Length>,
        Option<Vec<(LengthPercentage, LengthPercentage)>>,
    ),
    Path(Option<FillRule>, String),
}

pub open spec fn spec_at_suffix(pos: Option<crate::position::Position>) -> Seq<char> {
    match pos {
        Some(p) => " at "@ + p.spec_text(),
        None => Seq::empty(),
    }
}

pub open spec fn spec_pos_wf(pos: Option<crate::position::Position>) -> bool {
    match pos {
        Some(p) => p.wf(),
        None => true,
    }
}

fn push_at_suffix(pos: &Option<crate::position::Position>, out: &mut String)
    requires
        spec_pos_wf(*pos),
    ensures
        final (out)@ == old(out)@ + spec_at_suffix(*pos),
{
    match pos {
        Some(p) => {
            out.append(" at ");
            let t = p.to_text();
            out.append(t.as_str());
        },
        None => {},
    }
    assert(final (out)@ =~= old(out)@ + spec_at_suffix(*pos));
}

/// One polygon corner as `x y`.
pub open spec fn spec_corner_text(c: (LengthPercentage, LengthPercentage)) -> Seq<char> {
    c.0.spec_text() + " "@ + c.1.spec_text()
}

/// The leading fill-rule and length of a polygon, then its corners
/// behind a comma when anything precedes them.
pub open spec fn spec_polygon_body(
    fr: Option<FillRule>,
    rl: Option<Length>,
    corners: Option<Seq<(LengthPercentage, LengthPercentage)>>,
) -> Seq<char> {
    let head: Seq<char> = (match fr {
        Some(f) => f.spec_text() + (if rl is Some {
            " "@
        } else {
            Seq::empty()
        }),
        None => Seq::empty(),
    }) + (match rl {
        Some(l) => l.spec_text(),
        None => Seq::empty(),
    });
    match corners {
        Some(cs) => (if head.len() > 0 {
            head + ","@
        } else {
            head
        }) + crate::attribute::spec_join_texts(
            cs.map_values(|c: (LengthPercentage, LengthPercentage)| spec_corner_text(c)),
            " "@,
        ),
        None => head,
    }
}

impl BasicShape {
    pub open spec fn wf(&self) -> bool {
        match self {
            BasicShape::BasicShapeRect(bsr) => bsr.wf(),
            BasicShape::Circle(rs, pos) => rs.wf() && spec_pos_wf(*pos),
            BasicShape::Ellipse(rs, pos) => rs.wf() && spec_pos_wf(*pos),
            BasicShape::Polygon(_, rl, corners) => (match rl {
                Some(l) => l.wf(),
                None => true,
            }) && (match corners {
                Some(cs) => forall|i: int|
                    0 <= i < cs@.len() ==> (#[trigger] cs@[i]).0.wf() && cs@[i].1.wf(),
                None => true,
            }),
            BasicShape::Path(_, _) => true,
        }
    }

    pub open spec fn spec_text(&self) -> Seq<char> {
        match self {
            BasicShape::BasicShapeRect(bsr) => bsr.spec_text(),
            BasicShape::Circle(rs, pos) => "circle("@ + rs.spec_text() + spec_at_suffix(*pos)
                + ")"@,
            BasicShape::Ellipse(rs, pos) => "ellipse("@ + rs.spec_text() + spec_at_suffix(*pos)
                + ")"@,
            BasicShape::Polygon(fr, rl, corners) => "polygon("@ + spec_polygon_body(
                *fr,
                *rl,
                match corners {
                    Some(cs) => Some(cs@),
                    None => None,
                },
            ) + ")"@,
            BasicShape::Path(fr, s) => "path("@ + (match fr {
                Some(f) => f.spec_text() + " "@,
                None => Seq::empty(),
            }) + s@ + ")"@,
        }
    }

    #[verifier::rlimit(60)]
    pub fn to_text(&self) -> (r: String)
        requires
            self.wf(),
        ensures
            r@ == self.spec_text(),
    {
        proof {
            reveal_strlit(")");
            reveal_strlit(",");
        }
        match self {
            BasicShape::BasicShapeRect(bsr) => bsr.to_text(),
            BasicShape::Circle(rs, pos) => {
                let mut out = "circle(".to_owned();
                let t = rs.to_text();
                out.append(t.as_str());
                push_at_suffix(pos, &mut out);
                out.push(')');
                assert(out@ =~= self.spec_text());
                out
            },
            BasicShape::Ellipse(rs, pos) => {
                let mut out = "ellipse(".to_owned();
                let t = rs.to_text();
                out.append(t.as_str());
                push_at_suffix(pos, &mut out);
                out.push(')');
                assert(out@ =~= self.spec_text());
                out
            },
            BasicShape::Polygon(fr, rl, corners) => {
                let mut body = String::new();
                match fr {
                    Some(f) => {
                        let t = f.to_text();
                        body.append(t.as_str());
                        if rl.is_some() {
                            body.append(" ");
                        }
                    },
                    None => {},
                }
                match rl {
                    Some(l) => {
                        let t = l.to_text();
                        body.append(t.as_str());
                    },
                    None => {},
                }
                let ghost head = body@;
                match corners {
                    Some(cs) => {
                        if body.unicode_len() > 0 {
                            body.push(',');
                        }
                        let ghost m = cs@.map_values(
                            |c: (LengthPercentage, LengthPercentage)| spec_corner_text(c),
                        );
                        let mut texts: Vec<String> = Vec::new();
                        let mut i: usize = 0;
                        while i < cs.len()
                            invariant
                                i <= cs@.len(),
                                texts@.len() == i,
                                forall|j: int|
                                    0 <= j < cs@.len() ==> (#[trigger] cs@[j]).0.wf()
                                        && cs@[j].1.wf(),
                                forall|j: int|
                                    0 <= j < i ==> (#[trigger] texts@[j])@ == spec_corner_text(
                                        cs@[j],
                                    ),
                            decreases cs@.len() - i,
                        {
                            let c = &cs[i];
                            let mut t = c.0.to_text();
                            t.append(" ");
                            let t1 = c.1.to_text();
                            t.append(t1.as_str());
                            texts.push(t);
                            i = i + 1;
                        }
                        proof {
                            assert(texts@.map_values(|s: String| s@) =~~= m);
                        }
                        let joined = crate::attribute::concat_str_list(&texts, " ");
                        body.append(joined.as_str());
                    },
                    None => {},
                }
                let mut out = "polygon(".to_owned();
                out.append(body.as_str());
                out.push(')');
                assert(out@ =~= self.spec_text());
                out
            },
            BasicShape::Path(fr, s) => {
                let mut out = "path(".to_owned();
                match fr {
                    Some(f) => {
                        let t = f.to_text();
                        out.append(t.as_str());
                        out.append(" ");
                    },
                    None => {},
                }
                out.append(s.as_str());
                out.push(')');
                assert(out@ =~= self.spec_text());
                out
            },
        }
    }
}


} // verus!
