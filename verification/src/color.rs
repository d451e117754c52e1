//! Color-space and color-mix vocabulary: hex colors, the rectangular
//! and polar interpolation spaces, and the hue interpolation methods.

use vstd::prelude::*;

verus! {

/// A hex digit, uppercase.
pub open spec fn hex_digit(d: nat) -> char {
    if d == 0 {
        '0'
    } else if d == 1 {
        '1'
    } else if d == 2 {
        '2'
    } else if d == 3 {
        '3'
    } else if d == 4 {
        '4'
    } else if d == 5 {
        '5'
    } else if d == 6 {
        '6'
    } else if d == 7 {
        '7'
    } else if d == 8 {
        '8'
    } else if d == 9 {
        '9'
    } else if d == 10 {
        'A'
    } else if d == 11 {
        'B'
    } else if d == 12 {
        'C'
    } else if d == 13 {
        'D'
    } else if d == 14 {
        'E'
    } else {
        'F'
    }
}

fn hex_digit_char(d: u8) -> (c: char)
    requires
        d < 16,
    ensures
        c == hex_digit(d as nat),
{
    if d == 0 {
        '0'
    } else if d == 1 {
        '1'
    } else if d == 2 {
        '2'
    } else if d == 3 {
        '3'
    } else if d == 4 {
        '4'
    } else if d == 5 {
        '5'
    } else if d == 6 {
        '6'
    } else if d == 7 {
        '7'
    } else if d == 8 {
        '8'
    } else if d == 9 {
        '9'
    } else if d == 10 {
        'A'
    } else if d == 11 {
        'B'
    } else if d == 12 {
        'C'
    } else if d == 13 {
        'D'
    } else if d == 14 {
        'E'
    } else {
        'F'
    }
}

/// A channel clipped to one hex digit.
pub open spec fn hex1(v: nat) -> Seq<char> {
    seq![hex_digit(if v > 15 {
        15
    } else {
        v
    })]
}

/// A channel as two hex digits.
pub open spec fn hex2(v: nat) -> Seq<char> {
    seq![hex_digit(v / 16), hex_digit(v % 16)]
}

fn push_hex1(v: u8, out: &mut String)
    ensures
        final (out)@ == old(out)@ + hex1(v as nat),
{
    let c = if v > 15 {
        15
    } else {
        v
    };
    out.push(hex_digit_char(c));
    assert(final (out)@ =~= old(out)@ + hex1(v as nat));
}

fn push_hex2(v: u8, out: &mut String)
    ensures
        final (out)@ == old(out)@ + hex2(v as nat),
{
    out.push(hex_digit_char(v / 16));
    out.push(hex_digit_char(v % 16));
    assert(final (out)@ =~= old(out)@ + hex2(v as nat));
}

/// A hex color: three or four digits clipped channels, or six or eight
/// digit full channels, rendered behind a `#`.
#[derive(Copy, Clone, Debug, PartialEq, Eq, Structural)]
pub enum HexColor {
    Three(u8, u8, u8),
    Four(u8, u8, u8, u8),
    Six(u8, u8, u8),
    Eight(u8, u8, u8, u8),
}

impl HexColor {
    pub open spec fn spec_text(&self) -> Seq<char> {
        "#"@ + match self {
            HexColor::Three(r, g, b) => hex1(*r as nat) + hex1(*g as nat) + hex1(*b as nat),
            HexColor::Four(r, g, b, a) => hex1(*r as nat) + hex1(*g as nat) + hex1(*b as nat)
                + hex1(*a as nat),
            HexColor::Six(r, g, b) => hex2(*r as nat) + hex2(*g as nat) + hex2(*b as nat),
            HexColor::Eight(r, g, b, a) => hex2(*r as nat) + hex2(*g as nat) + hex2(*b as nat)
                + hex2(*a as nat),
        }
    }

    #[verifier::rlimit(60)]
    pub fn to_text(&self) -> (res: String)
        ensures
            res@ == self.spec_text(),
    {
        proof {
            reveal_strlit("#");
        }
        let mut out = String::new();
        out.push('#');
        match self {
            HexColor::Three(r, g, b) => {
                push_hex1(*r, &mut out);
                push_hex1(*g, &mut out);
                push_hex1(*b, &mut out);
                assert(out@ =~= self.spec_text());
            },
            HexColor::Four(r, g, b, a) => {
                push_hex1(*r, &mut out);
                push_hex1(*g, &mut out);
                push_hex1(*b, &mut out);
                push_hex1(*a, &mut out);
                assert(out@ =~= "#"@ + (hex1(*r as nat) + hex1(*g as nat) + hex1(*b as nat)
                    + hex1(*a as nat)));
                assert(out@ =~= self.spec_text());
            },
            HexColor::Six(r, g, b) => {
                push_hex2(*r, &mut out);
                push_hex2(*g, &mut out);
                push_hex2(*b, &mut out);
                assert(out@ =~= "#"@ + (hex2(*r as nat) + hex2(*g as nat) + hex2(*b as nat)));
                assert(out@ =~= self.spec_text());
            },
            HexColor::Eight(r, g, b, a) => {
                push_hex2(*r, &mut out);
                push_hex2(*g, &mut out);
                push_hex2(*b, &mut out);
                push_hex2(*a, &mut out);
                assert(out@ =~= "#"@ + (hex2(*r as nat) + hex2(*g as nat) + hex2(*b as nat)
                    + hex2(*a as nat)));
                assert(out@ =~= self.spec_text());
            },
        }
        out
    }
}

/// Rectangular interpolation color spaces.
#[derive(Copy, Clone, Debug, PartialEq, Eq, Structural)]
pub enum RectangularColorSpace {
    Srgb,
    SrgbLinear,
    DisplayP3,
    A98Rgb,
    ProphotoRgb,
    Rec2020,
    Lab,
    OkLab,
    Xyz,
    XyzD50,
    XyzD65,
}

impl RectangularColorSpace {
    /// The keyword this variant renders to.
    pub open spec fn spec_text(&self) -> Seq<char> {
        match self {
            RectangularColorSpace::Srgb => "srgb"@,
            RectangularColorSpace::SrgbLinear => "srgb-linear"@,
            RectangularColorSpace::DisplayP3 => "display-p3"@,
            RectangularColorSpace::A98Rgb => "a98-rgb"@,
            RectangularColorSpace::ProphotoRgb => "prophoto-rgb"@,
            RectangularColorSpace::Rec2020 => "rec2020"@,
            RectangularColorSpace::Lab => "lab"@,
            RectangularColorSpace::OkLab => "oklab"@,
            RectangularColorSpace::Xyz => "xyz"@,
            RectangularColorSpace::XyzD50 => "xyz-d50"@,
            RectangularColorSpace::XyzD65 => "xyz-d65"@,
        }
    }

    /// Renders the keyword.
    pub fn to_text(&self) -> (r: String)
        ensures
            r@ == self.spec_text(),
    {
        match self {
            RectangularColorSpace::Srgb => "srgb".to_owned(),
            RectangularColorSpace::SrgbLinear => "srgb-linear".to_owned(),
            RectangularColorSpace::DisplayP3 => "display-p3".to_owned(),
            RectangularColorSpace::A98Rgb => "a98-rgb".to_owned(),
            RectangularColorSpace::ProphotoRgb => "prophoto-rgb".to_owned(),
            RectangularColorSpace::Rec2020 => "rec2020".to_owned(),
            RectangularColorSpace::Lab => "lab".to_owned(),
            RectangularColorSpace::OkLab => "oklab".to_owned(),
            RectangularColorSpace::Xyz => "xyz".to_owned(),
            RectangularColorSpace::XyzD50 => "xyz-d50".to_owned(),
            RectangularColorSpace::XyzD65 => "xyz-d65".to_owned(),
        }
    }
}

/// Polar interpolation color spaces.
#[derive(Copy, Clone, Debug, PartialEq, Eq, Structural)]
pub enum PolarColorSpace {
    Hsl,
    Hwb,
    Lch,
    OkLch,
}

impl PolarColorSpace {
    /// The keyword this variant renders to.
    pub open spec fn spec_text(&self) -> Seq<char> {
        match self {
            PolarColorSpace::Hsl => "hsl"@,
            PolarColorSpace::Hwb => "hwb"@,
            PolarColorSpace::Lch => "lch"@,
            PolarColorSpace::OkLch => "oklch"@,
        }
    }

    /// Renders the keyword.
    pub fn to_text(&self) -> (r: String)
        ensures
            r@ == self.spec_text(),
    {
        match self {
            PolarColorSpace::Hsl => "hsl".to_owned(),
            PolarColorSpace::Hwb => "hwb".to_owned(),
            PolarColorSpace::Lch => "lch".to_owned(),
            PolarColorSpace::OkLch => "oklch".to_owned(),
        }
    }
}

/// How hue is interpolated; renders with its `hue` suffix.
#[derive(Copy, Clone, Debug, PartialEq, Eq, Structural)]
pub enum HueInterpolationMethod {
    Shorter,
    Longer,
    Increasing,
    Decreasing,
}

impl HueInterpolationMethod {
    /// The keyword this variant renders to.
    pub open spec fn spec_text(&self) -> Seq<char> {
        match self {
            HueInterpolationMethod::Shorter => "shorter hue"@,
            HueInterpolationMethod::Longer => "longer hue"@,
            HueInterpolationMethod::Increasing => "increasing hue"@,
            HueInterpolationMethod::Decreasing => "decreasing hue"@,
        }
    }

    /// Renders the keyword.
    pub fn to_text(&self) -> (r: String)
        ensures
            r@ == self.spec_text(),
    {
        match self {
            HueInterpolationMethod::Shorter => "shorter hue".to_owned(),
            HueInterpolationMethod::Longer => "longer hue".to_owned(),
            HueInterpolationMethod::Increasing => "increasing hue".to_owned(),
            HueInterpolationMethod::Decreasing => "decreasing hue".to_owned(),
        }
    }
}

/// A color interpolation method, rendered behind `in`.
#[derive(Copy, Clone, Debug, PartialEq, Eq, Structural)]
pub enum ColorInterpolationMethod {
    RectangularColorSpace(RectangularColorSpace),
    PolarColorSpace(PolarColorSpace, Option<HueInterpolationMethod>),
}

impl ColorInterpolationMethod {
    pub open spec fn spec_text(&self) -> Seq<char> {
        "in "@ + match self {
            ColorInterpolationMethod::RectangularColorSpace(rcs) => rcs.spec_text(),
            ColorInterpolationMethod::PolarColorSpace(pcs, him) => pcs.spec_text() + match him {
                Some(h) => " "@ + h.spec_text(),
                None => Seq::empty(),
            },
        }
    }

    pub fn to_text(&self) -> (res: String)
        ensures
            res@ == self.spec_text(),
    {
        let mut out = String::new();
        out.append("in ");
        match self {
            ColorInterpolationMethod::RectangularColorSpace(rcs) => {
                let t = rcs.to_text();
                out.append(t.as_str());
            },
            ColorInterpolationMethod::PolarColorSpace(pcs, him) => {
                let t = pcs.to_text();
                out.append(t.as_str());
                match him {
                    Some(h) => {
                        out.append(" ");
                        let ht = h.to_text();
                        out.append(ht.as_str());
                    },
                    None => {},
                }
            },
        }
        assert(out@ =~= self.spec_text());
        out
    }
}

/// A CSS color value: a keyword, a hex form, a `color-mix()`, or a
/// `light-dark()` pair.
#[derive(Debug)]
pub enum CssColor {
    Keyword(String),
    Hex(HexColor),
    ColorMix(
        ColorInterpolationMethod,
        Box<CssColor>,
        Option<crate::number::Number>,
        Box<CssColor>,
        Option<crate::number::Number>,
    ),
    LightDark(Box<CssColor>, Box<CssColor>),
}

pub open spec fn spec_pct_suffix(p: Option<crate::number::Number>) -> Seq<char> {
    match p {
        Some(v) => " "@ + crate::number::spec_format_number(v),
        None => Seq::empty(),
    }
}

pub open spec fn spec_pct_wf(p: Option<crate::number::Number>) -> bool {
    match p {
        Some(v) => v.wf(),
        None => true,
    }
}

fn push_pct_suffix(p: &Option<crate::number::Number>, out: &mut String)
    requires
        spec_pct_wf(*p),
    ensures
        final (out)@ == old(out)@ + spec_pct_suffix(*p),
{
    match p {
        Some(v) => {
            out.append(" ");
            let t = v.format();
            out.append(t.as_str());
        },
        None => {},
    }
    assert(final (out)@ =~= old(out)@ + spec_pct_suffix(*p));
}

impl CssColor {
    pub open spec fn wf(&self) -> bool
        decreases self,
    {
        match self {
            CssColor::Keyword(_) => true,
            CssColor::Hex(_) => true,
            CssColor::ColorMix(_, c1, p1, c2, p2) => c1.wf() && c2.wf() && spec_pct_wf(*p1)
                && spec_pct_wf(*p2),
            CssColor::LightDark(l, d) => l.wf() && d.wf(),
        }
    }

    pub open spec fn spec_text(&self) -> Seq<char>
        decreases self,
    {
        match self {
            CssColor::Keyword(kw) => kw@,
            CssColor::Hex(hx) => hx.spec_text(),
            CssColor::ColorMix(cip, c1, p1, c2, p2) => "color-mix("@ + cip.spec_text() + ","@
                + c1.spec_text() + spec_pct_suffix(*p1) + ","@ + c2.spec_text() + spec_pct_suffix(
                *p2,
            ) + ")"@,
            CssColor::LightDark(l, d) => "light-dark("@ + l.spec_text() + ", "@ + d.spec_text()
                + ")"@,
        }
    }

    pub fn to_text(&self) -> (r: String)
        requires
            self.wf(),
        ensures
            r@ == self.spec_text(),
        decreases *self,
    {
        proof {
            reveal_strlit(")");
            reveal_strlit(",");
        }
        match self {
            CssColor::Keyword(kw) => kw.clone(),
            CssColor::Hex(hx) => hx.to_text(),
            CssColor::ColorMix(cip, c1, p1, c2, p2) => {
                let mut out = "color-mix(".to_owned();
                let t = cip.to_text();
                out.append(t.as_str());
                out.push(',');
                let t = c1.to_text();
                out.append(t.as_str());
                push_pct_suffix(p1, &mut out);
                out.push(',');
                let t = c2.to_text();
                out.append(t.as_str());
                push_pct_suffix(p2, &mut out);
                out.push(')');
                assert(out@ =~= self.spec_text());
                out
            },
            CssColor::LightDark(l, d) => {
                let mut out = "light-dark(".to_owned();
                let t = l.to_text();
                out.append(t.as_str());
                out.append(", ");
                let t = d.to_text();
                out.append(t.as_str());
                out.push(')');
                assert(out@ =~= self.spec_text());
                out
            },
        }
    }
}


} // verus!
