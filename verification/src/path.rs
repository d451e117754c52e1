//! The SVG path-data mini-language: structured commands for the `d`
//! attribute, a parser from the compact text form, and a formatter back
//! to canonical text.
//!
//! A command is a kind (move, line, the Bezier family, arcs, close), a
//! relative/absolute flag taken from the letter's case, and its numeric
//! arguments.  Parsing one command consumes a letter token followed by a
//! fixed number of whitespace-separated argument tokens; pairs are
//! comma-joined.  Formatting is the exact inverse on canonical text.

use crate::number::{
    digit_val, digits_val, is_digit, is_digit_char, is_number_token, parse_number, spec_body,
    spec_format_number, spec_number_of, spec_sign_len, Number,
};
use crate::{UkkoError, UkkoResult};
use vstd::prelude::*;

verus! {

/// The ten command kinds of the path grammar.  Bezier kinds carry their
/// control points; the endpoint always lives in `PathCommand::movement`.
#[derive(Debug, PartialEq)]
pub enum PathCommandKind {
    MoveTo,
    LineTo,
    HorizontalLineTo,
    VerticalLineTo,
    CubicBezierCurve((Number, Number), (Number, Number)),
    CubicBezierCurveSmooth((Number, Number)),
    QuadraticBezierCurve((Number, Number)),
    QuadraticBezierCurveSmooth,
    EllipticalArcCurve(Number, Number, Number, bool, bool),
    ClosePath,
}

/// One path command: its kind, whether its arguments are relative to the
/// current point, and its movement vector (the endpoint, or the single
/// scalar of `H`/`V` with the unused axis held as zero).
#[derive(Debug, PartialEq)]
pub struct PathCommand {
    pub relative: bool,
    pub movement: (Number, Number),
    pub command: PathCommandKind,
}

/// The canonical (uppercase) letter of a kind.
pub open spec fn spec_letter(k: PathCommandKind) -> char {
    match k {
        PathCommandKind::MoveTo => 'M',
        PathCommandKind::LineTo => 'L',
        PathCommandKind::HorizontalLineTo => 'H',
        PathCommandKind::VerticalLineTo => 'V',
        PathCommandKind::CubicBezierCurve(_, _) => 'C',
        PathCommandKind::CubicBezierCurveSmooth(_) => 'S',
        PathCommandKind::QuadraticBezierCurve(_) => 'Q',
        PathCommandKind::QuadraticBezierCurveSmooth => 'T',
        PathCommandKind::EllipticalArcCurve(_, _, _, _, _) => 'A',
        PathCommandKind::ClosePath => 'Z',
    }
}

/// The lowercase partner of a canonical letter.
pub open spec fn spec_lower(c: char) -> char {
    match c {
        'M' => 'm',
        'L' => 'l',
        'H' => 'h',
        'V' => 'v',
        'C' => 'c',
        'S' => 's',
        'Q' => 'q',
        'T' => 't',
        'A' => 'a',
        'Z' => 'z',
        _ => c,
    }
}

/// The letter a command is written with: lowercase iff relative.
pub open spec fn spec_cmd_letter(c: PathCommand) -> char {
    if c.relative {
        spec_lower(spec_letter(c.command))
    } else {
        spec_letter(c.command)
    }
}

impl PathCommandKind {
    /// The canonical letter of this kind.
    pub fn as_char(&self) -> (c: char)
        ensures
            c == spec_letter(*self),
    {
        match self {
            PathCommandKind::MoveTo => 'M',
            PathCommandKind::LineTo => 'L',
            PathCommandKind::HorizontalLineTo => 'H',
            PathCommandKind::VerticalLineTo => 'V',
            PathCommandKind::CubicBezierCurve(_, _) => 'C',
            PathCommandKind::CubicBezierCurveSmooth(_) => 'S',
            PathCommandKind::QuadraticBezierCurve(_) => 'Q',
            PathCommandKind::QuadraticBezierCurveSmooth => 'T',
            PathCommandKind::EllipticalArcCurve(_, _, _, _, _) => 'A',
            PathCommandKind::ClosePath => 'Z',
        }
    }
}

impl PathCommand {
    /// All numeric payloads are canonical decimals, and the axes a kind
    /// never emits hold zero, as the constructors leave them.
    pub open spec fn wf(self) -> bool {
        &&& self.movement.0.wf()
        &&& self.movement.1.wf()
        &&& match self.command {
            PathCommandKind::CubicBezierCurve(c1, c2) => c1.0.wf() && c1.1.wf() && c2.0.wf()
                && c2.1.wf(),
            PathCommandKind::CubicBezierCurveSmooth(c1) => c1.0.wf() && c1.1.wf(),
            PathCommandKind::QuadraticBezierCurve(c1) => c1.0.wf() && c1.1.wf(),
            PathCommandKind::EllipticalArcCurve(rx, ry, angle, _, _) => rx.wf() && ry.wf()
                && angle.wf(),
            PathCommandKind::HorizontalLineTo => self.movement.1 == (Number {
                neg: false,
                mant: 0,
                scale: 0,
            }),
            PathCommandKind::VerticalLineTo => self.movement.0 == (Number {
                neg: false,
                mant: 0,
                scale: 0,
            }),
            PathCommandKind::ClosePath => self.movement.0 == (Number {
                neg: false,
                mant: 0,
                scale: 0,
            }) && self.movement.1 == (Number { neg: false, mant: 0, scale: 0 }),
            _ => true,
        }
    }


    /// Runtime check that every numeric payload is canonical.
    pub fn well_formed(&self) -> (r: bool)
        ensures
            r == self.wf(),
    {
        let zero_ok = match &self.command {
            PathCommandKind::HorizontalLineTo => self.movement.1 == (Number {
                neg: false,
                mant: 0,
                scale: 0,
            }),
            PathCommandKind::VerticalLineTo => self.movement.0 == (Number {
                neg: false,
                mant: 0,
                scale: 0,
            }),
            PathCommandKind::ClosePath => self.movement.0 == (Number {
                neg: false,
                mant: 0,
                scale: 0,
            }) && self.movement.1 == (Number { neg: false, mant: 0, scale: 0 }),
            _ => true,
        };
        let payload_ok = match &self.command {
            PathCommandKind::CubicBezierCurve(c1, c2) => c1.0.well_formed() && c1.1.well_formed()
                && c2.0.well_formed() && c2.1.well_formed(),
            PathCommandKind::CubicBezierCurveSmooth(c1) => c1.0.well_formed()
                && c1.1.well_formed(),
            PathCommandKind::QuadraticBezierCurve(c1) => c1.0.well_formed() && c1.1.well_formed(),
            PathCommandKind::EllipticalArcCurve(rx, ry, angle, _, _) => rx.well_formed()
                && ry.well_formed() && angle.well_formed(),
            _ => true,
        };
        self.movement.0.well_formed() && self.movement.1.well_formed() && zero_ok && payload_ok
    }

    /// Marks the command as relative: its letter is then emitted lowercase.
    pub fn relative(self) -> (r: Self)
        ensures
            r == (PathCommand { relative: true, ..self }),
    {
        PathCommand { relative: true, ..self }
    }

    pub fn move_to(movement: (Number, Number)) -> (r: Self)
        ensures
            r == (PathCommand { relative: false, movement, command: PathCommandKind::MoveTo }),
    {
        PathCommand { relative: false, movement, command: PathCommandKind::MoveTo }
    }

    pub fn line_to(movement: (Number, Number)) -> (r: Self)
        ensures
            r == (PathCommand { relative: false, movement, command: PathCommandKind::LineTo }),
    {
        PathCommand { relative: false, movement, command: PathCommandKind::LineTo }
    }

    pub fn horizontal_line_to(to: Number) -> (r: Self)
        ensures
            r == (PathCommand {
                relative: false,
                movement: (to, Number { neg: false, mant: 0, scale: 0 }),
                command: PathCommandKind::HorizontalLineTo,
            }),
    {
        PathCommand {
            relative: false,
            movement: (to, Number { neg: false, mant: 0, scale: 0 }),
            command: PathCommandKind::HorizontalLineTo,
        }
    }

    pub fn vertical_line_to(to: Number) -> (r: Self)
        ensures
            r == (PathCommand {
                relative: false,
                movement: (Number { neg: false, mant: 0, scale: 0 }, to),
                command: PathCommandKind::VerticalLineTo,
            }),
    {
        PathCommand {
            relative: false,
            movement: (Number { neg: false, mant: 0, scale: 0 }, to),
            command: PathCommandKind::VerticalLineTo,
        }
    }

    pub fn cubic_bezier_curve(
        movement: (Number, Number),
        control_start: (Number, Number),
        control_end: (Number, Number),
    ) -> (r: Self)
        ensures
            r == (PathCommand {
                relative: false,
                movement,
                command: PathCommandKind::CubicBezierCurve(control_start, control_end),
            }),
    {
        PathCommand {
            relative: false,
            movement,
            command: PathCommandKind::CubicBezierCurve(control_start, control_end),
        }
    }

    pub fn cubic_bezier_curve_smooth(movement: (Number, Number), control: (Number, Number)) -> (r:
        Self)
        ensures
            r == (PathCommand {
                relative: false,
                movement,
                command: PathCommandKind::CubicBezierCurveSmooth(control),
            }),
    {
        PathCommand {
            relative: false,
            movement,
            command: PathCommandKind::CubicBezierCurveSmooth(control),
        }
    }

    pub fn quadratic_bezier_curve(movement: (Number, Number), control: (Number, Number)) -> (r:
        Self)
        ensures
            r == (PathCommand {
                relative: false,
                movement,
                command: PathCommandKind::QuadraticBezierCurve(control),
            }),
    {
        PathCommand {
            relative: false,
            movement,
            command: PathCommandKind::QuadraticBezierCurve(control),
        }
    }

    pub fn quadratic_bezier_curve_smooth(movement: (Number, Number)) -> (r: Self)
        ensures
            r == (PathCommand {
                relative: false,
                movement,
                command: PathCommandKind::QuadraticBezierCurveSmooth,
            }),
    {
        PathCommand { relative: false, movement, command: PathCommandKind::QuadraticBezierCurveSmooth }
    }

    pub fn elliptical_arc_curve(
        movement: (Number, Number),
        rx: Number,
        ry: Number,
        angle: Number,
        large_arc_flag: bool,
        sweep_flag: bool,
    ) -> (r: Self)
        ensures
            r == (PathCommand {
                relative: false,
                movement,
                command: PathCommandKind::EllipticalArcCurve(
                    rx,
                    ry,
                    angle,
                    large_arc_flag,
                    sweep_flag,
                ),
            }),
    {
        PathCommand {
            relative: false,
            movement,
            command: PathCommandKind::EllipticalArcCurve(rx, ry, angle, large_arc_flag, sweep_flag),
        }
    }

    pub fn close() -> (r: Self)
        ensures
            r == (PathCommand {
                relative: false,
                movement: (
                    Number { neg: false, mant: 0, scale: 0 },
                    Number { neg: false, mant: 0, scale: 0 },
                ),
                command: PathCommandKind::ClosePath,
            }),
    {
        PathCommand {
            relative: false,
            movement: (
                Number { neg: false, mant: 0, scale: 0 },
                Number { neg: false, mant: 0, scale: 0 },
            ),
            command: PathCommandKind::ClosePath,
        }
    }
}

/// A pair rendered `x,y` with no surrounding whitespace.
pub open spec fn spec_tuple_text(p: (Number, Number)) -> Seq<char> {
    spec_format_number(p.0) + seq![','] + spec_format_number(p.1)
}

pub open spec fn spec_flag_char(b: bool) -> char {
    if b {
        '1'
    } else {
        '0'
    }
}

/// Canonical text of one command: the cased letter, then the arguments
/// in source order (controls before the endpoint, arc flags as 0/1),
/// single spaces between, nothing after.  `Z` is the bare letter.
pub open spec fn spec_format_command(c: PathCommand) -> Seq<char> {
    let l = seq![spec_cmd_letter(c)];
    let sp = seq![' '];
    let mv = spec_tuple_text(c.movement);
    match c.command {
        PathCommandKind::MoveTo => l + sp + mv,
        PathCommandKind::LineTo => l + sp + mv,
        PathCommandKind::HorizontalLineTo => l + sp + spec_format_number(c.movement.0),
        PathCommandKind::VerticalLineTo => l + sp + spec_format_number(c.movement.1),
        PathCommandKind::CubicBezierCurve(c1, c2) => l + sp + spec_tuple_text(c1) + sp
            + spec_tuple_text(c2) + sp + mv,
        PathCommandKind::CubicBezierCurveSmooth(c1) => l + sp + spec_tuple_text(c1) + sp + mv,
        PathCommandKind::QuadraticBezierCurve(c1) => l + sp + spec_tuple_text(c1) + sp + mv,
        PathCommandKind::QuadraticBezierCurveSmooth => l + sp + mv,
        PathCommandKind::EllipticalArcCurve(rx, ry, angle, laf, sf) => l + sp + spec_format_number(
            rx,
        ) + sp + spec_format_number(ry) + sp + spec_format_number(angle) + sp + seq![
            spec_flag_char(laf),
        ] + sp + seq![spec_flag_char(sf)] + sp + mv,
        PathCommandKind::ClosePath => l,
    }
}

fn push_number(n: &Number, out: &mut String)
    requires
        n.wf(),
    ensures
        final (out)@ == old(out)@ + spec_format_number(*n),
{
    let text = n.format();
    out.append(text.as_str());
}

fn push_tuple(p: &(Number, Number), out: &mut String)
    requires
        p.0.wf(),
        p.1.wf(),
    ensures
        final (out)@ == old(out)@ + spec_tuple_text(*p),
{
    push_number(&p.0, out);
    out.push(',');
    push_number(&p.1, out);
    assert(final (out)@ =~= old(out)@ + spec_tuple_text(*p));
}

impl PathCommand {
    /// The letter this command is written with.
    fn letter(&self) -> (c: char)
        ensures
            c == spec_cmd_letter(*self),
    {
        let u = self.command.as_char();
        if self.relative {
            match u {
                'M' => 'm',
                'L' => 'l',
                'H' => 'h',
                'V' => 'v',
                'C' => 'c',
                'S' => 's',
                'Q' => 'q',
                'T' => 't',
                'A' => 'a',
                _ => 'z',
            }
        } else {
            u
        }
    }

    /// Formats the command as its canonical text.
    pub fn format(&self) -> (r: String)
        requires
            self.wf(),
        ensures
            r@ == spec_format_command(*self),
    {
        let mut out = String::new();
        out.push(self.letter());
        match &self.command {
            PathCommandKind::MoveTo => {
                out.push(' ');
                push_tuple(&self.movement, &mut out);
            },
            PathCommandKind::LineTo => {
                out.push(' ');
                push_tuple(&self.movement, &mut out);
            },
            PathCommandKind::HorizontalLineTo => {
                out.push(' ');
                push_number(&self.movement.0, &mut out);
            },
            PathCommandKind::VerticalLineTo => {
                out.push(' ');
                push_number(&self.movement.1, &mut out);
            },
            PathCommandKind::CubicBezierCurve(c1, c2) => {
                out.push(' ');
                push_tuple(c1, &mut out);
                out.push(' ');
                push_tuple(c2, &mut out);
                out.push(' ');
                push_tuple(&self.movement, &mut out);
            },
            PathCommandKind::CubicBezierCurveSmooth(c1) => {
                out.push(' ');
                push_tuple(c1, &mut out);
                out.push(' ');
                push_tuple(&self.movement, &mut out);
            },
            PathCommandKind::QuadraticBezierCurve(c1) => {
                out.push(' ');
                push_tuple(c1, &mut out);
                out.push(' ');
                push_tuple(&self.movement, &mut out);
            },
            PathCommandKind::QuadraticBezierCurveSmooth => {
                out.push(' ');
                push_tuple(&self.movement, &mut out);
            },
            PathCommandKind::EllipticalArcCurve(rx, ry, angle, laf, sf) => {
                out.push(' ');
                push_number(rx, &mut out);
                out.push(' ');
                push_number(ry, &mut out);
                out.push(' ');
                push_number(angle, &mut out);
                out.push(' ');
                out.push(if *laf {
                    '1'
                } else {
                    '0'
                });
                out.push(' ');
                out.push(if *sf {
                    '1'
                } else {
                    '0'
                });
                out.push(' ');
                push_tuple(&self.movement, &mut out);
            },
            PathCommandKind::ClosePath => {},
        }
        assert(out@ =~= spec_format_command(*self));
        out
    }
}

/// The whitespace that separates argument tokens.
pub open spec fn is_space(c: char) -> bool {
    c == ' ' || c == '\t' || c == '\n' || c == '\r' || c == '\u{b}' || c == '\u{c}'
}

fn is_space_char(c: char) -> (r: bool)
    ensures
        r == is_space(c),
{
    c == ' ' || c == '\t' || c == '\n' || c == '\r' || c == '\u{b}' || c == '\u{c}'
}

/// The maximal whitespace-free runs of `s`, in order.
pub open spec fn spec_tokens(s: Seq<char>) -> Seq<Seq<char>>
    decreases s.len(),
{
    if s.len() == 0 {
        Seq::empty()
    } else {
        let rest = spec_tokens(s.drop_first());
        if is_space(s[0]) {
            rest
        } else if s.len() >= 2 && !is_space(s[1]) {
            seq![seq![s[0]] + rest[0]] + rest.skip(1)
        } else {
            seq![seq![s[0]]] + rest
        }
    }
}

pub proof fn lemma_tokens_head(s: Seq<char>)
    requires
        s.len() > 0,
        !is_space(s[0]),
    ensures
        spec_tokens(s).len() >= 1,
        spec_tokens(s)[0].len() >= 1,
    decreases s.len(),
{
    if s.len() >= 2 && !is_space(s[1]) {
        lemma_tokens_head(s.drop_first());
    }
}

pub open spec fn toks_view(v: Vec<Vec<char>>) -> Seq<Seq<char>> {
    v@.map_values(|t: Vec<char>| t@)
}

/// Splits text into its whitespace-separated tokens.
fn tokenize(t: &Vec<char>) -> (r: Vec<Vec<char>>)
    ensures
        toks_view(r) == spec_tokens(t@),
{
    let n = t.len();
    let mut i = n;
    let mut toks: Vec<Vec<char>> = Vec::new();
    proof {
        assert(t@.skip(n as int) =~= Seq::<char>::empty());
        assert(toks_view(toks) =~= spec_tokens(t@.skip(n as int)));
    }
    while i > 0
        invariant
            i <= n == t@.len(),
            toks_view(toks) =~= spec_tokens(t@.skip(i as int)),
        decreases i,
    {
        i = i - 1;
        let c = t[i];
        let ghost s_i = t@.skip(i as int);
        proof {
            assert(s_i.drop_first() =~= t@.skip(i as int + 1));
            assert(s_i[0] == c);
        }
        if is_space_char(c) {
            proof {
                assert(toks_view(toks) =~= spec_tokens(s_i));
            }
        } else if i + 1 < n && !is_space_char(t[i + 1]) {
            proof {
                assert(s_i[1] == t@[i as int + 1]);
                lemma_tokens_head(s_i.drop_first());
                assert(toks.len() >= 1);
            }
            let mut first = toks.remove(0);
            first.insert(0, c);
            toks.insert(0, first);
            proof {
                let rest = spec_tokens(s_i.drop_first());
                assert(toks_view(toks)[0] =~= seq![c] + rest[0]);
                assert(toks_view(toks) =~= seq![seq![c] + rest[0]] + rest.skip(1));
                assert(toks_view(toks) =~= spec_tokens(s_i));
            }
        } else {
            let mut nv: Vec<char> = Vec::new();
            nv.push(c);
            toks.insert(0, nv);
            proof {
                let rest = spec_tokens(s_i.drop_first());
                assert(nv@ =~= seq![c]);
                assert(toks_view(toks) =~= seq![seq![c]] + rest);
                assert(toks_view(toks) =~= spec_tokens(s_i));
            }
        }
    }
    proof {
        assert(t@.skip(0) =~= t@);
    }
    toks
}

// --- the textual error messages of the parser ---

pub open spec fn msg_not_command() -> Seq<char> {
    "Not a command."@
}

pub open spec fn msg_not_enough() -> Seq<char> {
    "Not enough arguments."@
}

pub open spec fn msg_not_tuple() -> Seq<char> {
    "Not a tuple."@
}

pub open spec fn msg_bad_float() -> Seq<char> {
    "invalid float literal"@
}

pub open spec fn msg_int_empty() -> Seq<char> {
    "cannot parse integer from empty string"@
}

pub open spec fn msg_bad_digit() -> Seq<char> {
    "invalid digit found in string"@
}

pub open spec fn msg_too_large() -> Seq<char> {
    "number too large to fit in target type"@
}

pub open spec fn msg_too_small() -> Seq<char> {
    "number too small to fit in target type"@
}

/// Index of the first comma of `t`, or `t.len()` if there is none.
pub open spec fn first_comma(t: Seq<char>) -> int
    decreases t.len(),
{
    if t.len() == 0 {
        0
    } else if t[0] == ',' {
        0
    } else {
        1 + first_comma(t.drop_first())
    }
}

pub proof fn lemma_first_comma_at(t: Seq<char>, j: int)
    requires
        0 <= j <= t.len(),
        forall|i: int| 0 <= i < j ==> t[i] != ',',
        j == t.len() || t[j] == ',',
    ensures
        first_comma(t) == j,
    decreases t.len(),
{
    if t.len() == 0 {
    } else if t[0] == ',' {
    } else {
        lemma_first_comma_at(t.drop_first(), j - 1);
    }
}

/// A tuple token: a number, one comma, a number; pieces past a second
/// comma are ignored.  The first piece is examined before the comma is
/// looked for, so `10` alone fails as a missing tuple while `x,1` fails
/// as a bad number.
pub open spec fn spec_parse_tuple(t: Seq<char>) -> Result<(Number, Number), Seq<char>> {
    let fc = first_comma(t);
    let p0 = t.take(fc);
    if !is_number_token(p0) {
        Err(msg_bad_float())
    } else if fc >= t.len() {
        Err(msg_not_tuple())
    } else {
        let r1 = t.skip(fc + 1);
        let p1 = r1.take(first_comma(r1));
        if !is_number_token(p1) {
            Err(msg_bad_float())
        } else {
            Ok((spec_number_of(p0), spec_number_of(p1)))
        }
    }
}

/// Digit-by-digit scan of a flag's digits against a magnitude bound;
/// `Err(false)` is a stray character, `Err(true)` an overflow.
pub open spec fn spec_i8_scan(ds: Seq<char>, acc: nat, bound: nat) -> Result<nat, bool>
    decreases ds.len(),
{
    if ds.len() == 0 {
        Ok(acc)
    } else if !is_digit(ds[0]) {
        Err(false)
    } else if acc * 10 + digit_val(ds[0]) > bound {
        Err(true)
    } else {
        spec_i8_scan(ds.drop_first(), acc * 10 + digit_val(ds[0]), bound)
    }
}

/// An arc flag: a signed integer within the signed byte range; any
/// value other than zero counts as a set flag.
pub open spec fn spec_parse_flag(t: Seq<char>) -> Result<bool, Seq<char>> {
    if t.len() == 0 {
        Err(msg_int_empty())
    } else {
        let d = spec_body(t);
        if d.len() == 0 {
            Err(msg_bad_digit())
        } else {
            let bound: nat = if t[0] == '-' {
                128
            } else {
                127
            };
            match spec_i8_scan(d, 0, bound) {
                Ok(v) => Ok(v != 0),
                Err(over) => if over {
                    if t[0] == '-' {
                        Err(msg_too_small())
                    } else {
                        Err(msg_too_large())
                    }
                } else {
                    Err(msg_bad_digit())
                },
            }
        }
    }
}

pub open spec fn is_lower(c: char) -> bool {
    97 <= c as u32 <= 122
}

pub open spec fn sp_tuple_at(toks: Seq<Seq<char>>, i: int) -> Result<(Number, Number), Seq<char>> {
    if i >= toks.len() {
        Err(msg_not_enough())
    } else {
        spec_parse_tuple(toks[i])
    }
}

pub open spec fn sp_num_at(toks: Seq<Seq<char>>, i: int) -> Result<Number, Seq<char>> {
    if i >= toks.len() {
        Err(msg_not_enough())
    } else if !is_number_token(toks[i]) {
        Err(msg_bad_float())
    } else {
        Ok(spec_number_of(toks[i]))
    }
}

pub open spec fn sp_flag_at(toks: Seq<Seq<char>>, i: int) -> Result<bool, Seq<char>> {
    if i >= toks.len() {
        Err(msg_not_enough())
    } else {
        spec_parse_flag(toks[i])
    }
}

pub open spec fn spec_zero() -> Number {
    Number { neg: false, mant: 0, scale: 0 }
}

/// One command's token group, parsed: the letter token selects the kind
/// (case selects relative mode), then each kind consumes its fixed
/// arguments, the endpoint token examined before the tokens ahead of it
/// where the kind stores the endpoint first.
pub open spec fn spec_parse_command(s: Seq<char>) -> Result<PathCommand, Seq<char>> {
    let toks = spec_tokens(s);
    if toks.len() == 0 || toks[0].len() > 1 {
        Err(msg_not_command())
    } else {
        let ch = toks[0][0];
        let rel = is_lower(ch);
        if ch == 'M' || ch == 'm' {
            match sp_tuple_at(toks, 1) {
                Ok(p) => Ok(
                    PathCommand { relative: rel, movement: p, command: PathCommandKind::MoveTo },
                ),
                Err(e) => Err(e),
            }
        } else if ch == 'L' || ch == 'l' {
            match sp_tuple_at(toks, 1) {
                Ok(p) => Ok(
                    PathCommand { relative: rel, movement: p, command: PathCommandKind::LineTo },
                ),
                Err(e) => Err(e),
            }
        } else if ch == 'H' || ch == 'h' {
            match sp_num_at(toks, 1) {
                Ok(x) => Ok(
                    PathCommand {
                        relative: rel,
                        movement: (x, spec_zero()),
                        command: PathCommandKind::HorizontalLineTo,
                    },
                ),
                Err(e) => Err(e),
            }
        } else if ch == 'V' || ch == 'v' {
            match sp_num_at(toks, 1) {
                Ok(y) => Ok(
                    PathCommand {
                        relative: rel,
                        movement: (spec_zero(), y),
                        command: PathCommandKind::VerticalLineTo,
                    },
                ),
                Err(e) => Err(e),
            }
        } else if ch == 'C' || ch == 'c' {
            match sp_tuple_at(toks, 3) {
                Ok(mv) => match sp_tuple_at(toks, 1) {
                    Ok(c1) => match sp_tuple_at(toks, 2) {
                        Ok(c2) => Ok(
                            PathCommand {
                                relative: rel,
                                movement: mv,
                                command: PathCommandKind::CubicBezierCurve(c1, c2),
                            },
                        ),
                        Err(e) => Err(e),
                    },
                    Err(e) => Err(e),
                },
                Err(e) => Err(e),
            }
        } else if ch == 'S' || ch == 's' {
            match sp_tuple_at(toks, 2) {
                Ok(mv) => match sp_tuple_at(toks, 1) {
                    Ok(c1) => Ok(
                        PathCommand {
                            relative: rel,
                            movement: mv,
                            command: PathCommandKind::CubicBezierCurveSmooth(c1),
                        },
                    ),
                    Err(e) => Err(e),
                },
                Err(e) => Err(e),
            }
        } else if ch == 'Q' || ch == 'q' {
            match sp_tuple_at(toks, 2) {
                Ok(mv) => match sp_tuple_at(toks, 1) {
                    Ok(c1) => Ok(
                        PathCommand {
                            relative: rel,
                            movement: mv,
                            command: PathCommandKind::QuadraticBezierCurve(c1),
                        },
                    ),
                    Err(e) => Err(e),
                },
                Err(e) => Err(e),
            }
        } else if ch == 'T' || ch == 't' {
            match sp_tuple_at(toks, 1) {
                Ok(mv) => Ok(
                    PathCommand {
                        relative: rel,
                        movement: mv,
                        command: PathCommandKind::QuadraticBezierCurveSmooth,
                    },
                ),
                Err(e) => Err(e),
            }
        } else if ch == 'A' || ch == 'a' {
            match sp_tuple_at(toks, 6) {
                Ok(mv) => match sp_num_at(toks, 1) {
                    Ok(rx) => match sp_num_at(toks, 2) {
                        Ok(ry) => match sp_num_at(toks, 3) {
                            Ok(angle) => match sp_flag_at(toks, 4) {
                                Ok(laf) => match sp_flag_at(toks, 5) {
                                    Ok(sf) => Ok(
                                        PathCommand {
                                            relative: rel,
                                            movement: mv,
                                            command: PathCommandKind::EllipticalArcCurve(
                                                rx,
                                                ry,
                                                angle,
                                                laf,
                                                sf,
                                            ),
                                        },
                                    ),
                                    Err(e) => Err(e),
                                },
                                Err(e) => Err(e),
                            },
                            Err(e) => Err(e),
                        },
                        Err(e) => Err(e),
                    },
                    Err(e) => Err(e),
                },
                Err(e) => Err(e),
            }
        } else if ch == 'Z' || ch == 'z' {
            Ok(
                PathCommand {
                    relative: rel,
                    movement: (spec_zero(), spec_zero()),
                    command: PathCommandKind::ClosePath,
                },
            )
        } else {
            Err(msg_not_command())
        }
    }
}

pub proof fn lemma_tokens_all_nonempty(s: Seq<char>)
    ensures
        forall|i: int| 0 <= i < spec_tokens(s).len() ==> #[trigger] spec_tokens(s)[i].len() >= 1,
    decreases s.len(),
{
    if s.len() > 0 {
        lemma_tokens_all_nonempty(s.drop_first());
        let rest = spec_tokens(s.drop_first());
        let whole = spec_tokens(s);
        if is_space(s[0]) {
        } else if s.len() >= 2 && !is_space(s[1]) {
            assert forall|i: int| 0 <= i < whole.len() implies whole[i].len() >= 1 by {
                if i == 0 {
                    assert(whole[0] == seq![s[0]] + rest[0]);
                } else {
                    assert(whole[i] == rest[i]);
                }
            }
        } else {
            assert forall|i: int| 0 <= i < whole.len() implies whole[i].len() >= 1 by {
                if i == 0 {
                    assert(whole[0] == seq![s[0]]);
                } else {
                    assert(whole[i] == rest[i - 1]);
                }
            }
        }
    }
}

/// Copies the characters of `t` between `a` and `b`.
fn subvec(t: &Vec<char>, a: usize, b: usize) -> (r: Vec<char>)
    requires
        a <= b <= t@.len(),
    ensures
        r@ == t@.subrange(a as int, b as int),
{
    let mut r: Vec<char> = Vec::new();
    let mut i = a;
    while i < b
        invariant
            a <= i <= b <= t@.len(),
            r@ =~= t@.subrange(a as int, i as int),
        decreases b - i,
    {
        r.push(t[i]);
        proof {
            assert(r@ =~= t@.subrange(a as int, i + 1));
        }
        i = i + 1;
    }
    r
}

/// Index of the first comma at or after `from`, or the length.
fn find_comma(t: &Vec<char>, from: usize) -> (j: usize)
    requires
        from <= t@.len(),
    ensures
        from <= j <= t@.len(),
        forall|x: int| from <= x < j ==> t@[x] != ',',
        j < t@.len() ==> t@[j as int] == ',',
{
    let n = t.len();
    let mut j = from;
    while j < n && t[j] != ','
        invariant
            from <= j <= n == t@.len(),
            forall|x: int| from <= x < j ==> t@[x] != ',',
        decreases n - j,
    {
        j = j + 1;
    }
    j
}

/// Splits a tuple token at its first comma and parses both pieces.
fn parse_tuple(t: &Vec<char>) -> (r: Result<(Number, Number), UkkoError>)
    ensures
        r is Ok <==> spec_parse_tuple(t@) is Ok,
        r matches Ok(v) ==> spec_parse_tuple(t@) == Ok::<(Number, Number), Seq<char>>(v)
            && v.0.wf() && v.1.wf(),
        r matches Err(e) ==> e matches UkkoError::ParseError(m) && spec_parse_tuple(t@)
            == Err::<(Number, Number), Seq<char>>(m@),
{
    let n = t.len();
    let j1 = find_comma(t, 0);
    proof {
        lemma_first_comma_at(t@, j1 as int);
    }
    let p0 = subvec(t, 0, j1);
    proof {
        assert(p0@ =~= t@.take(first_comma(t@)));
    }
    let n0 = parse_number(&p0);
    match n0 {
        None => Err(UkkoError::parse("invalid float literal")),
        Some(v0) => {
            if j1 == n {
                Err(UkkoError::parse("Not a tuple."))
            } else {
                let j2 = find_comma(t, j1 + 1);
                let ghost r1 = t@.skip(j1 + 1);
                proof {
                    assert forall|x: int| 0 <= x < j2 - j1 - 1 implies r1[x] != ',' by {
                        assert(r1[x] == t@[x + j1 + 1]);
                    }
                    if (j2 as int) < t@.len() {
                        assert(r1[j2 - j1 - 1] == t@[j2 as int]);
                    }
                    lemma_first_comma_at(r1, j2 - j1 - 1);
                }
                let p1 = subvec(t, j1 + 1, j2);
                proof {
                    assert(p1@ =~= r1.take(first_comma(r1)));
                }
                let n1 = parse_number(&p1);
                match n1 {
                    None => Err(UkkoError::parse("invalid float literal")),
                    Some(v1) => Ok((v0, v1)),
                }
            }
        },
    }
}

/// Parses an arc flag as the signed-byte grammar does, digit by digit.
fn parse_flag(t: &Vec<char>) -> (r: Result<bool, UkkoError>)
    ensures
        r is Ok <==> spec_parse_flag(t@) is Ok,
        r matches Ok(v) ==> spec_parse_flag(t@) == Ok::<bool, Seq<char>>(v),
        r matches Err(e) ==> e matches UkkoError::ParseError(m) && spec_parse_flag(t@)
            == Err::<bool, Seq<char>>(m@),
{
    let n = t.len();
    if n == 0 {
        return Err(UkkoError::parse("cannot parse integer from empty string"));
    }
    let neg = t[0] == '-';
    let mut i: usize = 0;
    if t[0] == '+' || t[0] == '-' {
        i = 1;
    }
    let ghost d = t@.skip(i as int);
    proof {
        assert(i == spec_sign_len(t@));
        assert(d == spec_body(t@));
    }
    if i == n {
        return Err(UkkoError::parse("invalid digit found in string"));
    }
    let bound: u64 = if neg {
        128
    } else {
        127
    };
    let mut acc: u64 = 0;
    let mut j = i;
    while j < n
        invariant
            0 < n == t@.len(),
            i <= j <= n,
            i < n,
            i == spec_sign_len(t@),
            d == spec_body(t@),
            neg == (t@[0] == '-'),
            acc <= bound,
            bound == (if neg {
                128u64
            } else {
                127u64
            }),
            spec_i8_scan(d, 0, bound as nat) == spec_i8_scan(
                t@.skip(j as int),
                acc as nat,
                bound as nat,
            ),
        decreases n - j,
    {
        let c = t[j];
        let ghost rest = t@.skip(j as int);
        proof {
            assert(rest[0] == c);
            assert(rest.drop_first() =~= t@.skip(j + 1));
        }
        if !is_digit_char(c) {
            proof {
                assert(spec_i8_scan(rest, acc as nat, bound as nat) == Err::<nat, bool>(false));
                assert(spec_parse_flag(t@) == Err::<bool, Seq<char>>(msg_bad_digit()));
            }
            return Err(UkkoError::parse("invalid digit found in string"));
        }
        let dv: u64 = (c as u32) as u64 - 48;
        if acc * 10 + dv > bound {
            proof {
                assert(spec_i8_scan(rest, acc as nat, bound as nat) == Err::<nat, bool>(true));
            }
            if neg {
                return Err(UkkoError::parse("number too small to fit in target type"));
            } else {
                return Err(UkkoError::parse("number too large to fit in target type"));
            }
        }
        acc = acc * 10 + dv;
        j = j + 1;
    }
    proof {
        assert(t@.skip(n as int) =~= Seq::<char>::empty());
    }
    Ok(acc != 0)
}

/// The `i`-th argument token as a tuple, or the owed error.
fn tuple_at(toks: &Vec<Vec<char>>, i: usize) -> (r: Result<(Number, Number), UkkoError>)
    ensures
        r is Ok <==> sp_tuple_at(toks_view(*toks), i as int) is Ok,
        r matches Ok(v) ==> sp_tuple_at(toks_view(*toks), i as int) == Ok::<
            (Number, Number),
            Seq<char>,
        >(v) && v.0.wf() && v.1.wf(),
        r matches Err(e) ==> e matches UkkoError::ParseError(m) && sp_tuple_at(
            toks_view(*toks),
            i as int,
        ) == Err::<(Number, Number), Seq<char>>(m@),
{
    if i >= toks.len() {
        Err(UkkoError::parse("Not enough arguments."))
    } else {
        let r = parse_tuple(&toks[i]);
        proof {
            assert(toks_view(*toks)[i as int] == toks@[i as int]@);
        }
        r
    }
}

/// The `i`-th argument token as a scalar, or the owed error.
fn num_at(toks: &Vec<Vec<char>>, i: usize) -> (r: Result<Number, UkkoError>)
    ensures
        r is Ok <==> sp_num_at(toks_view(*toks), i as int) is Ok,
        r matches Ok(v) ==> sp_num_at(toks_view(*toks), i as int) == Ok::<Number, Seq<char>>(v)
            && v.wf(),
        r matches Err(e) ==> e matches UkkoError::ParseError(m) && sp_num_at(
            toks_view(*toks),
            i as int,
        ) == Err::<Number, Seq<char>>(m@),
{
    if i >= toks.len() {
        Err(UkkoError::parse("Not enough arguments."))
    } else {
        proof {
            assert(toks_view(*toks)[i as int] == toks@[i as int]@);
        }
        match parse_number(&toks[i]) {
            None => Err(UkkoError::parse("invalid float literal")),
            Some(v) => Ok(v),
        }
    }
}

/// The `i`-th argument token as an arc flag, or the owed error.
fn flag_at(toks: &Vec<Vec<char>>, i: usize) -> (r: Result<bool, UkkoError>)
    ensures
        r is Ok <==> sp_flag_at(toks_view(*toks), i as int) is Ok,
        r matches Ok(v) ==> sp_flag_at(toks_view(*toks), i as int) == Ok::<bool, Seq<char>>(v),
        r matches Err(e) ==> e matches UkkoError::ParseError(m) && sp_flag_at(
            toks_view(*toks),
            i as int,
        ) == Err::<bool, Seq<char>>(m@),
{
    if i >= toks.len() {
        Err(UkkoError::parse("Not enough arguments."))
    } else {
        proof {
            assert(toks_view(*toks)[i as int] == toks@[i as int]@);
        }
        parse_flag(&toks[i])
    }
}

impl PathCommand {
    /// Parses one command's token group.  Success and the structured
    /// value, or the error and its message, are exactly those of
    /// `spec_parse_command` on the text.
    pub fn from_str(s: &str) -> (r: UkkoResult<PathCommand>)
        ensures
            r is Ok <==> spec_parse_command(s@) is Ok,
            r matches Ok(c) ==> spec_parse_command(s@) == Ok::<PathCommand, Seq<char>>(c)
                && c.wf(),
            r matches Err(e) ==> e matches UkkoError::ParseError(m) && spec_parse_command(s@)
                == Err::<PathCommand, Seq<char>>(m@),
    {
        let chars = crate::str_to_chars(s);
        let toks = tokenize(&chars);
        let ghost tv = spec_tokens(s@);
        proof {
            assert(toks_view(toks) == tv);
            lemma_tokens_all_nonempty(s@);
            crate::number::lemma_pow10_increases(0, crate::number::MAX_DIGITS as nat);
        }
        if toks.len() == 0 {
            return Err(UkkoError::parse("Not a command."));
        }
        if toks[0].len() > 1 {
            return Err(UkkoError::parse("Not a command."));
        }
        proof {
            assert(toks@[0]@ == tv[0]);
            assert(tv[0].len() >= 1);
        }
        let ch = toks[0][0];
        proof {
            assert(ch == tv[0][0]);
        }
        let u = ch as u32;
        let rel = 97 <= u && u <= 122;
        if ch == 'M' || ch == 'm' {
            match tuple_at(&toks, 1) {
                Ok(p) => Ok(
                    PathCommand { relative: rel, movement: p, command: PathCommandKind::MoveTo },
                ),
                Err(e) => Err(e),
            }
        } else if ch == 'L' || ch == 'l' {
            match tuple_at(&toks, 1) {
                Ok(p) => Ok(
                    PathCommand { relative: rel, movement: p, command: PathCommandKind::LineTo },
                ),
                Err(e) => Err(e),
            }
        } else if ch == 'H' || ch == 'h' {
            match num_at(&toks, 1) {
                Ok(x) => Ok(
                    PathCommand {
                        relative: rel,
                        movement: (x, Number { neg: false, mant: 0, scale: 0 }),
                        command: PathCommandKind::HorizontalLineTo,
                    },
                ),
                Err(e) => Err(e),
            }
        } else if ch == 'V' || ch == 'v' {
            match num_at(&toks, 1) {
                Ok(y) => Ok(
                    PathCommand {
                        relative: rel,
                        movement: (Number { neg: false, mant: 0, scale: 0 }, y),
                        command: PathCommandKind::VerticalLineTo,
                    },
                ),
                Err(e) => Err(e),
            }
        } else if ch == 'C' || ch == 'c' {
            match tuple_at(&toks, 3) {
                Ok(mv) => match tuple_at(&toks, 1) {
                    Ok(c1) => match tuple_at(&toks, 2) {
                        Ok(c2) => Ok(
                            PathCommand {
                                relative: rel,
                                movement: mv,
                                command: PathCommandKind::CubicBezierCurve(c1, c2),
                            },
                        ),
                        Err(e) => Err(e),
                    },
                    Err(e) => Err(e),
                },
                Err(e) => Err(e),
            }
        } else if ch == 'S' || ch == 's' {
            match tuple_at(&toks, 2) {
                Ok(mv) => match tuple_at(&toks, 1) {
                    Ok(c1) => Ok(
                        PathCommand {
                            relative: rel,
                            movement: mv,
                            command: PathCommandKind::CubicBezierCurveSmooth(c1),
                        },
                    ),
                    Err(e) => Err(e),
                },
                Err(e) => Err(e),
            }
        } else if ch == 'Q' || ch == 'q' {
            match tuple_at(&toks, 2) {
                Ok(mv) => match tuple_at(&toks, 1) {
                    Ok(c1) => Ok(
                        PathCommand {
                            relative: rel,
                            movement: mv,
                            command: PathCommandKind::QuadraticBezierCurve(c1),
                        },
                    ),
                    Err(e) => Err(e),
                },
                Err(e) => Err(e),
            }
        } else if ch == 'T' || ch == 't' {
            match tuple_at(&toks, 1) {
                Ok(mv) => Ok(
                    PathCommand {
                        relative: rel,
                        movement: mv,
                        command: PathCommandKind::QuadraticBezierCurveSmooth,
                    },
                ),
                Err(e) => Err(e),
            }
        } else if ch == 'A' || ch == 'a' {
            match tuple_at(&toks, 6) {
                Ok(mv) => match num_at(&toks, 1) {
                    Ok(rx) => match num_at(&toks, 2) {
                        Ok(ry) => match num_at(&toks, 3) {
                            Ok(angle) => match flag_at(&toks, 4) {
                                Ok(laf) => match flag_at(&toks, 5) {
                                    Ok(sf) => Ok(
                                        PathCommand {
                                            relative: rel,
                                            movement: mv,
                                            command: PathCommandKind::EllipticalArcCurve(
                                                rx,
                                                ry,
                                                angle,
                                                laf,
                                                sf,
                                            ),
                                        },
                                    ),
                                    Err(e) => Err(e),
                                },
                                Err(e) => Err(e),
                            },
                            Err(e) => Err(e),
                        },
                        Err(e) => Err(e),
                    },
                    Err(e) => Err(e),
                },
                Err(e) => Err(e),
            }
        } else if ch == 'Z' || ch == 'z' {
            Ok(
                PathCommand {
                    relative: rel,
                    movement: (
                        Number { neg: false, mant: 0, scale: 0 },
                        Number { neg: false, mant: 0, scale: 0 },
                    ),
                    command: PathCommandKind::ClosePath,
                },
            )
        } else {
            Err(UkkoError::parse("Not a command."))
        }
    }
}

pub open spec fn ws_free(t: Seq<char>) -> bool {
    forall|i: int| 0 <= i < t.len() ==> !is_space(#[trigger] t[i])
}

pub proof fn lemma_tokens_skip_space(rest: Seq<char>)
    requires
        rest.len() >= 1,
        is_space(rest[0]),
    ensures
        spec_tokens(rest) == spec_tokens(rest.drop_first()),
{
}

/// One leading token followed by whitespace (or nothing) tokenizes as
/// that token in front of whatever follows.
pub proof fn lemma_tokens_prepend(a: Seq<char>, rest: Seq<char>)
    requires
        a.len() >= 1,
        ws_free(a),
        rest.len() == 0 || is_space(rest[0]),
    ensures
        spec_tokens(a + rest) == seq![a] + spec_tokens(rest),
    decreases a.len(),
{
    let s = a + rest;
    assert(s[0] == a[0]);
    assert(!is_space(s[0]));
    if a.len() == 1 {
        if s.len() >= 2 {
            assert(s[1] == rest[0]);
            assert(is_space(s[1]));
            assert(s.drop_first() =~= rest);
            assert(seq![s[0]] =~= a);
        } else {
            assert(rest.len() == 0);
            assert(s.drop_first() =~= rest);
            assert(seq![s[0]] =~= a);
        }
        assert(spec_tokens(s) =~~= seq![a] + spec_tokens(rest));
    } else {
        assert(forall|i: int| 0 <= i < a.len() - 1 ==> #[trigger] a.drop_first()[i] == a[i + 1]);
        lemma_tokens_prepend(a.drop_first(), rest);
        assert(s.len() >= 2);
        assert(s[1] == a[1]);
        assert(!is_space(s[1]));
        assert(s.drop_first() =~= a.drop_first() + rest);
        let r = spec_tokens(s.drop_first());
        assert(r == seq![a.drop_first()] + spec_tokens(rest));
        assert(r[0] == a.drop_first());
        assert(seq![s[0]] + r[0] =~= a);
        assert(r.skip(1) =~= spec_tokens(rest));
        assert(spec_tokens(s) == seq![seq![s[0]] + r[0]] + r.skip(1));
        assert(spec_tokens(s) =~~= seq![a] + spec_tokens(rest));
    }
}

/// Tokens joined by single spaces.
pub open spec fn join_sp(ts: Seq<Seq<char>>) -> Seq<char>
    decreases ts.len(),
{
    if ts.len() == 0 {
        Seq::empty()
    } else if ts.len() == 1 {
        ts[0]
    } else {
        ts[0] + seq![' '] + join_sp(ts.drop_first())
    }
}

/// Tokenizing a space-joined list of nonempty whitespace-free tokens
/// gives back exactly that list.
pub proof fn lemma_tokens_join(ts: Seq<Seq<char>>)
    requires
        forall|i: int|
            0 <= i < ts.len() ==> (#[trigger] ts[i]).len() >= 1 && ws_free(ts[i]),
    ensures
        spec_tokens(join_sp(ts)) == ts,
    decreases ts.len(),
{
    if ts.len() == 0 {
        assert(spec_tokens(join_sp(ts)) =~~= ts);
    } else if ts.len() == 1 {
        assert(ts[0].len() >= 1 && ws_free(ts[0]));
        lemma_tokens_prepend(ts[0], Seq::empty());
        assert(ts[0] + Seq::<char>::empty() =~= ts[0]);
        assert(spec_tokens(join_sp(ts)) =~~= ts);
    } else {
        assert(forall|i: int|
            0 <= i < ts.len() - 1 ==> #[trigger] ts.drop_first()[i] == ts[i + 1]);
        lemma_tokens_join(ts.drop_first());
        let rj = join_sp(ts.drop_first());
        let rest = seq![' '] + rj;
        assert(rest[0] == ' ');
        lemma_tokens_prepend(ts[0], rest);
        assert(ts[0] + rest =~= join_sp(ts));
        assert(rest.drop_first() =~= rj);
        lemma_tokens_skip_space(rest);
        assert(spec_tokens(join_sp(ts)) == seq![ts[0]] + spec_tokens(rj));
        assert(spec_tokens(join_sp(ts)) =~~= ts);
    }
}

/// A formatted number is never empty and holds no whitespace, comma,
/// or letter: it cannot disturb the token or command structure.
pub proof fn lemma_number_text_clean(n: Number)
    ensures
        spec_format_number(n).len() >= 1,
        ws_free(spec_format_number(n)),
        forall|i: int| 0 <= i < spec_format_number(n).len() ==> #[trigger] spec_format_number(
            n,
        )[i] != ',',
        forall|i: int|
            0 <= i < spec_format_number(n).len() ==> !is_alpha(
                #[trigger] spec_format_number(n)[i],
            ),
{
    crate::number::lemma_format_number_chars(n);
    crate::number::lemma_udigits_shape(n.mant as nat / crate::number::pow10(n.scale as nat));
    crate::number::lemma_udigits_shape(n.mant as nat);
}

/// A letter of the path alphabet, either case.
pub open spec fn is_alpha(c: char) -> bool {
    (65 <= c as u32 <= 90) || (97 <= c as u32 <= 122)
}

/// A formatted pair is one clean whitespace-free token.
pub proof fn lemma_tuple_text_clean(p: (Number, Number))
    ensures
        spec_tuple_text(p).len() >= 1,
        ws_free(spec_tuple_text(p)),
        forall|i: int|
            0 <= i < spec_tuple_text(p).len() ==> !is_alpha(#[trigger] spec_tuple_text(p)[i]),
{
    lemma_number_text_clean(p.0);
    lemma_number_text_clean(p.1);
    let f0 = spec_format_number(p.0);
    let f1 = spec_format_number(p.1);
    let t = spec_tuple_text(p);
    assert forall|i: int| 0 <= i < t.len() implies !is_space(#[trigger] t[i]) && !is_alpha(t[i]) by {
        if i < f0.len() {
            assert(t[i] == f0[i]);
        } else if i == f0.len() {
            assert(t[i] == ',');
        } else {
            assert(t[i] == f1[i - f0.len() - 1]);
        }
    }
}

/// Splitting a formatted pair at its comma returns both numbers.
pub proof fn lemma_tuple_roundtrip(p: (Number, Number))
    requires
        p.0.wf(),
        p.1.wf(),
    ensures
        spec_parse_tuple(spec_tuple_text(p)) == Ok::<(Number, Number), Seq<char>>(p),
{
    let f0 = spec_format_number(p.0);
    let f1 = spec_format_number(p.1);
    let t = spec_tuple_text(p);
    lemma_number_text_clean(p.0);
    lemma_number_text_clean(p.1);
    assert forall|i: int| 0 <= i < f0.len() implies t[i] != ',' by {
        assert(t[i] == f0[i]);
    }
    assert(t[f0.len() as int] == ',');
    lemma_first_comma_at(t, f0.len() as int);
    assert(t.take(f0.len() as int) =~= f0);
    crate::number::lemma_number_roundtrip(p.0);
    let r1 = t.skip(f0.len() as int + 1);
    assert(r1 =~= f1);
    assert forall|i: int| 0 <= i < r1.len() implies r1[i] != ',' by {
        assert(r1[i] == f1[i]);
    }
    lemma_first_comma_at(r1, r1.len() as int);
    assert(r1.take(r1.len() as int) =~= f1);
    crate::number::lemma_number_roundtrip(p.1);
}

/// A formatted arc flag parses back to the flag.
pub proof fn lemma_flag_roundtrip(b: bool)
    ensures
        spec_parse_flag(seq![spec_flag_char(b)]) == Ok::<bool, Seq<char>>(b),
{
    let t = seq![spec_flag_char(b)];
    assert(t[0] == '0' || t[0] == '1');
    assert(spec_sign_len(t) == 0);
    assert(spec_body(t) == t.skip(0));
    assert(t.skip(0) =~= t);
    let d = spec_body(t);
    assert(is_digit(d[0]));
    assert(d.drop_first() =~= Seq::<char>::empty());
    assert(digit_val(d[0]) <= 1);
    reveal_with_fuel(spec_i8_scan, 3);
    assert(spec_i8_scan(d, 0, 127) == Ok::<nat, bool>(digit_val(d[0])));
}

proof fn lemma_rt_move_to(c: PathCommand)
    requires
        c.wf(),
        c.command matches PathCommandKind::MoveTo,
    ensures
        spec_parse_command(spec_format_command(c)) == Ok::<PathCommand, Seq<char>>(c),
{
    reveal_with_fuel(join_sp, 10);
    let letter = spec_cmd_letter(c);
    let lt = seq![letter];
    let f = spec_format_command(c);
    let mv = spec_tuple_text(c.movement);
    lemma_tuple_text_clean(c.movement);
    assert(lt.len() == 1 && ws_free(lt)) by {
        assert(lt[0] == letter);
    }
    let ts = seq![lt, mv];
    assert forall|i: int| 0 <= i < ts.len() implies (#[trigger] ts[i]).len() >= 1 && ws_free(
        ts[i],
    ) by {
        if i == 0 {
            assert(ts[0] == lt);
        } else {
            assert(ts[1] == mv);
        }
    }
    lemma_tokens_join(ts);
    assert(ts.drop_first() =~= seq![mv]);
    assert(join_sp(ts) =~= f);
    lemma_tuple_roundtrip(c.movement);
    assert(spec_parse_command(f) == Ok::<PathCommand, Seq<char>>(c));
}

proof fn lemma_rt_line_to(c: PathCommand)
    requires
        c.wf(),
        c.command matches PathCommandKind::LineTo,
    ensures
        spec_parse_command(spec_format_command(c)) == Ok::<PathCommand, Seq<char>>(c),
{
    reveal_with_fuel(join_sp, 10);
    let letter = spec_cmd_letter(c);
    let lt = seq![letter];
    let f = spec_format_command(c);
    let mv = spec_tuple_text(c.movement);
    lemma_tuple_text_clean(c.movement);
    assert(lt.len() == 1 && ws_free(lt)) by {
        assert(lt[0] == letter);
    }
    let ts = seq![lt, mv];
    assert forall|i: int| 0 <= i < ts.len() implies (#[trigger] ts[i]).len() >= 1 && ws_free(
        ts[i],
    ) by {
        if i == 0 {
            assert(ts[0] == lt);
        } else {
            assert(ts[1] == mv);
        }
    }
    lemma_tokens_join(ts);
    assert(ts.drop_first() =~= seq![mv]);
    assert(join_sp(ts) =~= f);
    lemma_tuple_roundtrip(c.movement);
    assert(spec_parse_command(f) == Ok::<PathCommand, Seq<char>>(c));
}

proof fn lemma_rt_horizontal(c: PathCommand)
    requires
        c.wf(),
        c.command matches PathCommandKind::HorizontalLineTo,
    ensures
        spec_parse_command(spec_format_command(c)) == Ok::<PathCommand, Seq<char>>(c),
{
    reveal_with_fuel(join_sp, 10);
    let letter = spec_cmd_letter(c);
    let lt = seq![letter];
    let f = spec_format_command(c);
    let mv = spec_tuple_text(c.movement);
    lemma_tuple_text_clean(c.movement);
    assert(lt.len() == 1 && ws_free(lt)) by {
        assert(lt[0] == letter);
    }
    let fx = spec_format_number(c.movement.0);
    lemma_number_text_clean(c.movement.0);
    let ts = seq![lt, fx];
    assert forall|i: int| 0 <= i < ts.len() implies (#[trigger] ts[i]).len() >= 1 && ws_free(
        ts[i],
    ) by {
        if i == 0 {
            assert(ts[0] == lt);
        } else {
            assert(ts[1] == fx);
        }
    }
    lemma_tokens_join(ts);
    assert(ts.drop_first() =~= seq![fx]);
    assert(join_sp(ts) =~= f);
    crate::number::lemma_number_roundtrip(c.movement.0);
    assert(spec_parse_command(f) == Ok::<PathCommand, Seq<char>>(c));
}

proof fn lemma_rt_vertical(c: PathCommand)
    requires
        c.wf(),
        c.command matches PathCommandKind::VerticalLineTo,
    ensures
        spec_parse_command(spec_format_command(c)) == Ok::<PathCommand, Seq<char>>(c),
{
    reveal_with_fuel(join_sp, 10);
    let letter = spec_cmd_letter(c);
    let lt = seq![letter];
    let f = spec_format_command(c);
    let mv = spec_tuple_text(c.movement);
    lemma_tuple_text_clean(c.movement);
    assert(lt.len() == 1 && ws_free(lt)) by {
        assert(lt[0] == letter);
    }
    let fx = spec_format_number(c.movement.1);
    lemma_number_text_clean(c.movement.1);
    let ts = seq![lt, fx];
    assert forall|i: int| 0 <= i < ts.len() implies (#[trigger] ts[i]).len() >= 1 && ws_free(
        ts[i],
    ) by {
        if i == 0 {
            assert(ts[0] == lt);
        } else {
            assert(ts[1] == fx);
        }
    }
    lemma_tokens_join(ts);
    assert(ts.drop_first() =~= seq![fx]);
    assert(join_sp(ts) =~= f);
    crate::number::lemma_number_roundtrip(c.movement.1);
    assert(spec_parse_command(f) == Ok::<PathCommand, Seq<char>>(c));
}

proof fn lemma_rt_cubic(c: PathCommand)
    requires
        c.wf(),
        c.command matches PathCommandKind::CubicBezierCurve(_, _),
    ensures
        spec_parse_command(spec_format_command(c)) == Ok::<PathCommand, Seq<char>>(c),
{
    reveal_with_fuel(join_sp, 10);
    let letter = spec_cmd_letter(c);
    let lt = seq![letter];
    let f = spec_format_command(c);
    let mv = spec_tuple_text(c.movement);
    lemma_tuple_text_clean(c.movement);
    assert(lt.len() == 1 && ws_free(lt)) by {
        assert(lt[0] == letter);
    }
    let c1 = c.command->CubicBezierCurve_0;
    let c2 = c.command->CubicBezierCurve_1;
    let t1 = spec_tuple_text(c1);
    let t2 = spec_tuple_text(c2);
    lemma_tuple_text_clean(c1);
    lemma_tuple_text_clean(c2);
    let ts = seq![lt, t1, t2, mv];
    assert forall|i: int| 0 <= i < ts.len() implies (#[trigger] ts[i]).len() >= 1 && ws_free(
        ts[i],
    ) by {
        if i == 0 {
            assert(ts[0] == lt);
        } else if i == 1 {
            assert(ts[1] == t1);
        } else if i == 2 {
            assert(ts[2] == t2);
        } else {
            assert(ts[3] == mv);
        }
    }
    lemma_tokens_join(ts);
    assert(ts.drop_first() =~= seq![t1, t2, mv]);
    assert(seq![t1, t2, mv].drop_first() =~= seq![t2, mv]);
    assert(seq![t2, mv].drop_first() =~= seq![mv]);
    assert(join_sp(ts) =~= f);
    lemma_tuple_roundtrip(c1);
    lemma_tuple_roundtrip(c2);
    lemma_tuple_roundtrip(c.movement);
    assert(spec_parse_command(f) == Ok::<PathCommand, Seq<char>>(c));
}

#[verifier::rlimit(100)]
#[verifier::spinoff_prover]
proof fn lemma_rt_cubic_smooth(c: PathCommand)
    requires
        c.wf(),
        c.command matches PathCommandKind::CubicBezierCurveSmooth(_),
    ensures
        spec_parse_command(spec_format_command(c)) == Ok::<PathCommand, Seq<char>>(c),
{
    reveal_with_fuel(join_sp, 10);
    let letter = spec_cmd_letter(c);
    let lt = seq![letter];
    let f = spec_format_command(c);
    let mv = spec_tuple_text(c.movement);
    lemma_tuple_text_clean(c.movement);
    assert(lt.len() == 1 && ws_free(lt)) by {
        assert(lt[0] == letter);
    }
    let c1 = c.command->CubicBezierCurveSmooth_0;
    let t1 = spec_tuple_text(c1);
    lemma_tuple_text_clean(c1);
    let ts = seq![lt, t1, mv];
    assert forall|i: int| 0 <= i < ts.len() implies (#[trigger] ts[i]).len() >= 1 && ws_free(
        ts[i],
    ) by {
        if i == 0 {
            assert(ts[0] == lt);
        } else if i == 1 {
            assert(ts[1] == t1);
        } else {
            assert(ts[2] == mv);
        }
    }
    lemma_tokens_join(ts);
    assert(ts.drop_first() =~= seq![t1, mv]);
    assert(seq![t1, mv].drop_first() =~= seq![mv]);
    assert(join_sp(ts) =~= f);
    lemma_tuple_roundtrip(c1);
    lemma_tuple_roundtrip(c.movement);
    assert(spec_parse_command(f) == Ok::<PathCommand, Seq<char>>(c));
}

proof fn lemma_rt_quadratic(c: PathCommand)
    requires
        c.wf(),
        c.command matches PathCommandKind::QuadraticBezierCurve(_),
    ensures
        spec_parse_command(spec_format_command(c)) == Ok::<PathCommand, Seq<char>>(c),
{
    reveal_with_fuel(join_sp, 10);
    let letter = spec_cmd_letter(c);
    let lt = seq![letter];
    let f = spec_format_command(c);
    let mv = spec_tuple_text(c.movement);
    lemma_tuple_text_clean(c.movement);
    assert(lt.len() == 1 && ws_free(lt)) by {
        assert(lt[0] == letter);
    }
    let c1 = c.command->QuadraticBezierCurve_0;
    let t1 = spec_tuple_text(c1);
    lemma_tuple_text_clean(c1);
    let ts = seq![lt, t1, mv];
    assert forall|i: int| 0 <= i < ts.len() implies (#[trigger] ts[i]).len() >= 1 && ws_free(
        ts[i],
    ) by {
        if i == 0 {
            assert(ts[0] == lt);
        } else if i == 1 {
            assert(ts[1] == t1);
        } else {
            assert(ts[2] == mv);
        }
    }
    lemma_tokens_join(ts);
    assert(ts.drop_first() =~= seq![t1, mv]);
    assert(seq![t1, mv].drop_first() =~= seq![mv]);
    assert(join_sp(ts) =~= f);
    lemma_tuple_roundtrip(c1);
    lemma_tuple_roundtrip(c.movement);
    assert(spec_parse_command(f) == Ok::<PathCommand, Seq<char>>(c));
}

proof fn lemma_rt_quadratic_smooth(c: PathCommand)
    requires
        c.wf(),
        c.command matches PathCommandKind::QuadraticBezierCurveSmooth,
    ensures
        spec_parse_command(spec_format_command(c)) == Ok::<PathCommand, Seq<char>>(c),
{
    reveal_with_fuel(join_sp, 10);
    let letter = spec_cmd_letter(c);
    let lt = seq![letter];
    let f = spec_format_command(c);
    let mv = spec_tuple_text(c.movement);
    lemma_tuple_text_clean(c.movement);
    assert(lt.len() == 1 && ws_free(lt)) by {
        assert(lt[0] == letter);
    }
    let ts = seq![lt, mv];
    assert forall|i: int| 0 <= i < ts.len() implies (#[trigger] ts[i]).len() >= 1 && ws_free(
        ts[i],
    ) by {
        if i == 0 {
            assert(ts[0] == lt);
        } else {
            assert(ts[1] == mv);
        }
    }
    lemma_tokens_join(ts);
    assert(ts.drop_first() =~= seq![mv]);
    assert(join_sp(ts) =~= f);
    lemma_tuple_roundtrip(c.movement);
    assert(spec_parse_command(f) == Ok::<PathCommand, Seq<char>>(c));
}

#[verifier::rlimit(100)]
#[verifier::spinoff_prover]
proof fn lemma_rt_arc(c: PathCommand)
    requires
        c.wf(),
        c.command matches PathCommandKind::EllipticalArcCurve(_, _, _, _, _),
    ensures
        spec_parse_command(spec_format_command(c)) == Ok::<PathCommand, Seq<char>>(c),
{
    reveal_with_fuel(join_sp, 10);
    let letter = spec_cmd_letter(c);
    let lt = seq![letter];
    let f = spec_format_command(c);
    let mv = spec_tuple_text(c.movement);
    lemma_tuple_text_clean(c.movement);
    assert(lt.len() == 1 && ws_free(lt)) by {
        assert(lt[0] == letter);
    }
    let rx = c.command->EllipticalArcCurve_0;
    let ry = c.command->EllipticalArcCurve_1;
    let angle = c.command->EllipticalArcCurve_2;
    let laf = c.command->EllipticalArcCurve_3;
    let sf = c.command->EllipticalArcCurve_4;
    let tr = spec_format_number(rx);
    let ty = spec_format_number(ry);
    let ta = spec_format_number(angle);
    let tl = seq![spec_flag_char(laf)];
    let tf = seq![spec_flag_char(sf)];
    lemma_number_text_clean(rx);
    lemma_number_text_clean(ry);
    lemma_number_text_clean(angle);
    let ts = seq![lt, tr, ty, ta, tl, tf, mv];
    assert forall|i: int| 0 <= i < ts.len() implies (#[trigger] ts[i]).len() >= 1 && ws_free(
        ts[i],
    ) by {
        if i == 0 {
            assert(ts[0] == lt);
        } else if i == 1 {
            assert(ts[1] == tr);
        } else if i == 2 {
            assert(ts[2] == ty);
        } else if i == 3 {
            assert(ts[3] == ta);
        } else if i == 4 {
            assert(ts[4] == tl);
            assert(ws_free(tl)) by {
                assert(tl[0] == '0' || tl[0] == '1');
            }
        } else if i == 5 {
            assert(ts[5] == tf);
            assert(ws_free(tf)) by {
                assert(tf[0] == '0' || tf[0] == '1');
            }
        } else {
            assert(ts[6] == mv);
        }
    }
    lemma_tokens_join(ts);
    assert(ts.drop_first() =~= seq![tr, ty, ta, tl, tf, mv]);
    assert(seq![tr, ty, ta, tl, tf, mv].drop_first() =~= seq![ty, ta, tl, tf, mv]);
    assert(seq![ty, ta, tl, tf, mv].drop_first() =~= seq![ta, tl, tf, mv]);
    assert(seq![ta, tl, tf, mv].drop_first() =~= seq![tl, tf, mv]);
    assert(seq![tl, tf, mv].drop_first() =~= seq![tf, mv]);
    assert(seq![tf, mv].drop_first() =~= seq![mv]);
    assert(join_sp(ts) =~= f);
    crate::number::lemma_number_roundtrip(rx);
    crate::number::lemma_number_roundtrip(ry);
    crate::number::lemma_number_roundtrip(angle);
    lemma_flag_roundtrip(laf);
    lemma_flag_roundtrip(sf);
    lemma_tuple_roundtrip(c.movement);
    assert(spec_parse_command(f) == Ok::<PathCommand, Seq<char>>(c));
}

proof fn lemma_rt_close(c: PathCommand)
    requires
        c.wf(),
        c.command matches PathCommandKind::ClosePath,
    ensures
        spec_parse_command(spec_format_command(c)) == Ok::<PathCommand, Seq<char>>(c),
{
    reveal_with_fuel(join_sp, 10);
    let letter = spec_cmd_letter(c);
    let lt = seq![letter];
    let f = spec_format_command(c);
    let mv = spec_tuple_text(c.movement);
    lemma_tuple_text_clean(c.movement);
    assert(lt.len() == 1 && ws_free(lt)) by {
        assert(lt[0] == letter);
    }
    let ts = seq![lt];
    assert forall|i: int| 0 <= i < ts.len() implies (#[trigger] ts[i]).len() >= 1 && ws_free(
        ts[i],
    ) by {
        assert(ts[0] == lt);
    }
    lemma_tokens_join(ts);
    assert(join_sp(ts) =~= f);
    assert(spec_parse_command(f) == Ok::<PathCommand, Seq<char>>(c));
}

/// Parsing a formatted command gives back the command: the codec is a
/// bijection between well-formed commands and their canonical texts.
/// Kind, case of the letter, argument order and arc flags all survive.
pub proof fn lemma_command_roundtrip(c: PathCommand)
    requires
        c.wf(),
    ensures
        spec_parse_command(spec_format_command(c)) == Ok::<PathCommand, Seq<char>>(c),
{
    match c.command {
        PathCommandKind::MoveTo => lemma_rt_move_to(c),
        PathCommandKind::LineTo => lemma_rt_line_to(c),
        PathCommandKind::HorizontalLineTo => lemma_rt_horizontal(c),
        PathCommandKind::VerticalLineTo => lemma_rt_vertical(c),
        PathCommandKind::CubicBezierCurve(_, _) => lemma_rt_cubic(c),
        PathCommandKind::CubicBezierCurveSmooth(_) => lemma_rt_cubic_smooth(c),
        PathCommandKind::QuadraticBezierCurve(_) => lemma_rt_quadratic(c),
        PathCommandKind::QuadraticBezierCurveSmooth => lemma_rt_quadratic_smooth(c),
        PathCommandKind::EllipticalArcCurve(_, _, _, _, _) => lemma_rt_arc(c),
        PathCommandKind::ClosePath => lemma_rt_close(c),
    }
}

/// An ordered sequence of commands: one `d` attribute's value, in draw
/// order.
#[derive(Debug, PartialEq)]
pub struct PathShape {
    pub elements: Vec<PathCommand>,
}

/// Commands joined by a single newline; the empty shape is empty text.
pub open spec fn spec_format_shape(cs: Seq<PathCommand>) -> Seq<char>
    decreases cs.len(),
{
    if cs.len() == 0 {
        Seq::empty()
    } else if cs.len() == 1 {
        spec_format_command(cs[0])
    } else {
        spec_format_command(cs[0]) + seq!['\n'] + spec_format_shape(cs.drop_first())
    }
}

pub proof fn lemma_format_shape_push(cs: Seq<PathCommand>, c: PathCommand)
    requires
        cs.len() >= 1,
    ensures
        spec_format_shape(cs.push(c)) == spec_format_shape(cs) + seq!['\n'] + spec_format_command(
            c,
        ),
    decreases cs.len(),
{
    assert(cs.push(c)[0] == cs[0]);
    if cs.len() == 1 {
        assert(cs.push(c).drop_first() =~= seq![c]);
        assert(spec_format_shape(seq![c]) == spec_format_command(c));
    } else {
        lemma_format_shape_push(cs.drop_first(), c);
        assert(cs.push(c).drop_first() =~= cs.drop_first().push(c));
        assert(spec_format_shape(cs.push(c)) =~= spec_format_shape(cs) + seq!['\n']
            + spec_format_command(c));
    }
}

pub open spec fn spec_trim_end(s: Seq<char>) -> Seq<char>
    decreases s.len(),
{
    if s.len() > 0 && is_space(s.last()) {
        spec_trim_end(s.drop_last())
    } else {
        s
    }
}

pub open spec fn spec_trim_start(s: Seq<char>) -> Seq<char>
    decreases s.len(),
{
    if s.len() > 0 && is_space(s[0]) {
        spec_trim_start(s.drop_first())
    } else {
        s
    }
}

/// The text without leading and trailing whitespace.
pub open spec fn spec_trim(s: Seq<char>) -> Seq<char> {
    spec_trim_start(spec_trim_end(s))
}

/// Strips whitespace from both ends.
fn trim_chars(v: &Vec<char>) -> (r: Vec<char>)
    ensures
        r@ == spec_trim(v@),
{
    let n = v.len();
    let mut e = n;
    proof {
        assert(v@.take(n as int) =~= v@);
    }
    while e > 0 && is_space_char(v[e - 1])
        invariant
            e <= n == v@.len(),
            spec_trim_end(v@) == spec_trim_end(v@.take(e as int)),
        decreases e,
    {
        proof {
            assert(v@.take(e as int).last() == v@[e - 1]);
            assert(v@.take(e as int).drop_last() =~= v@.take(e - 1));
        }
        e = e - 1;
    }
    let ghost te = v@.take(e as int);
    proof {
        if e > 0 {
            assert(te.last() == v@[e - 1]);
        }
        assert(spec_trim_end(v@) == te);
    }
    let mut b: usize = 0;
    proof {
        assert(te.skip(0) =~= te);
    }
    while b < e && is_space_char(v[b])
        invariant
            b <= e <= n == v@.len(),
            te == v@.take(e as int),
            spec_trim_start(te) == spec_trim_start(te.skip(b as int)),
        decreases e - b,
    {
        proof {
            assert(te.skip(b as int)[0] == v@[b as int]);
            assert(te.skip(b as int).drop_first() =~= te.skip(b as int + 1));
        }
        b = b + 1;
    }
    proof {
        if b < e {
            assert(te.skip(b as int)[0] == v@[b as int]);
        }
        assert(te.skip(b as int).len() == e - b);
        assert(spec_trim_start(te.skip(b as int)) == te.skip(b as int));
    }
    let r = subvec(v, b, e);
    proof {
        assert(r@ =~= te.skip(b as int));
    }
    r
}

/// The letter-led groups of a shape string: each letter with the text
/// that follows it, up to the next letter; text before the first letter
/// is discarded.
pub open spec fn spec_cmd_groups(s: Seq<char>) -> Seq<(char, Seq<char>)>
    decreases s.len(),
{
    if s.len() == 0 {
        Seq::empty()
    } else {
        let pre = spec_cmd_groups(s.drop_last());
        let c = s.last();
        if is_alpha(c) {
            pre.push((c, Seq::empty()))
        } else if pre.len() == 0 {
            pre
        } else {
            pre.update(pre.len() - 1, (pre.last().0, pre.last().1.push(c)))
        }
    }
}

/// The token group handed to the command parser for one letter and its
/// argument run.
pub open spec fn make_cmd_text(l: char, args: Seq<char>) -> Seq<char> {
    if spec_trim(args).len() == 0 {
        seq![l]
    } else {
        seq![l, ' '] + spec_trim(args)
    }
}

/// Parses the groups in order; the first failure ends the parse.
pub open spec fn spec_parse_groups(gs: Seq<(char, Seq<char>)>) -> Result<
    Seq<PathCommand>,
    Seq<char>,
>
    decreases gs.len(),
{
    if gs.len() == 0 {
        Ok(Seq::empty())
    } else {
        match spec_parse_command(make_cmd_text(gs[0].0, gs[0].1)) {
            Ok(c) => match spec_parse_groups(gs.drop_first()) {
                Ok(rest) => Ok(seq![c] + rest),
                Err(e) => Err(e),
            },
            Err(e) => Err(e),
        }
    }
}

/// A whole shape string, split at its letters and parsed command by
/// command.
pub open spec fn spec_parse_shape(s: Seq<char>) -> Result<Seq<PathCommand>, Seq<char>> {
    spec_parse_groups(spec_cmd_groups(s))
}

fn is_alpha_char(c: char) -> (r: bool)
    ensures
        r == is_alpha(c),
{
    let u = c as u32;
    (65 <= u && u <= 90) || (97 <= u && u <= 122)
}

pub open spec fn groups_view(g: Vec<(char, Vec<char>)>) -> Seq<(char, Seq<char>)> {
    g@.map_values(|p: (char, Vec<char>)| (p.0, p.1@))
}

/// Splits a shape string into its letter-led groups.
fn split_groups(chars: &Vec<char>) -> (r: Vec<(char, Vec<char>)>)
    ensures
        groups_view(r) == spec_cmd_groups(chars@),
{
    let n = chars.len();
    let mut groups: Vec<(char, Vec<char>)> = Vec::new();
    let mut i: usize = 0;
    proof {
        assert(chars@.take(0) =~= Seq::<char>::empty());
        assert(groups_view(groups) =~~= spec_cmd_groups(chars@.take(0)));
    }
    while i < n
        invariant
            i <= n == chars@.len(),
            groups_view(groups) =~~= spec_cmd_groups(chars@.take(i as int)),
        decreases n - i,
    {
        let c = chars[i];
        let ghost pre_txt = chars@.take(i as int);
        let ghost cur_txt = chars@.take(i as int + 1);
        proof {
            assert(cur_txt.drop_last() =~= pre_txt);
            assert(cur_txt.last() == c);
        }
        if is_alpha_char(c) {
            let mut nv: Vec<char> = Vec::new();
            groups.push((c, nv));
            proof {
                assert(groups_view(groups) =~~= spec_cmd_groups(cur_txt));
            }
        } else if groups.len() > 0 {
            let mut last = match groups.pop() {
                Some(g) => g,
                None => {
                    proof {
                        assert(false);
                    }
                    (c, Vec::new())
                },
            };
            last.1.push(c);
            groups.push(last);
            proof {
                assert(groups_view(groups) =~~= spec_cmd_groups(cur_txt));
            }
        } else {
            proof {
                assert(groups_view(groups) =~~= spec_cmd_groups(cur_txt));
            }
        }
        i = i + 1;
    }
    proof {
        assert(chars@.take(n as int) =~= chars@);
    }
    groups
}

pub open spec fn groups_result_prepend(
    d: Seq<PathCommand>,
    r: Result<Seq<PathCommand>, Seq<char>>,
) -> Result<Seq<PathCommand>, Seq<char>> {
    match r {
        Ok(v) => Ok(d + v),
        Err(e) => Err(e),
    }
}

impl PathShape {
    /// Every command is well formed.
    pub open spec fn wf(self) -> bool {
        forall|i: int| 0 <= i < self.elements@.len() ==> (#[trigger] self.elements@[i]).wf()
    }

    /// The empty shape.
    pub fn new() -> (r: Self)
        ensures
            r.elements@ == Seq::<PathCommand>::empty(),
            r.wf(),
    {
        PathShape { elements: Vec::new() }
    }

    /// Replaces the whole command sequence; no validity is enforced.
    pub fn with_commands(self, commands: Vec<PathCommand>) -> (r: Self)
        ensures
            r.elements == commands,
    {
        let mut s = self;
        s.elements = commands;
        s
    }


    /// Runtime check that every command is well formed.
    pub fn well_formed(&self) -> (r: bool)
        ensures
            r == self.wf(),
    {
        let n = self.elements.len();
        let mut i: usize = 0;
        while i < n
            invariant
                i <= n == self.elements@.len(),
                forall|j: int| 0 <= j < i ==> (#[trigger] self.elements@[j]).wf(),
            decreases n - i,
        {
            if !self.elements[i].well_formed() {
                return false;
            }
            i = i + 1;
        }
        true
    }

    /// Formats every command and joins them with newlines.
    pub fn format(&self) -> (r: String)
        requires
            self.wf(),
        ensures
            r@ == spec_format_shape(self.elements@),
    {
        let mut out = String::new();
        let n = self.elements.len();
        let mut i: usize = 0;
        proof {
            assert(self.elements@.take(0) =~= Seq::<PathCommand>::empty());
        }
        while i < n
            invariant
                i <= n == self.elements@.len(),
                self.wf(),
                out@ == spec_format_shape(self.elements@.take(i as int)),
            decreases n - i,
        {
            if i > 0 {
                out.push('\n');
            }
            let text = self.elements[i].format();
            out.append(text.as_str());
            proof {
                let pre = self.elements@.take(i as int);
                assert(self.elements@.take(i as int + 1) =~= pre.push(self.elements@[i as int]));
                if i > 0 {
                    lemma_format_shape_push(pre, self.elements@[i as int]);
                } else {
                    assert(pre.push(self.elements@[0])[0] == self.elements@[0]);
                }
            }
            i = i + 1;
        }
        proof {
            assert(self.elements@.take(n as int) =~= self.elements@);
        }
        out
    }

    /// Parses a shape string: letters are located, each letter is paired
    /// with the argument run that follows it, and the groups are parsed
    /// in order, failing on the first bad command.
    pub fn from_str(s: &str) -> (r: UkkoResult<PathShape>)
        ensures
            r is Ok <==> spec_parse_shape(s@) is Ok,
            r matches Ok(p) ==> spec_parse_shape(s@) == Ok::<Seq<PathCommand>, Seq<char>>(
                p.elements@,
            ) && p.wf(),
            r matches Err(e) ==> e matches UkkoError::ParseError(m) && spec_parse_shape(s@)
                == Err::<Seq<PathCommand>, Seq<char>>(m@),
    {
        let chars = crate::str_to_chars(s);
        let groups = split_groups(&chars);
        let ghost gs = spec_cmd_groups(s@);
        proof {
            assert(groups_view(groups) == gs);
        }
        let n = groups.len();
        let mut elements: Vec<PathCommand> = Vec::new();
        let mut j: usize = 0;
        proof {
            assert(gs.skip(0) =~~= gs);
        }
        while j < n
            invariant
                j <= n == gs.len(),
                gs == spec_cmd_groups(s@),
                groups_view(groups) == gs,
                spec_parse_groups(gs) == groups_result_prepend(
                    elements@,
                    spec_parse_groups(gs.skip(j as int)),
                ),
                forall|k: int| 0 <= k < elements@.len() ==> (#[trigger] elements@[k]).wf(),
            decreases n - j,
        {
            let letter = groups[j].0;
            let trimmed = trim_chars(&groups[j].1);
            let mut text: Vec<char> = Vec::new();
            text.push(letter);
            if trimmed.len() > 0 {
                text.push(' ');
                let mut rest = trimmed;
                text.append(&mut rest);
            }
            proof {
                assert(gs[j as int] == (groups@[j as int].0, groups@[j as int].1@));
                assert(text@ =~= make_cmd_text(gs[j as int].0, gs[j as int].1));
            }
            let text_str = crate::chars_to_string(&text);
            let ghost rem = gs.skip(j as int);
            proof {
                assert(rem[0] == gs[j as int]);
                assert(rem.drop_first() =~= gs.skip(j as int + 1));
            }
            match PathCommand::from_str(text_str.as_str()) {
                Ok(c) => {
                    proof {
                        assert(spec_parse_command(make_cmd_text(rem[0].0, rem[0].1)) == Ok::<
                            PathCommand,
                            Seq<char>,
                        >(c));
                    }
                    let ghost old_elems = elements@;
                    elements.push(c);
                    proof {
                        let rest_r = spec_parse_groups(gs.skip(j as int + 1));
                        assert(spec_parse_groups(rem) == groups_result_prepend(seq![c], rest_r));
                        assert(elements@ =~= old_elems.push(c));
                        if rest_r is Ok {
                            assert(old_elems + (seq![c] + rest_r->Ok_0) =~= elements@
                                + rest_r->Ok_0);
                        }
                        assert(groups_result_prepend(old_elems, spec_parse_groups(rem))
                            == groups_result_prepend(elements@, rest_r));
                    }
                },
                Err(e) => {
                    proof {
                        let m = e->ParseError_0;
                        assert(spec_parse_command(text@) == Err::<PathCommand, Seq<char>>(m@));
                        assert(make_cmd_text(rem[0].0, rem[0].1) == text@);
                        assert(spec_parse_groups(rem) == Err::<Seq<PathCommand>, Seq<char>>(m@));
                        assert(spec_parse_groups(gs) == Err::<Seq<PathCommand>, Seq<char>>(m@));
                        assert(spec_parse_shape(s@) == Err::<Seq<PathCommand>, Seq<char>>(m@));
                    }
                    return Err(e);
                },
            }
            j = j + 1;
        }
        proof {
            assert(gs.skip(n as int) =~~= Seq::<(char, Seq<char>)>::empty());
            assert(spec_parse_groups(gs.skip(n as int)) == Ok::<Seq<PathCommand>, Seq<char>>(
                Seq::empty(),
            ));
            assert(elements@ + Seq::<PathCommand>::empty() =~= elements@);
        }
        Ok(PathShape { elements })
    }
}

pub open spec fn alpha_free(t: Seq<char>) -> bool {
    forall|i: int| 0 <= i < t.len() ==> !is_alpha(#[trigger] t[i])
}

pub proof fn lemma_join_sp_alpha_free(ts: Seq<Seq<char>>)
    requires
        forall|i: int| 0 <= i < ts.len() ==> alpha_free(#[trigger] ts[i]),
    ensures
        alpha_free(join_sp(ts)),
    decreases ts.len(),
{
    if ts.len() == 0 {
    } else if ts.len() == 1 {
        assert(alpha_free(ts[0]));
        assert(join_sp(ts) == ts[0]);
    } else {
        assert(forall|i: int|
            0 <= i < ts.len() - 1 ==> #[trigger] ts.drop_first()[i] == ts[i + 1]);
        lemma_join_sp_alpha_free(ts.drop_first());
        let a = ts[0];
        let rj = join_sp(ts.drop_first());
        let w = join_sp(ts);
        assert(alpha_free(ts[0]));
        assert forall|k: int| 0 <= k < w.len() implies !is_alpha(w[k]) by {
            if k < a.len() {
                assert(w[k] == a[k]);
            } else if k == a.len() {
                assert(w[k] == ' ');
            } else {
                assert(w[k] == rj[k - a.len() - 1]);
            }
        }
    }
}

pub proof fn lemma_join_sp_first(ts: Seq<Seq<char>>)
    requires
        ts.len() >= 1,
        ts[0].len() >= 1,
    ensures
        join_sp(ts).len() >= ts[0].len(),
        join_sp(ts)[0] == ts[0][0],
{
    if ts.len() == 1 {
    } else {
        assert(join_sp(ts)[0] == ts[0][0]);
    }
}

pub proof fn lemma_join_sp_last(ts: Seq<Seq<char>>)
    requires
        ts.len() >= 1,
        forall|i: int| 0 <= i < ts.len() ==> (#[trigger] ts[i]).len() >= 1,
    ensures
        join_sp(ts).len() >= 1,
        join_sp(ts).last() == ts.last().last(),
    decreases ts.len(),
{
    if ts.len() == 1 {
    } else {
        assert(forall|i: int|
            0 <= i < ts.len() - 1 ==> #[trigger] ts.drop_first()[i] == ts[i + 1]);
        lemma_join_sp_last(ts.drop_first());
        assert(ts.drop_first().last() == ts.last());
        assert(join_sp(ts).last() == join_sp(ts.drop_first()).last());
    }
}

/// Structure of a formatted command seen from outside: a single letter
/// in front, nothing letter-like after it, and for argument-carrying
/// kinds a space, then text that neither starts nor ends in whitespace.
proof fn lemma_structure_from_tokens(c: PathCommand, ts: Seq<Seq<char>>)
    requires
        ts.len() >= 2,
        ts[0] == seq![spec_cmd_letter(c)],
        spec_format_command(c) == join_sp(ts),
        forall|i: int|
            1 <= i < ts.len() ==> (#[trigger] ts[i]).len() >= 1 && ws_free(ts[i]) && alpha_free(
                ts[i],
            ),
        is_alpha(spec_cmd_letter(c)),
    ensures
        spec_format_command(c).len() >= 3,
        spec_format_command(c)[0] == spec_cmd_letter(c),
        spec_format_command(c)[1] == ' ',
        !is_space(spec_format_command(c)[2]),
        !is_space(spec_format_command(c).last()),
        forall|i: int|
            1 <= i < spec_format_command(c).len() ==> !is_alpha(
                #[trigger] spec_format_command(c)[i],
            ),
{
    let f = spec_format_command(c);
    let a = ts[0];
    let rest = ts.drop_first();
    assert(forall|i: int| 0 <= i < ts.len() - 1 ==> #[trigger] rest[i] == ts[i + 1]);
    let rj = join_sp(rest);
    assert(f == a + seq![' '] + rj);
    assert(rest[0].len() >= 1);
    lemma_join_sp_first(rest);
    assert(f.len() >= 3);
    assert(f[0] == a[0]);
    assert(f[1] == ' ');
    assert(f[2] == rj[0]);
    assert(rj[0] == rest[0][0]);
    assert(!is_space(rest[0][0]));
    assert(forall|i: int| 0 <= i < rest.len() ==> (#[trigger] rest[i]).len() >= 1);
    lemma_join_sp_last(rest);
    assert(f.last() == rj.last());
    assert(rj.last() == rest.last().last());
    assert(!is_space(rest.last().last()));
    assert(forall|i: int| 0 <= i < rest.len() ==> alpha_free(#[trigger] rest[i]));
    lemma_join_sp_alpha_free(rest);
    assert forall|i: int| 1 <= i < f.len() implies !is_alpha(f[i]) by {
        if i == 1 {
        } else {
            assert(f[i] == rj[i - 2]);
        }
    }
}

proof fn lemma_st_move_to(c: PathCommand)
    requires
        c.wf(),
        c.command matches PathCommandKind::MoveTo,
    ensures
        spec_format_command(c).len() >= 3,
        spec_format_command(c)[0] == spec_cmd_letter(c),
        spec_format_command(c)[1] == ' ',
        !is_space(spec_format_command(c)[2]),
        !is_space(spec_format_command(c).last()),
        forall|i: int|
            1 <= i < spec_format_command(c).len() ==> !is_alpha(
                #[trigger] spec_format_command(c)[i],
            ),
{
    reveal_with_fuel(join_sp, 10);
    let letter = spec_cmd_letter(c);
    let lt = seq![letter];
    let f = spec_format_command(c);
    let mv = spec_tuple_text(c.movement);
    lemma_tuple_text_clean(c.movement);
    let ts = seq![lt, mv];
    assert forall|i: int|
        1 <= i < ts.len() implies (#[trigger] ts[i]).len() >= 1 && ws_free(ts[i]) && alpha_free(
        ts[i],
    ) by {
        if i == 1 {
            assert(ts[1] == mv);
        }
    }
    assert(ts.drop_first() =~= seq![mv]);
    assert(join_sp(ts) =~= f);
    assert(join_sp(ts) == f);
    lemma_structure_from_tokens(c, ts);
}

proof fn lemma_st_line_to(c: PathCommand)
    requires
        c.wf(),
        c.command matches PathCommandKind::LineTo,
    ensures
        spec_format_command(c).len() >= 3,
        spec_format_command(c)[0] == spec_cmd_letter(c),
        spec_format_command(c)[1] == ' ',
        !is_space(spec_format_command(c)[2]),
        !is_space(spec_format_command(c).last()),
        forall|i: int|
            1 <= i < spec_format_command(c).len() ==> !is_alpha(
                #[trigger] spec_format_command(c)[i],
            ),
{
    reveal_with_fuel(join_sp, 10);
    let letter = spec_cmd_letter(c);
    let lt = seq![letter];
    let f = spec_format_command(c);
    let mv = spec_tuple_text(c.movement);
    lemma_tuple_text_clean(c.movement);
    let ts = seq![lt, mv];
    assert forall|i: int|
        1 <= i < ts.len() implies (#[trigger] ts[i]).len() >= 1 && ws_free(ts[i]) && alpha_free(
        ts[i],
    ) by {
        if i == 1 {
            assert(ts[1] == mv);
        }
    }
    assert(ts.drop_first() =~= seq![mv]);
    assert(join_sp(ts) =~= f);
    assert(join_sp(ts) == f);
    lemma_structure_from_tokens(c, ts);
}

proof fn lemma_st_horizontal(c: PathCommand)
    requires
        c.wf(),
        c.command matches PathCommandKind::HorizontalLineTo,
    ensures
        spec_format_command(c).len() >= 3,
        spec_format_command(c)[0] == spec_cmd_letter(c),
        spec_format_command(c)[1] == ' ',
        !is_space(spec_format_command(c)[2]),
        !is_space(spec_format_command(c).last()),
        forall|i: int|
            1 <= i < spec_format_command(c).len() ==> !is_alpha(
                #[trigger] spec_format_command(c)[i],
            ),
{
    reveal_with_fuel(join_sp, 10);
    let letter = spec_cmd_letter(c);
    let lt = seq![letter];
    let f = spec_format_command(c);
    let mv = spec_tuple_text(c.movement);
    lemma_tuple_text_clean(c.movement);
    let fx = spec_format_number(c.movement.0);
    lemma_number_text_clean(c.movement.0);
    let ts = seq![lt, fx];
    assert forall|i: int|
        1 <= i < ts.len() implies (#[trigger] ts[i]).len() >= 1 && ws_free(ts[i]) && alpha_free(
        ts[i],
    ) by {
        if i == 1 {
            assert(ts[1] == fx);
        }
    }
    assert(ts.drop_first() =~= seq![fx]);
    assert(join_sp(ts) =~= f);
    assert(join_sp(ts) == f);
    lemma_structure_from_tokens(c, ts);
}

proof fn lemma_st_vertical(c: PathCommand)
    requires
        c.wf(),
        c.command matches PathCommandKind::VerticalLineTo,
    ensures
        spec_format_command(c).len() >= 3,
        spec_format_command(c)[0] == spec_cmd_letter(c),
        spec_format_command(c)[1] == ' ',
        !is_space(spec_format_command(c)[2]),
        !is_space(spec_format_command(c).last()),
        forall|i: int|
            1 <= i < spec_format_command(c).len() ==> !is_alpha(
                #[trigger] spec_format_command(c)[i],
            ),
{
    reveal_with_fuel(join_sp, 10);
    let letter = spec_cmd_letter(c);
    let lt = seq![letter];
    let f = spec_format_command(c);
    let mv = spec_tuple_text(c.movement);
    lemma_tuple_text_clean(c.movement);
    let fx = spec_format_number(c.movement.1);
    lemma_number_text_clean(c.movement.1);
    let ts = seq![lt, fx];
    assert forall|i: int|
        1 <= i < ts.len() implies (#[trigger] ts[i]).len() >= 1 && ws_free(ts[i]) && alpha_free(
        ts[i],
    ) by {
        if i == 1 {
            assert(ts[1] == fx);
        }
    }
    assert(ts.drop_first() =~= seq![fx]);
    assert(join_sp(ts) =~= f);
    assert(join_sp(ts) == f);
    lemma_structure_from_tokens(c, ts);
}

proof fn lemma_st_cubic(c: PathCommand)
    requires
        c.wf(),
        c.command matches PathCommandKind::CubicBezierCurve(_, _),
    ensures
        spec_format_command(c).len() >= 3,
        spec_format_command(c)[0] == spec_cmd_letter(c),
        spec_format_command(c)[1] == ' ',
        !is_space(spec_format_command(c)[2]),
        !is_space(spec_format_command(c).last()),
        forall|i: int|
            1 <= i < spec_format_command(c).len() ==> !is_alpha(
                #[trigger] spec_format_command(c)[i],
            ),
{
    reveal_with_fuel(join_sp, 10);
    let letter = spec_cmd_letter(c);
    let lt = seq![letter];
    let f = spec_format_command(c);
    let mv = spec_tuple_text(c.movement);
    lemma_tuple_text_clean(c.movement);
    let c1 = c.command->CubicBezierCurve_0;
    let c2 = c.command->CubicBezierCurve_1;
    let t1 = spec_tuple_text(c1);
    let t2 = spec_tuple_text(c2);
    lemma_tuple_text_clean(c1);
    lemma_tuple_text_clean(c2);
    let ts = seq![lt, t1, t2, mv];
    assert forall|i: int|
        1 <= i < ts.len() implies (#[trigger] ts[i]).len() >= 1 && ws_free(ts[i]) && alpha_free(
        ts[i],
    ) by {
        if i == 1 {
            assert(ts[1] == t1);
        }
        else if i == 2 {
            assert(ts[2] == t2);
        }
        else {
            assert(ts[3] == mv);
        }
    }
    assert(ts.drop_first() =~= seq![t1, t2, mv]);
    assert(seq![t1, t2, mv].drop_first() =~= seq![t2, mv]);
    assert(seq![t2, mv].drop_first() =~= seq![mv]);
    assert(join_sp(ts) =~= f);
    assert(join_sp(ts) == f);
    lemma_structure_from_tokens(c, ts);
}

proof fn lemma_st_cubic_smooth(c: PathCommand)
    requires
        c.wf(),
        c.command matches PathCommandKind::CubicBezierCurveSmooth(_),
    ensures
        spec_format_command(c).len() >= 3,
        spec_format_command(c)[0] == spec_cmd_letter(c),
        spec_format_command(c)[1] == ' ',
        !is_space(spec_format_command(c)[2]),
        !is_space(spec_format_command(c).last()),
        forall|i: int|
            1 <= i < spec_format_command(c).len() ==> !is_alpha(
                #[trigger] spec_format_command(c)[i],
            ),
{
    reveal_with_fuel(join_sp, 10);
    let letter = spec_cmd_letter(c);
    let lt = seq![letter];
    let f = spec_format_command(c);
    let mv = spec_tuple_text(c.movement);
    lemma_tuple_text_clean(c.movement);
    let c1 = c.command->CubicBezierCurveSmooth_0;
    let t1 = spec_tuple_text(c1);
    lemma_tuple_text_clean(c1);
    let ts = seq![lt, t1, mv];
    assert forall|i: int|
        1 <= i < ts.len() implies (#[trigger] ts[i]).len() >= 1 && ws_free(ts[i]) && alpha_free(
        ts[i],
    ) by {
        if i == 1 {
            assert(ts[1] == t1);
        }
        else {
            assert(ts[2] == mv);
        }
    }
    assert(ts.drop_first() =~= seq![t1, mv]);
    assert(seq![t1, mv].drop_first() =~= seq![mv]);
    assert(join_sp(ts) =~= f);
    assert(join_sp(ts) == f);
    lemma_structure_from_tokens(c, ts);
}

proof fn lemma_st_quadratic(c: PathCommand)
    requires
        c.wf(),
        c.command matches PathCommandKind::QuadraticBezierCurve(_),
    ensures
        spec_format_command(c).len() >= 3,
        spec_format_command(c)[0] == spec_cmd_letter(c),
        spec_format_command(c)[1] == ' ',
        !is_space(spec_format_command(c)[2]),
        !is_space(spec_format_command(c).last()),
        forall|i: int|
            1 <= i < spec_format_command(c).len() ==> !is_alpha(
                #[trigger] spec_format_command(c)[i],
            ),
{
    reveal_with_fuel(join_sp, 10);
    let letter = spec_cmd_letter(c);
    let lt = seq![letter];
    let f = spec_format_command(c);
    let mv = spec_tuple_text(c.movement);
    lemma_tuple_text_clean(c.movement);
    let c1 = c.command->QuadraticBezierCurve_0;
    let t1 = spec_tuple_text(c1);
    lemma_tuple_text_clean(c1);
    let ts = seq![lt, t1, mv];
    assert forall|i: int|
        1 <= i < ts.len() implies (#[trigger] ts[i]).len() >= 1 && ws_free(ts[i]) && alpha_free(
        ts[i],
    ) by {
        if i == 1 {
            assert(ts[1] == t1);
        }
        else {
            assert(ts[2] == mv);
        }
    }
    assert(ts.drop_first() =~= seq![t1, mv]);
    assert(seq![t1, mv].drop_first() =~= seq![mv]);
    assert(join_sp(ts) =~= f);
    assert(join_sp(ts) == f);
    lemma_structure_from_tokens(c, ts);
}

proof fn lemma_st_quadratic_smooth(c: PathCommand)
    requires
        c.wf(),
        c.command matches PathCommandKind::QuadraticBezierCurveSmooth,
    ensures
        spec_format_command(c).len() >= 3,
        spec_format_command(c)[0] == spec_cmd_letter(c),
        spec_format_command(c)[1] == ' ',
        !is_space(spec_format_command(c)[2]),
        !is_space(spec_format_command(c).last()),
        forall|i: int|
            1 <= i < spec_format_command(c).len() ==> !is_alpha(
                #[trigger] spec_format_command(c)[i],
            ),
{
    reveal_with_fuel(join_sp, 10);
    let letter = spec_cmd_letter(c);
    let lt = seq![letter];
    let f = spec_format_command(c);
    let mv = spec_tuple_text(c.movement);
    lemma_tuple_text_clean(c.movement);
    let ts = seq![lt, mv];
    assert forall|i: int|
        1 <= i < ts.len() implies (#[trigger] ts[i]).len() >= 1 && ws_free(ts[i]) && alpha_free(
        ts[i],
    ) by {
        if i == 1 {
            assert(ts[1] == mv);
        }
    }
    assert(ts.drop_first() =~= seq![mv]);
    assert(join_sp(ts) =~= f);
    assert(join_sp(ts) == f);
    lemma_structure_from_tokens(c, ts);
}

#[verifier::rlimit(100)]
#[verifier::spinoff_prover]
proof fn lemma_st_arc(c: PathCommand)
    requires
        c.wf(),
        c.command matches PathCommandKind::EllipticalArcCurve(_, _, _, _, _),
    ensures
        spec_format_command(c).len() >= 3,
        spec_format_command(c)[0] == spec_cmd_letter(c),
        spec_format_command(c)[1] == ' ',
        !is_space(spec_format_command(c)[2]),
        !is_space(spec_format_command(c).last()),
        forall|i: int|
            1 <= i < spec_format_command(c).len() ==> !is_alpha(
                #[trigger] spec_format_command(c)[i],
            ),
{
    reveal_with_fuel(join_sp, 10);
    let letter = spec_cmd_letter(c);
    let lt = seq![letter];
    let f = spec_format_command(c);
    let mv = spec_tuple_text(c.movement);
    lemma_tuple_text_clean(c.movement);
    let rx = c.command->EllipticalArcCurve_0;
    let ry = c.command->EllipticalArcCurve_1;
    let angle = c.command->EllipticalArcCurve_2;
    let laf = c.command->EllipticalArcCurve_3;
    let sf = c.command->EllipticalArcCurve_4;
    let tr = spec_format_number(rx);
    let ty = spec_format_number(ry);
    let ta = spec_format_number(angle);
    let tl = seq![spec_flag_char(laf)];
    let tf = seq![spec_flag_char(sf)];
    lemma_number_text_clean(rx);
    lemma_number_text_clean(ry);
    lemma_number_text_clean(angle);
    let ts = seq![lt, tr, ty, ta, tl, tf, mv];
    assert forall|i: int|
        1 <= i < ts.len() implies (#[trigger] ts[i]).len() >= 1 && ws_free(ts[i]) && alpha_free(
        ts[i],
    ) by {
        if i == 1 {
            assert(ts[1] == tr);
        }
        else if i == 2 {
            assert(ts[2] == ty);
        }
        else if i == 3 {
            assert(ts[3] == ta);
        }
        else if i == 4 {
            assert(ts[4] == tl);
            assert(tl[0] == '0' || tl[0] == '1');
            assert(ws_free(tl));
            assert(alpha_free(tl));
        }
        else if i == 5 {
            assert(ts[5] == tf);
            assert(tf[0] == '0' || tf[0] == '1');
            assert(ws_free(tf));
            assert(alpha_free(tf));
        }
        else {
            assert(ts[6] == mv);
        }
    }
    assert(ts.drop_first() =~= seq![tr, ty, ta, tl, tf, mv]);
    assert(seq![tr, ty, ta, tl, tf, mv].drop_first() =~= seq![ty, ta, tl, tf, mv]);
    assert(seq![ty, ta, tl, tf, mv].drop_first() =~= seq![ta, tl, tf, mv]);
    assert(seq![ta, tl, tf, mv].drop_first() =~= seq![tl, tf, mv]);
    assert(seq![tl, tf, mv].drop_first() =~= seq![tf, mv]);
    assert(seq![tf, mv].drop_first() =~= seq![mv]);
    assert(join_sp(ts) =~= f);
    assert(join_sp(ts) == f);
    lemma_structure_from_tokens(c, ts);
}

/// What a formatted command looks like from the shape splitter's
/// view: exactly one letter, leading, with clean argument text after.
pub proof fn lemma_format_command_shape(c: PathCommand)
    requires
        c.wf(),
    ensures
        spec_format_command(c).len() >= 1,
        spec_format_command(c)[0] == spec_cmd_letter(c),
        is_alpha(spec_cmd_letter(c)),
        forall|i: int|
            1 <= i < spec_format_command(c).len() ==> !is_alpha(
                #[trigger] spec_format_command(c)[i],
            ),
        c.command matches PathCommandKind::ClosePath ==> spec_format_command(c).len() == 1,
        !(c.command matches PathCommandKind::ClosePath) ==> spec_format_command(c).len() >= 3
            && spec_format_command(c)[1] == ' ' && !is_space(spec_format_command(c)[2])
            && !is_space(spec_format_command(c).last()),
{
    match c.command {
        PathCommandKind::MoveTo => lemma_st_move_to(c),
        PathCommandKind::LineTo => lemma_st_line_to(c),
        PathCommandKind::HorizontalLineTo => lemma_st_horizontal(c),
        PathCommandKind::VerticalLineTo => lemma_st_vertical(c),
        PathCommandKind::CubicBezierCurve(_, _) => lemma_st_cubic(c),
        PathCommandKind::CubicBezierCurveSmooth(_) => lemma_st_cubic_smooth(c),
        PathCommandKind::QuadraticBezierCurve(_) => lemma_st_quadratic(c),
        PathCommandKind::QuadraticBezierCurveSmooth => lemma_st_quadratic_smooth(c),
        PathCommandKind::EllipticalArcCurve(_, _, _, _, _) => lemma_st_arc(c),
        PathCommandKind::ClosePath => {
            assert(spec_format_command(c) == seq![spec_cmd_letter(c)]);
        },
    }
}

pub proof fn lemma_groups_push_letter(s: Seq<char>, l: char)
    requires
        is_alpha(l),
    ensures
        spec_cmd_groups(s + seq![l]) == spec_cmd_groups(s).push((l, Seq::<char>::empty())),
{
    let w = s + seq![l];
    assert(w.drop_last() =~= s);
    assert(w.last() == l);
}

pub proof fn lemma_groups_append_nonalpha(s: Seq<char>, e: Seq<char>)
    requires
        spec_cmd_groups(s).len() >= 1,
        alpha_free(e),
    ensures
        spec_cmd_groups(s + e) =~~= spec_cmd_groups(s).update(
            spec_cmd_groups(s).len() - 1,
            (spec_cmd_groups(s).last().0, spec_cmd_groups(s).last().1 + e),
        ),
    decreases e.len(),
{
    let gs = spec_cmd_groups(s);
    let k = gs.len() - 1;
    if e.len() == 0 {
        assert(s + e =~= s);
        assert(gs.last().1 + e =~= gs.last().1);
        assert(gs.update(k, (gs.last().0, gs.last().1 + e)) =~~= gs);
    } else {
        assert(forall|i: int| 0 <= i < e.len() - 1 ==> #[trigger] e.drop_last()[i] == e[i]);
        lemma_groups_append_nonalpha(s, e.drop_last());
        let w = s + e;
        assert(w.drop_last() =~= s + e.drop_last());
        assert(w.last() == e.last());
        assert(!is_alpha(w.last()));
        let pre = spec_cmd_groups(s + e.drop_last());
        assert(pre =~~= gs.update(k, (gs.last().0, gs.last().1 + e.drop_last())));
        assert(pre.len() == gs.len() >= 1);
        assert(pre.last().0 == gs.last().0);
        assert(pre.last().1 == gs.last().1 + e.drop_last());
        assert(spec_cmd_groups(w) == pre.update(
            pre.len() - 1,
            (pre.last().0, pre.last().1.push(e.last())),
        ));
        assert((gs.last().1 + e.drop_last()).push(e.last()) =~= gs.last().1 + e);
        assert(spec_cmd_groups(w) =~~= gs.update(k, (gs.last().0, gs.last().1 + e)));
    }
}

/// The letter-led groups a formatted shape splits into: each command's
/// letter with its argument text, newline-terminated except the last.
pub open spec fn shape_groups(cs: Seq<PathCommand>) -> Seq<(char, Seq<char>)> {
    Seq::new(
        cs.len(),
        |i: int|
            (
                spec_cmd_letter(cs[i]),
                if i < cs.len() - 1 {
                    spec_format_command(cs[i]).skip(1) + seq!['\n']
                } else {
                    spec_format_command(cs[i]).skip(1)
                },
            ),
    )
}

pub proof fn lemma_groups_of_format_one(c: PathCommand)
    requires
        c.wf(),
    ensures
        spec_cmd_groups(spec_format_command(c)) =~~= seq![
            (spec_cmd_letter(c), spec_format_command(c).skip(1)),
        ],
{
    lemma_format_command_shape(c);
    let f = spec_format_command(c);
    let l = spec_cmd_letter(c);
    let lt = seq![l];
    assert(f =~= lt + f.skip(1));
    assert(Seq::<char>::empty() + lt =~= lt);
    lemma_groups_push_letter(Seq::empty(), l);
    assert(spec_cmd_groups(Seq::empty()) == Seq::<(char, Seq<char>)>::empty());
    assert(spec_cmd_groups(lt) =~~= seq![(l, Seq::<char>::empty())]);
    assert(alpha_free(f.skip(1))) by {
        assert forall|i: int| 0 <= i < f.skip(1).len() implies !is_alpha(f.skip(1)[i]) by {
            assert(f.skip(1)[i] == f[i + 1]);
        }
    }
    lemma_groups_append_nonalpha(lt, f.skip(1));
    assert(Seq::<char>::empty() + f.skip(1) =~= f.skip(1));
    assert(spec_cmd_groups(f) =~~= seq![(l, f.skip(1))]);
}

pub proof fn lemma_groups_of_format(cs: Seq<PathCommand>)
    requires
        forall|i: int| 0 <= i < cs.len() ==> (#[trigger] cs[i]).wf(),
    ensures
        spec_cmd_groups(spec_format_shape(cs)) =~~= shape_groups(cs),
    decreases cs.len(),
{
    if cs.len() == 0 {
    } else if cs.len() == 1 {
        lemma_groups_of_format_one(cs[0]);
        assert(spec_format_shape(cs) == spec_format_command(cs[0]));
        assert(spec_cmd_groups(spec_format_shape(cs)) =~~= shape_groups(cs));
    } else {
        let init = cs.drop_last();
        let c = cs.last();
        assert(forall|i: int| 0 <= i < init.len() ==> #[trigger] init[i] == cs[i]);
        lemma_groups_of_format(init);
        lemma_format_shape_push(init, c);
        assert(init.push(c) =~= cs);
        let x = spec_format_shape(init);
        let fc = spec_format_command(c);
        let l = spec_cmd_letter(c);
        lemma_format_command_shape(c);
        assert(spec_format_shape(cs) == x + seq!['\n'] + fc);
        let g0 = spec_cmd_groups(x);
        assert(g0 =~~= shape_groups(init));
        assert(g0.len() == init.len() >= 1);
        // the newline joins the previous command's argument run
        assert(alpha_free(seq!['\n'])) by {
            assert(forall|i: int| 0 <= i < 1 ==> !is_alpha(#[trigger] seq!['\n'][i]));
        }
        lemma_groups_append_nonalpha(x, seq!['\n']);
        let g1 = spec_cmd_groups(x + seq!['\n']);
        // then the letter of the last command opens a fresh group
        lemma_groups_push_letter(x + seq!['\n'], l);
        let g2 = spec_cmd_groups((x + seq!['\n']) + seq![l]);
        assert(g2 == g1.push((l, Seq::<char>::empty())));
        // and its argument text extends that group
        assert(alpha_free(fc.skip(1))) by {
            assert forall|i: int| 0 <= i < fc.skip(1).len() implies !is_alpha(fc.skip(1)[i]) by {
                assert(fc.skip(1)[i] == fc[i + 1]);
            }
        }
        assert(g2.len() >= 1);
        lemma_groups_append_nonalpha((x + seq!['\n']) + seq![l], fc.skip(1));
        let g3 = spec_cmd_groups(((x + seq!['\n']) + seq![l]) + fc.skip(1));
        assert(((x + seq!['\n']) + seq![l]) + fc.skip(1) =~= spec_format_shape(cs)) by {
            assert(fc =~= seq![l] + fc.skip(1));
        }
        assert(g3 =~~= g2.update(g2.len() - 1, (l, Seq::<char>::empty() + fc.skip(1))));
        assert(Seq::<char>::empty() + fc.skip(1) =~= fc.skip(1));
        // index-by-index, this is exactly the expected group list
        assert forall|i: int| 0 <= i < shape_groups(cs).len() implies g3[i].0 == shape_groups(
            cs,
        )[i].0 && g3[i].1 =~= shape_groups(cs)[i].1 by {
            if i < cs.len() - 2 {
                assert(g3[i] == g1[i]);
                assert(g1[i] == g0[i]);
                assert(shape_groups(init)[i].1 == spec_format_command(init[i]).skip(1) + seq![
                    '\n',
                ]);
            } else if i == cs.len() - 2 {
                assert(g3[i] == g1[i]);
                assert(g1[i].0 == g0.last().0);
                assert(g1[i].1 == g0.last().1 + seq!['\n']);
                assert(shape_groups(init)[i].1 == spec_format_command(init[i]).skip(1));
                assert(g1[i].1 =~= spec_format_command(cs[i]).skip(1) + seq!['\n']);
            } else {
                assert(g3[i].0 == l);
                assert(g3[i].1 == Seq::<char>::empty() + fc.skip(1));
            }
        }
        assert(g3.len() == shape_groups(cs).len());
        assert(spec_cmd_groups(spec_format_shape(cs)) =~~= shape_groups(cs));
    }
}

/// The splitter's reassembled token group for a formatted command is
/// that command's canonical text again, with or without the newline
/// that separated it from its successor.
#[verifier::rlimit(100)]
#[verifier::spinoff_prover]
pub proof fn lemma_make_text_of_format(c: PathCommand, with_newline: bool)
    requires
        c.wf(),
    ensures
        make_cmd_text(
            spec_cmd_letter(c),
            if with_newline {
                spec_format_command(c).skip(1) + seq!['\n']
            } else {
                spec_format_command(c).skip(1)
            },
        ) == spec_format_command(c),
{
    reveal_with_fuel(spec_trim_end, 3);
    reveal_with_fuel(spec_trim_start, 3);
    lemma_format_command_shape(c);
    let f = spec_format_command(c);
    let l = spec_cmd_letter(c);
    let tail = f.skip(1);
    let args = if with_newline {
        tail + seq!['\n']
    } else {
        tail
    };
    if (c.command matches PathCommandKind::ClosePath) {
        assert(tail =~= Seq::<char>::empty());
        if with_newline {
            assert(args =~= seq!['\n']);
            assert(args.drop_last() =~= Seq::<char>::empty());
            assert(spec_trim_end(args) == Seq::<char>::empty());
        } else {
            assert(spec_trim_end(args) == args);
        }
        assert(spec_trim(args).len() == 0);
        assert(make_cmd_text(l, args) == seq![l]);
        assert(f =~= seq![l]);
    } else {
        let body = f.skip(2);
        assert(tail =~= seq![' '] + body);
        assert(tail[0] == ' ');
        assert(tail.last() == f.last());
        assert(body.len() >= 1);
        assert(body[0] == f[2]);
        assert(body.last() == f.last());
        if with_newline {
            assert(args.last() == '\n');
            assert(args.drop_last() =~= tail);
            assert(spec_trim_end(args) == spec_trim_end(tail));
        }
        assert(spec_trim_end(tail) == tail);
        assert(spec_trim(args) == spec_trim_start(tail));
        assert(tail.drop_first() =~= body);
        assert(spec_trim_start(tail) == spec_trim_start(body));
        assert(spec_trim_start(body) == body);
        assert(make_cmd_text(l, args) == seq![l, ' '] + body);
        assert(seq![l, ' '] + body =~= f);
    }
}

#[verifier::rlimit(100)]
#[verifier::spinoff_prover]
pub proof fn lemma_parse_shape_groups(cs: Seq<PathCommand>)
    requires
        forall|i: int| 0 <= i < cs.len() ==> (#[trigger] cs[i]).wf(),
    ensures
        spec_parse_groups(shape_groups(cs)) == Ok::<Seq<PathCommand>, Seq<char>>(cs),
    decreases cs.len(),
{
    let gs = shape_groups(cs);
    if cs.len() == 0 {
        assert(gs.len() == 0);
        assert(spec_parse_groups(gs) == Ok::<Seq<PathCommand>, Seq<char>>(Seq::empty()));
        assert(cs =~= Seq::<PathCommand>::empty());
    } else {
        lemma_make_text_of_format(cs[0], cs.len() > 1);
        lemma_command_roundtrip(cs[0]);
        assert(spec_parse_command(make_cmd_text(gs[0].0, gs[0].1)) == Ok::<
            PathCommand,
            Seq<char>,
        >(cs[0]));
        assert(forall|i: int| 0 <= i < cs.len() - 1 ==> #[trigger] cs.drop_first()[i] == cs[
            i + 1
        ]);
        lemma_parse_shape_groups(cs.drop_first());
        assert(gs.drop_first() =~~= shape_groups(cs.drop_first())) by {
            assert forall|i: int| 0 <= i < gs.len() - 1 implies gs.drop_first()[i]
                == shape_groups(cs.drop_first())[i] by {
                assert(gs.drop_first()[i] == gs[i + 1]);
            }
        }
        assert(spec_parse_groups(gs.drop_first()) == Ok::<Seq<PathCommand>, Seq<char>>(
            cs.drop_first(),
        ));
        assert(seq![cs[0]] + cs.drop_first() =~= cs);
        assert(spec_parse_groups(gs) == Ok::<Seq<PathCommand>, Seq<char>>(seq![cs[0]]
            + cs.drop_first()));
    }
}

/// Parsing a formatted shape gives back the same command sequence: the
/// shape codec round-trips, including shapes whose commands abut a
/// letter with no whitespace once reparsed.
pub proof fn lemma_shape_roundtrip(cs: Seq<PathCommand>)
    requires
        forall|i: int| 0 <= i < cs.len() ==> (#[trigger] cs[i]).wf(),
    ensures
        spec_parse_shape(spec_format_shape(cs)) == Ok::<Seq<PathCommand>, Seq<char>>(cs),
{
    lemma_groups_of_format(cs);
    lemma_parse_shape_groups(cs);
}

/// The `d` key, compared without regard to ASCII case.
pub open spec fn is_d_key(k: Seq<char>) -> bool {
    k.len() == 1 && (k[0] == 'd' || k[0] == 'D')
}

impl crate::Attribute for PathShape {
    open spec fn spec_key(&self) -> Seq<char> {
        "d"@
    }

    open spec fn spec_value(&self) -> Seq<char> {
        spec_format_shape(self.elements@)
    }

    open spec fn spec_valid(&self) -> bool {
        self.wf()
    }

    open spec fn spec_from_is_ok(kv: (Seq<char>, Seq<char>)) -> bool {
        is_d_key(kv.0) && spec_parse_shape(kv.1) is Ok
    }

    open spec fn spec_from_ok(kv: (Seq<char>, Seq<char>), r: Self) -> bool {
        spec_parse_shape(kv.1) == Ok::<Seq<PathCommand>, Seq<char>>(r.elements@)
    }

    open spec fn spec_from_err_msg(kv: (Seq<char>, Seq<char>)) -> Option<Seq<char>> {
        if !is_d_key(kv.0) {
            None
        } else {
            match spec_parse_shape(kv.1) {
                Ok(_) => None,
                Err(m) => Some(m),
            }
        }
    }

    fn key(&self) -> (r: String) {
        "d".to_owned()
    }

    fn value(&self) -> (r: String) {
        self.format()
    }

    fn from_key_value(kv: (String, String)) -> (r: UkkoResult<Self>) {
        let k = kv.0.as_str();
        let ok_key = if k.unicode_len() != 1 {
            false
        } else {
            let c = k.get_char(0);
            c == 'd' || c == 'D'
        };
        if !ok_key {
            return Err(UkkoError::TODO);
        }
        PathShape::from_str(kv.1.as_str())
    }
}

/// The letter's case records the relative flag: a command formats with
/// a lowercase letter exactly when it is relative, and parsing reads
/// the flag back from that case alone.
pub proof fn lemma_letter_case(c: PathCommand)
    ensures
        spec_format_command(c)[0] == spec_cmd_letter(c),
        is_lower(spec_cmd_letter(c)) <==> c.relative,
{
    match c.command {
        PathCommandKind::MoveTo => {},
        PathCommandKind::LineTo => {},
        PathCommandKind::HorizontalLineTo => {},
        PathCommandKind::VerticalLineTo => {},
        PathCommandKind::CubicBezierCurve(_, _) => {},
        PathCommandKind::CubicBezierCurveSmooth(_) => {},
        PathCommandKind::QuadraticBezierCurve(_) => {},
        PathCommandKind::QuadraticBezierCurveSmooth => {},
        PathCommandKind::EllipticalArcCurve(_, _, _, _, _) => {},
        PathCommandKind::ClosePath => {},
    }
}

proof fn lemma_i8_scan_val(ds: Seq<char>, acc: nat, bound: nat)
    requires
        spec_i8_scan(ds, acc, bound) is Ok,
    ensures
        spec_i8_scan(ds, acc, bound) == Ok::<nat, bool>(
            acc * crate::number::pow10(ds.len() as nat) + digits_val(ds),
        ),
    decreases ds.len(),
{
    if ds.len() == 0 {
        assert(crate::number::pow10(0) == 1);
        assert(acc * 1 == acc) by (nonlinear_arith);
    } else {
        let d = digit_val(ds[0]);
        let rest = ds.drop_first();
        lemma_i8_scan_val(rest, acc * 10 + d, bound);
        let p = crate::number::pow10(rest.len() as nat);
        assert(crate::number::pow10(ds.len() as nat) == 10 * p);
        assert(seq![ds[0]] + rest =~= ds);
        crate::number::lemma_digits_val_append(seq![ds[0]], rest);
        assert(seq![ds[0]].drop_last() =~= Seq::<char>::empty());
        assert(digits_val(Seq::<char>::empty()) == 0);
        assert(seq![ds[0]].last() == ds[0]);
        assert(digits_val(seq![ds[0]]) == 0 * 10 + d);
        assert((acc * 10 + d) * p == acc * (10 * p) + d * p) by (nonlinear_arith);
    }
}

/// An arc flag is set exactly when the integer it was written as is
/// nonzero, however it was written; together with the formatter's
/// `0`/`1` emission, flags normalize through a round trip.
pub proof fn lemma_flag_value(t: Seq<char>)
    requires
        spec_parse_flag(t) is Ok,
    ensures
        spec_parse_flag(t) == Ok::<bool, Seq<char>>(digits_val(spec_body(t)) != 0),
{
    let d = spec_body(t);
    let bound: nat = if t[0] == '-' {
        128
    } else {
        127
    };
    lemma_i8_scan_val(d, 0, bound);
    assert(0 * crate::number::pow10(d.len() as nat) == 0) by (nonlinear_arith);
}

} // verus!