//! The numeric scalars of SVG attribute values: plain decimal numbers,
//! held exactly as a sign, an integer mantissa and a decimal scale.
//!
//! A value stands for `(-1)^neg * mant / 10^scale`.  Canonical values keep
//! no trailing zero in the fraction, so each value has one representation
//! and formatting is injective.  The textual grammar is the plain decimal
//! one (`-3.5`, `10`, `.25`, `+7.`): an optional sign, digits around an
//! optional point, with at least one digit, no exponent.

use vstd::prelude::*;

verus! {

/// Upper bound on the number of digit characters a scalar token may carry.
pub const MAX_DIGITS: u32 = 17;

#[derive(Clone, Copy, Debug, PartialEq, Eq, Structural)]
pub struct Number {
    /// Sign: true for a value written with a leading `-`.
    pub neg: bool,
    /// All digits of the value, read as one integer.
    pub mant: u64,
    /// How many of the mantissa's low digits lie behind the decimal point.
    pub scale: u32,
}

pub open spec fn pow10(k: nat) -> nat
    decreases k,
{
    if k == 0 {
        1
    } else {
        10 * pow10((k - 1) as nat)
    }
}

impl Number {
    /// Canonical form: the mantissa fits the digit budget and the fraction
    /// does not end in zero (so `1.50` is never held; `1.5` is).
    pub open spec fn wf(self) -> bool {
        self.mant < pow10(MAX_DIGITS as nat) && self.scale < MAX_DIGITS && (self.scale > 0
            ==> self.mant % 10 != 0)
    }


    /// Runtime check of canonical form, for callers outside the proofs.
    pub fn well_formed(&self) -> (r: bool)
        ensures
            r == self.wf(),
    {
        proof {
            reveal_with_fuel(pow10, 18);
        }
        self.mant < 100000000000000000 && self.scale < MAX_DIGITS && (self.scale == 0 || self.mant
            % 10 != 0)
    }

    /// The whole number `i`.
    pub fn from_int(i: u64) -> (r: Number)
        requires
            i < pow10(MAX_DIGITS as nat),
        ensures
            r == (Number { neg: false, mant: i, scale: 0 }),
            r.wf(),
    {
        Number { neg: false, mant: i, scale: 0 }
    }

    /// The value `(-1)^neg * mant / 10^scale`, normalized: trailing zeros
    /// of the fraction are stripped, so the result is always well formed.
    pub fn new(neg: bool, mant: u64, scale: u32) -> (r: Number)
        requires
            mant < pow10(MAX_DIGITS as nat),
            scale < MAX_DIGITS,
        ensures
            r == spec_normalize(neg, mant as nat, scale as nat),
            r.wf(),
    {
        let mut m = mant;
        let mut k = scale;
        while k > 0 && m % 10 == 0
            invariant
                m < pow10(MAX_DIGITS as nat),
                k < MAX_DIGITS,
                spec_normalize(neg, m as nat, k as nat) == spec_normalize(
                    neg,
                    mant as nat,
                    scale as nat,
                ),
            decreases k,
        {
            m = m / 10;
            k = k - 1;
            proof {
                lemma_pow10_increases((MAX_DIGITS - 1) as nat, MAX_DIGITS as nat);
            }
        }
        proof {
            reveal_with_fuel(spec_normalize, 1);
        }
        Number { neg, mant: m, scale: k }
    }
}

/// Strips trailing zeros of the fraction.
pub open spec fn spec_normalize(neg: bool, mant: nat, scale: nat) -> Number
    decreases scale,
{
    if scale == 0 || mant % 10 != 0 {
        Number { neg, mant: mant as u64, scale: scale as u32 }
    } else {
        spec_normalize(neg, mant / 10, (scale - 1) as nat)
    }
}

pub proof fn lemma_pow10_increases(j: nat, k: nat)
    requires
        j <= k,
    ensures
        pow10(j) <= pow10(k),
    decreases k,
{
    if j < k {
        lemma_pow10_increases(j, (k - 1) as nat);
    }
}

pub proof fn lemma_pow10_adds(j: nat, k: nat)
    ensures
        pow10(j + k) == pow10(j) * pow10(k),
    decreases j,
{
    if j == 0 {
        assert(pow10(j) == 1);
        assert(pow10(j + k) == pow10(k));
        assert(pow10(j) * pow10(k) == 1 * pow10(k));
    } else {
        lemma_pow10_adds((j - 1) as nat, k);
        let a = pow10((j - 1) as nat);
        let b = pow10(k);
        assert(pow10((j + k - 1) as nat) == a * b);
        assert(pow10(j + k) == 10 * pow10((j + k - 1) as nat));
        assert(10 * (a * b) == (10 * a) * b) by (nonlinear_arith);
        assert(pow10(j) == 10 * a);
        assert(pow10(j + k) == 10 * (a * b));
        assert(pow10(j) * pow10(k) == (10 * a) * b);
    }
}

pub open spec fn is_digit(c: char) -> bool {
    48 <= c as u32 <= 57
}

pub open spec fn digit_val(c: char) -> nat {
    (c as u32 - 48) as nat
}

pub open spec fn digit_char(d: nat) -> char {
    if d == 0 {
        '0'
    } else if d == 1 {
        '1'
    } else if d == 2 {
        '2'
    } else if d == 3 {
        '3'
    } else if d == 4 {
        '4'
    } else if d == 5 {
        '5'
    } else if d == 6 {
        '6'
    } else if d == 7 {
        '7'
    } else if d == 8 {
        '8'
    } else {
        '9'
    }
}

pub open spec fn all_digits(s: Seq<char>) -> bool {
    forall|i: int| 0 <= i < s.len() ==> is_digit(#[trigger] s[i])
}

/// The decimal digits of `v`, most significant first, without leading
/// zeros (`0` itself is the single digit `0`).
pub open spec fn spec_udigits(v: nat) -> Seq<char>
    decreases v,
{
    if v < 10 {
        seq![digit_char(v)]
    } else {
        spec_udigits(v / 10).push(digit_char(v % 10))
    }
}

/// The low `k` decimal digits of `v`, zero padded to width `k`.
pub open spec fn spec_padded(v: nat, k: nat) -> Seq<char>
    decreases k,
{
    if k == 0 {
        Seq::empty()
    } else {
        spec_padded(v / 10, (k - 1) as nat).push(digit_char(v % 10))
    }
}

/// The value of a digit string, most significant digit first.
pub open spec fn digits_val(s: Seq<char>) -> nat
    decreases s.len(),
{
    if s.len() == 0 {
        0
    } else {
        digits_val(s.drop_last()) * 10 + digit_val(s.last())
    }
}

/// The canonical text of a number: an optional minus sign, the integer
/// digits, and for a fractional value a point followed by exactly
/// `scale` digits.
pub open spec fn spec_format_number(n: Number) -> Seq<char> {
    let sign: Seq<char> = if n.neg {
        seq!['-']
    } else {
        Seq::empty()
    };
    if n.scale == 0 {
        sign + spec_udigits(n.mant as nat)
    } else {
        sign + spec_udigits(n.mant as nat / pow10(n.scale as nat)) + seq!['.'] + spec_padded(
            n.mant as nat % pow10(n.scale as nat),
            n.scale as nat,
        )
    }
}

pub proof fn lemma_digit_char_val(d: nat)
    requires
        d < 10,
    ensures
        is_digit(digit_char(d)),
        digit_val(digit_char(d)) == d,
{
}

pub proof fn lemma_udigits_shape(v: nat)
    ensures
        spec_udigits(v).len() >= 1,
        all_digits(spec_udigits(v)),
        digits_val(spec_udigits(v)) == v,
    decreases v,
{
    if v < 10 {
        lemma_digit_char_val(v);
        assert(spec_udigits(v).drop_last() =~= Seq::<char>::empty());
        assert(digits_val(Seq::<char>::empty()) == 0);
        assert(spec_udigits(v).last() == digit_char(v));
        assert(digits_val(spec_udigits(v)) == 0 * 10 + digit_val(digit_char(v)));
    } else {
        lemma_udigits_shape(v / 10);
        lemma_digit_char_val(v % 10);
        assert(spec_udigits(v).drop_last() =~= spec_udigits(v / 10));
        assert(spec_udigits(v).last() == digit_char(v % 10));
        assert(digits_val(spec_udigits(v)) == (v / 10) * 10 + v % 10);
        assert((v / 10) * 10 + v % 10 == v) by (nonlinear_arith);
    }
}

pub proof fn lemma_udigits_len(v: nat, k: nat)
    requires
        v < pow10(k),
        k >= 1,
    ensures
        spec_udigits(v).len() <= k,
    decreases k,
{
    if v < 10 {
    } else {
        assert(pow10(k) == 10 * pow10((k - 1) as nat));
        assert(v / 10 < pow10((k - 1) as nat)) by (nonlinear_arith)
            requires
                v < 10 * pow10((k - 1) as nat),
        ;
        lemma_udigits_len(v / 10, (k - 1) as nat);
    }
}

pub proof fn lemma_padded_shape(v: nat, k: nat)
    requires
        v < pow10(k),
    ensures
        spec_padded(v, k).len() == k,
        all_digits(spec_padded(v, k)),
        digits_val(spec_padded(v, k)) == v,
    decreases k,
{
    if k == 0 {
    } else {
        assert(pow10(k) == 10 * pow10((k - 1) as nat));
        assert(v / 10 < pow10((k - 1) as nat)) by (nonlinear_arith)
            requires
                v < 10 * pow10((k - 1) as nat),
        ;
        lemma_padded_shape(v / 10, (k - 1) as nat);
        lemma_digit_char_val(v % 10);
        assert(spec_padded(v, k).drop_last() =~= spec_padded(v / 10, (k - 1) as nat));
        assert(digits_val(spec_padded(v, k)) == (v / 10) * 10 + v % 10);
    }
}

/// Relies on String::push: appends exactly the given character.
pub assume_specification [ String::push ] (s: &mut String, c: char)
    ensures
        final (s)@ == old(s)@.push(c),
;

fn digit_to_char(d: u64) -> (c: char)
    requires
        d < 10,
    ensures
        c == digit_char(d as nat),
{
    if d == 0 {
        '0'
    } else if d == 1 {
        '1'
    } else if d == 2 {
        '2'
    } else if d == 3 {
        '3'
    } else if d == 4 {
        '4'
    } else if d == 5 {
        '5'
    } else if d == 6 {
        '6'
    } else if d == 7 {
        '7'
    } else if d == 8 {
        '8'
    } else {
        '9'
    }
}

pub(crate) fn push_udigits(v: u64, out: &mut String)
    ensures
        final (out)@ == old(out)@ + spec_udigits(v as nat),
    decreases v,
{
    if v < 10 {
        out.push(digit_to_char(v));
    } else {
        push_udigits(v / 10, out);
        out.push(digit_to_char(v % 10));
    }
    assert(final (out)@ =~= old(out)@ + spec_udigits(v as nat));
}

pub(crate) fn push_padded(v: u64, k: u32, out: &mut String)
    ensures
        final (out)@ == old(out)@ + spec_padded(v as nat, k as nat),
    decreases k,
{
    if k > 0 {
        push_padded(v / 10, k - 1, out);
        out.push(digit_to_char(v % 10));
    }
    assert(final (out)@ =~= old(out)@ + spec_padded(v as nat, k as nat));
}

/// `10^k` as a machine integer; defined for every exponent the digit
/// budget allows.
pub fn pow10_u64(k: u32) -> (r: u64)
    requires
        k <= MAX_DIGITS,
    ensures
        r == pow10(k as nat),
{
    let mut r: u64 = 1;
    let mut i: u32 = 0;
    proof {
        lemma_pow10_increases(k as nat, MAX_DIGITS as nat);
        reveal_with_fuel(pow10, 18);
        assert(pow10(17) == 100000000000000000);
    }
    while i < k
        invariant
            i <= k <= MAX_DIGITS,
            r == pow10(i as nat),
            pow10(k as nat) <= pow10(17) == 100000000000000000,
        decreases k - i,
    {
        proof {
            lemma_pow10_increases((i + 1) as nat, k as nat);
        }
        r = r * 10;
        i = i + 1;
    }
    r
}

impl Number {
    /// Formats the value as its canonical decimal text.
    pub fn format(&self) -> (r: String)
        requires
            self.wf(),
        ensures
            r@ == spec_format_number(*self),
    {
        let mut out = String::new();
        if self.neg {
            out.push('-');
        }
        let p = pow10_u64(self.scale);
        proof {
            lemma_pow10_increases(0, self.scale as nat);
        }
        if self.scale == 0 {
            push_udigits(self.mant, &mut out);
        } else {
            push_udigits(self.mant / p, &mut out);
            out.push('.');
            push_padded(self.mant % p, self.scale, &mut out);
        }
        assert(out@ =~= spec_format_number(*self));
        out
    }
}

/// Index of the first decimal point of `b`, or `b.len()` if there is none.
pub open spec fn first_dot(b: Seq<char>) -> int
    decreases b.len(),
{
    if b.len() == 0 {
        0
    } else if b[0] == '.' {
        0
    } else {
        1 + first_dot(b.drop_first())
    }
}

pub proof fn lemma_first_dot_at(b: Seq<char>, j: int)
    requires
        0 <= j <= b.len(),
        forall|i: int| 0 <= i < j ==> b[i] != '.',
        j == b.len() || b[j] == '.',
    ensures
        first_dot(b) == j,
    decreases b.len(),
{
    if b.len() == 0 {
    } else if b[0] == '.' {
    } else {
        lemma_first_dot_at(b.drop_first(), j - 1);
    }
}

pub proof fn lemma_first_dot_le(b: Seq<char>)
    ensures
        0 <= first_dot(b) <= b.len(),
    decreases b.len(),
{
    if b.len() == 0 || b[0] == '.' {
    } else {
        lemma_first_dot_le(b.drop_first());
    }
}

pub proof fn lemma_first_dot_ge(b: Seq<char>, j: int)
    requires
        0 <= j <= b.len(),
        forall|i: int| 0 <= i < j ==> b[i] != '.',
    ensures
        first_dot(b) >= j,
    decreases j,
{
    if j > 0 {
        assert(b[0] != '.');
        assert(forall|i: int| 0 <= i < j - 1 ==> #[trigger] b.drop_first()[i] != '.');
        lemma_first_dot_ge(b.drop_first(), j - 1);
        assert(first_dot(b) == 1 + first_dot(b.drop_first()));
    } else {
        lemma_first_dot_le(b);
    }
}

/// Sign character, if the token begins with one.
pub open spec fn spec_sign_len(s: Seq<char>) -> int {
    if s.len() > 0 && (s[0] == '+' || s[0] == '-') {
        1
    } else {
        0
    }
}

/// The token without its sign.
pub open spec fn spec_body(s: Seq<char>) -> Seq<char> {
    s.skip(spec_sign_len(s))
}

pub open spec fn spec_neg(s: Seq<char>) -> bool {
    s.len() > 0 && s[0] == '-'
}

/// Digits before the decimal point.
pub open spec fn number_ip(b: Seq<char>) -> Seq<char> {
    b.take(first_dot(b))
}

/// Digits after the decimal point.
pub open spec fn number_fp(b: Seq<char>) -> Seq<char> {
    if first_dot(b) < b.len() {
        b.skip(first_dot(b) + 1)
    } else {
        Seq::empty()
    }
}

/// Digit count of the token once written canonically: an empty integer
/// part still takes one digit (`.5` is re-emitted as `0.5`).
pub open spec fn effective_digits(b: Seq<char>) -> nat {
    if number_ip(b).len() == 0 {
        1 + number_fp(b).len()
    } else {
        number_ip(b).len() + number_fp(b).len()
    }
}

/// The plain decimal grammar: digits around at most one point, at least
/// one digit in all, and no more digits than the budget allows.
pub open spec fn is_number_body(b: Seq<char>) -> bool {
    &&& all_digits(number_ip(b))
    &&& all_digits(number_fp(b))
    &&& number_ip(b).len() + number_fp(b).len() >= 1
    &&& effective_digits(b) <= MAX_DIGITS
}

pub open spec fn is_number_token(s: Seq<char>) -> bool {
    is_number_body(spec_body(s))
}

/// The value a valid token denotes, in canonical form.
pub open spec fn spec_number_of(s: Seq<char>) -> Number {
    let b = spec_body(s);
    spec_normalize(
        spec_neg(s),
        digits_val(number_ip(b) + number_fp(b)),
        number_fp(b).len() as nat,
    )
}

pub(crate) fn is_digit_char(c: char) -> (r: bool)
    ensures
        r == is_digit(c),
{
    let u = c as u32;
    48 <= u && u <= 57
}

/// Parses a plain decimal token; `None` exactly on text outside the
/// grammar of `is_number_token`.
#[verifier::rlimit(60)]
pub fn parse_number(t: &Vec<char>) -> (r: Option<Number>)
    ensures
        r is Some <==> is_number_token(t@),
        r matches Some(v) ==> v == spec_number_of(t@) && v.wf(),
{
    let n = t.len();
    let mut i: usize = 0;
    if n > 0 && (t[0] == '+' || t[0] == '-') {
        i = 1;
    }
    let neg = n > 0 && t[0] == '-';
    let start = i;
    let ghost b = t@.skip(start as int);
    proof {
        assert(b == spec_body(t@));
        assert(neg == spec_neg(t@));
    }
    let mut acc: u64 = 0;
    let mut count: u32 = 0;
    let ghost mut ds = Seq::<char>::empty();
    proof {
        reveal_with_fuel(pow10, 18);
        assert(pow10(MAX_DIGITS as nat) == 100000000000000000);
    }
    while i < n && is_digit_char(t[i])
        invariant
            start <= i <= n == t@.len(),
            b == t@.skip(start as int),
            start == spec_sign_len(t@),
            b == spec_body(t@),
            neg == spec_neg(t@),
            ds =~= b.take(i - start),
            all_digits(ds),
            ds.len() == count == i - start,
            count <= MAX_DIGITS,
            acc == digits_val(ds),
            acc < pow10(count as nat),
            pow10(MAX_DIGITS as nat) == 100000000000000000,
        decreases n - i,
    {
        if count == MAX_DIGITS {
            proof {
                assert forall|x: int| 0 <= x < i + 1 - start implies b[x] != '.' by {
                    if x < i - start {
                        assert(ds[x] == b[x]);
                        assert(is_digit(ds[x]));
                    } else {
                        assert(b[x] == t@[i as int]);
                    }
                }
                lemma_first_dot_le(b);
                lemma_first_dot_ge(b, (i + 1 - start) as int);
                assert(number_ip(b).len() >= MAX_DIGITS + 1);
                assert(!is_number_token(t@));
            }
            return None;
        }
        let c = t[i];
        assert(is_digit(c));
        let d: u64 = (c as u32) as u64 - 48;
        proof {
            assert(pow10((count + 1) as nat) == 10 * pow10(count as nat));
            assert(acc * 10 + 9 < 10 * pow10(count as nat)) by (nonlinear_arith)
                requires
                    acc < pow10(count as nat),
            ;
            lemma_pow10_increases((count + 1) as nat, MAX_DIGITS as nat);
            assert(ds.push(c).drop_last() =~= ds);
            assert(digits_val(ds.push(c)) == acc * 10 + d);
            assert(ds.push(c) =~= b.take(i + 1 - start));
        }
        acc = acc * 10 + d;
        count = count + 1;
        proof {
            ds = ds.push(c);
        }
        i = i + 1;
    }
    let int_digits = count;
    let ghost d_idx = (i - start) as int;
    let ghost ip = ds;
    if i < n && t[i] == '.' {
        proof {
            assert forall|x: int| 0 <= x < d_idx implies b[x] != '.' by {
                assert(ds[x] == b[x]);
                assert(is_digit(ds[x]));
            }
            assert(b[d_idx] == t@[i as int]);
            lemma_first_dot_at(b, d_idx);
            assert(number_ip(b) =~= ip);
        }
        i = i + 1;
        if int_digits == 0 {
            // an empty integer part is re-emitted as a single `0`
            proof {
                assert(pow10(1) == 10);
            }
            count = 1;
        }
        let mut fscale: u32 = 0;
        let ghost fstart = i;
        let ghost mut fs = Seq::<char>::empty();
        while i < n && is_digit_char(t[i])
            invariant
                start < fstart <= i <= n == t@.len(),
                b == t@.skip(start as int),
                start == spec_sign_len(t@),
                b == spec_body(t@),
                neg == spec_neg(t@),
                first_dot(b) == d_idx == fstart - 1 - start,
                number_ip(b) =~= ip,
                ip.len() == int_digits,
                all_digits(ip),
                fs =~= b.subrange(d_idx + 1, i - start),
                all_digits(fs),
                fs.len() == fscale == i - fstart,
                count == (if int_digits == 0 {
                    1u32
                } else {
                    int_digits
                }) + fscale,
                count <= MAX_DIGITS,
                acc == digits_val(ip + fs),
                acc < pow10(count as nat),
                pow10(MAX_DIGITS as nat) == 100000000000000000,
            decreases n - i,
        {
            if count == MAX_DIGITS {
                proof {
                    assert(number_fp(b) =~= b.skip(d_idx + 1));
                    assert(number_fp(b).len() >= (i + 1 - fstart));
                    assert(effective_digits(b) > MAX_DIGITS);
                    assert(!is_number_token(t@));
                }
                return None;
            }
            let c = t[i];
            assert(is_digit(c));
            let d: u64 = (c as u32) as u64 - 48;
            proof {
                assert(pow10((count + 1) as nat) == 10 * pow10(count as nat));
                assert(acc * 10 + 9 < 10 * pow10(count as nat)) by (nonlinear_arith)
                    requires
                        acc < pow10(count as nat),
                ;
                lemma_pow10_increases((count + 1) as nat, MAX_DIGITS as nat);
                assert((ip + fs.push(c)).drop_last() =~= ip + fs);
                assert((ip + fs.push(c)).last() == c);
                assert(digits_val(ip + fs.push(c)) == acc * 10 + d);
                assert(fs.push(c) =~= b.subrange(d_idx + 1, i + 1 - start));
            }
            acc = acc * 10 + d;
            count = count + 1;
            fscale = fscale + 1;
            proof {
                fs = fs.push(c);
            }
            i = i + 1;
        }
        if i != n {
            // a character that is neither digit nor a first point
            proof {
                assert(number_fp(b) =~= b.skip(d_idx + 1));
                let bad = (i - start) as int;
                assert(b[bad] == t@[i as int]);
                assert(number_fp(b)[bad - d_idx - 1] == b[bad]);
                assert(!is_digit(number_fp(b)[bad - d_idx - 1]));
                assert(!all_digits(number_fp(b)));
                assert(!is_number_token(t@));
            }
            return None;
        }
        if int_digits == 0 && fscale == 0 {
            proof {
                assert(number_fp(b) =~= b.skip(d_idx + 1));
                assert(number_fp(b).len() == 0);
                assert(number_ip(b).len() + number_fp(b).len() == 0);
                assert(!is_number_token(t@));
            }
            return None;
        }
        proof {
            assert(number_fp(b) =~= fs);
            assert(is_number_token(t@));
            lemma_pow10_increases(count as nat, MAX_DIGITS as nat);
        }
        let r = Number::new(neg, acc, fscale);
        proof {
            assert(r == spec_number_of(t@));
        }
        Some(r)
    } else {
        if i != n {
            // a character that is neither digit nor point
            proof {
                let bad = (i - start) as int;
                assert(b[bad] == t@[i as int]);
                assert forall|x: int| 0 <= x < bad + 1 implies b[x] != '.' by {
                    if x < bad {
                        assert(ds[x] == b[x]);
                        assert(is_digit(ds[x]));
                    }
                }
                lemma_first_dot_le(b);
                lemma_first_dot_ge(b, bad + 1);
                assert(number_ip(b)[bad] == b[bad]);
                assert(!is_digit(number_ip(b)[bad]));
                assert(!all_digits(number_ip(b)));
                assert(!is_number_token(t@));
            }
            return None;
        }
        if count == 0 {
            proof {
                assert(b.len() == 0);
                lemma_first_dot_at(b, 0);
                assert(number_ip(b).len() + number_fp(b).len() == 0);
                assert(!is_number_token(t@));
            }
            return None;
        }
        proof {
            assert forall|x: int| 0 <= x < b.len() implies b[x] != '.' by {
                assert(ds[x] == b[x]);
                assert(is_digit(ds[x]));
            }
            lemma_first_dot_at(b, b.len() as int);
            assert(number_ip(b) =~= ip);
            assert(number_fp(b) =~= Seq::<char>::empty());
            assert(number_ip(b) + number_fp(b) =~= ip);
            assert(is_number_token(t@));
            lemma_pow10_increases(count as nat, MAX_DIGITS as nat);
        }
        let r = Number::new(neg, acc, 0);
        proof {
            assert(r == spec_number_of(t@));
        }
        Some(r)
    }
}

/// Every character a number formats to: the sign, the point, or a digit.
pub proof fn lemma_format_number_chars(n: Number)
    ensures
        forall|i: int|
            0 <= i < spec_format_number(n).len() ==> {
                let c = #[trigger] spec_format_number(n)[i];
                c == '-' || c == '.' || is_digit(c)
            },
{
    let s = spec_format_number(n);
    let m = n.mant as nat;
    lemma_pow10_increases(0, n.scale as nat);
    if n.scale == 0 {
        lemma_udigits_shape(m);
        let dig = spec_udigits(m);
        assert forall|i: int|
            0 <= i < s.len() implies {
            let c = #[trigger] s[i];
            c == '-' || c == '.' || is_digit(c)
        } by {
            if n.neg {
                if i > 0 {
                    assert(s[i] == dig[i - 1]);
                    assert(is_digit(dig[i - 1]));
                }
            } else {
                assert(s[i] == dig[i]);
                assert(is_digit(dig[i]));
            }
        }
    } else {
        let k = n.scale as nat;
        let p = pow10(k);
        let dig = spec_udigits(m / p);
        let fr = spec_padded(m % p, k);
        lemma_udigits_shape(m / p);
        lemma_padded_shape(m % p, k);
        let body = dig + seq!['.'] + fr;
        assert forall|i: int|
            0 <= i < s.len() implies {
            let c = #[trigger] s[i];
            c == '-' || c == '.' || is_digit(c)
        } by {
            let off: int = if n.neg {
                1
            } else {
                0
            };
            if n.neg && i == 0 {
            } else {
                assert(s[i] == body[i - off]);
                let j = i - off;
                if j < dig.len() {
                    assert(body[j] == dig[j]);
                    assert(is_digit(dig[j]));
                } else if j == dig.len() {
                    assert(body[j] == '.');
                } else {
                    assert(body[j] == fr[j - dig.len() - 1]);
                    assert(is_digit(fr[j - dig.len() - 1]));
                }
            }
        }
    }
}

pub proof fn lemma_digits_val_append(a: Seq<char>, b: Seq<char>)
    ensures
        digits_val(a + b) == digits_val(a) * pow10(b.len() as nat) + digits_val(b),
    decreases b.len(),
{
    if b.len() == 0 {
        assert(a + b =~= a);
        assert(pow10(0) == 1);
        assert(digits_val(a) * 1 == digits_val(a)) by (nonlinear_arith);
    } else {
        lemma_digits_val_append(a, b.drop_last());
        assert((a + b).drop_last() =~= a + b.drop_last());
        assert((a + b).last() == b.last());
        let va = digits_val(a);
        let p = pow10((b.len() - 1) as nat);
        let x = digits_val(b.drop_last());
        let d = digit_val(b.last());
        assert(pow10(b.len() as nat) == 10 * p);
        assert(digits_val(a + b) == (va * p + x) * 10 + d);
        assert((va * p + x) * 10 + d == va * (10 * p) + (x * 10 + d)) by (nonlinear_arith);
    }
}

/// Formatting a canonical number and parsing the text again yields the
/// number that was formatted: each well-formed value survives the trip.
pub proof fn lemma_number_roundtrip(n: Number)
    requires
        n.wf(),
    ensures
        is_number_token(spec_format_number(n)),
        spec_number_of(spec_format_number(n)) == n,
{
    reveal_with_fuel(pow10, 18);
    let s = spec_format_number(n);
    let m = n.mant as nat;
    if n.scale == 0 {
        let dig = spec_udigits(m);
        lemma_udigits_shape(m);
        lemma_udigits_len(m, MAX_DIGITS as nat);
        if n.neg {
            assert(s =~= seq!['-'] + dig);
            assert(s[0] == '-');
            assert(spec_sign_len(s) == 1);
            assert(spec_body(s) =~= dig);
        } else {
            assert(s =~= dig);
            assert(is_digit(s[0]));
            assert(spec_sign_len(s) == 0);
            assert(spec_body(s) =~= dig);
        }
        let b = spec_body(s);
        assert forall|x: int| 0 <= x < b.len() implies b[x] != '.' by {
            assert(is_digit(b[x]));
        }
        lemma_first_dot_at(b, b.len() as int);
        assert(number_ip(b) =~= dig);
        assert(number_fp(b) =~= Seq::<char>::empty());
        assert(number_ip(b) + number_fp(b) =~= dig);
        assert(is_number_token(s));
        assert(spec_neg(s) == n.neg);
        assert(spec_number_of(s) == spec_normalize(n.neg, m, 0));
    } else {
        let k = n.scale as nat;
        let p = pow10(k);
        lemma_pow10_adds((MAX_DIGITS as nat - k) as nat, k);
        lemma_pow10_increases(1, k);
        let iv = m / p;
        let fv = m % p;
        let dig = spec_udigits(iv);
        let fr = spec_padded(fv, k);
        lemma_udigits_shape(iv);
        lemma_padded_shape(fv, k);
        let q = pow10((MAX_DIGITS as nat - k) as nat);
        assert(iv < q) by (nonlinear_arith)
            requires
                iv == m / p,
                m < q * p,
                p >= 1,
        ;
        if iv > 0 {
            lemma_udigits_len(iv, (MAX_DIGITS as nat - k) as nat);
        } else {
            assert(dig.len() == 1);
        }
        let body0 = dig + seq!['.'] + fr;
        if n.neg {
            assert(s =~= seq!['-'] + body0);
            assert(s[0] == '-');
            assert(spec_sign_len(s) == 1);
            assert(spec_body(s) =~= body0);
        } else {
            assert(s =~= body0);
            assert(s[0] == dig[0]);
            assert(is_digit(s[0]));
            assert(spec_sign_len(s) == 0);
            assert(spec_body(s) =~= body0);
        }
        let b = spec_body(s);
        assert forall|x: int| 0 <= x < dig.len() implies b[x] != '.' by {
            assert(b[x] == dig[x]);
            assert(is_digit(dig[x]));
        }
        assert(b[dig.len() as int] == '.');
        lemma_first_dot_at(b, dig.len() as int);
        assert(number_ip(b) =~= dig);
        assert(number_fp(b) =~= fr);
        assert(is_number_token(s));
        assert(spec_neg(s) == n.neg);
        assert(number_ip(b) + number_fp(b) =~= dig + fr);
        lemma_digits_val_append(dig, fr);
        assert(digits_val(dig + fr) == iv * p + fv);
        assert(iv * p + fv == m) by (nonlinear_arith)
            requires
                iv == m / p,
                fv == m % p,
                p >= 1,
        ;
        assert(spec_number_of(s) == spec_normalize(n.neg, m, k));
        assert(spec_normalize(n.neg, m, k) == n);
    }
}


/// The digits of `v`, zero padded on the left to at least two places.
pub open spec fn spec_pad2(v: nat) -> Seq<char> {
    if v < 10 {
        seq!['0'] + spec_udigits(v)
    } else {
        spec_udigits(v)
    }
}

pub(crate) fn push_pad2(v: u64, out: &mut String)
    ensures
        final (out)@ == old(out)@ + spec_pad2(v as nat),
{
    if v < 10 {
        out.push('0');
    }
    push_udigits(v, out);
    assert(final (out)@ =~= old(out)@ + spec_pad2(v as nat));
}

/// The digits of `v`, zero padded on the left to at least four places.
pub open spec fn spec_pad4(v: nat) -> Seq<char> {
    if v < 10 {
        seq!['0', '0', '0'] + spec_udigits(v)
    } else if v < 100 {
        seq!['0', '0'] + spec_udigits(v)
    } else if v < 1000 {
        seq!['0'] + spec_udigits(v)
    } else {
        spec_udigits(v)
    }
}

pub(crate) fn push_pad4(v: u64, out: &mut String)
    ensures
        final (out)@ == old(out)@ + spec_pad4(v as nat),
{
    if v < 10 {
        out.push('0');
        out.push('0');
        out.push('0');
    } else if v < 100 {
        out.push('0');
        out.push('0');
    } else if v < 1000 {
        out.push('0');
    }
    push_udigits(v, out);
    assert(final (out)@ =~= old(out)@ + spec_pad4(v as nat));
}

} // verus!
