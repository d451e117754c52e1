//! A typed model of SVG document values, centred on the `d` attribute's
//! path-data mini-language: a verified parser and formatter for path
//! commands, together with the attribute-value vocabulary that renders
//! to XML attribute strings.

use vstd::prelude::*;

pub mod attribute;
pub mod color;
pub mod display;
pub mod number;
pub mod position;
pub mod path;
pub mod value;

verus! {

pub type UkkoResult<T> = Result<T, UkkoError>;

/// The single error kind of this crate: a parse failure carrying a
/// human-readable message.
#[derive(Debug)]
pub enum UkkoError {
    ParseError(String),
    TODO,
}

impl UkkoError {
    /// Wraps a message into a parse error.
    pub fn parse(s: &str) -> (r: Self)
        ensures
            r matches UkkoError::ParseError(m) && m@ == s@,
    {
        UkkoError::ParseError(s.to_owned())
    }
}

/// An XML attribute: a key and a rendered value, with a fallible way
/// back from a key/value pair.
pub trait Attribute: Sized {
    /// The attribute's key.
    spec fn spec_key(&self) -> Seq<char>;

    /// The attribute's rendered value.
    spec fn spec_value(&self) -> Seq<char>;

    /// Values on which rendering is defined.
    spec fn spec_valid(&self) -> bool;

    /// Whether a key/value pair is accepted.
    spec fn spec_from_is_ok(kv: (Seq<char>, Seq<char>)) -> bool;

    /// What an accepted pair parses to.
    spec fn spec_from_ok(kv: (Seq<char>, Seq<char>), r: Self) -> bool;

    /// The message of a rejected pair, if it carries one.
    spec fn spec_from_err_msg(kv: (Seq<char>, Seq<char>)) -> Option<Seq<char>>;

    fn key(&self) -> (r: String)
        requires
            self.spec_valid(),
        ensures
            r@ == self.spec_key(),
    ;

    fn value(&self) -> (r: String)
        requires
            self.spec_valid(),
        ensures
            r@ == self.spec_value(),
    ;

    /// The attribute as `key="value"` text.
    fn fmt_str(&self) -> (r: String)
        requires
            self.spec_valid(),
        ensures
            r@ == self.spec_key() + "=\""@ + self.spec_value() + "\""@,
    {
        let mut out = self.key();
        out.append("=\"");
        let v = self.value();
        out.append(v.as_str());
        out.append("\"");
        out
    }

    fn from_key_value(kv: (String, String)) -> (r: UkkoResult<Self>)
        ensures
            r is Ok <==> Self::spec_from_is_ok((kv.0@, kv.1@)),
            r matches Ok(v) ==> Self::spec_from_ok((kv.0@, kv.1@), v),
            r matches Err(e) ==> match Self::spec_from_err_msg((kv.0@, kv.1@)) {
                Some(m) => e matches UkkoError::ParseError(s) && s@ == m,
                None => e is TODO,
            },
    ;
}

impl Attribute for (String, String) {
    open spec fn spec_key(&self) -> Seq<char> {
        self.0@
    }

    open spec fn spec_value(&self) -> Seq<char> {
        self.1@
    }

    open spec fn spec_valid(&self) -> bool {
        true
    }

    open spec fn spec_from_is_ok(kv: (Seq<char>, Seq<char>)) -> bool {
        true
    }

    open spec fn spec_from_ok(kv: (Seq<char>, Seq<char>), r: Self) -> bool {
        r.0@ == kv.0 && r.1@ == kv.1
    }

    open spec fn spec_from_err_msg(kv: (Seq<char>, Seq<char>)) -> Option<Seq<char>> {
        None
    }

    fn key(&self) -> (r: String) {
        self.0.clone()
    }

    fn value(&self) -> (r: String) {
        self.1.clone()
    }

    fn from_key_value(kv: (String, String)) -> (r: UkkoResult<Self>) {
        Ok(kv)
    }
}

/// The characters of a string slice, in order.
pub fn str_to_chars(s: &str) -> (v: Vec<char>)
    ensures
        v@ == s@,
{
    let n = s.unicode_len();
    let mut v: Vec<char> = Vec::new();
    let mut i: usize = 0;
    while i < n
        invariant
            i <= n == s@.len(),
            v@ =~= s@.take(i as int),
        decreases n - i,
    {
        v.push(s.get_char(i));
        proof {
            assert(v@ =~= s@.take(i + 1));
        }
        i = i + 1;
    }
    proof {
        assert(s@.take(n as int) =~= s@);
    }
    v
}

/// A string holding exactly the given characters.
pub fn chars_to_string(v: &Vec<char>) -> (s: String)
    ensures
        s@ == v@,
{
    let mut s = String::new();
    let mut i: usize = 0;
    while i < v.len()
        invariant
            i <= v@.len(),
            s@ =~= v@.take(i as int),
        decreases v@.len() - i,
    {
        s.push(v[i]);
        proof {
            assert(s@ =~= v@.take(i + 1));
        }
        i = i + 1;
    }
    proof {
        assert(v@.take(v@.len() as int) =~= v@);
    }
    s
}

} // verus!
