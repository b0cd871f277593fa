use core::cmp::Ordering;

use vstd::prelude::*;

use crate::text::{
    all_digits, decimal_value, is_digit, is_white_space, lemma_accumulate_all_digits,
    lemma_accumulate_invalid, lemma_trim_all_white, lemma_trim_unchanged, all_white_space, ascii_lower, chars_of, decimal, lemma_parse_decimal,
    lemma_trim_ignores_white_space, parse_u32_chars, parse_u32_spec, trim, trim_bounds,
    IntegerError,
};

verus! {

/// A boolean in CSL.
#[derive(Debug, Copy, Clone, PartialEq, Eq, Hash, Structural)]
pub struct Boolean(bool);

/// Whether the characters `s` spell `true`, ignoring ASCII case.
pub open spec fn spells_true(s: Seq<char>) -> bool {
    &&& s.len() == 4
    &&& ascii_lower(s[0]) == 't'
    &&& ascii_lower(s[1]) == 'r'
    &&& ascii_lower(s[2]) == 'u'
    &&& ascii_lower(s[3]) == 'e'
}

/// Whether the ASCII lower-case form of `c` is `lower`, a lower-case ASCII letter.
fn lower_is(c: char, lower: char) -> (r: bool)
    requires
        'a' <= lower <= 'z',
    ensures
        r == (ascii_lower(c) == lower),
{
    let upper = ((lower as u8) - 32) as char;
    assert(ascii_lower(upper) == lower);
    assert('A' <= c <= 'Z' ==> ascii_lower(c) as u32 == c as u32 + 32);
    c == lower || c == upper
}

impl Boolean {
    /// Wrap a plain `bool`.
    pub fn new(value: bool) -> (b: Boolean)
        ensures
            b.value() == value,
    {
        Boolean(value)
    }

    /// The wrapped `bool`.
    pub closed spec fn value(self) -> bool {
        self.0
    }

    /// Read the wrapped `bool`.
    pub fn get(&self) -> (v: bool)
        ensures
            v == self.value(),
    {
        self.0
    }

    /// Read a CSL boolean attribute: it is true exactly when the text is
    /// `true` in any ASCII case.
    pub fn parse(text: &str) -> (b: Boolean)
        ensures
            b.value() == spells_true(text@),
    {
        let v = chars_of(text);
        let r = v.len() == 4 && lower_is(v[0], 't') && lower_is(v[1], 'r') && lower_is(v[2], 'u')
            && lower_is(v[3], 'e');
        Boolean(r)
    }
}

impl core::ops::Deref for Boolean {
    type Target = bool;

    fn deref(&self) -> (r: &bool)
        ensures
            *r == self.value(),
    {
        &self.0
    }
}

impl core::ops::Not for Boolean {
    type Output = Boolean;

    fn not(self) -> (r: Boolean)
        ensures
            r.value() == !self.value(),
    {
        Boolean(!self.0)
    }
}

impl vstd::std_specs::ops::NotSpecImpl for Boolean {
    open spec fn obeys_not_spec() -> bool {
        true
    }

    open spec fn not_req(self) -> bool {
        true
    }

    closed spec fn not_spec(self) -> Boolean {
        Boolean(!self.0)
    }
}

impl Default for Boolean {
    fn default() -> (b: Boolean)
        ensures
            b.value() == false,
    {
        Boolean(false)
    }
}

/// A text spells `true` exactly when it has four characters, each the
/// lower-case or the upper-case letter of `true` at its place.
pub proof fn lemma_spells_true_letters(s: Seq<char>)
    ensures
        spells_true(s) <==> s.len() == 4 && (s[0] == 't' || s[0] == 'T') && (s[1] == 'r' || s[1]
            == 'R') && (s[2] == 'u' || s[2] == 'U') && (s[3] == 'e' || s[3] == 'E'),
{
    if s.len() == 4 {
        lemma_lower_letter(s[0], 't');
        lemma_lower_letter(s[1], 'r');
        lemma_lower_letter(s[2], 'u');
        lemma_lower_letter(s[3], 'e');
    }
}

proof fn lemma_lower_letter(c: char, lower: char)
    requires
        'a' <= lower <= 'z',
    ensures
        (ascii_lower(c) == lower) <==> (c == lower || c as u32 == lower as u32 - 32),
{
    assert('A' <= c <= 'Z' ==> ascii_lower(c) as u32 == c as u32 + 32);
}

/// Negating a CSL boolean twice gives it back, and negation flips its value.
pub proof fn lemma_not_involutive(b: Boolean)
    ensures
        vstd::std_specs::ops::NotSpec::not_spec(vstd::std_specs::ops::NotSpec::not_spec(b)) == b,
        vstd::std_specs::ops::NotSpec::not_spec(b).value() == !b.value(),
{
}

/// Reading a boolean attribute ignores ASCII case: texts that agree up to the
/// case of ASCII letters read the same.
pub proof fn lemma_parse_ignores_ascii_case(s: Seq<char>, t: Seq<char>)
    requires
        s.len() == t.len(),
        forall|i: int| 0 <= i < s.len() ==> ascii_lower(#[trigger] s[i]) == ascii_lower(t[i]),
    ensures
        spells_true(s) == spells_true(t),
{
}

/// A positive integer in CSL.
#[derive(Debug, Copy, Clone, PartialEq, Eq, Hash, Ord, Structural)]
pub struct NonNegativeInteger(u32);

/// How the numbers `a` and `b` compare.
pub open spec fn compare_numbers(a: u32, b: u32) -> Option<Ordering> {
    if a < b {
        Some(Ordering::Less)
    } else if a == b {
        Some(Ordering::Equal)
    } else {
        Some(Ordering::Greater)
    }
}

impl PartialOrd for NonNegativeInteger {
    fn partial_cmp(&self, other: &Self) -> (r: Option<Ordering>)
        ensures
            r == compare_numbers(self.value(), other.value()),
            r == Some(Ordering::Less) <==> self.value() < other.value(),
            r == Some(Ordering::Equal) <==> self.value() == other.value(),
            r == Some(Ordering::Greater) <==> self.value() > other.value(),
    {
        if self.0 < other.0 {
            Some(Ordering::Less)
        } else if self.0 == other.0 {
            Some(Ordering::Equal)
        } else {
            Some(Ordering::Greater)
        }
    }
}

impl vstd::std_specs::cmp::PartialOrdSpecImpl for NonNegativeInteger {
    open spec fn obeys_partial_cmp_spec() -> bool {
        true
    }

    closed spec fn partial_cmp_spec(&self, other: &Self) -> Option<Ordering> {
        compare_numbers(self.0, other.0)
    }
}

/// Equality and order of CSL integers follow the numbers they wrap.
pub proof fn lemma_integer_order_follows_value(a: NonNegativeInteger, b: NonNegativeInteger)
    ensures
        (a == b) <==> a.value() == b.value(),
        vstd::std_specs::cmp::PartialOrdSpec::partial_cmp_spec(&a, &b) == compare_numbers(
            a.value(),
            b.value(),
        ),
        vstd::std_specs::cmp::PartialOrdSpec::partial_cmp_spec(&a, &b) == Some(Ordering::Less)
            <==> a.value() < b.value(),
        vstd::std_specs::cmp::PartialOrdSpec::partial_cmp_spec(&a, &b) == Some(Ordering::Equal)
            <==> a.value() == b.value(),
        vstd::std_specs::cmp::PartialOrdSpec::partial_cmp_spec(&a, &b) == Some(Ordering::Greater)
            <==> a.value() > b.value(),
        vstd::std_specs::cmp::PartialOrdSpec::partial_cmp_spec(&a, &b) is Some,
{
}

/// What reading a CSL integer attribute gives for the characters `s`: the
/// text without surrounding white space, read as `u32::from_str` reads it.
pub open spec fn integer_attribute(s: Seq<char>) -> Result<u32, IntegerError> {
    parse_u32_spec(trim(s))
}

impl NonNegativeInteger {
    /// Wrap a plain `u32`.
    pub fn new(value: u32) -> (n: NonNegativeInteger)
        ensures
            n.value() == value,
    {
        NonNegativeInteger(value)
    }

    /// The wrapped number.
    pub closed spec fn value(self) -> u32 {
        self.0
    }

    /// Read the wrapped number.
    pub fn get(&self) -> (v: u32)
        ensures
            v == self.value(),
    {
        self.0
    }

    /// Read a CSL integer attribute: surrounding white space is ignored, an
    /// optional `+` may lead, and the rest must be decimal digits whose value
    /// fits in 32 bits.
    pub fn parse(text: &str) -> (r: Result<NonNegativeInteger, IntegerError>)
        ensures
            match (r, integer_attribute(text@)) {
                (Ok(n), Ok(v)) => n.value() == v,
                (Err(e), Err(f)) => e == f,
                _ => false,
            },
    {
        let v = chars_of(text);
        let (start, end) = trim_bounds(&v);
        match parse_u32_chars(&v, start, end) {
            Ok(n) => Ok(NonNegativeInteger(n)),
            Err(e) => Err(e),
        }
    }
}

/// Reading the decimal digits of a 32-bit number gives that number back.
pub proof fn lemma_integer_attribute_decimal(n: u32)
    ensures
        integer_attribute(decimal(n as nat)) == Ok::<u32, IntegerError>(n),
{
    lemma_parse_decimal(n);
}

/// Decimal digits, with or without a leading `+`, read as the number they
/// stand for where it fits in 32 bits, and as an overflow where it does not.
pub proof fn lemma_integer_attribute_digits(d: Seq<char>)
    requires
        d.len() > 0,
        all_digits(d),
    ensures
        decimal_value(d) <= u32::MAX ==> integer_attribute(d) == Ok::<u32, IntegerError>(
            decimal_value(d) as u32,
        ),
        decimal_value(d) <= u32::MAX ==> integer_attribute(seq!['+'] + d) == Ok::<u32, IntegerError>(
            decimal_value(d) as u32,
        ),
        decimal_value(d) > u32::MAX ==> integer_attribute(d) == Err::<u32, IntegerError>(
            IntegerError::Overflow,
        ),
        decimal_value(d) > u32::MAX ==> integer_attribute(seq!['+'] + d) == Err::<u32, IntegerError>(
            IntegerError::Overflow,
        ),
{
    lemma_accumulate_all_digits(d);
    assert(is_digit(d[0]) && is_digit(d.last()));
    lemma_trim_unchanged(d);
    let plus = seq!['+'] + d;
    assert(plus[0] == '+' && plus.last() == d.last());
    lemma_trim_unchanged(plus);
    assert(plus.drop_first() =~= d);
}

/// Digits followed by a character that is no digit read as an invalid digit,
/// unless the digits before it already overflow.
pub proof fn lemma_integer_attribute_invalid(p: Seq<char>, c: char, r: Seq<char>)
    requires
        p.len() > 0,
        all_digits(p),
        !is_digit(c),
        !is_white_space((p.push(c) + r).last()),
    ensures
        decimal_value(p) <= u32::MAX ==> integer_attribute(p.push(c) + r) == Err::<u32, IntegerError>(
            IntegerError::InvalidDigit,
        ),
        decimal_value(p) > u32::MAX ==> integer_attribute(p.push(c) + r) == Err::<u32, IntegerError>(
            IntegerError::Overflow,
        ),
{
    let s = p.push(c) + r;
    assert(s[0] == p[0] && is_digit(p[0]));
    lemma_trim_unchanged(s);
    lemma_accumulate_invalid(p, c, r);
}

/// A text of white space alone reads as empty.
pub proof fn lemma_integer_attribute_blank(a: Seq<char>)
    requires
        all_white_space(a),
    ensures
        integer_attribute(a) == Err::<u32, IntegerError>(IntegerError::Empty),
{
    lemma_trim_all_white(a);
}

/// White space around an integer attribute does not change what it reads as.
pub proof fn lemma_integer_attribute_ignores_white_space(a: Seq<char>, s: Seq<char>, b: Seq<char>)
    requires
        all_white_space(a),
        all_white_space(b),
    ensures
        integer_attribute(a + s + b) == integer_attribute(s),
{
    lemma_trim_ignores_white_space(a, s, b);
}

impl core::ops::Deref for NonNegativeInteger {
    type Target = u32;

    fn deref(&self) -> (r: &u32)
        ensures
            *r == self.value(),
    {
        &self.0
    }
}

impl Default for NonNegativeInteger {
    fn default() -> (n: NonNegativeInteger)
        ensures
            n.value() == 0,
    {
        NonNegativeInteger(0)
    }
}

/// An RFC 1766 language code.
#[derive(Debug, Clone, PartialEq, Eq, Hash)]
pub struct LocaleCode(pub String);

/// An ISO 8601 chapter 5.4 timestamp.
#[derive(Debug, Clone, PartialEq, Eq, Hash)]
pub struct Timestamp(pub String);

} // verus!
