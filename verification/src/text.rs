use vstd::prelude::*;

verus! {

/// Whether `c` carries the Unicode `White_Space` property, the set of
/// characters that `str::trim` removes.
pub open spec fn is_white_space(c: char) -> bool {
    ||| c == '\t'
    ||| c == '\n'
    ||| c == '\u{0B}'
    ||| c == '\u{0C}'
    ||| c == '\r'
    ||| c == ' '
    ||| c == '\u{85}'
    ||| c == '\u{A0}'
    ||| c == '\u{1680}'
    ||| ('\u{2000}' <= c && c <= '\u{200A}')
    ||| c == '\u{2028}'
    ||| c == '\u{2029}'
    ||| c == '\u{202F}'
    ||| c == '\u{205F}'
    ||| c == '\u{3000}'
}

/// `s` without its leading white space.
pub open spec fn trim_start(s: Seq<char>) -> Seq<char>
    decreases s.len(),
{
    if s.len() > 0 && is_white_space(s[0]) {
        trim_start(s.drop_first())
    } else {
        s
    }
}

/// `s` without its trailing white space.
pub open spec fn trim_end(s: Seq<char>) -> Seq<char>
    decreases s.len(),
{
    if s.len() > 0 && is_white_space(s.last()) {
        trim_end(s.drop_last())
    } else {
        s
    }
}

/// `s` without leading and trailing white space.
pub open spec fn trim(s: Seq<char>) -> Seq<char> {
    trim_end(trim_start(s))
}

/// The ASCII lower-case form of `c`; other characters are unchanged.
pub open spec fn ascii_lower(c: char) -> char {
    if 'A' <= c && c <= 'Z' {
        ((c as u32) + 32) as char
    } else {
        c
    }
}

/// Whether `c` is one of the ASCII digits `0` to `9`.
pub open spec fn is_digit(c: char) -> bool {
    '0' <= c && c <= '9'
}

/// The value of the ASCII digit `c`.
pub open spec fn digit_value(c: char) -> int {
    (c as u32) - ('0' as u32)
}

/// Why a decimal number could not be read.
#[derive(Debug, Copy, Clone, PartialEq, Eq, Hash, Structural)]
pub enum IntegerError {
    /// There was nothing to read.
    Empty,
    /// A character is not a decimal digit.
    InvalidDigit,
    /// The number does not fit in 32 bits.
    Overflow,
}

/// Reading `d` digit by digit from the left, as `u32::from_str` does: the
/// first character that is no digit, or the first digit after which the value
/// exceeds `u32::MAX`, decides the error.
pub open spec fn accumulate_digits(d: Seq<char>) -> Result<u32, IntegerError>
    decreases d.len(),
{
    if d.len() == 0 {
        Ok(0u32)
    } else {
        match accumulate_digits(d.drop_last()) {
            Err(e) => Err(e),
            Ok(v) => if !is_digit(d.last()) {
                Err(IntegerError::InvalidDigit)
            } else if v * 10 + digit_value(d.last()) > u32::MAX {
                Err(IntegerError::Overflow)
            } else {
                Ok((v * 10 + digit_value(d.last())) as u32)
            },
        }
    }
}

/// What `u32::from_str` gives for the characters `s`: an optional leading
/// `+`, then decimal digits.
pub open spec fn parse_u32_spec(s: Seq<char>) -> Result<u32, IntegerError> {
    if s.len() == 0 {
        Err(IntegerError::Empty)
    } else if s.len() == 1 && (s[0] == '+' || s[0] == '-') {
        Err(IntegerError::InvalidDigit)
    } else if s[0] == '+' {
        accumulate_digits(s.drop_first())
    } else {
        accumulate_digits(s)
    }
}

/// Whether every character of `s` is white space.
pub open spec fn all_white_space(s: Seq<char>) -> bool {
    forall|i: int| 0 <= i < s.len() ==> is_white_space(#[trigger] s[i])
}

/// The ASCII digit for `d`, which is below ten.
pub open spec fn digit_char(d: nat) -> char {
    (('0' as u32) + d) as char
}

/// The decimal digits of `n`, most significant first, without leading zeros.
pub open spec fn decimal(n: nat) -> Seq<char>
    decreases n,
{
    if n < 10 {
        seq![digit_char(n)]
    } else {
        decimal(n / 10).push(digit_char(n % 10))
    }
}

pub(crate) proof fn lemma_digit_char(d: nat)
    requires
        d < 10,
    ensures
        is_digit(digit_char(d)),
        digit_value(digit_char(d)) == d,
        !is_white_space(digit_char(d)),
        digit_char(d) != '+',
        digit_char(d) != '-',
{
    assert((('0' as u32) + d) as char as u32 == ('0' as u32) + d);
}

proof fn lemma_decimal_shape(n: nat)
    ensures
        decimal(n).len() >= 1,
        forall|i: int| 0 <= i < decimal(n).len() ==> is_digit(#[trigger] decimal(n)[i])
            && !is_white_space(decimal(n)[i]) && decimal(n)[i] != '+' && decimal(n)[i] != '-',
    decreases n,
{
    if n < 10 {
        lemma_digit_char(n);
    } else {
        lemma_decimal_shape(n / 10);
        lemma_digit_char(n % 10);
        assert forall|i: int| 0 <= i < decimal(n).len() implies is_digit(#[trigger] decimal(n)[i])
            && !is_white_space(decimal(n)[i]) && decimal(n)[i] != '+' && decimal(n)[i] != '-' by {
            if i < decimal(n / 10).len() {
                assert(decimal(n)[i] == decimal(n / 10)[i]);
            }
        }
    }
}

proof fn lemma_accumulate_decimal(n: nat)
    requires
        n <= u32::MAX,
    ensures
        accumulate_digits(decimal(n)) == Ok::<u32, IntegerError>(n as u32),
    decreases n,
{
    lemma_digit_char(n % 10);
    if n < 10 {
        assert(decimal(n).drop_last() =~= Seq::<char>::empty());
        assert(accumulate_digits(Seq::<char>::empty()) == Ok::<u32, IntegerError>(0u32));
    } else {
        lemma_accumulate_decimal(n / 10);
        assert(decimal(n).drop_last() =~= decimal(n / 10));
        assert((n / 10) * 10 + n % 10 == n);
    }
}

/// Reading the decimal digits of a 32-bit number gives that number back.
pub(crate) proof fn lemma_parse_decimal(n: u32)
    ensures
        parse_u32_spec(decimal(n as nat)) == Ok::<u32, IntegerError>(n),
        trim(decimal(n as nat)) == decimal(n as nat),
{
    lemma_decimal_shape(n as nat);
    lemma_accumulate_decimal(n as nat);
    let d = decimal(n as nat);
    assert(trim_start(d) == d);
    assert(trim_end(d) == d);
}

proof fn lemma_trim_start_white_prefix(a: Seq<char>, x: Seq<char>)
    requires
        all_white_space(a),
    ensures
        trim_start(a + x) == trim_start(x),
    decreases a.len(),
{
    if a.len() > 0 {
        assert((a + x)[0] == a[0]);
        assert((a + x).drop_first() =~= a.drop_first() + x);
        lemma_trim_start_white_prefix(a.drop_first(), x);
    } else {
        assert(a + x =~= x);
    }
}

proof fn lemma_trim_end_white_suffix(x: Seq<char>, b: Seq<char>)
    requires
        all_white_space(b),
    ensures
        trim_end(x + b) == trim_end(x),
    decreases b.len(),
{
    if b.len() > 0 {
        assert((x + b).last() == b.last());
        assert((x + b).drop_last() =~= x + b.drop_last());
        lemma_trim_end_white_suffix(x, b.drop_last());
    } else {
        assert(x + b =~= x);
    }
}

proof fn lemma_trim_white_suffix(x: Seq<char>, b: Seq<char>)
    requires
        all_white_space(b),
    ensures
        trim_end(trim_start(x + b)) == trim_end(trim_start(x)),
    decreases x.len(),
{
    if x.len() == 0 {
        assert(x + b =~= b);
        lemma_trim_start_white_prefix(b, Seq::<char>::empty());
        assert(b + Seq::<char>::empty() =~= b);
    } else if is_white_space(x[0]) {
        assert((x + b)[0] == x[0]);
        assert((x + b).drop_first() =~= x.drop_first() + b);
        lemma_trim_white_suffix(x.drop_first(), b);
    } else {
        assert((x + b)[0] == x[0]);
        lemma_trim_end_white_suffix(x, b);
    }
}

/// White space around a text does not change its trimmed form.
pub(crate) proof fn lemma_trim_ignores_white_space(a: Seq<char>, s: Seq<char>, b: Seq<char>)
    requires
        all_white_space(a),
        all_white_space(b),
    ensures
        trim(a + s + b) == trim(s),
{
    assert(a + s + b =~= a + (s + b));
    lemma_trim_start_white_prefix(a, s + b);
    lemma_trim_white_suffix(s, b);
}

/// Whether every character of `s` is an ASCII digit.
pub open spec fn all_digits(s: Seq<char>) -> bool {
    forall|i: int| 0 <= i < s.len() ==> is_digit(#[trigger] s[i])
}

/// The number that the decimal digits `d` stand for, however large.
pub open spec fn decimal_value(d: Seq<char>) -> nat
    decreases d.len(),
{
    if d.len() == 0 {
        0
    } else {
        (decimal_value(d.drop_last()) * 10 + digit_value(d.last())) as nat
    }
}

/// Digits are read to their value where it fits in 32 bits, and to an
/// overflow where it does not.
pub(crate) proof fn lemma_accumulate_all_digits(d: Seq<char>)
    requires
        all_digits(d),
    ensures
        decimal_value(d) <= u32::MAX ==> accumulate_digits(d) == Ok::<u32, IntegerError>(
            decimal_value(d) as u32,
        ),
        decimal_value(d) > u32::MAX ==> accumulate_digits(d) == Err::<u32, IntegerError>(
            IntegerError::Overflow,
        ),
    decreases d.len(),
{
    if d.len() > 0 {
        let p = d.drop_last();
        assert(all_digits(p)) by {
            assert forall|i: int| 0 <= i < p.len() implies is_digit(#[trigger] p[i]) by {
                assert(p[i] == d[i]);
            }
        }
        assert(is_digit(d[d.len() - 1]));
        lemma_accumulate_all_digits(p);
    }
}

/// The first character that is no digit makes reading fail as an invalid
/// digit, unless the digits before it already overflow.
pub(crate) proof fn lemma_accumulate_invalid(p: Seq<char>, c: char, r: Seq<char>)
    requires
        all_digits(p),
        !is_digit(c),
    ensures
        decimal_value(p) <= u32::MAX ==> accumulate_digits(p.push(c) + r) == Err::<u32, IntegerError>(
            IntegerError::InvalidDigit,
        ),
        decimal_value(p) > u32::MAX ==> accumulate_digits(p.push(c) + r) == Err::<u32, IntegerError>(
            IntegerError::Overflow,
        ),
{
    let d = p.push(c) + r;
    lemma_accumulate_all_digits(p);
    if decimal_value(p) > u32::MAX {
        if p.len() > 0 {
            assert(d.take(p.len() as int) =~= p);
            lemma_accumulate_prefix_error(d, p.len() as int);
        }
    } else {
        let m: int = p.len() as int + 1;
        assert(d.take(m).drop_last() =~= p);
        assert(d.take(m).last() == c);
        lemma_accumulate_prefix_error(d, m);
    }
}

/// Only white space reads as nothing at all.
pub(crate) proof fn lemma_trim_all_white(a: Seq<char>)
    requires
        all_white_space(a),
    ensures
        trim(a).len() == 0,
{
    lemma_trim_start_white_prefix(a, Seq::<char>::empty());
    assert(a + Seq::<char>::empty() =~= a);
}

/// A text that starts and ends with a character that is no white space is
/// its own trimmed form.
pub(crate) proof fn lemma_trim_unchanged(s: Seq<char>)
    requires
        s.len() > 0,
        !is_white_space(s[0]),
        !is_white_space(s.last()),
    ensures
        trim(s) == s,
{
}

/// The characters of `s`, in order.
pub(crate) fn chars_of(s: &str) -> (v: Vec<char>)
    ensures
        v@ == s@,
{
    broadcast use vstd::string::axiom_spec_iter;
    let mut v: Vec<char> = Vec::new();
    for c in it: s.chars()
        invariant
            it.seq() == s@,
            v@ == it.seq().take(it.index() as int),
    {
        v.push(c);
    }
    v
}

/// Whether `c` carries the Unicode `White_Space` property.
pub(crate) fn white_space(c: char) -> (r: bool)
    ensures
        r == is_white_space(c),
{
    c == '\t' || c == '\n' || c == '\u{0B}' || c == '\u{0C}' || c == '\r' || c == ' '
        || c == '\u{85}' || c == '\u{A0}' || c == '\u{1680}' || ('\u{2000}' <= c && c
        <= '\u{200A}') || c == '\u{2028}' || c == '\u{2029}' || c == '\u{202F}' || c
        == '\u{205F}' || c == '\u{3000}'
}

/// The bounds of `v` without leading and trailing white space.
pub(crate) fn trim_bounds(v: &Vec<char>) -> (r: (usize, usize))
    ensures
        r.0 <= r.1 <= v@.len(),
        v@.subrange(r.0 as int, r.1 as int) == trim(v@),
{
    let n = v.len();
    let mut i: usize = 0;
    assert(v@.skip(0) =~= v@);
    while i < n && white_space(v[i])
        invariant
            n == v@.len(),
            i <= n,
            trim_start(v@) == trim_start(v@.skip(i as int)),
        decreases n - i,
    {
        assert(v@.skip(i as int).drop_first() =~= v@.skip(i + 1));
        i = i + 1;
    }
    assert(trim_start(v@) == v@.skip(i as int)) by {
        if i == n {
            assert(v@.skip(i as int) =~= Seq::<char>::empty());
        }
    }
    assert(v@.skip(i as int) =~= v@.subrange(i as int, n as int));
    let mut j: usize = n;
    while j > i && white_space(v[j - 1])
        invariant
            n == v@.len(),
            i <= j <= n,
            trim(v@) == trim_end(v@.subrange(i as int, j as int)),
        decreases j,
    {
        assert(v@.subrange(i as int, j as int).drop_last() =~= v@.subrange(i as int, j - 1));
        j = j - 1;
    }
    (i, j)
}

/// A failure in a prefix of the digits is the failure of the whole.
pub(crate) proof fn lemma_accumulate_prefix_error(d: Seq<char>, m: int)
    requires
        0 <= m <= d.len(),
        accumulate_digits(d.take(m)) is Err,
    ensures
        accumulate_digits(d) == accumulate_digits(d.take(m)),
    decreases d.len(),
{
    if m < d.len() {
        assert(d.drop_last().take(m) =~= d.take(m));
        lemma_accumulate_prefix_error(d.drop_last(), m);
    } else {
        assert(d.take(m) =~= d);
    }
}

/// Read the characters `v[start..end]` as `u32::from_str` does.
pub(crate) fn parse_u32_chars(v: &Vec<char>, start: usize, end: usize) -> (r: Result<u32, IntegerError>)
    requires
        start <= end <= v@.len(),
    ensures
        r == parse_u32_spec(v@.subrange(start as int, end as int)),
{
    let ghost s = v@.subrange(start as int, end as int);
    if start == end {
        return Err(IntegerError::Empty);
    }
    if end - start == 1 && (v[start] == '+' || v[start] == '-') {
        return Err(IntegerError::InvalidDigit);
    }
    let first: usize = if v[start] == '+' { start + 1 } else { start };
    let ghost d = v@.subrange(first as int, end as int);
    assert(s[0] == '+' ==> d =~= s.drop_first());
    assert(s[0] != '+' ==> d =~= s);
    assert(parse_u32_spec(s) == accumulate_digits(d));
    let mut acc: u32 = 0;
    let mut k: usize = first;
    while k < end
        invariant
            start <= first <= k <= end <= v@.len(),
            d == v@.subrange(first as int, end as int),
            parse_u32_spec(v@.subrange(start as int, end as int)) == accumulate_digits(d),
            accumulate_digits(d.take(k - first)) == Ok::<u32, IntegerError>(acc),
        decreases end - k,
    {
        let c = v[k];
        assert(d.take(k - first + 1).drop_last() =~= d.take(k - first));
        assert(d.take(k - first + 1).last() == c);
        if !('0' <= c && c <= '9') {
            assert(accumulate_digits(d.take(k - first + 1)) == Err::<u32, IntegerError>(
                IntegerError::InvalidDigit,
            ));
            proof {
                lemma_accumulate_prefix_error(d, k - first + 1);
            }
            return Err(IntegerError::InvalidDigit);
        }
        let digit: u32 = (c as u32) - ('0' as u32);
        let next: u64 = (acc as u64) * 10 + (digit as u64);
        if next > 0xFFFF_FFFFu64 {
            assert(accumulate_digits(d.take(k - first + 1)) == Err::<u32, IntegerError>(
                IntegerError::Overflow,
            ));
            proof {
                lemma_accumulate_prefix_error(d, k - first + 1);
            }
            return Err(IntegerError::Overflow);
        }
        acc = next as u32;
        k = k + 1;
    }
    assert(d.take(end - first) =~= d);
    Ok(acc)
}

} // verus!
