//! Character-level helpers shared by the modules that build or inspect text.

use vstd::prelude::*;

verus! {

/// The decimal rendering of a natural number: no sign, no leading zeros.
pub open spec fn decimal_text(n: nat) -> Seq<char>
    decreases n,
{
    if n < 10 {
        seq![digit_char(n)]
    } else {
        decimal_text(n / 10).push(digit_char(n % 10))
    }
}

/// The ASCII digit of a value below ten.
pub open spec fn digit_char(d: nat) -> char {
    (48 + d) as char
}

/// ASCII lower-casing of one character: `A`-`Z` move to `a`-`z`, everything else stays.
pub open spec fn ascii_lower(c: char) -> char {
    if 'A' <= c && c <= 'Z' {
        ((c as u32) + 32) as char
    } else {
        c
    }
}

/// Two texts match when they are equal after ASCII lower-casing.
pub open spec fn ascii_case_insensitive_eq(a: Seq<char>, b: Seq<char>) -> bool {
    &&& a.len() == b.len()
    &&& forall|i: int| 0 <= i < a.len() ==> ascii_lower(#[trigger] a[i]) == ascii_lower(b[i])
}

/// The characters of a text.
#[verifier::external_body]
pub(crate) fn chars_of(s: &str) -> (v: Vec<char>)
    ensures
        v@ == s@,
{
    s.chars().collect()
}

/// The text made of the given characters.
#[verifier::external_body]
pub(crate) fn string_from_chars(v: &[char]) -> (s: String)
    ensures
        s@ == v@,
{
    v.iter().collect()
}

/// The ASCII digit of a value below ten.
fn digit(d: u64) -> (c: char)
    requires
        d < 10,
    ensures
        c == digit_char(d as nat),
{
    let b: u8 = 48u8 + (d as u8);
    b as char
}

/// The decimal rendering of an unsigned integer (as `u64`'s `Display` writes it).
pub(crate) fn u64_text(n: u64) -> (s: String)
    ensures
        s@ == decimal_text(n as nat),
{
    let mut m: u64 = n;
    let mut reversed_digits: Vec<char> = Vec::new();
    let ghost mut suffix: Seq<char> = Seq::empty();
    while m >= 10
        invariant
            decimal_text(n as nat) == decimal_text(m as nat) + suffix,
            reversed_digits@ == suffix.reverse(),
        decreases m,
    {
        let c = digit(m % 10);
        proof {
            assert(decimal_text(m as nat) == decimal_text((m / 10) as nat).push(digit_char((m % 10) as nat)));
            assert(decimal_text((m / 10) as nat).push(c) + suffix =~= decimal_text((m / 10) as nat) + (seq![c] + suffix));
            assert(reversed_digits@.push(c) =~= (seq![c] + suffix).reverse());
            suffix = seq![c] + suffix;
        }
        reversed_digits.push(c);
        m = m / 10;
    }
    let last = digit(m);
    proof {
        assert(decimal_text(m as nat) == seq![last]);
        assert(reversed_digits@.push(last) =~= (seq![last] + suffix).reverse());
        suffix = seq![last] + suffix;
    }
    reversed_digits.push(last);
    let mut digits: Vec<char> = Vec::new();
    let mut i: usize = reversed_digits.len();
    while i > 0
        invariant
            i <= reversed_digits@.len(),
            reversed_digits@ == suffix.reverse(),
            digits@ == suffix.subrange(0, (reversed_digits@.len() - i) as int),
        decreases i,
    {
        i = i - 1;
        let ghost k = reversed_digits@.len() - 1 - i;
        assert(reversed_digits@[i as int] == suffix[k]);
        digits.push(reversed_digits[i]);
        assert(digits@ =~= suffix.subrange(0, k + 1));
    }
    assert(digits@ =~= suffix);
    text_from_chars(&digits)
}

/// ASCII lower-casing of one character.
fn lower_char(c: char) -> (r: char)
    ensures
        r == ascii_lower(c),
{
    if 'A' <= c && c <= 'Z' {
        let b: u8 = (c as u8) + 32;
        b as char
    } else {
        c
    }
}

/// Whether two texts are equal ignoring ASCII case (as `str::eq_ignore_ascii_case` decides).
pub(crate) fn eq_ignore_ascii_case(a: &str, b: &str) -> (r: bool)
    ensures
        r == ascii_case_insensitive_eq(a@, b@),
{
    let x = chars_of(a);
    let y = chars_of(b);
    if x.len() != y.len() {
        return false;
    }
    let mut i: usize = 0;
    while i < x.len()
        invariant
            0 <= i <= x@.len(),
            x@ == a@,
            y@ == b@,
            x@.len() == y@.len(),
            forall|j: int| 0 <= j < i ==> ascii_lower(#[trigger] a@[j]) == ascii_lower(b@[j]),
        decreases x@.len() - i,
    {
        if lower_char(x[i]) != lower_char(y[i]) {
            return false;
        }
        i = i + 1;
    }
    true
}

/// Builds a text from its characters.
pub(crate) fn text_from_chars(v: &Vec<char>) -> (s: String)
    ensures
        s@ == v@,
{
    string_from_chars(v.as_slice())
}

/// The text `{:?}` gives a string: quoted, with special characters escaped.
pub uninterp spec fn spec_debug_text(s: Seq<char>) -> Seq<char>;

/// Renders a text as `{:?}` does (`<str as Debug>::fmt`). Claimed: the rendering is a function
/// of the text alone.
#[verifier::external_body]
pub(crate) fn debug_text(s: &str) -> (r: String)
    ensures
        r@ == spec_debug_text(s@),
{
    format!("{s:?}")
}

} // verus!
