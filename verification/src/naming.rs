//! The naming rules of the procedural macros: snake_case conversion, the `rename_all` rules of
//! `#[derive(DuckEnum)]`, and the `create_type` argument.

use vstd::prelude::*;
use crate::text::{chars_of, text_from_chars, ascii_lower};

verus! {

/// Whether a character is uppercase (`char::is_uppercase`, the Unicode `Uppercase` property).
pub uninterp spec fn spec_is_uppercase(c: char) -> bool;

/// Whether a character is lowercase (`char::is_lowercase`, the Unicode `Lowercase` property).
pub uninterp spec fn spec_is_lowercase(c: char) -> bool;

/// The characters `char::to_lowercase` yields for a character.
pub uninterp spec fn spec_char_lowercase(c: char) -> Seq<char>;

/// The lowercase form of a text (`str::to_lowercase`).
pub uninterp spec fn spec_text_lowercase(s: Seq<char>) -> Seq<char>;

/// The uppercase form of a text (`str::to_uppercase`).
pub uninterp spec fn spec_text_uppercase(s: Seq<char>) -> Seq<char>;

/// Whether a character is an ASCII letter.
pub open spec fn is_ascii_upper(c: char) -> bool {
    'A' <= c <= 'Z'
}

/// Whether a character is an ASCII lowercase letter.
pub open spec fn is_ascii_lower(c: char) -> bool {
    'a' <= c <= 'z'
}

/// Whether a character is an ASCII digit.
pub open spec fn is_ascii_digit(c: char) -> bool {
    '0' <= c <= '9'
}

/// Whether a character is ASCII.
pub open spec fn is_ascii_char(c: char) -> bool {
    (c as u32) < 128
}

/// Whether a text is ASCII.
pub open spec fn is_ascii_text(s: Seq<char>) -> bool {
    forall|i: int| 0 <= i < s.len() ==> is_ascii_char(#[trigger] s[i])
}

/// ASCII upper-casing of one character: `a`-`z` move to `A`-`Z`, everything else stays.
pub open spec fn ascii_upper(c: char) -> char {
    if is_ascii_lower(c) {
        ((c as u32) - 32) as char
    } else {
        c
    }
}

/// A text lower-cased character by character, ASCII only.
pub open spec fn ascii_lower_text(s: Seq<char>) -> Seq<char> {
    Seq::new(s.len(), |i: int| ascii_lower(s[i]))
}

/// A text upper-cased character by character, ASCII only.
pub open spec fn ascii_upper_text(s: Seq<char>) -> Seq<char> {
    Seq::new(s.len(), |i: int| ascii_upper(s[i]))
}

/// `char::is_uppercase`. Claimed: a function of the character; among ASCII characters exactly
/// `A`-`Z` are uppercase.
#[verifier::external_body]
fn char_is_uppercase(c: char) -> (r: bool)
    ensures
        r == spec_is_uppercase(c),
        is_ascii_char(c) ==> (r <==> is_ascii_upper(c)),
{
    c.is_uppercase()
}

/// `char::is_lowercase`. Claimed: a function of the character; among ASCII characters exactly
/// `a`-`z` are lowercase.
#[verifier::external_body]
fn char_is_lowercase(c: char) -> (r: bool)
    ensures
        r == spec_is_lowercase(c),
        is_ascii_char(c) ==> (r <==> is_ascii_lower(c)),
{
    c.is_lowercase()
}

/// `char::to_lowercase`, collected. Claimed: a function of the character; an ASCII character
/// lowers to the one character `to_ascii_lowercase` gives (`A`-`Z` to `a`-`z`, others as they
/// are).
#[verifier::external_body]
fn char_to_lowercase(c: char) -> (r: Vec<char>)
    ensures
        r@ == spec_char_lowercase(c),
        is_ascii_char(c) ==> r@ == seq![ascii_lower(c)],
{
    c.to_lowercase().collect()
}

/// `str::to_lowercase`. Claimed: a function of the text; an ASCII text lowers as
/// `to_ascii_lowercase` does.
#[verifier::external_body]
fn text_to_lowercase(s: &str) -> (r: String)
    ensures
        r@ == spec_text_lowercase(s@),
        is_ascii_text(s@) ==> r@ == ascii_lower_text(s@),
{
    s.to_lowercase()
}

/// `str::to_uppercase`. Claimed: a function of the text; an ASCII text uppers as
/// `to_ascii_uppercase` does.
#[verifier::external_body]
fn text_to_uppercase(s: &str) -> (r: String)
    ensures
        r@ == spec_text_uppercase(s@),
        is_ascii_text(s@) ==> r@ == ascii_upper_text(s@),
{
    s.to_uppercase()
}

/// What snake_case conversion makes of character `i` of a name: an uppercase character becomes
/// its lowercase form, preceded by `_` unless it starts the name or sits inside a run of capitals
/// that goes on (a word starts at an uppercase character after a lowercase one or a digit, or at
/// the last capital of a run followed by a lowercase one); any other character stays.
pub open spec fn snake_piece(chars: Seq<char>, i: int) -> Seq<char> {
    if spec_is_uppercase(chars[i]) {
        let prev_is_lower_or_digit = i > 0 && (spec_is_lowercase(chars[i - 1]) || is_ascii_digit(chars[i - 1]));
        let next_is_lower = i + 1 < chars.len() && spec_is_lowercase(chars[i + 1]);
        if i > 0 && (prev_is_lower_or_digit || next_is_lower) {
            seq!['_'] + spec_char_lowercase(chars[i])
        } else {
            spec_char_lowercase(chars[i])
        }
    } else {
        seq![chars[i]]
    }
}

/// The snake_case conversion of the first `n` characters of a name.
pub open spec fn snake_upto(chars: Seq<char>, n: int) -> Seq<char>
    decreases n,
{
    if n <= 0 {
        Seq::empty()
    } else {
        snake_upto(chars, n - 1) + snake_piece(chars, n - 1)
    }
}

/// The lowercase snake_case form of a `PascalCase` / `camelCase` identifier.
pub open spec fn snake_case(s: Seq<char>) -> Seq<char> {
    snake_upto(s, s.len() as int)
}

/// [`snake_piece`] for an ASCII name: only `A`-`Z` are uppercase, only `a`-`z` lowercase.
pub open spec fn ascii_snake_piece(chars: Seq<char>, i: int) -> Seq<char> {
    if is_ascii_upper(chars[i]) {
        let prev_is_lower_or_digit = i > 0 && (is_ascii_lower(chars[i - 1]) || is_ascii_digit(chars[i - 1]));
        let next_is_lower = i + 1 < chars.len() && is_ascii_lower(chars[i + 1]);
        if i > 0 && (prev_is_lower_or_digit || next_is_lower) {
            seq!['_', ascii_lower(chars[i])]
        } else {
            seq![ascii_lower(chars[i])]
        }
    } else {
        seq![chars[i]]
    }
}

/// The snake_case conversion of the first `n` characters of an ASCII name.
pub open spec fn ascii_snake_upto(chars: Seq<char>, n: int) -> Seq<char>
    decreases n,
{
    if n <= 0 {
        Seq::empty()
    } else {
        ascii_snake_upto(chars, n - 1) + ascii_snake_piece(chars, n - 1)
    }
}

/// The snake_case form of an ASCII name.
pub open spec fn ascii_snake_case(s: Seq<char>) -> Seq<char> {
    ascii_snake_upto(s, s.len() as int)
}

/// Converts a `PascalCase` / `camelCase` identifier into lowercase snake_case
/// (`PriorityLevel` -> `priority_level`, `HTTPCode` -> `http_code`). Used for the default SQL
/// type name of `#[derive(DuckEnum)]` and its internal helper module.
pub fn to_snake_case(name: &str) -> (r: String)
    ensures
        r@ == snake_case(name@),
        is_ascii_text(name@) ==> r@ == ascii_snake_case(name@),
{
    let chars = chars_of(name);
    let mut out: Vec<char> = Vec::new();
    let mut index: usize = 0;
    while index < chars.len()
        invariant
            0 <= index <= chars@.len(),
            chars@ == name@,
            out@ == snake_upto(name@, index as int),
            is_ascii_text(name@) ==> out@ == ascii_snake_upto(name@, index as int),
        decreases chars@.len() - index,
    {
        let ch = chars[index];
        let ghost out0 = out@;
        proof {
            if is_ascii_text(name@) {
                assert(is_ascii_char(name@[index as int]));
                if index > 0 {
                    assert(is_ascii_char(name@[index - 1]));
                }
                if index + 1 < chars.len() {
                    assert(is_ascii_char(name@[index + 1]));
                }
            }
        }
        if char_is_uppercase(ch) {
            let prev_is_lower_or_digit = index > 0 && (char_is_lowercase(chars[index - 1])
                || ('0' <= chars[index - 1] && chars[index - 1] <= '9'));
            let next_is_lower = index + 1 < chars.len() && char_is_lowercase(chars[index + 1]);
            if index > 0 && (prev_is_lower_or_digit || next_is_lower) {
                out.push('_');
            }
            let lower = char_to_lowercase(ch);
            let mut k: usize = 0;
            let ghost before = out@;
            while k < lower.len()
                invariant
                    0 <= k <= lower@.len(),
                    out@ == before + lower@.take(k as int),
                decreases lower@.len() - k,
            {
                out.push(lower[k]);
                k = k + 1;
                assert(out@ =~= before + lower@.take(k as int));
            }
            assert(lower@.take(lower@.len() as int) =~= lower@);
            assert(out@ =~= snake_upto(name@, index as int) + snake_piece(name@, index as int));
            proof {
                if is_ascii_text(name@) {
                    assert(snake_piece(name@, index as int) =~= ascii_snake_piece(name@, index as int));
                    assert(out@ =~= ascii_snake_upto(name@, index as int) + ascii_snake_piece(name@, index as int));
                }
            }
        } else {
            out.push(ch);
            assert(out@ =~= snake_upto(name@, index as int) + snake_piece(name@, index as int));
            proof {
                if is_ascii_text(name@) {
                    assert(out@ =~= ascii_snake_upto(name@, index as int) + ascii_snake_piece(name@, index as int));
                }
            }
        }
        index = index + 1;
    }
    text_from_chars(&out)
}

/// A name made of ASCII lowercase letters, digits and `_` only.
pub open spec fn is_plain_snake(s: Seq<char>) -> bool {
    forall|i: int| 0 <= i < s.len() ==> is_ascii_lower(#[trigger] s[i]) || is_ascii_digit(s[i]) || s[i] == '_'
}

/// A name already in plain snake_case (ASCII lowercase letters, digits and `_`) is left as it is.
pub proof fn lemma_snake_case_keeps_snake(s: Seq<char>)
    requires
        is_plain_snake(s),
        forall|i: int| 0 <= i < s.len() ==> !spec_is_uppercase(#[trigger] s[i]),
    ensures
        snake_case(s) == s,
{
    lemma_snake_upto_identity(s, s.len() as int);
    assert(s.take(s.len() as int) =~= s);
}

/// Without uppercase characters, the first `n` characters convert to themselves.
proof fn lemma_snake_upto_identity(s: Seq<char>, n: int)
    requires
        0 <= n <= s.len(),
        forall|i: int| 0 <= i < s.len() ==> !spec_is_uppercase(#[trigger] s[i]),
    ensures
        snake_upto(s, n) == s.take(n),
    decreases n,
{
    if n > 0 {
        lemma_snake_upto_identity(s, n - 1);
        assert(!spec_is_uppercase(s[n - 1]));
        assert(s.take(n - 1) + seq![s[n - 1]] =~= s.take(n));
    }
}

/// The snake_case form of an ASCII name is ASCII and holds no uppercase letter.
pub proof fn lemma_snake_case_is_lower(s: Seq<char>)
    requires
        is_ascii_text(s),
    ensures
        is_ascii_text(ascii_snake_case(s)),
        forall|i: int| 0 <= i < ascii_snake_case(s).len() ==> !is_ascii_upper(#[trigger] ascii_snake_case(s)[i]),
{
    lemma_snake_upto_lower(s, s.len() as int);
}

/// [`lemma_snake_case_is_lower`] for the first `n` characters.
proof fn lemma_snake_upto_lower(s: Seq<char>, n: int)
    requires
        is_ascii_text(s),
        n <= s.len(),
    ensures
        is_ascii_text(ascii_snake_upto(s, n)),
        forall|i: int| 0 <= i < ascii_snake_upto(s, n).len() ==> !is_ascii_upper(#[trigger] ascii_snake_upto(s, n)[i]),
    decreases n,
{
    if n > 0 {
        lemma_snake_upto_lower(s, n - 1);
        let a = ascii_snake_upto(s, n - 1);
        let piece = ascii_snake_piece(s, n - 1);
        assert(is_ascii_char(s[n - 1]));
        assert forall|j: int| 0 <= j < piece.len() implies is_ascii_char(#[trigger] piece[j]) && !is_ascii_upper(piece[j]) by {}
        assert forall|i: int| 0 <= i < ascii_snake_upto(s, n).len() implies
            is_ascii_char(#[trigger] ascii_snake_upto(s, n)[i]) && !is_ascii_upper(ascii_snake_upto(s, n)[i]) by {
            if i < a.len() {
                assert(ascii_snake_upto(s, n)[i] == a[i]);
            } else {
                assert(ascii_snake_upto(s, n)[i] == piece[i - a.len()]);
            }
        }
    }
}

/// An ASCII name without uppercase letters is its own snake_case form.
proof fn lemma_snake_case_without_upper(s: Seq<char>, n: int)
    requires
        0 <= n <= s.len(),
        forall|i: int| 0 <= i < s.len() ==> !is_ascii_upper(#[trigger] s[i]),
    ensures
        ascii_snake_upto(s, n) == s.take(n),
    decreases n,
{
    if n > 0 {
        lemma_snake_case_without_upper(s, n - 1);
        assert(!is_ascii_upper(s[n - 1]));
        assert(s.take(n - 1) + seq![s[n - 1]] =~= s.take(n));
    }
}

/// Converting an ASCII name to snake_case twice gives what converting it once gives.
pub proof fn lemma_snake_case_idempotent(s: Seq<char>)
    requires
        is_ascii_text(s),
    ensures
        ascii_snake_case(ascii_snake_case(s)) == ascii_snake_case(s),
{
    let t = ascii_snake_case(s);
    lemma_snake_case_is_lower(s);
    lemma_snake_case_without_upper(t, t.len() as int);
    assert(t.take(t.len() as int) =~= t);
}

/// A text with every `_` replaced by `-`.
pub open spec fn dashes_for_underscores(s: Seq<char>) -> Seq<char> {
    Seq::new(s.len(), |i: int| if s[i] == '_' { '-' } else { s[i] })
}

/// Replaces every `_` by `-` (`str::replace('_', "-")`).
fn replace_underscores(s: &str) -> (r: String)
    ensures
        r@ == dashes_for_underscores(s@),
{
    let chars = chars_of(s);
    let mut out: Vec<char> = Vec::new();
    let mut i: usize = 0;
    while i < chars.len()
        invariant
            0 <= i <= chars@.len(),
            chars@ == s@,
            out@.len() == i,
            forall|j: int| 0 <= j < i ==> #[trigger] out@[j] == (if s@[j] == '_' { '-' } else { s@[j] }),
        decreases chars@.len() - i,
    {
        if chars[i] == '_' {
            out.push('-');
        } else {
            out.push(chars[i]);
        }
        i = i + 1;
    }
    assert(out@ =~= dashes_for_underscores(s@));
    text_from_chars(&out)
}

/// How variant names map onto the labels of a SQL `ENUM` (`#[duck(rename_all = "...")]`).
#[derive(Debug, Clone, Copy, PartialEq, Eq, Structural)]
pub enum RenameRule {
    /// The variant name as written (the default); written as `"verbatim"`.
    Verbatim,
    /// `Red` -> `red`; written as `"lowercase"`.
    Lower,
    /// `Red` -> `RED`; written as `"UPPERCASE"`.
    Upper,
    /// `HttpError` -> `http_error`; written as `"snake_case"`.
    Snake,
    /// `HttpError` -> `HTTP_ERROR`; written as `"SCREAMING_SNAKE_CASE"`.
    ScreamingSnake,
    /// `HttpError` -> `httpError` (only the first letter is lowered); written as `"camelCase"`.
    Camel,
    /// Keeps PascalCase; written as `"PascalCase"`.
    Pascal,
    /// `HttpError` -> `http-error`; written as `"kebab-case"`.
    Kebab,
    /// `HttpError` -> `HTTP-ERROR`; written as `"SCREAMING-KEBAB-CASE"`.
    ScreamingKebab,
}

impl Default for RenameRule {
    /// [`RenameRule::Verbatim`].
    fn default() -> (r: RenameRule)
        ensures
            r == RenameRule::Verbatim,
    {
        RenameRule::Verbatim
    }
}

/// The label a rule gives a variant name.
pub open spec fn renamed(rule: RenameRule, variant: Seq<char>) -> Seq<char> {
    match rule {
        RenameRule::Verbatim | RenameRule::Pascal => variant,
        RenameRule::Lower => spec_text_lowercase(variant),
        RenameRule::Upper => spec_text_uppercase(variant),
        RenameRule::Snake => snake_case(variant),
        RenameRule::ScreamingSnake => spec_text_uppercase(snake_case(variant)),
        RenameRule::Camel => if variant.len() == 0 {
            Seq::empty()
        } else {
            spec_char_lowercase(variant[0]) + variant.subrange(1, variant.len() as int)
        },
        RenameRule::Kebab => dashes_for_underscores(snake_case(variant)),
        RenameRule::ScreamingKebab => dashes_for_underscores(spec_text_uppercase(snake_case(variant))),
    }
}

/// The label a rule gives an ASCII variant name: the case changes are ASCII ones.
pub open spec fn ascii_renamed(rule: RenameRule, variant: Seq<char>) -> Seq<char> {
    match rule {
        RenameRule::Verbatim | RenameRule::Pascal => variant,
        RenameRule::Lower => ascii_lower_text(variant),
        RenameRule::Upper => ascii_upper_text(variant),
        RenameRule::Snake => ascii_snake_case(variant),
        RenameRule::ScreamingSnake => ascii_upper_text(ascii_snake_case(variant)),
        RenameRule::Camel => if variant.len() == 0 {
            Seq::empty()
        } else {
            seq![ascii_lower(variant[0])] + variant.subrange(1, variant.len() as int)
        },
        RenameRule::Kebab => dashes_for_underscores(ascii_snake_case(variant)),
        RenameRule::ScreamingKebab => dashes_for_underscores(ascii_upper_text(ascii_snake_case(variant))),
    }
}

/// Upper-casing ASCII text keeps it ASCII.
proof fn lemma_upper_text_ascii(s: Seq<char>)
    requires
        is_ascii_text(s),
    ensures
        is_ascii_text(ascii_upper_text(s)),
{
    assert forall|i: int| 0 <= i < ascii_upper_text(s).len() implies is_ascii_char(#[trigger] ascii_upper_text(s)[i]) by {
        assert(is_ascii_char(s[i]));
    }
}

impl RenameRule {
    /// Applies the rule to a variant name.
    pub fn apply(self, variant: &str) -> (label: String)
        ensures
            label@ == renamed(self, variant@),
            is_ascii_text(variant@) ==> label@ == ascii_renamed(self, variant@),
    {
        proof {
            if is_ascii_text(variant@) {
                lemma_snake_case_is_lower(variant@);
                lemma_upper_text_ascii(ascii_snake_case(variant@));
                if variant@.len() > 0 {
                    assert(is_ascii_char(variant@[0]));
                }
            }
        }
        match self {
            RenameRule::Verbatim | RenameRule::Pascal => variant.to_owned(),
            RenameRule::Lower => text_to_lowercase(variant),
            RenameRule::Upper => text_to_uppercase(variant),
            RenameRule::Snake => to_snake_case(variant),
            RenameRule::ScreamingSnake => text_to_uppercase(to_snake_case(variant).as_str()),
            RenameRule::Camel => {
                let chars = chars_of(variant);
                if chars.len() == 0 {
                    String::new()
                } else {
                    let mut out = char_to_lowercase(chars[0]);
                    let ghost first = out@;
                    let mut i: usize = 1;
                    while i < chars.len()
                        invariant
                            1 <= i <= chars@.len(),
                            chars@ == variant@,
                            out@ == first + variant@.subrange(1, i as int),
                        decreases chars@.len() - i,
                    {
                        out.push(chars[i]);
                        i = i + 1;
                        assert(out@ =~= first + variant@.subrange(1, i as int));
                    }
                    text_from_chars(&out)
                }
            },
            RenameRule::Kebab => replace_underscores(to_snake_case(variant).as_str()),
            RenameRule::ScreamingKebab => replace_underscores(text_to_uppercase(to_snake_case(variant).as_str()).as_str()),
        }
    }

    /// The rule a `rename_all` value names; `None` for a value that names no rule.
    pub fn from_name(value: &str) -> (r: Option<RenameRule>)
        ensures
            r == rule_named(value@),
    {
        proof {
            reveal_strlit("verbatim");
            reveal_strlit("lowercase");
            reveal_strlit("UPPERCASE");
            reveal_strlit("snake_case");
            reveal_strlit("SCREAMING_SNAKE_CASE");
            reveal_strlit("camelCase");
            reveal_strlit("PascalCase");
            reveal_strlit("kebab-case");
            reveal_strlit("SCREAMING-KEBAB-CASE");
        }
        if text_eq(value, "verbatim") {
            Some(RenameRule::Verbatim)
        } else if text_eq(value, "lowercase") {
            Some(RenameRule::Lower)
        } else if text_eq(value, "UPPERCASE") {
            Some(RenameRule::Upper)
        } else if text_eq(value, "snake_case") {
            Some(RenameRule::Snake)
        } else if text_eq(value, "SCREAMING_SNAKE_CASE") {
            Some(RenameRule::ScreamingSnake)
        } else if text_eq(value, "camelCase") {
            Some(RenameRule::Camel)
        } else if text_eq(value, "PascalCase") {
            Some(RenameRule::Pascal)
        } else if text_eq(value, "kebab-case") {
            Some(RenameRule::Kebab)
        } else if text_eq(value, "SCREAMING-KEBAB-CASE") {
            Some(RenameRule::ScreamingKebab)
        } else {
            None
        }
    }
}

/// The rule a `rename_all` value names, if any.
pub open spec fn rule_named(value: Seq<char>) -> Option<RenameRule> {
    if value == "verbatim"@ {
        Some(RenameRule::Verbatim)
    } else if value == "lowercase"@ {
        Some(RenameRule::Lower)
    } else if value == "UPPERCASE"@ {
        Some(RenameRule::Upper)
    } else if value == "snake_case"@ {
        Some(RenameRule::Snake)
    } else if value == "SCREAMING_SNAKE_CASE"@ {
        Some(RenameRule::ScreamingSnake)
    } else if value == "camelCase"@ {
        Some(RenameRule::Camel)
    } else if value == "PascalCase"@ {
        Some(RenameRule::Pascal)
    } else if value == "kebab-case"@ {
        Some(RenameRule::Kebab)
    } else if value == "SCREAMING-KEBAB-CASE"@ {
        Some(RenameRule::ScreamingKebab)
    } else {
        None
    }
}

/// Whether two texts are equal.
pub fn text_eq(a: &str, b: &str) -> (r: bool)
    ensures
        r == (a@ == b@),
{
    let x = chars_of(a);
    let y = chars_of(b);
    if x.len() != y.len() {
        return false;
    }
    let mut i: usize = 0;
    while i < x.len()
        invariant
            0 <= i <= x@.len(),
            x@.len() == y@.len(),
            x@ == a@,
            y@ == b@,
            forall|j: int| 0 <= j < i ==> x@[j] == y@[j],
        decreases x@.len() - i,
    {
        if x[i] != y[i] {
            return false;
        }
        i = i + 1;
    }
    assert(a@ =~= b@);
    true
}

/// How `#[duck(create_type = ...)]` handles the named SQL type at load time.
#[derive(Debug, Clone, Copy, PartialEq, Eq, Structural)]
pub enum CreateTypeMode {
    /// `create_type = false` (the default): neither create nor print.
    Off,
    /// `create_type = true`: run `CREATE TYPE IF NOT EXISTS ...` at load time.
    Create,
    /// `create_type = "print"`: queue the `CREATE TYPE IF NOT EXISTS ...` statement for the entry
    /// point to print as one block; the type is not created.
    Print,
}

impl Default for CreateTypeMode {
    /// [`CreateTypeMode::Off`].
    fn default() -> (m: CreateTypeMode)
        ensures
            m == CreateTypeMode::Off,
    {
        CreateTypeMode::Off
    }
}

impl CreateTypeMode {
    /// `create_type = true` / `create_type = false`.
    pub fn from_bool(value: bool) -> (m: CreateTypeMode)
        ensures
            m == (if value { CreateTypeMode::Create } else { CreateTypeMode::Off }),
    {
        if value {
            CreateTypeMode::Create
        } else {
            CreateTypeMode::Off
        }
    }

    /// `create_type = "print"`; `None` for any other text.
    pub fn from_string(value: &str) -> (m: Option<CreateTypeMode>)
        ensures
            m == (if value@ == "print"@ { Some(CreateTypeMode::Print) } else { None::<CreateTypeMode> }),
    {
        if text_eq(value, "print") {
            Some(CreateTypeMode::Print)
        } else {
            None
        }
    }
}

} // verus!
