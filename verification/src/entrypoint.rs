//! The entry point of an extension: the exported symbol DuckDB looks for when it loads one.

use vstd::prelude::*;
use crate::text::chars_of;

verus! {

/// Whether a text parses as one Rust identifier.
pub uninterp spec fn spec_is_ident(s: Seq<char>) -> bool;

/// Whether a text parses as a Rust identifier (`syn::parse_str::<syn::Ident>` succeeds). Claimed:
/// the answer is a function of the text alone; and a symbol made of lowercase letters, digits and
/// `_` that ends in `_init_c_api` (so it is no keyword) is an identifier exactly when it does not
/// start with a digit (then it lexes as a number literal).
#[verifier::external_body]
fn parses_as_ident(s: &str) -> (r: bool)
    ensures
        r == spec_is_ident(s@),
        is_init_symbol(s@) ==> (r <==> !('0' <= s@[0] <= '9')),
{
    syn::parse_str::<syn::Ident>(s).is_ok()
}

/// Whether a character may appear in an extension name: ASCII lowercase letters, digits and `_`.
pub open spec fn extension_name_char(c: char) -> bool {
    ('a' <= c <= 'z') || ('0' <= c <= '9') || c == '_'
}

/// Whether a text is `<name>_init_c_api` for a non-empty name of lowercase letters, digits and
/// `_`.
pub open spec fn is_init_symbol(s: Seq<char>) -> bool {
    &&& s.len() > "_init_c_api"@.len()
    &&& s.subrange(s.len() - "_init_c_api"@.len(), s.len() as int) == "_init_c_api"@
    &&& forall|i: int| 0 <= i < s.len() ==> extension_name_char(#[trigger] s[i])
}

/// The entry-point symbol of an extension, or the compile error for its name: the name must not
/// be empty, must hold only lowercase letters, digits and underscores, and `<name>_init_c_api`
/// must be an identifier, which it is unless the name starts with a digit.
pub open spec fn entry_point_result(name: Seq<char>) -> Result<Seq<char>, Seq<char>> {
    if name.len() == 0 {
        Err("extension name must not be empty"@)
    } else if exists|i: int| 0 <= i < name.len() && !extension_name_char(#[trigger] name[i]) {
        Err("extension name must contain only lowercase letters, digits, and underscores"@)
    } else if '0' <= name[0] <= '9' {
        Err("invalid extension name `"@ + name + "`"@)
    } else {
        Ok(name + "_init_c_api"@)
    }
}

/// Validates an extension name and gives the symbol DuckDB looks for when loading it,
/// `<name>_init_c_api`; an invalid name gives the compile error text instead.
pub fn entry_point_symbol(name: &str) -> (r: Result<String, String>)
    ensures
        match (r, entry_point_result(name@)) {
            (Ok(s), Ok(t)) => s@ == t,
            (Err(m), Err(t)) => m@ == t,
            _ => false,
        },
{
    let chars = chars_of(name);
    if chars.len() == 0 {
        return Err(String::from_str("extension name must not be empty"));
    }
    let mut i: usize = 0;
    while i < chars.len()
        invariant
            0 <= i <= chars@.len(),
            chars@ == name@,
            forall|j: int| 0 <= j < i ==> extension_name_char(#[trigger] name@[j]),
        decreases chars@.len() - i,
    {
        let c = chars[i];
        if !(('a' <= c && c <= 'z') || ('0' <= c && c <= '9') || c == '_') {
            assert(!extension_name_char(name@[i as int]));
            return Err(String::from_str("extension name must contain only lowercase letters, digits, and underscores"));
        }
        i = i + 1;
    }
    let mut symbol = String::from_str(name);
    symbol.append("_init_c_api");
    proof {
        reveal_strlit("_init_c_api");
        let t = symbol@;
        assert(t.subrange(t.len() - "_init_c_api"@.len(), t.len() as int) =~= "_init_c_api"@);
        assert forall|j: int| 0 <= j < t.len() implies extension_name_char(#[trigger] t[j]) by {
            if j < name@.len() {
                assert(t[j] == name@[j]);
            } else {
                assert(t[j] == "_init_c_api"@[j - name@.len()]);
            }
        }
        assert(t[0] == name@[0]);
    }
    if parses_as_ident(symbol.as_str()) {
        Ok(symbol)
    } else {
        let mut m = String::from_str("invalid extension name `");
        m.append(name);
        m.append("`");
        Err(m)
    }
}

} // verus!
