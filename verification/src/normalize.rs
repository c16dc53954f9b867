//! Input normalizer: decides from surface heuristics whether a snippet is
//! already a complete top-level declaration or a bare type expression that
//! must be wrapped in a synthetic type alias before parsing.

use vstd::prelude::*;
use vstd::string::StrSliceExecFns;
use vstd::string::StringExecFns;
use crate::text::has_prefix;
use crate::text::str_has_prefix_from;

verus! {

/// A character with the Unicode `White_Space` property, the set that leading
/// trimming removes.
pub open spec fn is_space_char(c: char) -> bool {
    ||| c == '\u{0009}'
    ||| c == '\u{000A}'
    ||| c == '\u{000B}'
    ||| c == '\u{000C}'
    ||| c == '\u{000D}'
    ||| c == '\u{0020}'
    ||| c == '\u{0085}'
    ||| c == '\u{00A0}'
    ||| c == '\u{1680}'
    ||| c == '\u{2000}'
    ||| c == '\u{2001}'
    ||| c == '\u{2002}'
    ||| c == '\u{2003}'
    ||| c == '\u{2004}'
    ||| c == '\u{2005}'
    ||| c == '\u{2006}'
    ||| c == '\u{2007}'
    ||| c == '\u{2008}'
    ||| c == '\u{2009}'
    ||| c == '\u{200A}'
    ||| c == '\u{2028}'
    ||| c == '\u{2029}'
    ||| c == '\u{202F}'
    ||| c == '\u{205F}'
    ||| c == '\u{3000}'
}

/// Whether `c` has the Unicode `White_Space` property.
pub fn char_is_space(c: char) -> (r: bool)
    ensures
        r == is_space_char(c),
{
    c == '\u{0009}' || c == '\u{000A}' || c == '\u{000B}' || c == '\u{000C}' || c == '\u{000D}'
        || c == '\u{0020}' || c == '\u{0085}' || c == '\u{00A0}' || c == '\u{1680}'
        || c == '\u{2000}' || c == '\u{2001}' || c == '\u{2002}' || c == '\u{2003}'
        || c == '\u{2004}' || c == '\u{2005}' || c == '\u{2006}' || c == '\u{2007}'
        || c == '\u{2008}' || c == '\u{2009}' || c == '\u{200A}' || c == '\u{2028}'
        || c == '\u{2029}' || c == '\u{202F}' || c == '\u{205F}' || c == '\u{3000}'
}

/// `s` with its leading white space removed.
pub open spec fn trim_start_spec(s: Seq<char>) -> Seq<char>
    decreases s.len(),
{
    if s.len() > 0 && is_space_char(s[0]) {
        trim_start_spec(s.drop_first())
    } else {
        s
    }
}

/// The number of leading white-space characters of `s`.
fn leading_space_count(s: &str) -> (i: usize)
    ensures
        i <= s@.len(),
        trim_start_spec(s@) == s@.skip(i as int),
{
    let len = s.unicode_len();
    let mut i: usize = 0;
    proof {
        assert(s@.skip(0) =~= s@);
    }
    while i < len && char_is_space(s.get_char(i))
        invariant
            len == s@.len(),
            i <= len,
            trim_start_spec(s@) == trim_start_spec(s@.skip(i as int)),
        decreases len - i,
    {
        proof {
            assert(s@.skip(i as int)[0] == s@[i as int]);
            assert(s@.skip(i as int).drop_first() =~= s@.skip(i + 1));
        }
        i += 1;
    }
    proof {
        if i < len {
            assert(s@.skip(i as int)[0] == s@[i as int]);
        } else {
            assert(s@.skip(i as int) =~= Seq::<char>::empty());
        }
    }
    i
}

/// The trimmed text already begins with a keyword that signals a complete
/// top-level declaration: an export statement, a type alias, an interface,
/// or an ambient declaration.
pub open spec fn is_complete_declaration(s: Seq<char>) -> bool {
    ||| has_prefix(trim_start_spec(s), "export"@)
    ||| has_prefix(trim_start_spec(s), "type "@)
    ||| has_prefix(trim_start_spec(s), "interface "@)
    ||| has_prefix(trim_start_spec(s), "declare "@)
}

/// Prefix-keyword classifier over the trimmed input. It does not parse the
/// input to confirm the guess; a wrong guess fails downstream as a syntax
/// error.
pub fn check_complete_declaration(s: &str) -> (r: bool)
    ensures
        r == is_complete_declaration(s@),
{
    let off = leading_space_count(s);
    str_has_prefix_from(s, off, "export") || str_has_prefix_from(s, off, "type ")
        || str_has_prefix_from(s, off, "interface ") || str_has_prefix_from(s, off, "declare ")
}

/// The input wrapped in a synthetic type alias binding the reserved name, so
/// that a bare type expression becomes a parseable statement.
pub open spec fn wrapped_form(s: Seq<char>) -> Seq<char> {
    "type __ValidationType = "@ + s + ";"@
}

/// The text actually fed to the structural parser: the input itself when it
/// already forms a complete declaration, its wrapped form otherwise.
pub open spec fn normalized_form(s: Seq<char>) -> Seq<char> {
    if is_complete_declaration(s) {
        s
    } else {
        wrapped_form(s)
    }
}

/// Normalizes the raw input for parsing. The result is purely an internal
/// parsing aid; acceptance always returns the original input, never this.
pub fn normalize(input: &str) -> (r: String)
    ensures
        r@ == normalized_form(input@),
{
    if check_complete_declaration(input) {
        String::from_str(input)
    } else {
        let mut r = String::from_str("type __ValidationType = ");
        r.append(input);
        r.append(";");
        r
    }
}

} // verus!
