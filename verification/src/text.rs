use vstd::prelude::*;
use vstd::string::StrSliceExecFns;
use vstd::string::StringExecFns;

use crate::semantics::bracket_msg;
use crate::semantics::missing_key_placeholder;
use crate::semantics::missing_translation_placeholder;
use crate::semantics::unknown_data_msg;
use crate::semantics::unknown_translation_msg;

verus! {

/// The characters of a string slice, as a vector.
pub fn str_chars(s: &str) -> (r: Vec<char>)
    ensures
        r@ == s@,
{
    let n: usize = s.unicode_len();
    let mut r: Vec<char> = Vec::new();
    let mut i: usize = 0;
    proof {
        assert(r@ =~= s@.subrange(0, 0));
    }
    while i < n
        invariant
            n == s@.len(),
            i <= n,
            r@ == s@.subrange(0, i as int),
        decreases n - i,
    {
        r.push(s.get_char(i));
        i = i + 1;
        proof {
            assert(r@ =~= s@.subrange(0, i as int));
        }
    }
    proof {
        assert(r@ =~= s@);
    }
    r
}

/// Relies on `String`'s `FromIterator<char>` implementation: collecting
/// characters yields the string of exactly those characters in order.
#[verifier::external_body]
pub(crate) fn chars_to_string(v: &Vec<char>) -> (r: String)
    ensures
        r@ == v@,
{
    v.iter().collect()
}

/// The text of the unbalanced-bracket error: `n` closing braces are missing
/// around the partially parsed key.
pub(crate) fn bracket_message(n: usize, key: &str) -> (r: String)
    requires
        1 <= n <= 3,
    ensures
        r@ == bracket_msg(n as int, key@),
{
    let mut m = "Missing ".to_owned();
    if n == 3 {
        m.append("three");
    } else if n == 2 {
        m.append("two");
    } else {
        m.append("one");
    }
    m.append(" curvy bracket `}` around `");
    m.append(key);
    m.append("`.");
    proof {
        assert(m@ =~= bracket_msg(n as int, key@));
    }
    m
}

/// The text of the unknown-field error for a key absent from the data.
pub(crate) fn unknown_data_message(key: &str) -> (r: String)
    ensures
        r@ == unknown_data_msg(key@),
{
    let mut m = "The field `".to_owned();
    m.append(key);
    m.append("` does not exist in data.");
    proof {
        assert(m@ =~= unknown_data_msg(key@));
    }
    m
}

/// The text of the unknown-field error for a key absent from the translations.
pub(crate) fn unknown_translation_message(key: &str) -> (r: String)
    ensures
        r@ == unknown_translation_msg(key@),
{
    let mut m = "The field `".to_owned();
    m.append(key);
    m.append("` does not exist in translations.");
    proof {
        assert(m@ =~= unknown_translation_msg(key@));
    }
    m
}

/// The default placeholder text for a missing data key.
pub(crate) fn data_placeholder_message(key: &str) -> (r: String)
    ensures
        r@ == missing_key_placeholder(key@),
{
    let mut m = "[MISSING_DATA_KEY: `".to_owned();
    m.append(key);
    m.append("`]");
    proof {
        assert(m@ =~= missing_key_placeholder(key@));
    }
    m
}

/// The default placeholder text for a missing translation.
pub(crate) fn translation_placeholder_message(name: &str) -> (r: String)
    ensures
        r@ == missing_translation_placeholder(name@),
{
    let mut m = "[MISSING_TRANSLATION_KEY: `".to_owned();
    m.append(name);
    m.append("`]");
    proof {
        assert(m@ =~= missing_translation_placeholder(name@));
    }
    m
}

} // verus!
