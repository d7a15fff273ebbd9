use vstd::prelude::*;
use vstd::string::StringExecFns;

use crate::dictionary::Dictionary;
use crate::text::chars_to_string;

verus! {

/// A structured value as the flattener consumes it: the shape of the
/// caller's data, with numbers already rendered to their canonical text by
/// the serialization layer that produced the value.
#[derive(Debug)]
pub enum StructuredValue {
    /// A null scalar; flattens to the text `null`.
    Null,
    /// A boolean scalar; flattens to `true` or `false`.
    Bool(bool),
    /// A numeric scalar, carried as its canonical text.
    Number(String),
    /// A string scalar; flattens to its characters, unquoted.
    Text(String),
    /// An array; each element is keyed by its zero-based position.
    Array(Vec<StructuredValue>),
    /// An object; each entry is keyed by its name.
    Object(Vec<(String, StructuredValue)>),
}

/// The decimal digit character for `n` in 0 to 9.
pub open spec fn digit_char(n: int) -> char {
    if n == 0 {
        '0'
    } else if n == 1 {
        '1'
    } else if n == 2 {
        '2'
    } else if n == 3 {
        '3'
    } else if n == 4 {
        '4'
    } else if n == 5 {
        '5'
    } else if n == 6 {
        '6'
    } else if n == 7 {
        '7'
    } else if n == 8 {
        '8'
    } else {
        '9'
    }
}

/// The canonical decimal text of a number.
pub open spec fn dec_str(n: nat) -> Seq<char>
    decreases n,
{
    if n < 10 {
        seq![digit_char(n as int)]
    } else {
        dec_str(n / 10).push(digit_char((n % 10) as int))
    }
}

/// The decimal digit character of one digit.
fn digit_of(n: usize) -> (c: char)
    requires
        n < 10,
    ensures
        c == digit_char(n as int),
{
    if n == 0 {
        '0'
    } else if n == 1 {
        '1'
    } else if n == 2 {
        '2'
    } else if n == 3 {
        '3'
    } else if n == 4 {
        '4'
    } else if n == 5 {
        '5'
    } else if n == 6 {
        '6'
    } else if n == 7 {
        '7'
    } else if n == 8 {
        '8'
    } else {
        '9'
    }
}

/// Appends the decimal text of `n` to `out`.
fn push_dec(n: usize, out: &mut Vec<char>)
    ensures
        final(out)@ == old(out)@ + dec_str(n as nat),
    decreases n,
{
    let ghost pre = out@;
    if n >= 10 {
        push_dec(n / 10, out);
        out.push(digit_of(n % 10));
        proof {
            assert(out@ =~= pre + dec_str((n / 10) as nat).push(digit_char((n % 10) as int)));
        }
    } else {
        out.push(digit_of(n));
        proof {
            assert(out@ =~= pre + seq![digit_char(n as int)]);
        }
    }
}

/// The decimal text of an array index.
fn index_string(n: usize) -> (r: String)
    ensures
        r@ == dec_str(n as nat),
{
    let mut digits: Vec<char> = Vec::new();
    push_dec(n, &mut digits);
    proof {
        assert(digits@ =~= dec_str(n as nat));
    }
    chars_to_string(&digits)
}

/// The flat dictionary a structured value contributes under `prefix`, added
/// over `m`: a scalar binds its text to `prefix`; arrays and objects recurse
/// into each member with the member's position or name joined by a dot. A
/// later binding of a path overrides an earlier one.
pub open spec fn spec_flatten(prefix: Seq<char>, v: StructuredValue, m: Map<Seq<char>, Seq<char>>) -> Map<
    Seq<char>,
    Seq<char>,
>
    decreases v, 0int,
{
    match v {
        StructuredValue::Null => m.insert(prefix, "null"@),
        StructuredValue::Bool(b) => m.insert(
            prefix,
            if b {
                "true"@
            } else {
                "false"@
            },
        ),
        StructuredValue::Number(s) => m.insert(prefix, s@),
        StructuredValue::Text(s) => m.insert(prefix, s@),
        StructuredValue::Array(items) => spec_flatten_list(prefix, items@, 0, m),
        StructuredValue::Object(entries) => spec_flatten_entries(prefix, entries@, 0, m),
    }
}

/// Flattens the elements of an array from position `idx` on.
pub open spec fn spec_flatten_list(
    prefix: Seq<char>,
    items: Seq<StructuredValue>,
    idx: int,
    m: Map<Seq<char>, Seq<char>>,
) -> Map<Seq<char>, Seq<char>>
    decreases items, items.len() - idx,
{
    if idx < 0 || idx >= items.len() {
        m
    } else {
        spec_flatten_list(prefix, items, idx + 1, spec_flatten(prefix + "."@ + dec_str(idx as nat), items[idx], m))
    }
}

/// Flattens the entries of an object from position `idx` on. At the root —
/// an empty prefix — an entry's path is its own name.
pub open spec fn spec_flatten_entries(
    prefix: Seq<char>,
    entries: Seq<(String, StructuredValue)>,
    idx: int,
    m: Map<Seq<char>, Seq<char>>,
) -> Map<Seq<char>, Seq<char>>
    decreases entries, entries.len() - idx,
{
    if idx < 0 || idx >= entries.len() {
        m
    } else {
        let child_prefix = if prefix.len() == 0 {
            entries[idx].0@
        } else {
            prefix + "."@ + entries[idx].0@
        };
        spec_flatten_entries(prefix, entries, idx + 1, spec_flatten(child_prefix, entries[idx].1, m))
    }
}

/// Flattens `value` into `map`: the depth-first traversal that joins paths
/// with dots and binds each scalar's text to its path.
#[verifier::loop_isolation(false)]
pub fn flatten(prefix: &str, value: &StructuredValue, map: &mut Dictionary)
    ensures
        final(map)@ == spec_flatten(prefix@, *value, old(map)@),
    decreases *value, 0int,
{
    match value {
        StructuredValue::Null => {
            map.insert(prefix.to_owned(), "null".to_owned());
        },
        StructuredValue::Bool(b) => {
            map.insert(
                prefix.to_owned(),
                if *b {
                    "true".to_owned()
                } else {
                    "false".to_owned()
                },
            );
        },
        StructuredValue::Number(s) => {
            map.insert(prefix.to_owned(), s.clone());
        },
        StructuredValue::Text(s) => {
            map.insert(prefix.to_owned(), s.clone());
        },
        StructuredValue::Array(items) => {
            let ghost m0 = map@;
            let mut idx: usize = 0;
            while idx < items.len()
                invariant
                    idx <= items.len(),
                    spec_flatten_list(prefix@, items@, 0, m0) == spec_flatten_list(prefix@, items@, idx as int, map@),
                decreases items.len() - idx,
            {
                let ghost mcur = map@;
                let mut child_prefix = prefix.to_owned();
                child_prefix.append(".");
                let num = index_string(idx);
                child_prefix.append(num.as_str());
                flatten(child_prefix.as_str(), &items[idx], map);
                proof {
                    assert(spec_flatten_list(prefix@, items@, idx as int, mcur) == spec_flatten_list(
                        prefix@,
                        items@,
                        idx as int + 1,
                        map@,
                    ));
                }
                idx = idx + 1;
            }
        },
        StructuredValue::Object(entries) => {
            let ghost m0 = map@;
            let mut idx: usize = 0;
            while idx < entries.len()
                invariant
                    idx <= entries.len(),
                    spec_flatten_entries(prefix@, entries@, 0, m0) == spec_flatten_entries(
                        prefix@,
                        entries@,
                        idx as int,
                        map@,
                    ),
                decreases entries.len() - idx,
            {
                let ghost mcur = map@;
                let child_prefix = if prefix.is_empty() {
                    entries[idx].0.clone()
                } else {
                    let mut joined = prefix.to_owned();
                    joined.append(".");
                    joined.append(entries[idx].0.as_str());
                    joined
                };
                flatten(child_prefix.as_str(), &entries[idx].1, map);
                proof {
                    assert(spec_flatten_entries(prefix@, entries@, idx as int, mcur) == spec_flatten_entries(
                        prefix@,
                        entries@,
                        idx as int + 1,
                        map@,
                    ));
                }
                idx = idx + 1;
            }
        },
    }
}

} // verus!
