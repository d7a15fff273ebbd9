use vstd::prelude::*;

use crate::errors::SpecError;
use crate::options::SpecOptions;

verus! {

/// The outcome of resolving a template at a given recursion depth: `None`
/// when the depth does not suffice, otherwise the resolved text or the first
/// error met.
pub type SpecOutcome = Option<Result<Seq<char>, SpecError>>;

/// The characters an escape sequence may produce inside a directive key.
pub open spec fn is_key_escapable(c: char) -> bool {
    c == '*' || c == '\\' || c == '{' || c == '}'
}

/// Scans a directive key from position `i`: the text up to the first
/// unescaped `}` or the end of the template, with escape sequences resolved.
/// Returns the key and the number of characters consumed.
pub open spec fn scan_key(t: Seq<char>, i: int) -> (Seq<char>, nat)
    decreases t.len() - i,
{
    if i < 0 || i >= t.len() {
        (Seq::empty(), 0)
    } else if t[i] == '}' {
        (Seq::empty(), 0)
    } else if t[i] == '\\' && i + 1 < t.len() && is_key_escapable(t[i + 1]) {
        let r = scan_key(t, i + 2);
        (seq![t[i + 1]] + r.0, (r.1 + 2) as nat)
    } else if t[i] == '\\' {
        let r = scan_key(t, i + 1);
        (seq!['\\'] + r.0, (r.1 + 1) as nat)
    } else {
        let r = scan_key(t, i + 1);
        (seq![t[i]] + r.0, (r.1 + 1) as nat)
    }
}

/// Reads the `*`/`**` prefix of a directive key. A single `*` marks a
/// pointer; `**` marks an injection inside a triple-brace directive and
/// degrades to a plain lookup elsewhere. Returns the pointer flag, the
/// inject flag, and the number of characters consumed.
pub open spec fn scan_flags(t: Seq<char>, i: int, apply_template: bool) -> (bool, bool, nat) {
    if 0 <= i < t.len() && t[i] == '*' {
        if i + 1 < t.len() && t[i + 1] == '*' {
            (false, apply_template, 2)
        } else {
            (true, false, 1)
        }
    } else {
        (false, false, 0)
    }
}

/// The count word inside an unbalanced-bracket message.
pub open spec fn bracket_word(n: int) -> Seq<char> {
    if n == 3 {
        "three"@
    } else if n == 2 {
        "two"@
    } else {
        "one"@
    }
}

/// The message of the unbalanced-bracket error: how many closing braces are
/// missing, and the key parsed so far.
pub open spec fn bracket_msg(n: int, key: Seq<char>) -> Seq<char> {
    "Missing "@ + bracket_word(n) + " curvy bracket `}` around `"@ + key + "`."@
}

/// Checks the closing braces of a directive whose key ended at position `j`:
/// `Ok` when the required count is present, otherwise the unbalanced-bracket
/// error saying how many braces are missing.
pub open spec fn closing_check(t: Seq<char>, j: int, apply_template: bool, key: Seq<char>) -> Result<(), SpecError> {
    if !(j < t.len() && t[j] == '}') {
        Err(SpecError::MissingCurvyBracket(bracket_msg(if apply_template { 3int } else { 2int }, key)))
    } else if !(j + 1 < t.len() && t[j + 1] == '}') {
        Err(SpecError::MissingCurvyBracket(bracket_msg(if apply_template { 2int } else { 1int }, key)))
    } else if apply_template && !(j + 2 < t.len() && t[j + 2] == '}') {
        Err(SpecError::MissingCurvyBracket(bracket_msg(1, key)))
    } else {
        Ok(())
    }
}

/// The error message for a key absent from the data dictionary.
pub open spec fn unknown_data_msg(key: Seq<char>) -> Seq<char> {
    "The field `"@ + key + "` does not exist in data."@
}

/// The error message for a key absent from the translation dictionary.
pub open spec fn unknown_translation_msg(key: Seq<char>) -> Seq<char> {
    "The field `"@ + key + "` does not exist in translations."@
}

/// The default placeholder for a missing data key.
pub open spec fn missing_key_placeholder(key: Seq<char>) -> Seq<char> {
    "[MISSING_DATA_KEY: `"@ + key + "`]"@
}

/// The default placeholder for a missing translation.
pub open spec fn missing_translation_placeholder(name: Seq<char>) -> Seq<char> {
    "[MISSING_TRANSLATION_KEY: `"@ + name + "`]"@
}

/// What a failed data lookup contributes: the unknown-field error under
/// strict mode, else placeholder text per the missing-key policy.
pub open spec fn missing_key_outcome(key: Seq<char>, o: SpecOptions) -> Result<Seq<char>, SpecError> {
    if !o.safe_parse {
        Err(SpecError::UnknownField(unknown_data_msg(key)))
    } else if o.display_missing_keys {
        match o.override_missing_keys {
            Some(f) => Ok(f(key)),
            None => Ok(missing_key_placeholder(key)),
        }
    } else {
        Ok(Seq::empty())
    }
}

/// What a failed translation lookup contributes. The placeholder policy sees
/// `shown` — the name whose translation is missing, which through a pointer
/// is the looked-up data value — while the strict-mode error names the
/// directive key itself.
pub open spec fn missing_translation_outcome(shown: Seq<char>, key: Seq<char>, o: SpecOptions) -> Result<
    Seq<char>,
    SpecError,
> {
    if !o.safe_parse {
        Err(SpecError::UnknownField(unknown_translation_msg(key)))
    } else if o.display_missing_translations {
        match o.override_missing_translations {
            Some(f) => Ok(f(shown)),
            None => Ok(missing_translation_placeholder(shown)),
        }
    } else {
        Ok(Seq::empty())
    }
}

/// Prepends already-resolved text to the outcome of the rest of a template.
pub open spec fn prepend_outcome(prefix: Seq<char>, rest: SpecOutcome) -> SpecOutcome {
    match rest {
        Some(r) => match r {
            Ok(s) => Some(Ok(prefix + s)),
            Err(e) => Some(Err(e)),
        },
        None => None,
    }
}

/// Resolves one parsed directive against the dictionaries, in the priority
/// order of the directive shapes. Recursion into a sub-template costs one
/// unit of `depth`; `None` means the depth did not suffice.
pub open spec fn spec_resolve(
    apply_template: bool,
    pointer: bool,
    inject: bool,
    key: Seq<char>,
    translation: Map<Seq<char>, Seq<char>>,
    data: Map<Seq<char>, Seq<char>>,
    o: SpecOptions,
    depth: nat,
) -> SpecOutcome
    decreases depth, 0int, 0int,
{
    if apply_template {
        if pointer {
            if data.contains_key(key) {
                if translation.contains_key(data[key]) {
                    if depth == 0 {
                        None
                    } else {
                        spec_generate_from(translation[data[key]], 0, translation, data, o, (depth - 1) as nat)
                    }
                } else {
                    Some(missing_translation_outcome(data[key], key, o))
                }
            } else {
                Some(missing_key_outcome(key, o))
            }
        } else if inject {
            if data.contains_key(key) {
                if depth == 0 {
                    None
                } else {
                    spec_generate_from(data[key], 0, translation, data, o, (depth - 1) as nat)
                }
            } else {
                Some(missing_key_outcome(key, o))
            }
        } else {
            if translation.contains_key(key) {
                if depth == 0 {
                    None
                } else {
                    spec_generate_from(translation[key], 0, translation, data, o, (depth - 1) as nat)
                }
            } else {
                Some(missing_translation_outcome(key, key, o))
            }
        }
    } else if pointer {
        if data.contains_key(key) {
            if translation.contains_key(data[key]) {
                Some(Ok(translation[data[key]]))
            } else {
                Some(missing_translation_outcome(data[key], key, o))
            }
        } else {
            Some(missing_key_outcome(key, o))
        }
    } else {
        if data.contains_key(key) {
            Some(Ok(data[key]))
        } else {
            Some(missing_key_outcome(key, o))
        }
    }
}

/// The meaning of a template from position `i` on: ordinary characters pass
/// through, escapes resolve, and each directive span is parsed, resolved and
/// spliced in, with recursion into sub-templates bounded by `depth`.
pub open spec fn spec_generate_from(
    t: Seq<char>,
    i: int,
    translation: Map<Seq<char>, Seq<char>>,
    data: Map<Seq<char>, Seq<char>>,
    o: SpecOptions,
    depth: nat,
) -> SpecOutcome
    decreases depth, t.len() - i, 1int,
{
    if i < 0 || i >= t.len() {
        Some(Ok(Seq::empty()))
    } else if t[i] == '{' && i + 1 < t.len() && t[i + 1] == '{' {
        let apply_template = i + 2 < t.len() && t[i + 2] == '{';
        let start: int = if apply_template {
            i + 3
        } else {
            i + 2
        };
        let flags = scan_flags(t, start, apply_template);
        let keyr = scan_key(t, start + flags.2);
        let j: int = start + flags.2 + keyr.1;
        match closing_check(t, j, apply_template, keyr.0) {
            Err(e) => Some(Err(e)),
            Ok(unit) => {
                let next: int = j + if apply_template {
                    3int
                } else {
                    2int
                };
                match spec_resolve(apply_template, flags.0, flags.1, keyr.0, translation, data, o, depth) {
                    None => None,
                    Some(r) => match r {
                        Err(e) => Some(Err(e)),
                        Ok(v) => prepend_outcome(v, spec_generate_from(t, next, translation, data, o, depth)),
                    },
                }
            },
        }
    } else if t[i] == '{' {
        prepend_outcome(seq!['{'], spec_generate_from(t, i + 1, translation, data, o, depth))
    } else if t[i] == '\\' && i + 1 < t.len() && (t[i + 1] == '{' || t[i + 1] == '}' || t[i + 1] == '\\') {
        prepend_outcome(seq![t[i + 1]], spec_generate_from(t, i + 2, translation, data, o, depth))
    } else if t[i] == '\\' {
        prepend_outcome(seq!['\\'], spec_generate_from(t, i + 1, translation, data, o, depth))
    } else {
        prepend_outcome(seq![t[i]], spec_generate_from(t, i + 1, translation, data, o, depth))
    }
}

/// The meaning of a whole template at a given recursion depth.
pub open spec fn spec_generate(
    t: Seq<char>,
    translation: Map<Seq<char>, Seq<char>>,
    data: Map<Seq<char>, Seq<char>>,
    o: SpecOptions,
    depth: nat,
) -> SpecOutcome {
    spec_generate_from(t, 0, translation, data, o, depth)
}

} // verus!
