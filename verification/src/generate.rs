use vstd::prelude::*;

use crate::dictionary::Dictionary;
use crate::errors::SpecError;
use crate::errors::StringTemplaterError;
use crate::options::OverrideMessage;
use crate::options::StringTemplaterOptions;
use crate::semantics::bracket_msg;
use crate::semantics::closing_check;
use crate::semantics::missing_key_outcome;
use crate::semantics::missing_translation_outcome;
use crate::semantics::prepend_outcome;
use crate::semantics::scan_flags;
use crate::semantics::scan_key;
use crate::semantics::spec_generate;
use crate::semantics::spec_generate_from;
use crate::semantics::spec_resolve;
use crate::semantics::SpecOutcome;
use crate::text::bracket_message;
use crate::text::chars_to_string;
use crate::text::data_placeholder_message;
use crate::text::str_chars;
use crate::text::translation_placeholder_message;
use crate::text::unknown_data_message;
use crate::text::unknown_translation_message;

verus! {

/// The model of a finished result: the resolved text or the error.
pub open spec fn result_view(r: Result<String, StringTemplaterError>) -> Result<Seq<char>, SpecError> {
    match r {
        Ok(s) => Ok(s@),
        Err(e) => Err(e@),
    }
}

spec fn vec_result_view(r: Result<Vec<char>, StringTemplaterError>) -> Result<Seq<char>, SpecError> {
    match r {
        Ok(v) => Ok(v@),
        Err(e) => Err(e@),
    }
}

spec fn outcome_view(r: Option<Result<Vec<char>, StringTemplaterError>>) -> SpecOutcome {
    match r {
        Some(x) => Some(vec_result_view(x)),
        None => None,
    }
}

proof fn lemma_prepend_empty(rest: SpecOutcome)
    ensures
        prepend_outcome(Seq::empty(), rest) == rest,
{
    match rest {
        Some(r) => match r {
            Ok(s) => {
                assert(Seq::empty() + s =~= s);
            },
            Err(e) => {},
        },
        None => {},
    }
}

proof fn lemma_prepend_assoc(a: Seq<char>, b: Seq<char>, rest: SpecOutcome)
    ensures
        prepend_outcome(a, prepend_outcome(b, rest)) == prepend_outcome(a + b, rest),
{
    match rest {
        Some(r) => match r {
            Ok(s) => {
                assert(a + (b + s) =~= (a + b) + s);
            },
            Err(e) => {},
        },
        None => {},
    }
}

/// One unfolding of `spec_generate_from` at the start of a directive.
proof fn lemma_directive_unfold(
    t: Seq<char>,
    i: int,
    translation: Map<Seq<char>, Seq<char>>,
    data: Map<Seq<char>, Seq<char>>,
    o: crate::options::SpecOptions,
    depth: nat,
)
    requires
        0 <= i,
        i + 1 < t.len(),
        t[i] == '{',
        t[i + 1] == '{',
    ensures
        ({
            let apply_template = i + 2 < t.len() && t[i + 2] == '{';
            let start: int = if apply_template {
                i + 3
            } else {
                i + 2
            };
            let flags = scan_flags(t, start, apply_template);
            let keyr = scan_key(t, start + flags.2);
            let j: int = start + flags.2 + keyr.1;
            spec_generate_from(t, i, translation, data, o, depth) == match closing_check(t, j, apply_template, keyr.0) {
                Err(e) => Some(Err(e)),
                Ok(unit) => {
                    let next: int = j + if apply_template {
                        3int
                    } else {
                        2int
                    };
                    match spec_resolve(apply_template, flags.0, flags.1, keyr.0, translation, data, o, depth) {
                        None => None,
                        Some(r) => match r {
                            Err(e) => Some(Err(e)),
                            Ok(v) => prepend_outcome(v, spec_generate_from(t, next, translation, data, o, depth)),
                        },
                    }
                },
            }
        }),
{
}

/// What a missing data key contributes, per the options.
fn handle_missing_key<F: OverrideMessage, G: OverrideMessage>(
    key_string: &String,
    option: &StringTemplaterOptions<F, G>,
) -> (r: Result<Vec<char>, StringTemplaterError>)
    ensures
        vec_result_view(r) == missing_key_outcome(key_string@, option@),
{
    if !option.safe_parse {
        Err(StringTemplaterError::UnknownField(unknown_data_message(key_string.as_str())))
    } else if option.display_missing_keys {
        match &option.override_missing_keys {
            Some(f) => {
                let s = f.message(key_string);
                Ok(str_chars(s.as_str()))
            },
            None => {
                let s = data_placeholder_message(key_string.as_str());
                Ok(str_chars(s.as_str()))
            },
        }
    } else {
        Ok(Vec::new())
    }
}

/// What a missing translation contributes, per the options. The placeholder
/// policy shows `shown`; the strict-mode error names `key_string`.
fn handle_missing_translation<F: OverrideMessage, G: OverrideMessage>(
    shown: &String,
    key_string: &String,
    option: &StringTemplaterOptions<F, G>,
) -> (r: Result<Vec<char>, StringTemplaterError>)
    ensures
        vec_result_view(r) == missing_translation_outcome(shown@, key_string@, option@),
{
    if !option.safe_parse {
        Err(StringTemplaterError::UnknownField(unknown_translation_message(key_string.as_str())))
    } else if option.display_missing_translations {
        match &option.override_missing_translations {
            Some(f) => {
                let s = f.message(shown);
                Ok(str_chars(s.as_str()))
            },
            None => {
                let s = translation_placeholder_message(shown.as_str());
                Ok(str_chars(s.as_str()))
            },
        }
    } else {
        Ok(Vec::new())
    }
}

/// Resolves a sub-template found during substitution, spending one unit of
/// fuel on the recursion.
fn generate_sub<F: OverrideMessage, G: OverrideMessage>(
    sub: &String,
    translation: &Dictionary,
    data: &Dictionary,
    option: &StringTemplaterOptions<F, G>,
    fuel: u64,
) -> (r: Option<Result<Vec<char>, StringTemplaterError>>)
    ensures
        outcome_view(r) == if fuel == 0 {
            None::<Result<Seq<char>, SpecError>>
        } else {
            spec_generate_from(sub@, 0, translation@, data@, option@, (fuel - 1) as nat)
        },
    decreases fuel, 0int,
{
    if fuel == 0 {
        None
    } else {
        let sub_chars = str_chars(sub.as_str());
        generate_chars(&sub_chars, translation, data, option, fuel - 1)
    }
}

/// Resolves one parsed directive against the dictionaries.
fn resolve_directive<F: OverrideMessage, G: OverrideMessage>(
    apply_template: bool,
    pointer: bool,
    inject: bool,
    key_string: &String,
    translation: &Dictionary,
    data: &Dictionary,
    option: &StringTemplaterOptions<F, G>,
    fuel: u64,
) -> (r: Option<Result<Vec<char>, StringTemplaterError>>)
    ensures
        outcome_view(r) == spec_resolve(
            apply_template,
            pointer,
            inject,
            key_string@,
            translation@,
            data@,
            option@,
            fuel as nat,
        ),
    decreases fuel, 1int,
{
    if apply_template {
        if pointer {
            match data.get(key_string) {
                Some(value) => match translation.get(&value) {
                    Some(sub) => generate_sub(&sub, translation, data, option, fuel),
                    None => Some(handle_missing_translation(&value, key_string, option)),
                },
                None => Some(handle_missing_key(key_string, option)),
            }
        } else if inject {
            match data.get(key_string) {
                Some(sub) => generate_sub(&sub, translation, data, option, fuel),
                None => Some(handle_missing_key(key_string, option)),
            }
        } else {
            match translation.get(key_string) {
                Some(sub) => generate_sub(&sub, translation, data, option, fuel),
                None => Some(handle_missing_translation(key_string, key_string, option)),
            }
        }
    } else if pointer {
        match data.get(key_string) {
            Some(value) => match translation.get(&value) {
                Some(found) => Some(Ok(str_chars(found.as_str()))),
                None => Some(handle_missing_translation(&value, key_string, option)),
            },
            None => Some(handle_missing_key(key_string, option)),
        }
    } else {
        match data.get(key_string) {
            Some(value) => Some(Ok(str_chars(value.as_str()))),
            None => Some(handle_missing_key(key_string, option)),
        }
    }
}

/// Scans the template characters once, left to right, resolving each
/// directive span as it is parsed. Computes exactly the outcome that
/// `spec_generate_from` gives at this fuel.
#[verifier::loop_isolation(false)]
#[verifier::rlimit(100)]
fn generate_chars<F: OverrideMessage, G: OverrideMessage>(
    t: &Vec<char>,
    translation: &Dictionary,
    data: &Dictionary,
    option: &StringTemplaterOptions<F, G>,
    fuel: u64,
) -> (r: Option<Result<Vec<char>, StringTemplaterError>>)
    ensures
        outcome_view(r) == spec_generate_from(t@, 0, translation@, data@, option@, fuel as nat),
    decreases fuel, 2int,
{
    let ghost gt = t@;
    let ghost tr = translation@;
    let ghost da = data@;
    let ghost op = option@;
    let ghost dep = fuel as nat;
    let mut acc: Vec<char> = Vec::new();
    let mut i: usize = 0;
    proof {
        assert(acc@ =~= Seq::<char>::empty());
        lemma_prepend_empty(spec_generate_from(gt, 0, tr, da, op, dep));
    }
    while i < t.len()
        invariant
            i <= t.len(),
            spec_generate_from(gt, 0, tr, da, op, dep) == prepend_outcome(
                acc@,
                spec_generate_from(gt, i as int, tr, da, op, dep),
            ),
        decreases t.len() - i,
    {
        let c = t[i];
        if c == '{' && i + 1 < t.len() && t[i + 1] == '{' {
            let ghost i0 = i as int;
            let mut p: usize = i + 2;
            let apply_template = p < t.len() && t[p] == '{';
            if apply_template {
                p = p + 1;
            }
            let ghost start = p as int;
            let mut pointer = false;
            let mut inject = false;
            if p < t.len() && t[p] == '*' {
                if p + 1 < t.len() && t[p + 1] == '*' {
                    inject = apply_template;
                    p = p + 2;
                } else {
                    pointer = true;
                    p = p + 1;
                }
            }
            proof {
                assert(scan_flags(gt, start, apply_template) == (pointer, inject, (p as int - start) as nat));
            }
            let ghost ks = p as int;
            let mut key: Vec<char> = Vec::new();
            proof {
                assert(key@ =~= Seq::<char>::empty());
                assert(scan_key(gt, ks).0 =~= key@ + scan_key(gt, ks).0);
            }
            while p < t.len() && t[p] != '}'
                invariant
                    ks <= p as int,
                    p <= t.len(),
                    scan_key(gt, ks).0 == key@ + scan_key(gt, p as int).0,
                    ks + scan_key(gt, ks).1 == p + scan_key(gt, p as int).1,
                decreases t.len() - p,
            {
                let ghost p0 = p as int;
                let ghost key0 = key@;
                if t[p] == '\\' && p + 1 < t.len() && (t[p + 1] == '*' || t[p + 1] == '\\' || t[p + 1] == '{'
                    || t[p + 1] == '}') {
                    key.push(t[p + 1]);
                    p = p + 2;
                    proof {
                        assert(scan_key(gt, p0).0 == seq![gt[p0 + 1]] + scan_key(gt, p0 + 2).0);
                        assert(scan_key(gt, p0).1 == scan_key(gt, p0 + 2).1 + 2);
                        assert(key@ =~= key0 + seq![gt[p0 + 1]]);
                        assert(key0 + (seq![gt[p0 + 1]] + scan_key(gt, p0 + 2).0) =~= key@ + scan_key(gt, p0 + 2).0);
                    }
                } else if t[p] == '\\' {
                    key.push('\\');
                    p = p + 1;
                    proof {
                        assert(scan_key(gt, p0).0 == seq!['\\'] + scan_key(gt, p0 + 1).0);
                        assert(scan_key(gt, p0).1 == scan_key(gt, p0 + 1).1 + 1);
                        assert(key@ =~= key0 + seq!['\\']);
                        assert(key0 + (seq!['\\'] + scan_key(gt, p0 + 1).0) =~= key@ + scan_key(gt, p0 + 1).0);
                    }
                } else {
                    key.push(t[p]);
                    p = p + 1;
                    proof {
                        assert(scan_key(gt, p0).0 == seq![gt[p0]] + scan_key(gt, p0 + 1).0);
                        assert(scan_key(gt, p0).1 == scan_key(gt, p0 + 1).1 + 1);
                        assert(key@ =~= key0 + seq![gt[p0]]);
                        assert(key0 + (seq![gt[p0]] + scan_key(gt, p0 + 1).0) =~= key@ + scan_key(gt, p0 + 1).0);
                    }
                }
            }
            proof {
                assert(scan_key(gt, p as int).0 =~= Seq::<char>::empty());
                assert(scan_key(gt, p as int).1 == 0);
                assert(key@ + Seq::<char>::empty() =~= key@);
                assert(scan_key(gt, ks).0 =~= key@);
                assert(ks + scan_key(gt, ks).1 == p as int);
            }
            let ghost j = p as int;
            let key_string = chars_to_string(&key);
            proof {
                lemma_directive_unfold(gt, i0, tr, da, op, dep);
            }
            if p < t.len() && t[p] == '}' {
                p = p + 1;
            } else {
                let msg = bracket_message(if apply_template { 3 } else { 2 }, key_string.as_str());
                let e = StringTemplaterError::MissingCurvyBracket(msg);
                proof {
                    assert(spec_generate_from(gt, i0, tr, da, op, dep) == Some(
                        Err::<Seq<char>, SpecError>(e@),
                    ));
                }
                return Some(Err(e));
            }
            if p < t.len() && t[p] == '}' {
                p = p + 1;
            } else {
                let msg = bracket_message(if apply_template { 2 } else { 1 }, key_string.as_str());
                let e = StringTemplaterError::MissingCurvyBracket(msg);
                proof {
                    assert(spec_generate_from(gt, i0, tr, da, op, dep) == Some(
                        Err::<Seq<char>, SpecError>(e@),
                    ));
                }
                return Some(Err(e));
            }
            if apply_template {
                if p < t.len() && t[p] == '}' {
                    p = p + 1;
                } else {
                    let msg = bracket_message(1, key_string.as_str());
                    let e = StringTemplaterError::MissingCurvyBracket(msg);
                    proof {
                        assert(spec_generate_from(gt, i0, tr, da, op, dep) == Some(
                            Err::<Seq<char>, SpecError>(e@),
                        ));
                    }
                    return Some(Err(e));
                }
            }
            proof {
                assert(closing_check(gt, j, apply_template, key@) == Ok::<(), SpecError>(()));
                assert(p as int == j + if apply_template {
                    3int
                } else {
                    2int
                });
            }
            match resolve_directive(apply_template, pointer, inject, &key_string, translation, data, option, fuel) {
                None => {
                    proof {
                        assert(spec_generate_from(gt, i0, tr, da, op, dep) is None);
                    }
                    return None;
                },
                Some(rr) => match rr {
                    Err(e) => {
                        proof {
                            assert(spec_generate_from(gt, i0, tr, da, op, dep) == Some(
                                Err::<Seq<char>, SpecError>(e@),
                            ));
                        }
                        return Some(Err(e));
                    },
                    Ok(mut v) => {
                        let ghost acc0 = acc@;
                        let ghost v0 = v@;
                        proof {
                            assert(spec_generate_from(gt, i0, tr, da, op, dep) == prepend_outcome(
                                v0,
                                spec_generate_from(gt, p as int, tr, da, op, dep),
                            ));
                        }
                        acc.append(&mut v);
                        proof {
                            assert(acc@ =~= acc0 + v0);
                            lemma_prepend_assoc(acc0, v0, spec_generate_from(gt, p as int, tr, da, op, dep));
                        }
                        i = p;
                    },
                },
            }
        } else if c == '{' {
            let ghost acc0 = acc@;
            acc.push('{');
            proof {
                assert(acc@ =~= acc0 + seq!['{']);
                assert(spec_generate_from(gt, i as int, tr, da, op, dep) == prepend_outcome(
                    seq!['{'],
                    spec_generate_from(gt, i as int + 1, tr, da, op, dep),
                ));
                lemma_prepend_assoc(acc0, seq!['{'], spec_generate_from(gt, i as int + 1, tr, da, op, dep));
            }
            i = i + 1;
        } else if c == '\\' {
            if i + 1 < t.len() && (t[i + 1] == '{' || t[i + 1] == '}' || t[i + 1] == '\\') {
                let ghost acc0 = acc@;
                acc.push(t[i + 1]);
                proof {
                    assert(acc@ =~= acc0 + seq![gt[i as int + 1]]);
                    assert(spec_generate_from(gt, i as int, tr, da, op, dep) == prepend_outcome(
                        seq![gt[i as int + 1]],
                        spec_generate_from(gt, i as int + 2, tr, da, op, dep),
                    ));
                    lemma_prepend_assoc(
                        acc0,
                        seq![gt[i as int + 1]],
                        spec_generate_from(gt, i as int + 2, tr, da, op, dep),
                    );
                }
                i = i + 2;
            } else {
                let ghost acc0 = acc@;
                acc.push('\\');
                proof {
                    assert(acc@ =~= acc0 + seq!['\\']);
                    assert(spec_generate_from(gt, i as int, tr, da, op, dep) == prepend_outcome(
                        seq!['\\'],
                        spec_generate_from(gt, i as int + 1, tr, da, op, dep),
                    ));
                    lemma_prepend_assoc(acc0, seq!['\\'], spec_generate_from(gt, i as int + 1, tr, da, op, dep));
                }
                i = i + 1;
            }
        } else {
            let ghost acc0 = acc@;
            acc.push(c);
            proof {
                assert(acc@ =~= acc0 + seq![gt[i as int]]);
                assert(spec_generate_from(gt, i as int, tr, da, op, dep) == prepend_outcome(
                    seq![gt[i as int]],
                    spec_generate_from(gt, i as int + 1, tr, da, op, dep),
                ));
                lemma_prepend_assoc(acc0, seq![gt[i as int]], spec_generate_from(gt, i as int + 1, tr, da, op, dep));
            }
            i = i + 1;
        }
    }
    proof {
        assert(spec_generate_from(gt, i as int, tr, da, op, dep) == Some(Ok::<Seq<char>, SpecError>(Seq::empty())));
        assert(acc@ + Seq::<char>::empty() =~= acc@);
    }
    Some(Ok(acc))
}

/// The recursion depth the engine supports. A template whose resolution
/// nests sub-templates deeper than this — in practice only a
/// self-referential translation table, which no real call stack survives
/// either — is outside the engine's domain.
pub open spec fn max_depth() -> nat {
    u64::MAX as nat
}

/// Generate the template with options using translation and data.
///
/// The input must resolve within the supported recursion depth: the
/// dictionaries must not make the template refer to itself without end.
/// The result is then exactly what the resolution semantics gives.
pub fn generate<F: OverrideMessage, G: OverrideMessage>(
    template_str: &str,
    translation: &Dictionary,
    data: &Dictionary,
    option: &StringTemplaterOptions<F, G>,
) -> (r: Result<String, StringTemplaterError>)
    requires
        spec_generate(template_str@, translation@, data@, option@, max_depth()) is Some,
    ensures
        spec_generate(template_str@, translation@, data@, option@, max_depth()) == Some(result_view(r)),
{
    let chars = str_chars(template_str);
    match generate_chars(&chars, translation, data, option, u64::MAX) {
        Some(rr) => match rr {
            Ok(v) => Ok(chars_to_string(&v)),
            Err(e) => Err(e),
        },
        None => vstd::pervasive::unreached(),
    }
}

} // verus!
