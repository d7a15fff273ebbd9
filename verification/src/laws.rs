use vstd::prelude::*;

use crate::errors::SpecError;
use crate::options::SpecOptions;
use crate::semantics::bracket_msg;
use crate::semantics::closing_check;
use crate::semantics::missing_key_outcome;
use crate::semantics::scan_flags;
use crate::semantics::scan_key;
use crate::semantics::spec_generate;
use crate::semantics::spec_generate_from;
use crate::semantics::spec_resolve;

verus! {

/// Raising the recursion depth never changes a resolution that finished:
/// once `spec_generate_from` yields an answer at one depth, every larger
/// depth yields the same answer.
pub proof fn lemma_generate_from_monotonic(
    t: Seq<char>,
    i: int,
    translation: Map<Seq<char>, Seq<char>>,
    data: Map<Seq<char>, Seq<char>>,
    o: SpecOptions,
    d1: nat,
    d2: nat,
)
    requires
        d1 <= d2,
        spec_generate_from(t, i, translation, data, o, d1) is Some,
    ensures
        spec_generate_from(t, i, translation, data, o, d2) == spec_generate_from(t, i, translation, data, o, d1),
    decreases d1, t.len() - i, 1int,
{
    if i < 0 || i >= t.len() {
    } else if t[i] == '{' && i + 1 < t.len() && t[i + 1] == '{' {
        let apply_template = i + 2 < t.len() && t[i + 2] == '{';
        let start: int = if apply_template {
            i + 3
        } else {
            i + 2
        };
        let flags = scan_flags(t, start, apply_template);
        let keyr = scan_key(t, start + flags.2);
        let j: int = start + flags.2 + keyr.1;
        match closing_check(t, j, apply_template, keyr.0) {
            Err(e) => {},
            Ok(unit) => {
                let next: int = j + if apply_template {
                    3int
                } else {
                    2int
                };
                lemma_resolve_monotonic(apply_template, flags.0, flags.1, keyr.0, translation, data, o, d1, d2);
                match spec_resolve(apply_template, flags.0, flags.1, keyr.0, translation, data, o, d1) {
                    None => {},
                    Some(r) => match r {
                        Err(e) => {},
                        Ok(v) => {
                            lemma_generate_from_monotonic(t, next, translation, data, o, d1, d2);
                        },
                    },
                }
            },
        }
    } else if t[i] == '{' {
        lemma_generate_from_monotonic(t, i + 1, translation, data, o, d1, d2);
    } else if t[i] == '\\' && i + 1 < t.len() && (t[i + 1] == '{' || t[i + 1] == '}' || t[i + 1] == '\\') {
        lemma_generate_from_monotonic(t, i + 2, translation, data, o, d1, d2);
    } else if t[i] == '\\' {
        lemma_generate_from_monotonic(t, i + 1, translation, data, o, d1, d2);
    } else {
        lemma_generate_from_monotonic(t, i + 1, translation, data, o, d1, d2);
    }
}

/// Depth monotonicity for the resolution of one directive.
proof fn lemma_resolve_monotonic(
    apply_template: bool,
    pointer: bool,
    inject: bool,
    key: Seq<char>,
    translation: Map<Seq<char>, Seq<char>>,
    data: Map<Seq<char>, Seq<char>>,
    o: SpecOptions,
    d1: nat,
    d2: nat,
)
    requires
        d1 <= d2,
        spec_resolve(apply_template, pointer, inject, key, translation, data, o, d1) is Some,
    ensures
        spec_resolve(apply_template, pointer, inject, key, translation, data, o, d2) == spec_resolve(
            apply_template,
            pointer,
            inject,
            key,
            translation,
            data,
            o,
            d1,
        ),
    decreases d1, 0int, 0int,
{
    if apply_template {
        if pointer {
            if data.contains_key(key) && translation.contains_key(data[key]) {
                lemma_generate_from_monotonic(
                    translation[data[key]],
                    0,
                    translation,
                    data,
                    o,
                    (d1 - 1) as nat,
                    (d2 - 1) as nat,
                );
            }
        } else if inject {
            if data.contains_key(key) {
                lemma_generate_from_monotonic(data[key], 0, translation, data, o, (d1 - 1) as nat, (d2 - 1) as nat);
            }
        } else {
            if translation.contains_key(key) {
                lemma_generate_from_monotonic(
                    translation[key],
                    0,
                    translation,
                    data,
                    o,
                    (d1 - 1) as nat,
                    (d2 - 1) as nat,
                );
            }
        }
    }
}

/// Raising the recursion depth never changes a finished resolution of a
/// whole template.
pub proof fn lemma_generate_monotonic(
    t: Seq<char>,
    translation: Map<Seq<char>, Seq<char>>,
    data: Map<Seq<char>, Seq<char>>,
    o: SpecOptions,
    d1: nat,
    d2: nat,
)
    requires
        d1 <= d2,
        spec_generate(t, translation, data, o, d1) is Some,
    ensures
        spec_generate(t, translation, data, o, d2) == spec_generate(t, translation, data, o, d1),
{
    lemma_generate_from_monotonic(t, 0, translation, data, o, d1, d2);
}

/// The depth is a proof device, not an input: two finished resolutions of
/// the same template against the same dictionaries and options agree,
/// whatever depths they were given.
pub proof fn lemma_generate_deterministic(
    t: Seq<char>,
    translation: Map<Seq<char>, Seq<char>>,
    data: Map<Seq<char>, Seq<char>>,
    o: SpecOptions,
    d1: nat,
    d2: nat,
)
    requires
        spec_generate(t, translation, data, o, d1) is Some,
        spec_generate(t, translation, data, o, d2) is Some,
    ensures
        spec_generate(t, translation, data, o, d1) == spec_generate(t, translation, data, o, d2),
{
    if d1 <= d2 {
        lemma_generate_monotonic(t, translation, data, o, d1, d2);
    } else {
        lemma_generate_monotonic(t, translation, data, o, d2, d1);
    }
}

proof fn lemma_plain_from(
    t: Seq<char>,
    i: int,
    translation: Map<Seq<char>, Seq<char>>,
    data: Map<Seq<char>, Seq<char>>,
    o: SpecOptions,
    depth: nat,
)
    requires
        0 <= i <= t.len(),
        forall|k: int| 0 <= k < t.len() ==> t[k] != '{' && t[k] != '\\',
    ensures
        spec_generate_from(t, i, translation, data, o, depth) == Some(
            Ok::<Seq<char>, SpecError>(t.subrange(i, t.len() as int)),
        ),
    decreases t.len() - i,
{
    if i >= t.len() {
        assert(t.subrange(i, t.len() as int) =~= Seq::<char>::empty());
    } else {
        lemma_plain_from(t, i + 1, translation, data, o, depth);
        assert(seq![t[i]] + t.subrange(i + 1, t.len() as int) =~= t.subrange(i, t.len() as int));
    }
}

/// A template that contains no `{` and no `\` holds no directive and no
/// escape: it resolves to itself, whatever the dictionaries, the options and
/// the depth.
pub proof fn lemma_plain_text_unchanged(
    t: Seq<char>,
    translation: Map<Seq<char>, Seq<char>>,
    data: Map<Seq<char>, Seq<char>>,
    o: SpecOptions,
    depth: nat,
)
    requires
        forall|k: int| 0 <= k < t.len() ==> t[k] != '{' && t[k] != '\\',
    ensures
        spec_generate(t, translation, data, o, depth) == Some(Ok::<Seq<char>, SpecError>(t)),
{
    lemma_plain_from(t, 0, translation, data, o, depth);
    assert(t.subrange(0, t.len() as int) =~= t);
}

/// Idempotence on finished output: when a resolution yields text that holds
/// no `{` and no `\` — no directive is left — resolving that text again
/// returns it unchanged.
pub proof fn lemma_resolved_idempotent(
    t: Seq<char>,
    out: Seq<char>,
    translation: Map<Seq<char>, Seq<char>>,
    data: Map<Seq<char>, Seq<char>>,
    o: SpecOptions,
    d1: nat,
    d2: nat,
)
    requires
        spec_generate(t, translation, data, o, d1) == Some(Ok::<Seq<char>, SpecError>(out)),
        forall|k: int| 0 <= k < out.len() ==> out[k] != '{' && out[k] != '\\',
    ensures
        spec_generate(out, translation, data, o, d2) == Some(Ok::<Seq<char>, SpecError>(out)),
{
    lemma_plain_text_unchanged(out, translation, data, o, d2);
}

/// A directive key written without escapes: no character needs escaping, and
/// the key does not begin with a flag or brace of its own.
pub open spec fn plain_key(key: Seq<char>) -> bool {
    &&& forall|k: int| 0 <= k < key.len() ==> key[k] != '}' && key[k] != '\\'
    &&& (key.len() > 0 ==> key[0] != '{' && key[0] != '*')
}

proof fn lemma_scan_key_plain(t: Seq<char>, i: int, n: int)
    requires
        0 <= i,
        0 <= n,
        i + n <= t.len(),
        forall|k: int| i <= k < i + n ==> t[k] != '}' && t[k] != '\\',
        i + n == t.len() || t[i + n] == '}',
    ensures
        scan_key(t, i) == (t.subrange(i, i + n), n as nat),
    decreases n,
{
    if n == 0 {
        assert(t.subrange(i, i) =~= Seq::<char>::empty());
    } else {
        lemma_scan_key_plain(t, i + 1, n - 1);
        assert(seq![t[i]] + t.subrange(i + 1, i + n) =~= t.subrange(i, i + n));
    }
}

/// The meaning of one plain directive standing alone: `{{key}}` substitutes
/// the data value bound to `key` verbatim; a missing key yields the
/// unknown-field error under strict mode, else exactly what the missing-key
/// display and override policy prescribes.
pub proof fn lemma_plain_directive(
    key: Seq<char>,
    translation: Map<Seq<char>, Seq<char>>,
    data: Map<Seq<char>, Seq<char>>,
    o: SpecOptions,
    depth: nat,
)
    requires
        plain_key(key),
    ensures
        spec_generate("{{"@ + key + "}}"@, translation, data, o, depth) == Some(
            if data.contains_key(key) {
                Ok::<Seq<char>, SpecError>(data[key])
            } else {
                missing_key_outcome(key, o)
            },
        ),
{
    reveal_strlit("{{");
    reveal_strlit("}}");
    let t = "{{"@ + key + "}}"@;
    assert(t.len() == key.len() + 4);
    assert(t[0] == '{' && t[1] == '{');
    assert(forall|k: int| 0 <= k < key.len() ==> t[2 + k] == key[k]);
    assert(t[key.len() as int + 2] == '}' && t[key.len() as int + 3] == '}');
    assert(!(2 < t.len() && t[2] == '{'));
    assert(scan_flags(t, 2, false) == (false, false, 0nat));
    lemma_scan_key_plain(t, 2, key.len() as int);
    assert(t.subrange(2, 2 + key.len() as int) =~= key);
    let j: int = 2 + key.len() as int;
    assert(closing_check(t, j, false, key) == Ok::<(), SpecError>(()));
    let next: int = j + 2;
    assert(next == t.len());
    assert(spec_generate_from(t, next, translation, data, o, depth) == Some(
        Ok::<Seq<char>, SpecError>(Seq::empty()),
    ));
    assert(spec_resolve(false, false, false, key, translation, data, o, depth) == Some(
        if data.contains_key(key) {
            Ok::<Seq<char>, SpecError>(data[key])
        } else {
            missing_key_outcome(key, o)
        },
    ));
    if data.contains_key(key) {
        assert(data[key] + Seq::<char>::empty() =~= data[key]);
    }
}

/// A directive that is never closed: `{{key` yields the unbalanced-bracket
/// error that names the key parsed so far and the two missing braces.
pub proof fn lemma_unclosed_directive(
    key: Seq<char>,
    translation: Map<Seq<char>, Seq<char>>,
    data: Map<Seq<char>, Seq<char>>,
    o: SpecOptions,
    depth: nat,
)
    requires
        plain_key(key),
    ensures
        spec_generate("{{"@ + key, translation, data, o, depth) == Some(
            Err::<Seq<char>, SpecError>(SpecError::MissingCurvyBracket(bracket_msg(2, key))),
        ),
{
    reveal_strlit("{{");
    let t = "{{"@ + key;
    assert(t.len() == key.len() + 2);
    assert(t[0] == '{' && t[1] == '{');
    assert(forall|k: int| 0 <= k < key.len() ==> t[2 + k] == key[k]);
    assert(!(2 < t.len() && t[2] == '{'));
    assert(scan_flags(t, 2, false) == (false, false, 0nat));
    lemma_scan_key_plain(t, 2, key.len() as int);
    assert(t.subrange(2, 2 + key.len() as int) =~= key);
    let j: int = 2 + key.len() as int;
    assert(j == t.len());
    assert(closing_check(t, j, false, key) == Err::<(), SpecError>(
        SpecError::MissingCurvyBracket(bracket_msg(2, key)),
    ));
}

/// The meaning of one template directive standing alone, over a translation
/// whose value is already plain: `{{{key}}}` substitutes the translation
/// bound to `key`, resolved — and a directive-free translation resolves to
/// itself.
pub proof fn lemma_template_directive_plain(
    key: Seq<char>,
    translation: Map<Seq<char>, Seq<char>>,
    data: Map<Seq<char>, Seq<char>>,
    o: SpecOptions,
    depth: nat,
)
    requires
        plain_key(key),
        depth >= 1,
        translation.contains_key(key),
        forall|k: int|
            0 <= k < translation[key].len() ==> translation[key][k] != '{' && translation[key][k] != '\\',
    ensures
        spec_generate("{{{"@ + key + "}}}"@, translation, data, o, depth) == Some(
            Ok::<Seq<char>, SpecError>(translation[key]),
        ),
{
    reveal_strlit("{{{");
    reveal_strlit("}}}");
    let t = "{{{"@ + key + "}}}"@;
    assert(t.len() == key.len() + 6);
    assert(t[0] == '{' && t[1] == '{' && t[2] == '{');
    assert(forall|k: int| 0 <= k < key.len() ==> t[3 + k] == key[k]);
    assert(t[key.len() as int + 3] == '}' && t[key.len() as int + 4] == '}' && t[key.len() as int + 5] == '}');
    assert(scan_flags(t, 3, true) == (false, false, 0nat));
    lemma_scan_key_plain(t, 3, key.len() as int);
    assert(t.subrange(3, 3 + key.len() as int) =~= key);
    let j: int = 3 + key.len() as int;
    assert(closing_check(t, j, true, key) == Ok::<(), SpecError>(()));
    let next: int = j + 3;
    assert(next == t.len());
    assert(spec_generate_from(t, next, translation, data, o, depth) == Some(
        Ok::<Seq<char>, SpecError>(Seq::empty()),
    ));
    lemma_plain_text_unchanged(translation[key], translation, data, o, (depth - 1) as nat);
    assert(spec_resolve(true, false, false, key, translation, data, o, depth) == Some(
        Ok::<Seq<char>, SpecError>(translation[key]),
    ));
    assert(translation[key] + Seq::<char>::empty() =~= translation[key]);
}

/// The meaning of one pointer directive standing alone: `{{*key}}` reads the
/// data value bound to `key` as the name of a translation and emits that
/// translation verbatim, without re-scanning it.
pub proof fn lemma_pointer_directive(
    key: Seq<char>,
    translation: Map<Seq<char>, Seq<char>>,
    data: Map<Seq<char>, Seq<char>>,
    o: SpecOptions,
    depth: nat,
)
    requires
        plain_key(key),
        data.contains_key(key),
        translation.contains_key(data[key]),
    ensures
        spec_generate("{{*"@ + key + "}}"@, translation, data, o, depth) == Some(
            Ok::<Seq<char>, SpecError>(translation[data[key]]),
        ),
{
    reveal_strlit("{{*");
    reveal_strlit("}}");
    let t = "{{*"@ + key + "}}"@;
    assert(t.len() == key.len() + 5);
    assert(t[0] == '{' && t[1] == '{' && t[2] == '*');
    assert(forall|k: int| 0 <= k < key.len() ==> t[3 + k] == key[k]);
    assert(t[key.len() as int + 3] == '}' && t[key.len() as int + 4] == '}');
    assert(!(2 < t.len() && t[2] == '{'));
    assert(scan_flags(t, 2, false) == (true, false, 1nat));
    lemma_scan_key_plain(t, 3, key.len() as int);
    assert(t.subrange(3, 3 + key.len() as int) =~= key);
    let j: int = 3 + key.len() as int;
    assert(closing_check(t, j, false, key) == Ok::<(), SpecError>(()));
    let next: int = j + 2;
    assert(next == t.len());
    assert(spec_generate_from(t, next, translation, data, o, depth) == Some(
        Ok::<Seq<char>, SpecError>(Seq::empty()),
    ));
    assert(spec_resolve(false, true, false, key, translation, data, o, depth) == Some(
        Ok::<Seq<char>, SpecError>(translation[data[key]]),
    ));
    assert(translation[data[key]] + Seq::<char>::empty() =~= translation[data[key]]);
}


/// The meaning of one injection directive standing alone, over a data value
/// that is already plain: `{{{**key}}}` reads the data value bound to `key`
/// as a sub-template and resolves it — and a directive-free value resolves
/// to itself.
pub proof fn lemma_inject_directive_plain(
    key: Seq<char>,
    translation: Map<Seq<char>, Seq<char>>,
    data: Map<Seq<char>, Seq<char>>,
    o: SpecOptions,
    depth: nat,
)
    requires
        plain_key(key),
        depth >= 1,
        data.contains_key(key),
        forall|k: int| 0 <= k < data[key].len() ==> data[key][k] != '{' && data[key][k] != '\\',
    ensures
        spec_generate("{{{**"@ + key + "}}}"@, translation, data, o, depth) == Some(
            Ok::<Seq<char>, SpecError>(data[key]),
        ),
{
    reveal_strlit("{{{**");
    reveal_strlit("}}}");
    let t = "{{{**"@ + key + "}}}"@;
    assert(t.len() == key.len() + 8);
    assert(t[0] == '{' && t[1] == '{' && t[2] == '{' && t[3] == '*' && t[4] == '*');
    assert(forall|k: int| 0 <= k < key.len() ==> t[5 + k] == key[k]);
    assert(t[key.len() as int + 5] == '}' && t[key.len() as int + 6] == '}' && t[key.len() as int + 7] == '}');
    assert(scan_flags(t, 3, true) == (false, true, 2nat));
    lemma_scan_key_plain(t, 5, key.len() as int);
    assert(t.subrange(5, 5 + key.len() as int) =~= key);
    let j: int = 5 + key.len() as int;
    assert(closing_check(t, j, true, key) == Ok::<(), SpecError>(()));
    let next: int = j + 3;
    assert(next == t.len());
    assert(spec_generate_from(t, next, translation, data, o, depth) == Some(
        Ok::<Seq<char>, SpecError>(Seq::empty()),
    ));
    lemma_plain_text_unchanged(data[key], translation, data, o, (depth - 1) as nat);
    assert(spec_resolve(true, false, true, key, translation, data, o, depth) == Some(
        Ok::<Seq<char>, SpecError>(data[key]),
    ));
    assert(data[key] + Seq::<char>::empty() =~= data[key]);
}

} // verus!
