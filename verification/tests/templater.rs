use string_templater::generate;
use string_templater::Dictionary;
use string_templater::StringTemplaterError;
use string_templater::StringTemplaterOptions;
use string_templater::WrapOverride;

fn strict() -> StringTemplaterOptions<WrapOverride, WrapOverride> {
    StringTemplaterOptions {
        safe_parse: false,
        display_missing_keys: false,
        override_missing_keys: None,
        display_missing_translations: false,
        override_missing_translations: None,
    }
}

fn safe_displaying() -> StringTemplaterOptions<WrapOverride, WrapOverride> {
    StringTemplaterOptions {
        safe_parse: true,
        display_missing_keys: true,
        override_missing_keys: None,
        display_missing_translations: true,
        override_missing_translations: None,
    }
}

fn dict(pairs: &[(&str, &str)]) -> Dictionary {
    let mut d = Dictionary::new();
    for (k, v) in pairs {
        d.insert(k.to_string(), v.to_string());
    }
    d
}

#[test]
fn test_plain_text_unchanged() {
    let tr = dict(&[("name", "unused")]);
    let data = dict(&[("name", "unused too")]);
    let out = generate("Hello world, no directives here.", &tr, &data, &strict());
    assert_eq!(out.unwrap(), "Hello world, no directives here.".to_string());
}

#[test]
fn test_escape_round_trip() {
    let tr = Dictionary::new();
    let data = Dictionary::new();
    let out = generate("\\{\\}\\\\", &tr, &data, &strict());
    assert_eq!(out.unwrap(), "{}\\".to_string());
}

#[test]
fn test_plain_substitution() {
    let tr = Dictionary::new();
    let data = dict(&[("name", "John")]);
    let out = generate("Hello {{name}}.", &tr, &data, &strict());
    assert_eq!(out.unwrap(), "Hello John.".to_string());
}

#[test]
fn test_recursive_template_substitution() {
    let tr = dict(&[("hello", "Hello {{name}}.")]);
    let data = dict(&[("name", "John")]);
    let out = generate("{{{hello}}}", &tr, &data, &strict());
    assert_eq!(out.unwrap(), "Hello John.".to_string());
}

#[test]
fn test_nested_template_translation() {
    let tr = dict(&[
        ("hello", "Hello {{name}}."),
        ("hard_hello", "This is hard to say but... {{{hello}}}.."),
    ]);
    let data = dict(&[("name", "John")]);
    let out = generate("{{{hard_hello}}}", &tr, &data, &strict());
    assert_eq!(out.unwrap(), "This is hard to say but... Hello John...".to_string());
}

#[test]
fn test_pointer_indirection() {
    let tr = dict(&[("key", "Value.")]);
    let data = dict(&[("name", "key")]);
    let out = generate("{{*name}}", &tr, &data, &strict());
    assert_eq!(out.unwrap(), "Value.".to_string());
}

#[test]
fn test_pointer_value_translation() {
    let tr = dict(&[("key", "Value."), ("hijack_value", "Hello {{*name}}.")]);
    let data = dict(&[("name", "key")]);
    let out = generate("{{{hijack_value}}}", &tr, &data, &strict());
    assert_eq!(out.unwrap(), "Hello Value..".to_string());
}

#[test]
fn test_pointer_recursive_template() {
    let tr = dict(&[
        ("useless_template", "You're named {{childs.0.name}}. Crazy isn't it?"),
        ("hijack_template_hello", "Hear me out! {{{*name}}} :P"),
    ]);
    let data = dict(&[("name", "useless_template"), ("childs.0.name", "Janne")]);
    let out = generate("{{{hijack_template_hello}}}", &tr, &data, &strict());
    assert_eq!(
        out.unwrap(),
        "Hear me out! You're named Janne. Crazy isn't it? :P".to_string()
    );
}

#[test]
fn test_injection() {
    let tr = Dictionary::new();
    let data = dict(&[("template", "- {{childs.0.name}}\n"), ("childs.0.name", "Janne")]);
    let out = generate("{{{**template}}}", &tr, &data, &strict());
    assert_eq!(out.unwrap(), "- Janne\n".to_string());
}

#[test]
fn test_injection_for_array() {
    let tr = dict(&[("inject_template_for_array", "Here's the family:\n{{{**template}}}")]);
    let mut template_content = String::new();
    for i in 0..3 {
        template_content.push_str("- {{");
        template_content.push_str(&format!("childs.{}.name", i));
        template_content.push_str("}}\n");
    }
    let data = dict(&[
        ("name", "John"),
        ("template", template_content.as_str()),
        ("childs.0.name", "Janne"),
        ("childs.1.name", "Alice"),
        ("childs.2.name", "Bob"),
    ]);
    let out = generate("{{{inject_template_for_array}}}", &tr, &data, &strict());
    assert_eq!(
        out.unwrap(),
        "Here's the family:\n- Janne\n- Alice\n- Bob\n".to_string()
    );
}

#[test]
fn test_missing_key_strict() {
    let tr = Dictionary::new();
    let data = Dictionary::new();
    let out = generate("Hello {{name}}.", &tr, &data, &strict());
    assert_eq!(
        out,
        Err(StringTemplaterError::UnknownField(
            "The field `name` does not exist in data.".to_string()
        ))
    );
}

#[test]
fn test_missing_key_safe_display_default() {
    let tr = Dictionary::new();
    let data = Dictionary::new();
    let out = generate("Hello {{name}}.", &tr, &data, &safe_displaying());
    assert_eq!(out.unwrap(), "Hello [MISSING_DATA_KEY: `name`].".to_string());
}

#[test]
fn test_missing_key_safe_silent() {
    let tr = Dictionary::new();
    let data = Dictionary::new();
    let mut opts = safe_displaying();
    opts.display_missing_keys = false;
    let out = generate("Hello {{name}}.", &tr, &data, &opts);
    assert_eq!(out.unwrap(), "Hello .".to_string());
}

#[test]
fn test_missing_key_override() {
    let tr = Dictionary::new();
    let data = Dictionary::new();
    let mut opts = safe_displaying();
    opts.override_missing_keys = Some(WrapOverride {
        prefix: "['EN'](D - '".to_string(),
        suffix: "')".to_string(),
    });
    let out = generate("Hello {{name}}.", &tr, &data, &opts);
    assert_eq!(out.unwrap(), "Hello ['EN'](D - 'name').".to_string());
}

#[test]
fn test_missing_translation_strict() {
    let tr = Dictionary::new();
    let data = Dictionary::new();
    let out = generate("{{{greet}}}", &tr, &data, &strict());
    assert_eq!(
        out,
        Err(StringTemplaterError::UnknownField(
            "The field `greet` does not exist in translations.".to_string()
        ))
    );
}

#[test]
fn test_missing_translation_safe_display() {
    let tr = Dictionary::new();
    let data = Dictionary::new();
    let out = generate("{{{greet}}}", &tr, &data, &safe_displaying());
    assert_eq!(out.unwrap(), "[MISSING_TRANSLATION_KEY: `greet`]".to_string());
}

#[test]
fn test_pointer_missing_translation_shows_value() {
    // Through a pointer the placeholder embeds the looked-up value, while the
    // strict-mode error names the directive key itself.
    let tr = Dictionary::new();
    let data = dict(&[("name", "ghost")]);
    let out = generate("{{*name}}", &tr, &data, &safe_displaying());
    assert_eq!(out.unwrap(), "[MISSING_TRANSLATION_KEY: `ghost`]".to_string());
    let strict_out = generate("{{*name}}", &tr, &data, &strict());
    assert_eq!(
        strict_out,
        Err(StringTemplaterError::UnknownField(
            "The field `name` does not exist in translations.".to_string()
        ))
    );
}

#[test]
fn test_unbalanced_brackets() {
    let tr = Dictionary::new();
    let data = Dictionary::new();
    assert_eq!(
        generate("{{key", &tr, &data, &strict()),
        Err(StringTemplaterError::MissingCurvyBracket(
            "Missing two curvy bracket `}` around `key`.".to_string()
        ))
    );
    assert_eq!(
        generate("{{key}", &tr, &data, &strict()),
        Err(StringTemplaterError::MissingCurvyBracket(
            "Missing one curvy bracket `}` around `key`.".to_string()
        ))
    );
    assert_eq!(
        generate("{{{key", &tr, &data, &strict()),
        Err(StringTemplaterError::MissingCurvyBracket(
            "Missing three curvy bracket `}` around `key`.".to_string()
        ))
    );
    assert_eq!(
        generate("{{{key}}", &tr, &data, &strict()),
        Err(StringTemplaterError::MissingCurvyBracket(
            "Missing one curvy bracket `}` around `key`.".to_string()
        ))
    );
}

#[test]
fn test_unbalanced_brackets_not_suppressed_by_safe_parse() {
    let tr = Dictionary::new();
    let data = Dictionary::new();
    assert_eq!(
        generate("{{key", &tr, &data, &safe_displaying()),
        Err(StringTemplaterError::MissingCurvyBracket(
            "Missing two curvy bracket `}` around `key`.".to_string()
        ))
    );
}

#[test]
fn test_idempotent_on_resolved_output() {
    let tr = Dictionary::new();
    let data = dict(&[("name", "John")]);
    let once = generate("Hello {{name}}.", &tr, &data, &strict()).unwrap();
    let twice = generate(&once, &tr, &data, &strict()).unwrap();
    assert_eq!(once, "Hello John.".to_string());
    assert_eq!(twice, once);
}

#[test]
fn test_lone_braces_pass_through() {
    let tr = Dictionary::new();
    let data = Dictionary::new();
    assert_eq!(generate("a{b", &tr, &data, &strict()).unwrap(), "a{b".to_string());
    assert_eq!(generate("{x} y}", &tr, &data, &strict()).unwrap(), "{x} y}".to_string());
}

#[test]
fn test_escaped_characters_in_key() {
    let tr = Dictionary::new();
    let data = dict(&[("a*b", "starred"), ("c}d", "braced")]);
    assert_eq!(
        generate("{{a\\*b}}", &tr, &data, &strict()).unwrap(),
        "starred".to_string()
    );
    assert_eq!(
        generate("{{c\\}d}}", &tr, &data, &strict()).unwrap(),
        "braced".to_string()
    );
}

#[test]
fn test_double_star_outside_template_is_plain() {
    // Outside a triple-brace directive a `**` prefix degrades: neither
    // pointer nor injection applies, and the key is looked up directly.
    let tr = dict(&[("key", "Value.")]);
    let data = dict(&[("name", "key")]);
    let out = generate("{{**name}}", &tr, &data, &strict());
    assert_eq!(out.unwrap(), "key".to_string());
}

#[test]
fn test_error_messages() {
    assert_eq!(
        StringTemplaterError::MissingCurvyBracket("one".to_string()).message(),
        "Missing curvy bracket: `one`".to_string()
    );
    assert_eq!(
        StringTemplaterError::UnknownField("f".to_string()).message(),
        "Unknown field: `f`".to_string()
    );
    assert_eq!(
        StringTemplaterError::SerializeError("s".to_string()).message(),
        "Serialize error: `s`".to_string()
    );
}
