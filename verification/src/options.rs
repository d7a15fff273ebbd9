use vstd::prelude::*;
use vstd::string::StringExecFns;

verus! {

/// A caller-supplied replacement message for a missing key or translation:
/// in essence a function from the missing name to the text shown in its
/// place, written as an interface with one method together with the
/// mathematical function that the method computes.
pub trait OverrideMessage: Sized {
    /// The text the override produces for a missing name.
    spec fn spec_message(&self, name: Seq<char>) -> Seq<char>;

    /// Produces the replacement text for a missing name.
    fn message(&self, name: &String) -> (r: String)
        ensures
            r@ == self.spec_message(name@),
    ;
}

/// An override that wraps the missing name between a fixed prefix and suffix.
#[derive(Clone, Debug)]
pub struct WrapOverride {
    pub prefix: String,
    pub suffix: String,
}

impl OverrideMessage for WrapOverride {
    open spec fn spec_message(&self, name: Seq<char>) -> Seq<char> {
        self.prefix@ + name + self.suffix@
    }

    fn message(&self, name: &String) -> (r: String)
        ensures
            r@ == self.spec_message(name@),
    {
        let mut m = self.prefix.clone();
        m.append(name.as_str());
        m.append(self.suffix.as_str());
        m
    }
}

/// The mathematical model of the resolution options: the two policy flags per
/// dictionary, and the overrides as optional functions over character
/// sequences.
pub struct SpecOptions {
    pub safe_parse: bool,
    pub display_missing_keys: bool,
    pub override_missing_keys: Option<spec_fn(Seq<char>) -> Seq<char>>,
    pub display_missing_translations: bool,
    pub override_missing_translations: Option<spec_fn(Seq<char>) -> Seq<char>>,
}

/// Options for the string templater.
pub struct StringTemplaterOptions<F: OverrideMessage, G: OverrideMessage> {
    /// If true, `StringTemplaterError::UnknownField` is never returned.
    pub safe_parse: bool,
    /// If true, display the missing keys in the data.
    pub display_missing_keys: bool,
    /// Override the message for a missing data field.
    pub override_missing_keys: Option<F>,
    /// If true, display the missing keys in the translation.
    pub display_missing_translations: bool,
    /// Override the message for a missing translation field.
    pub override_missing_translations: Option<G>,
}

impl<F: OverrideMessage, G: OverrideMessage> View for StringTemplaterOptions<F, G> {
    type V = SpecOptions;

    open spec fn view(&self) -> SpecOptions {
        SpecOptions {
            safe_parse: self.safe_parse,
            display_missing_keys: self.display_missing_keys,
            override_missing_keys: match self.override_missing_keys {
                Some(f) => Some(|name: Seq<char>| f.spec_message(name)),
                None => None,
            },
            display_missing_translations: self.display_missing_translations,
            override_missing_translations: match self.override_missing_translations {
                Some(g) => Some(|name: Seq<char>| g.spec_message(name)),
                None => None,
            },
        }
    }
}

impl<F: OverrideMessage, G: OverrideMessage> Default for StringTemplaterOptions<F, G> {
    /// The strict-mode default: no suppression, no placeholders, no overrides.
    fn default() -> (r: Self)
        ensures
            !r@.safe_parse,
            !r@.display_missing_keys,
            r@.override_missing_keys is None,
            !r@.display_missing_translations,
            r@.override_missing_translations is None,
    {
        StringTemplaterOptions {
            safe_parse: false,
            display_missing_keys: false,
            override_missing_keys: None,
            display_missing_translations: false,
            override_missing_translations: None,
        }
    }
}

} // verus!
