use vstd::prelude::*;
use vstd::string::StringExecFns;

verus! {

/// The mathematical model of a `StringTemplaterError`: the same three cases,
/// carried as character sequences.
pub enum SpecError {
    MissingCurvyBracket(Seq<char>),
    UnknownField(Seq<char>),
    SerializeError(Seq<char>),
}

/// Any error that may occur while generating a template or flattening the
/// structured data it is resolved against.
#[derive(Debug, Clone, PartialEq)]
pub enum StringTemplaterError {
    /// A directive was opened with fewer closing braces than its form requires.
    /// Carries a message naming the partially parsed key.
    MissingCurvyBracket(String),
    /// A key was absent from the translation or data dictionary under strict mode.
    UnknownField(String),
    /// The structured input could not be serialized by the caller's layer.
    SerializeError(String),
}

impl View for StringTemplaterError {
    type V = SpecError;

    open spec fn view(&self) -> SpecError {
        match self {
            StringTemplaterError::MissingCurvyBracket(s) => SpecError::MissingCurvyBracket(s@),
            StringTemplaterError::UnknownField(s) => SpecError::UnknownField(s@),
            StringTemplaterError::SerializeError(s) => SpecError::SerializeError(s@),
        }
    }
}

/// The human-readable text of an error.
pub open spec fn spec_error_message(e: SpecError) -> Seq<char> {
    match e {
        SpecError::MissingCurvyBracket(s) => "Missing curvy bracket: `"@ + s + "`"@,
        SpecError::UnknownField(s) => "Unknown field: `"@ + s + "`"@,
        SpecError::SerializeError(s) => "Serialize error: `"@ + s + "`"@,
    }
}

impl StringTemplaterError {
    /// Renders the error as the human-readable message the caller may display.
    pub fn message(&self) -> (r: String)
        ensures
            r@ == spec_error_message(self@),
    {
        match self {
            StringTemplaterError::MissingCurvyBracket(s) => {
                let mut m = "Missing curvy bracket: `".to_owned();
                m.append(s.as_str());
                m.append("`");
                m
            },
            StringTemplaterError::UnknownField(s) => {
                let mut m = "Unknown field: `".to_owned();
                m.append(s.as_str());
                m.append("`");
                m
            },
            StringTemplaterError::SerializeError(s) => {
                let mut m = "Serialize error: `".to_owned();
                m.append(s.as_str());
                m.append("`");
                m
            },
        }
    }
}

} // verus!
