use vstd::prelude::*;

use crate::dictionary::Dictionary;
use crate::errors::SpecError;
use crate::errors::StringTemplaterError;
use crate::flatten::flatten;
use crate::flatten::spec_flatten;
use crate::flatten::StructuredValue;

verus! {

#[verifier::external_type_specification]
#[verifier::external_body]
pub struct ExSerdeJsonValue(serde_json::Value);

#[verifier::external_type_specification]
#[verifier::external_body]
pub struct ExSerdeJsonError(serde_json::Error);

/// The structured value that a JSON tree reads as: what the conversion below
/// returns. The tree is opaque here, but the conversion is a pure function
/// of it, so its result has a name that contracts can share.
pub uninterp spec fn structured_of(v: serde_json::Value) -> StructuredValue;

/// The message text of a serde_json error, as its `Display` renders it.
pub uninterp spec fn serde_error_text(e: serde_json::Error) -> Seq<char>;

/// Relies on `serde_json::Value`'s variants and the `Display` of its
/// numbers: each variant is carried over one for one, a string verbatim and
/// a number as its canonical JSON text.
#[verifier::external_body]
fn structured_of_json(value: &serde_json::Value) -> (r: StructuredValue)
    ensures
        r == structured_of(*value),
{
    match value {
        serde_json::Value::Null => StructuredValue::Null,
        serde_json::Value::Bool(b) => StructuredValue::Bool(*b),
        serde_json::Value::Number(n) => StructuredValue::Number(n.to_string()),
        serde_json::Value::String(s) => StructuredValue::Text(s.clone()),
        serde_json::Value::Array(a) => StructuredValue::Array(a.iter().map(structured_of_json).collect()),
        serde_json::Value::Object(o) => StructuredValue::Object(
            o.iter().map(|(k, v)| (k.clone(), structured_of_json(v))).collect(),
        ),
    }
}

/// Relies on `serde_json::to_value`: serializes any `Serialize` value into
/// a JSON value tree, or reports why it cannot.
#[verifier::external_body]
fn json_of<T: ?Sized + serde::Serialize>(value: &T) -> Result<serde_json::Value, serde_json::Error> {
    serde_json::to_value(value)
}

/// Relies on the `Display` of `serde_json::Error`: the error's message text.
#[verifier::external_body]
fn serde_error_message(err: &serde_json::Error) -> (r: String)
    ensures
        r@ == serde_error_text(*err),
{
    err.to_string()
}

/// Parse a JSON value into a dictionary with its paths concatenated using a
/// dot: the flattening of the structured value the tree reads as.
pub fn encode_json_to_hashmap(value: &serde_json::Value) -> (r: Dictionary)
    ensures
        r@ == spec_flatten(Seq::empty(), structured_of(*value), Map::empty()),
{
    let sv = structured_of_json(value);
    let mut map = Dictionary::new();
    flatten("", &sv, &mut map);
    proof {
        reveal_strlit("");
        assert(""@ =~= Seq::<char>::empty());
    }
    map
}

/// Parse any serializable value into a dictionary with its paths
/// concatenated using a dot. Serialization is the one step that may fail;
/// every dictionary handed back is the flattening of the JSON tree the
/// input serialized to, and every error carries a serde error's own text.
pub fn parse_to_hashmap<T: ?Sized + serde::Serialize>(value: &T) -> (r: Result<Dictionary, StringTemplaterError>)
    ensures
        r matches Ok(d) ==> exists|v: serde_json::Value|
            d@ == #[trigger] spec_flatten(Seq::empty(), structured_of(v), Map::empty()),
        r matches Err(e) ==> exists|se: serde_json::Error|
            e@ == SpecError::SerializeError(#[trigger] serde_error_text(se)),
{
    match json_of(value) {
        Ok(serialized) => {
            let d = encode_json_to_hashmap(&serialized);
            proof {
                assert(d@ == spec_flatten(Seq::empty(), structured_of(serialized), Map::empty()));
            }
            Ok(d)
        },
        Err(err) => {
            let e = StringTemplaterError::SerializeError(serde_error_message(&err));
            proof {
                assert(e@ == SpecError::SerializeError(serde_error_text(err)));
            }
            Err(e)
        },
    }
}

} // verus!
