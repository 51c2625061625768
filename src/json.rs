use vstd::prelude::*;

verus! {

/// serde_json's compact text of the object that `s` denotes, keys in
/// ascending order; `None` where `s` is not the text of one JSON object.
pub uninterp spec fn json_object_normal_form(s: Seq<char>) -> Option<Seq<char>>;

/// serde_json's text of the JSON string whose content is `s`: quoted, with
/// the characters that JSON reserves escaped.
pub uninterp spec fn json_string_literal(s: Seq<char>) -> Seq<char>;

/// Relies on serde_json::from_str into a `serde_json::Map`, which accepts
/// exactly the texts of one JSON object, and on the compact `Display` of the
/// resulting `serde_json::Value::Object`: the text printed depends on `s` alone.
#[verifier::external_body]
pub(crate) fn normalize_json_object(s: &str) -> (r: Option<String>)
    ensures
        match r {
            Some(t) => json_object_normal_form(s@) == Some(t@),
            None => json_object_normal_form(s@) is None,
        },
{
    serde_json::from_str::<serde_json::Map<String, serde_json::Value>>(s).ok().map(
        |m| serde_json::Value::Object(m).to_string(),
    )
}

/// Relies on the compact `Display` of `serde_json::Value::String`: the JSON
/// string literal that holds `s`.
#[verifier::external_body]
pub(crate) fn quote_json_string(s: &str) -> (r: String)
    ensures
        r@ == json_string_literal(s@),
{
    serde_json::Value::String(s.to_string()).to_string()
}

} // verus!
