use vstd::prelude::*;

verus! {

/// The JSON text that serde_json writes for a list of strings.
pub uninterp spec fn json_of_strings(v: Seq<Seq<char>>) -> Seq<char>;

/// The list of strings that serde_json reads from a JSON text, if the text is
/// a JSON array of strings.
pub uninterp spec fn strings_of_json(s: Seq<char>) -> Option<Seq<Seq<char>>>;

/// Relies on `serde_json::to_string` for `Vec<String>`: the text depends on the
/// strings alone, and writing a sequence of strings into memory never fails
/// (serde_json only errors for a failing `Serialize` impl or a map with
/// non-string keys).
#[verifier::external_body]
pub(crate) fn encode_strings(v: &Vec<String>) -> (r: String)
    ensures
        r@ == json_of_strings(v.deep_view()),
{
    serde_json::to_string(v).unwrap_or_default()
}

/// Relies on `serde_json::from_str` for `Vec<String>`: it returns the strings
/// of the text when the text is a JSON array of strings and an error
/// otherwise; the outcome depends on the text alone.
#[verifier::external_body]
pub(crate) fn decode_strings(s: &str) -> (r: Option<Vec<String>>)
    ensures
        r.deep_view() == strings_of_json(s@),
{
    serde_json::from_str::<Vec<String>>(s).ok()
}

} // verus!
