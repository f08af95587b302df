//! Writing the small JSON objects that packets carry as payloads: the objects
//! are framed here, their strings are written by `serde_json`.
use vstd::prelude::*;

verus! {

/// Name of the JSON string that `serde_json` writes for the text `s`, quotes
/// and escapes included.
pub uninterp spec fn json_string(s: Seq<char>) -> Seq<char>;

/// Calls `serde_json::to_string` on a text; the result is named. As the crate's
/// source shows, writing a `str` into its in-memory buffer cannot fail, so the
/// error arm is never taken.
#[verifier::external_body]
fn json_quote(s: &str) -> (r: String)
    ensures
        r@ == json_string(s@),
{
    match serde_json::to_string(s) {
        Ok(t) => t,
        Err(_) => String::new(),
    }
}

/// Appends `s` as a JSON string, quotes included.
pub fn push_json_string(out: &mut String, s: &str)
    ensures
        final(out)@ == old(out)@ + json_string(s@),
{
    let quoted = json_quote(s);
    out.append(quoted.as_str());
}

} // verus!
