//! The calls into the outside crates that this library makes: Base64
//! decoding (`base64`) and reading JSON text (`serde_json`). What those
//! calls return is named, not restated: the names below stand for the
//! results of the outside code on the given arguments.
use vstd::prelude::*;

verus! {

/// The bytes that `base64::decode` (standard alphabet, padded) returns for
/// `input`, or `None` where it reports a decoding error.
pub uninterp spec fn base64_decoding(input: Seq<u8>) -> Option<Seq<u8>>;

/// Whether `serde_json::from_str::<serde_json::Value>` accepts `doc`.
pub uninterp spec fn json_accepts(doc: Seq<char>) -> bool;

/// The compact text (`Value::to_string`) of `value[key]`, where `value` is
/// what `serde_json::from_str` reads from `doc`; `value[key]` is `null`
/// when `value` is no object or has no member `key`.
pub uninterp spec fn json_member_text(doc: Seq<char>, key: Seq<char>) -> Seq<char>;

/// The compact text (`Value::to_string`) of `value[index]`, where `value`
/// is what `serde_json::from_str` reads from `doc`; `value[index]` is
/// `null` when `value` is no array or is shorter.
pub uninterp spec fn json_element_text(doc: Seq<char>, index: nat) -> Seq<char>;

/// The number of elements of the array that `serde_json::from_str` reads
/// from `doc`, and 0 when it reads something else.
pub uninterp spec fn json_array_len(doc: Seq<char>) -> nat;

/// Calls `base64::decode` (base64 0.13) on `input`.
/// Claimed: the result is `base64_decoding(input)`, a function of the input
/// bytes alone. `decode` panics only where its length arithmetic overflows:
/// `input.len() + 3` (the capacity estimate in `decode_config`) and
/// `input.len() + 7` (the chunk count in `num_chunks`; the output length,
/// six bytes per chunk of eight, stays below the input length). The
/// precondition leaves both out.
#[verifier::external_body]
pub(crate) fn base64_decode(input: &[u8]) -> (r: Option<Vec<u8>>)
    requires
        input@.len() + 7 <= usize::MAX,
    ensures
        r is None ==> base64_decoding(input@) is None,
        r matches Some(v) ==> base64_decoding(input@) == Some(v@),
{
    base64::decode(input).ok()
}

/// Calls `serde_json::from_str::<serde_json::Value>` on `doc` and tells
/// whether it succeeded. Claimed: the answer is `json_accepts(doc)`.
#[verifier::external_body]
pub(crate) fn json_parses(doc: &str) -> (ok: bool)
    ensures
        ok == json_accepts(doc@),
{
    serde_json::from_str::<serde_json::Value>(doc).is_ok()
}

/// Reads `doc` with `serde_json::from_str::<serde_json::Value>` and returns
/// `value[key].to_string()` (the `Index<&str>` and `Display` impls of
/// `serde_json::Value`). Claimed: the text is `json_member_text(doc, key)`,
/// and it is itself text that `serde_json` reads (the compact form that
/// `Display` writes is JSON).
#[verifier::external_body]
pub(crate) fn json_member(doc: &str, key: &str) -> (t: String)
    requires
        json_accepts(doc@),
    ensures
        t@ == json_member_text(doc@, key@),
        json_accepts(t@),
{
    match serde_json::from_str::<serde_json::Value>(doc) {
        Ok(value) => value[key].to_string(),
        Err(_) => String::new(),
    }
}

/// Reads `doc` with `serde_json::from_str::<serde_json::Value>` and returns
/// `value[index].to_string()` (the `Index<usize>` and `Display` impls of
/// `serde_json::Value`). Claimed: the text is `json_element_text(doc,
/// index)`, and it is itself text that `serde_json` reads.
#[verifier::external_body]
pub(crate) fn json_element(doc: &str, index: usize) -> (t: String)
    requires
        json_accepts(doc@),
    ensures
        t@ == json_element_text(doc@, index as nat),
        json_accepts(t@),
{
    match serde_json::from_str::<serde_json::Value>(doc) {
        Ok(value) => value[index].to_string(),
        Err(_) => String::new(),
    }
}

/// Reads `doc` with `serde_json::from_str::<serde_json::Value>` and returns
/// the length of the array it holds, 0 for any other value. Claimed: the
/// length is `json_array_len(doc)`.
#[verifier::external_body]
pub(crate) fn json_len(doc: &str) -> (n: usize)
    requires
        json_accepts(doc@),
    ensures
        n as nat == json_array_len(doc@),
{
    match serde_json::from_str::<serde_json::Value>(doc) {
        Ok(serde_json::Value::Array(items)) => items.len(),
        _ => 0,
    }
}

} // verus!
