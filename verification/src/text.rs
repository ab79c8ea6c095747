//! Small helpers on strings and byte strings that the rest of the crate
//! shares.
use vstd::prelude::*;
use vstd::utf8::*;

verus! {

/// A copy of an optional string.
pub(crate) fn clone_opt_string(text: &Option<String>) -> (copy: Option<String>)
    ensures
        copy == *text,
{
    match text {
        Some(s) => Some(s.clone()),
        None => None,
    }
}

/// A copy of a list of strings, in the same order.
pub(crate) fn clone_strings(list: &Vec<String>) -> (copy: Vec<String>)
    ensures
        copy@ == list@,
{
    let mut copy: Vec<String> = Vec::new();
    let mut i: usize = 0;
    while i < list.len()
        invariant
            i <= list.len(),
            copy@ == list@.take(i as int),
        decreases list.len() - i,
    {
        copy.push(list[i].clone());
        i += 1;
    }
    copy
}

/// A copy of an optional list of strings.
pub(crate) fn clone_opt_strings(list: &Option<Vec<String>>) -> (copy: Option<Vec<String>>)
    ensures
        copy.deep_view() == list.deep_view(),
        copy is Some <==> *list is Some,
        copy is Some ==> copy->0@ == list->0@,
{
    match list {
        Some(items) => Some(clone_strings(items)),
        None => None,
    }
}

/// A copy of a byte string.
pub(crate) fn clone_bytes(bytes: &Vec<u8>) -> (copy: Vec<u8>)
    ensures
        copy@ == bytes@,
{
    let mut copy: Vec<u8> = Vec::new();
    let mut i: usize = 0;
    while i < bytes.len()
        invariant
            i <= bytes.len(),
            copy@ == bytes@.take(i as int),
        decreases bytes.len() - i,
    {
        copy.push(bytes[i]);
        i += 1;
    }
    copy
}

/// Whether `path` is exactly `/`, the root object path.
pub(crate) fn is_root_path(path: &str) -> (root: bool)
    ensures
        root == (path@ == seq!['/']),
{
    if path.unicode_len() == 1 {
        let first = path.get_char(0);
        assert(first == '/' ==> path@ =~= seq!['/']);
        first == '/'
    } else {
        false
    }
}

/// `prefix` followed by `rest`.
pub(crate) fn join(prefix: &str, rest: &str) -> (joined: String)
    ensures
        joined@ == prefix@ + rest@,
{
    let start = prefix.to_owned();
    start.concat(rest)
}

/// A byte string without its final NUL, if it ends in one.
pub open spec fn trim_nul(bytes: Seq<u8>) -> Seq<u8> {
    if bytes.len() > 0 && bytes.last() == 0 {
        bytes.drop_last()
    } else {
        bytes
    }
}

/// The text that a byte string encodes in UTF-8, if it is valid UTF-8.
pub open spec fn utf8_text(bytes: Seq<u8>) -> Option<Seq<char>> {
    if valid_utf8(bytes) {
        Some(decode_utf8(bytes))
    } else {
        None
    }
}

/// Decodes `bytes` as UTF-8 with `String::from_utf8` of the standard library.
///
/// Trusted: the result is `Some` exactly when the bytes are well-formed
/// UTF-8, and then holds the characters they encode.
#[verifier::external_body]
pub(crate) fn string_from_utf8(bytes: Vec<u8>) -> (decoded: Option<String>)
    ensures
        decoded.deep_view() == utf8_text(bytes@),
{
    String::from_utf8(bytes).ok()
}

/// Drops one trailing NUL from `bytes`, then decodes the rest as UTF-8.
pub(crate) fn decode_byte_string(bytes: Vec<u8>) -> (decoded: Option<String>)
    ensures
        decoded.deep_view() == utf8_text(trim_nul(bytes@)),
{
    let mut bytes = bytes;
    let n = bytes.len();
    if n > 0 && bytes[n - 1] == 0 {
        bytes.pop();
    }
    string_from_utf8(bytes)
}

} // verus!
