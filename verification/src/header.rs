//! The `ETag` that a models response carries.

use vstd::prelude::*;

verus! {

#[verifier::external_type_specification]
#[verifier::external_body]
pub struct ExHeaderValue(http::HeaderValue);

/// The bytes a header value holds.
pub uninterp spec fn header_value_bytes(value: http::HeaderValue) -> Seq<u8>;

/// A byte that `http` accepts in a header value read as text: a visible
/// ASCII character, a space, or a tab.
pub open spec fn is_visible_ascii(b: u8) -> bool {
    (32 <= b && b < 127) || b == 9
}

/// Bytes that are all visible ASCII, read as characters.
pub open spec fn ascii_text(bytes: Seq<u8>) -> Seq<char> {
    bytes.map_values(|b: u8| b as char)
}

/// Calls `http::HeaderValue::to_str` and copies the text. As the crate's
/// source shows, it succeeds exactly when every byte of the value is
/// visible ASCII (or a tab), and the text is then those bytes.
#[verifier::external_body]
fn header_value_text(value: &http::HeaderValue) -> (res: Option<String>)
    ensures
        res is Some <==> forall|i: int|
            0 <= i < header_value_bytes(*value).len() ==> is_visible_ascii(
                #[trigger] header_value_bytes(*value)[i],
            ),
        res matches Some(text) ==> text@ == ascii_text(header_value_bytes(*value)),
{
    match value.to_str() {
        Ok(text) => Some(text.to_string()),
        Err(_) => None,
    }
}

/// The entity tag of a response, from the value of its `ETag` header: its
/// text where the header is there and readable as visible ASCII, else
/// nothing.
pub fn etag_from_header(value: Option<&http::HeaderValue>) -> (res: Option<String>)
    ensures
        match value {
            None => res is None,
            Some(v) => {
                let bytes = header_value_bytes(*v);
                if forall|i: int| 0 <= i < bytes.len() ==> is_visible_ascii(#[trigger] bytes[i]) {
                    res matches Some(text) && text@ == ascii_text(bytes)
                } else {
                    res is None
                }
            },
        },
{
    match value {
        Some(v) => header_value_text(v),
        None => None,
    }
}

} // verus!
