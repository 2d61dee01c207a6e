//! The header types of the `http` crate, as `axum` hands them on, and what
//! this library takes for granted of them.
//!
//! Nothing in this file is proved. Each item names the function of `http`
//! that it stands for and says what is claimed of it.

use axum::http::header::{HeaderMap, HeaderName, HeaderValue, InvalidHeaderValue, MaxSizeReached};
use vstd::prelude::*;
use vstd::string::StringSliceAdditionalSpecFns;

verus! {

/// `http::header::HeaderName`, a header name in lower case.
#[verifier::external_type_specification]
#[verifier::external_body]
pub struct ExHeaderName(HeaderName);

/// `http::header::HeaderValue`, the bytes of one header value.
#[verifier::external_type_specification]
#[verifier::external_body]
pub struct ExHeaderValue(HeaderValue);

/// `http::header::InvalidHeaderValue`, the refusal of `HeaderValue::from_str`.
#[verifier::external_type_specification]
#[verifier::external_body]
pub struct ExInvalidHeaderValue(InvalidHeaderValue);

/// `http::header::MaxSizeReached`, the refusal of `HeaderMap::try_insert`.
#[verifier::external_type_specification]
#[verifier::external_body]
pub struct ExMaxSizeReached(MaxSizeReached);

/// `http::header::HeaderMap`, the multimap from header names to values.
#[verifier::external_type_specification]
#[verifier::external_body]
#[verifier::reject_recursive_types(T)]
pub struct ExHeaderMap<T>(HeaderMap<T>);

/// The text of a header name: what `HeaderName::as_str` returns.
pub uninterp spec fn header_name_text(name: HeaderName) -> Seq<char>;

/// The bytes of a header value: what `HeaderValue::as_bytes` returns.
pub uninterp spec fn header_value_bytes(value: HeaderValue) -> Seq<u8>;

/// The contents of a header map: each name that has a value, by its text,
/// with the bytes of its values in the order in which `HeaderMap::get_all`
/// yields them.
pub uninterp spec fn header_fields(map: HeaderMap<HeaderValue>) -> Map<Seq<char>, Seq<Seq<u8>>>;

/// The longest header name that `http` accepts.
pub const MAX_HEADER_NAME_LEN: usize = 65535;

/// A header name made of lower-case letters and hyphens only. Every such
/// name is one that `HeaderName::from_static` accepts.
pub open spec fn is_plain_header_name(text: Seq<char>) -> bool {
    &&& 1 <= text.len() <= MAX_HEADER_NAME_LEN
    &&& forall|i: int| 0 <= i < text.len() ==> ('a' <= #[trigger] text[i] <= 'z' || text[i] == '-')
}

/// A byte that `http` accepts in a header value: a tab, or anything from the
/// space upwards but the delete character.
pub open spec fn is_header_value_byte(b: u8) -> bool {
    (b >= 32 && b != 127) || b == 9
}

/// Every byte of `bytes` may stand in a header value.
pub open spec fn is_header_value(bytes: Seq<u8>) -> bool {
    forall|i: int| 0 <= i < bytes.len() ==> is_header_value_byte(#[trigger] bytes[i])
}

/// `HeaderName::from_static`: the header name with the given text. The call
/// panics on an empty name, on one longer than `MAX_HEADER_NAME_LEN` and on
/// a byte outside its table of lower-case name characters; `requires` keeps
/// to names of lower-case letters and hyphens, all of which the table holds.
#[verifier::external_body]
pub(crate) fn header_name(text: &'static str) -> (name: HeaderName)
    requires
        is_plain_header_name(text@),
    ensures
        header_name_text(name) == text@,
{
    HeaderName::from_static(text)
}

/// `HeaderValue::from_str`: succeeds exactly when every byte of the text is
/// a tab or at least 32 and not 127, and the value then holds the bytes of
/// the text unchanged.
#[verifier::external_body]
pub(crate) fn header_value(text: &str) -> (made: Result<HeaderValue, InvalidHeaderValue>)
    ensures
        made is Ok <==> is_header_value(text.spec_bytes()),
        made matches Ok(value) ==> header_value_bytes(value) == text.spec_bytes(),
{
    HeaderValue::from_str(text)
}

/// `HeaderMap::try_insert`: on success the name holds the new value and no
/// other, every other name keeps its values, and the first of the values
/// that the name held before is returned. On `MaxSizeReached` the contents
/// are as they were. When the map refuses is left open: it depends on how
/// the map has grown, not on its contents alone.
#[verifier::external_body]
pub(crate) fn set_header(
    map: &mut HeaderMap<HeaderValue>,
    name: HeaderName,
    value: HeaderValue,
) -> (replaced: Result<Option<HeaderValue>, MaxSizeReached>)
    ensures
        replaced is Ok ==> header_fields(*final(map)) == header_fields(*old(map)).insert(
            header_name_text(name),
            seq![header_value_bytes(value)],
        ),
        replaced is Err ==> header_fields(*final(map)) == header_fields(*old(map)),
        replaced matches Ok(Some(before)) ==> header_fields(*old(map)).contains_key(
            header_name_text(name),
        ) && header_fields(*old(map))[header_name_text(name)].len() > 0 && header_value_bytes(
            before,
        ) == header_fields(*old(map))[header_name_text(name)][0],
        replaced matches Ok(None) ==> !header_fields(*old(map)).contains_key(
            header_name_text(name),
        ),
{
    map.try_insert(name, value)
}

} // verus!
