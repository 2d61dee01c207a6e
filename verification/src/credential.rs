//! The credential injector. Before any handler sees a request, its
//! `Authorization` header is set to the bearer credential of the configured
//! secret. The policy is to override: whatever the caller sent under that
//! name is replaced, and no handler looks at it.

use crate::config::Config;
use crate::headers::{
    header_fields, header_name, header_value, header_value_bytes, is_header_value,
    is_header_value_byte, is_plain_header_name, set_header,
};
use crate::response::Status;
use crate::text::join_texts;
use axum::http::header::{HeaderMap, HeaderValue, InvalidHeaderValue, MaxSizeReached};
use vstd::prelude::*;
use vstd::utf8::{encode_scalar, encode_utf8, has_width_1_encoding};

verus! {

/// Why a request could not be given its credential. Neither case carries
/// the secret or any part of it.
#[derive(Debug, Clone, Copy, PartialEq, Eq, Structural)]
pub enum HeaderConstructionError {
    /// The bearer text of the secret cannot stand in a header value.
    InvalidCredential,
    /// The header set of the request takes no further name.
    HeaderSetFull,
}

impl HeaderConstructionError {
    /// The status that the affected request is answered with.
    pub fn status(self) -> (status: Status)
        ensures
            status == Status::InternalServerError,
    {
        Status::InternalServerError
    }
}

/// The header name under which the credential travels.
pub open spec fn authorization_name() -> Seq<char> {
    "authorization"@
}

/// The bearer credential of a secret, as text.
pub open spec fn bearer_text(secret: Seq<char>) -> Seq<char> {
    "Bearer "@ + secret
}

/// A character that may stand in a header value: a tab, or anything from
/// the space upwards but the delete character.
pub open spec fn is_header_char(c: char) -> bool {
    (c >= ' ' && c != '\u{7f}') || c == '\t'
}

/// Every character of `text` may stand in a header value.
pub open spec fn is_header_text(text: Seq<char>) -> bool {
    forall|i: int| 0 <= i < text.len() ==> is_header_char(#[trigger] text[i])
}

/// A header set after injection: `authorization` holds the bearer
/// credential of the secret and nothing else; every other name is as it was.
pub open spec fn with_credential(
    fields: Map<Seq<char>, Seq<Seq<u8>>>,
    secret: Seq<char>,
) -> Map<Seq<char>, Seq<Seq<u8>>> {
    fields.insert(authorization_name(), seq![encode_utf8(bearer_text(secret))])
}

proof fn lemma_width_1_byte(scalar: u32)
    by (bit_vector)
    requires
        scalar <= 0x7F,
    ensures
        (scalar & 0x7F) as u8 == scalar,
{
}

proof fn lemma_width_2_bytes(scalar: u32)
    by (bit_vector)
    ensures
        0xC0u8 | ((scalar >> 6) & 0x1F) as u8 >= 0x80u8,
        0x80u8 | (scalar & 0x3F) as u8 >= 0x80u8,
{
}

proof fn lemma_width_3_bytes(scalar: u32)
    by (bit_vector)
    ensures
        0xE0u8 | ((scalar >> 12) & 0x0F) as u8 >= 0x80u8,
        0x80u8 | ((scalar >> 6) & 0x3F) as u8 >= 0x80u8,
{
}

proof fn lemma_width_4_bytes(scalar: u32)
    by (bit_vector)
    ensures
        0xF0u8 | ((scalar >> 18) & 0x7) as u8 >= 0x80u8,
        0x80u8 | ((scalar >> 12) & 0x3F) as u8 >= 0x80u8,
{
}

/// The bytes that encode one character may stand in a header value exactly
/// when the character may.
proof fn lemma_header_char_bytes(c: char)
    ensures
        is_header_value(encode_scalar(c as u32)) <==> is_header_char(c),
{
    let scalar = c as u32;
    let bytes = encode_scalar(scalar);
    vstd::utf8::char_is_scalar(c);
    lemma_width_2_bytes(scalar);
    lemma_width_3_bytes(scalar);
    lemma_width_4_bytes(scalar);
    if has_width_1_encoding(scalar) {
        lemma_width_1_byte(scalar);
        assert(bytes[0] == scalar);
        assert(is_header_value_byte(bytes[0]) <==> is_header_char(c));
    } else {
        assert(c >= ' ' && c != '\u{7f}');
        assert forall|i: int| 0 <= i < bytes.len() implies is_header_value_byte(
            #[trigger] bytes[i],
        ) by {
            assert(bytes[i] >= 0x80u8);
        }
    }
}

/// A text may stand in a header value, byte by byte of its UTF-8 encoding,
/// exactly when each of its characters may.
pub proof fn lemma_header_text_bytes(text: Seq<char>)
    ensures
        is_header_value(encode_utf8(text)) <==> is_header_text(text),
    decreases text.len(),
{
    if text.len() > 0 {
        let head = encode_scalar(text[0] as u32);
        let rest = text.drop_first();
        let tail = encode_utf8(rest);
        lemma_header_char_bytes(text[0]);
        lemma_header_text_bytes(rest);
        assert(encode_utf8(text) == head + tail);
        if is_header_value(head + tail) {
            assert forall|i: int| 0 <= i < head.len() implies is_header_value_byte(
                #[trigger] head[i],
            ) by {
                assert((head + tail)[i] == head[i]);
            }
            assert forall|i: int| 0 <= i < tail.len() implies is_header_value_byte(
                #[trigger] tail[i],
            ) by {
                assert((head + tail)[head.len() + i] == tail[i]);
            }
            assert forall|i: int| 0 <= i < text.len() implies is_header_char(
                #[trigger] text[i],
            ) by {
                if i > 0 {
                    assert(rest[i - 1] == text[i]);
                }
            }
        }
        if is_header_text(text) {
            assert forall|i: int| 0 <= i < rest.len() implies is_header_char(
                #[trigger] rest[i],
            ) by {
                assert(rest[i] == text[i + 1]);
            }
            assert(is_header_char(text[0]));
        }
    }
}

/// The bearer text of a secret may stand in a header value exactly when the
/// secret may: the prefix never stands in the way.
pub proof fn lemma_bearer_text(secret: Seq<char>)
    ensures
        is_header_text(bearer_text(secret)) <==> is_header_text(secret),
{
    reveal_strlit("Bearer ");
    let prefix = "Bearer "@;
    let full = bearer_text(secret);
    if is_header_text(full) {
        assert forall|i: int| 0 <= i < secret.len() implies is_header_char(
            #[trigger] secret[i],
        ) by {
            assert(full[prefix.len() + i] == secret[i]);
        }
    }
    if is_header_text(secret) {
        assert forall|i: int| 0 <= i < full.len() implies is_header_char(#[trigger] full[i]) by {
            if i >= prefix.len() {
                assert(full[i] == secret[i - prefix.len()]);
            }
        }
    }
}

/// Says what the minted credential is, for each answer of the header
/// encoder.
pub fn settle_minting(made: Result<HeaderValue, InvalidHeaderValue>) -> (minted: Result<
    HeaderValue,
    HeaderConstructionError,
>)
    ensures
        made matches Ok(value) ==> minted == Ok::<HeaderValue, HeaderConstructionError>(value),
        made is Err ==> minted == Err::<HeaderValue, HeaderConstructionError>(
            HeaderConstructionError::InvalidCredential,
        ),
{
    match made {
        Ok(value) => Ok(value),
        Err(_) => Err(HeaderConstructionError::InvalidCredential),
    }
}

/// Mints the bearer credential of a secret. It succeeds exactly when every
/// character of the secret may stand in a header value; the value then
/// holds the UTF-8 bytes of `Bearer ` followed by the secret.
pub fn mint_credential(secret: &str) -> (minted: Result<HeaderValue, HeaderConstructionError>)
    ensures
        minted is Ok <==> is_header_text(secret@),
        minted matches Ok(value) ==> header_value_bytes(value) == encode_utf8(
            bearer_text(secret@),
        ),
        minted matches Err(error) ==> error == HeaderConstructionError::InvalidCredential,
{
    let text = join_texts("Bearer ", secret);
    proof {
        lemma_header_text_bytes(text@);
        lemma_bearer_text(secret@);
    }
    settle_minting(header_value(text.as_str()))
}

/// Says what comes of the injection, for each answer of the header set.
pub fn settle_injection(replaced: Result<Option<HeaderValue>, MaxSizeReached>) -> (done: Result<
    (),
    HeaderConstructionError,
>)
    ensures
        replaced is Ok ==> done == Ok::<(), HeaderConstructionError>(()),
        replaced is Err ==> done == Err::<(), HeaderConstructionError>(
            HeaderConstructionError::HeaderSetFull,
        ),
{
    match replaced {
        Ok(_) => Ok(()),
        Err(_) => Err(HeaderConstructionError::HeaderSetFull),
    }
}

/// Sets the `Authorization` header of a request to the bearer credential of
/// the configured secret, in place of whatever the caller sent under that
/// name.
///
/// Where the secret cannot stand in a header value the headers stay as they
/// were and the error is `InvalidCredential`. Otherwise the header set
/// decides: either it takes the credential, or it is full, stays as it was,
/// and the error is `HeaderSetFull`.
pub fn inject_credential(headers: &mut HeaderMap<HeaderValue>, config: &Config) -> (done: Result<
    (),
    HeaderConstructionError,
>)
    ensures
        done is Ok ==> is_header_text(config@.secret_token) && header_fields(*final(headers))
            == with_credential(header_fields(*old(headers)), config@.secret_token),
        done is Err ==> header_fields(*final(headers)) == header_fields(*old(headers)),
        !is_header_text(config@.secret_token) ==> *final(headers) == *old(headers) && done == Err::<
            (),
            HeaderConstructionError,
        >(HeaderConstructionError::InvalidCredential),
        is_header_text(config@.secret_token) && done is Err ==> done == Err::<
            (),
            HeaderConstructionError,
        >(HeaderConstructionError::HeaderSetFull),
{
    match mint_credential(config.secret_token.as_str()) {
        Ok(value) => {
            proof {
                reveal_strlit("authorization");
                assert(is_plain_header_name("authorization"@));
            }
            let name = header_name("authorization");
            settle_injection(set_header(headers, name, value))
        },
        Err(error) => Err(error),
    }
}

/// The override policy: after injection `authorization` holds exactly the
/// credential of the secret, whatever the caller sent under that name, and
/// every other header is as the caller sent it.
pub proof fn lemma_injection_overrides(
    fields: Map<Seq<char>, Seq<Seq<u8>>>,
    secret: Seq<char>,
    name: Seq<char>,
)
    ensures
        with_credential(fields, secret).contains_key(authorization_name()),
        with_credential(fields, secret)[authorization_name()] == seq![
            encode_utf8(bearer_text(secret)),
        ],
        name != authorization_name() ==> (with_credential(fields, secret).contains_key(name)
            <==> fields.contains_key(name)),
        name != authorization_name() && fields.contains_key(name) ==> with_credential(
            fields,
            secret,
        )[name] == fields[name],
{
}

/// What the caller sent as `Authorization` leaves no trace: two header sets
/// that differ under that name only are the same after injection.
pub proof fn lemma_caller_credential_is_dropped(
    fields: Map<Seq<char>, Seq<Seq<u8>>>,
    other: Map<Seq<char>, Seq<Seq<u8>>>,
    secret: Seq<char>,
)
    requires
        fields.remove(authorization_name()) == other.remove(authorization_name()),
    ensures
        with_credential(fields, secret) == with_credential(other, secret),
{
    assert forall|name: Seq<char>|
        with_credential(fields, secret).contains_key(name) <==> with_credential(
            other,
            secret,
        ).contains_key(name) by {
        if name != authorization_name() {
            assert(fields.remove(authorization_name()).contains_key(name) <==> fields.contains_key(
                name,
            ));
            assert(other.remove(authorization_name()).contains_key(name) <==> other.contains_key(
                name,
            ));
        }
    }
    assert forall|name: Seq<char>| #[trigger]
        with_credential(fields, secret).contains_key(name) implies with_credential(
        fields,
        secret,
    )[name] == with_credential(other, secret)[name] by {
        if name != authorization_name() {
            assert(fields.remove(authorization_name())[name] == fields[name]);
            assert(other.remove(authorization_name())[name] == other[name]);
        }
    }
    assert(with_credential(fields, secret) =~= with_credential(other, secret));
}

/// Injecting twice is injecting once.
pub proof fn lemma_injection_is_idempotent(fields: Map<Seq<char>, Seq<Seq<u8>>>, secret: Seq<char>)
    ensures
        with_credential(with_credential(fields, secret), secret) == with_credential(
            fields,
            secret,
        ),
{
    assert(with_credential(with_credential(fields, secret), secret) =~= with_credential(
        fields,
        secret,
    ));
}

} // verus!
