//! Header maps of the `http` crate, as far as the endpoint fills them.
//!
//! The map and its values are http's own. What a map holds is named by
//! [`header_fields`], what a value holds by [`value_bytes`]; the contracts
//! below are stated over these and taken on trust from http's source.

use axum::http::header::InvalidHeaderValue;
use axum::http::{HeaderMap, HeaderValue};
use vstd::prelude::*;
use vstd::string::StringSliceAdditionalSpecFns;
use vstd::utf8::{encode_utf8, is_ascii_chars_encode_utf8};

verus! {

/// `http::HeaderMap`, opaque to the verifier.
#[verifier::external_type_specification]
#[verifier::external_body]
#[verifier::reject_recursive_types(T)]
pub struct ExHeaderMap<T>(HeaderMap<T>);

/// `http::HeaderValue`, opaque to the verifier.
#[verifier::external_type_specification]
#[verifier::external_body]
pub struct ExHeaderValue(HeaderValue);

/// `http::header::InvalidHeaderValue`, opaque to the verifier.
#[verifier::external_type_specification]
#[verifier::external_body]
pub struct ExInvalidHeaderValue(InvalidHeaderValue);

/// What a header map holds: for each name in it, in lower case, the values
/// under that name, in order, each as its bytes.
pub type Fields = Map<Seq<char>, Seq<Seq<u8>>>;

/// The fields that a header map holds.
pub uninterp spec fn header_fields(map: HeaderMap<HeaderValue>) -> Map<Seq<char>, Seq<Seq<u8>>>;

/// The bytes of a header value.
pub uninterp spec fn value_bytes(value: HeaderValue) -> Seq<u8>;

/// How many names a map may hold at most for [`insert_field`] to be called on
/// it.
///
/// `HeaderMap::insert` panics where the map cannot take one more name: where
/// it holds 32768 names, or would have to grow past 32768 slots. It grows when
/// three quarters of its slots are taken or, once it has met many collisions,
/// when a fifth of them is. A map with no more names than this is short of
/// each: they are less than a fifth of 32768.
pub const FIELD_ROOM: usize = 6553;

/// A byte that a header value may hold: anything from the space upwards but
/// DEL, and the tab.
pub open spec fn is_value_byte(byte: u8) -> bool {
    (byte >= 32 && byte != 127) || byte == 9
}

/// A text that is a header value: all bytes of its UTF-8 form may stand in one.
pub open spec fn is_value_text(text: Seq<char>) -> bool {
    forall|i: int|
        0 <= i < encode_utf8(text).len() ==> is_value_byte(#[trigger] encode_utf8(text)[i])
}

/// A character of a header name in its lower-case form: a lower-case letter, a
/// digit, or one of the signs that a token may hold.
pub open spec fn is_name_char(c: char) -> bool {
    ||| 'a' <= c <= 'z'
    ||| '0' <= c <= '9'
    ||| c == '!'
    ||| c == '#'
    ||| c == '$'
    ||| c == '%'
    ||| c == '&'
    ||| c == '\''
    ||| c == '*'
    ||| c == '+'
    ||| c == '-'
    ||| c == '.'
    ||| c == '^'
    ||| c == '_'
    ||| c == '`'
    ||| c == '|'
    ||| c == '~'
}

/// A header name in lower case, short enough for http to take it in one piece.
pub open spec fn is_field_name(name: Seq<char>) -> bool {
    &&& 1 <= name.len() <= 64
    &&& forall|i: int| 0 <= i < name.len() ==> is_name_char(#[trigger] name[i])
}

/// `HeaderMap::new`: the new map holds nothing.
pub assume_specification[ HeaderMap::<HeaderValue>::new ]() -> (fresh: HeaderMap<HeaderValue>)
    ensures
        header_fields(fresh) == Fields::empty(),
;

/// `HeaderValue::from_str`: the text is taken if and only if every byte of it
/// may stand in a header value, and the value then holds the bytes of the text.
pub assume_specification[ HeaderValue::from_str ](src: &str) -> (parsed: Result<
    HeaderValue,
    InvalidHeaderValue,
>)
    ensures
        parsed is Ok <==> is_value_text(src@),
        parsed is Ok ==> value_bytes(parsed->Ok_0) == src.spec_bytes(),
;

/// `HeaderMap::insert` with a string as the name: the map holds the value as
/// the only one under that name, and what it held under other names stays.
/// The first of the values that the name had before is handed back.
///
/// The name is asked to be a header name in lower case, which http takes as it
/// is, and the map to have room, so that the call does not panic.
#[verifier::external_body]
pub(crate) fn insert_field(
    map: &mut HeaderMap<HeaderValue>,
    name: &'static str,
    value: HeaderValue,
) -> (previous: Option<HeaderValue>)
    requires
        is_field_name(name@),
        header_fields(*old(map)).dom().finite(),
        header_fields(*old(map)).dom().len() <= FIELD_ROOM,
    ensures
        header_fields(*final(map)) == header_fields(*old(map)).insert(
            name@,
            seq![value_bytes(value)],
        ),
        previous is Some <==> header_fields(*old(map)).contains_key(name@),
        previous is Some ==> value_bytes(previous->Some_0) == header_fields(*old(map))[name@][0],
{
    map.insert(name, value)
}

/// A text of printable ASCII characters is a header value, and its bytes are
/// its characters.
pub proof fn lemma_printable_is_value_text(text: Seq<char>)
    requires
        forall|i: int| 0 <= i < text.len() ==> ' ' <= #[trigger] text[i] <= '~',
    ensures
        is_value_text(text),
        encode_utf8(text) == text.map_values(|c: char| c as u8),
{
    is_ascii_chars_encode_utf8(text);
    assert(encode_utf8(text) =~= text.map_values(|c: char| c as u8));
}

} // verus!
