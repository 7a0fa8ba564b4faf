//! Header names and values: what may go on the wire, and in which form.

use vstd::prelude::*;

verus! {

/// `http::header::InvalidHeaderName`, the refusal of a key: carried, never
/// looked into.
#[verifier::external_type_specification]
#[verifier::external_body]
pub struct ExInvalidHeaderName(http::header::InvalidHeaderName);

/// `http::header::InvalidHeaderValue`, the refusal of a value: carried,
/// never looked into.
#[verifier::external_type_specification]
#[verifier::external_body]
pub struct ExInvalidHeaderValue(http::header::InvalidHeaderValue);

/// The longest header name, in characters.
pub const MAX_HEADER_NAME_LEN: usize = 65535;

/// The characters that a header name is made of: letters, digits, and the
/// marks ``! " # $ % & ' * + - . ^ _ ` | ~``.
pub open spec fn is_header_name_char(c: char) -> bool {
    ||| 'a' <= c <= 'z'
    ||| 'A' <= c <= 'Z'
    ||| '0' <= c <= '9'
    ||| c == '!'
    ||| c == '"'
    ||| c == '#'
    ||| c == '$'
    ||| c == '%'
    ||| c == '&'
    ||| c == '\''
    ||| c == '*'
    ||| c == '+'
    ||| c == '-'
    ||| c == '.'
    ||| c == '^'
    ||| c == '_'
    ||| c == '`'
    ||| c == '|'
    ||| c == '~'
}

/// `c` with an upper-case letter turned into its lower-case one.
pub open spec fn lower_char(c: char) -> char {
    if 'A' <= c <= 'Z' {
        ((c as u8 + 32) as u8) as char
    } else {
        c
    }
}

/// Whether `key` can name a header: not empty, not too long, made of name
/// characters.
pub open spec fn is_header_name(key: Seq<char>) -> bool {
    &&& 1 <= key.len() <= MAX_HEADER_NAME_LEN
    &&& forall|i: int| 0 <= i < key.len() ==> is_header_name_char(#[trigger] key[i])
}

/// The form in which a header name is kept: in lower case.
pub open spec fn normalized_name(key: Seq<char>) -> Seq<char> {
    Seq::new(key.len(), |i: int| lower_char(key[i]))
}

/// Whether `name` is a header name in the form in which it is kept.
pub open spec fn is_normal_name(name: Seq<char>) -> bool {
    is_header_name(name) && normalized_name(name) == name
}

/// The characters that a header value is made of: the tab, and everything
/// from the space on but the delete character.
pub open spec fn is_header_value_char(c: char) -> bool {
    c == '\t' || (' ' <= c && c != '\x7f')
}

/// Whether `value` can be a header's value.
pub open spec fn is_header_value(value: Seq<char>) -> bool {
    forall|i: int| 0 <= i < value.len() ==> is_header_value_char(#[trigger] value[i])
}

/// Calls `http::header::HeaderName::from_bytes` on the bytes of `key` and
/// hands out the name's text.
///
/// Claimed and not proved: the call accepts the non-empty keys of at most
/// 65535 bytes whose every byte is a name character, and the name that it
/// makes is the key in lower case.
#[verifier::external_body]
pub(crate) fn parse_header_name(key: &str) -> (r: Result<
    String,
    http::header::InvalidHeaderName,
>)
    ensures
        r is Ok <==> is_header_name(key@),
        r matches Ok(name) ==> name@ == normalized_name(key@),
{
    match http::header::HeaderName::from_bytes(key.as_bytes()) {
        Ok(name) => Ok(name.as_str().to_owned()),
        Err(e) => Err(e),
    }
}

/// Calls `http::header::HeaderValue::from_str`.
///
/// Claimed and not proved: the call accepts the values whose every byte is
/// the tab or at least 32 and not 127; a character beyond ASCII is written
/// in bytes from 128 on, so it is accepted too.
#[verifier::external_body]
pub(crate) fn parse_header_value(value: &str) -> (r: Result<
    (),
    http::header::InvalidHeaderValue,
>)
    ensures
        r is Ok <==> is_header_value(value@),
{
    match http::header::HeaderValue::from_str(value) {
        Ok(_) => Ok(()),
        Err(e) => Err(e),
    }
}

/// Normalizing a name twice is normalizing it once, and a normalized name
/// is still a name.
pub proof fn lemma_normalized_is_normal(key: Seq<char>)
    requires
        is_header_name(key),
    ensures
        is_normal_name(normalized_name(key)),
{
    let name = normalized_name(key);
    assert forall|i: int| 0 <= i < name.len() implies is_header_name_char(#[trigger] name[i])
        && lower_char(name[i]) == name[i] by {
        assert(is_header_name_char(key[i]));
    }
    assert(normalized_name(name) =~= name);
}

/// Only a header name has a normalized form that is a header name.
pub proof fn lemma_normal_only_from_name(key: Seq<char>)
    requires
        is_normal_name(normalized_name(key)),
    ensures
        is_header_name(key),
{
    let name = normalized_name(key);
    assert forall|i: int| 0 <= i < key.len() implies is_header_name_char(#[trigger] key[i]) by {
        assert(is_header_name_char(name[i]));
    }
}

} // verus!
