//! Character classes of HTTP header text, and the checks that read them.

use vstd::prelude::*;
use vstd::string::StringSliceAdditionalSpecFns;
use vstd::utf8::{
    decode_utf8, encode_utf8, encode_utf8_decode_utf8, encode_utf8_valid_utf8, valid_utf8,
};

verus! {

/// Characters that may stand in a header name: the letters, the digits and
/// ``! " # $ % & ' * + - . ^ _ ` | ~``.
pub open spec fn is_name_char(c: char) -> bool {
    ('!' <= c && c <= '\'') || c == '*' || c == '+' || c == '-' || c == '.' || ('0' <= c && c
        <= '9') || ('A' <= c && c <= 'Z') || ('^' <= c && c <= 'z') || c == '|' || c == '~'
}

/// Longest header name, in characters.
pub const MAX_NAME_LEN: usize = 65535;

/// A header name: between one and `MAX_NAME_LEN` name characters.
pub open spec fn is_header_name(name: Seq<char>) -> bool {
    &&& 1 <= name.len() <= MAX_NAME_LEN
    &&& forall|i: int| 0 <= i < name.len() ==> is_name_char(#[trigger] name[i])
}

/// Characters that may stand in a header value: the tab, and everything from
/// the space upwards but the delete character.
pub open spec fn is_value_char(c: char) -> bool {
    c == '\t' || (' ' <= c && c != '\x7f')
}

/// A header value: any number of value characters.
pub open spec fn is_header_value(value: Seq<char>) -> bool {
    forall|i: int| 0 <= i < value.len() ==> is_value_char(#[trigger] value[i])
}

/// The lowercase form of an ASCII capital; every other character unchanged.
pub open spec fn lower_char(c: char) -> char {
    if 'A' <= c && c <= 'Z' {
        ((c as u8) + 32) as char
    } else {
        c
    }
}

/// `text` with its ASCII capitals in lowercase.
pub open spec fn lower_text(text: Seq<char>) -> Seq<char> {
    Seq::new(text.len(), |i: int| lower_char(text[i]))
}

/// Tells whether `text` could be sent as a header value.
pub fn check_header_value(text: &str) -> (ok: bool)
    ensures
        ok == is_header_value(text@),
{
    broadcast use vstd::string::group_string_axioms;

    let mut ok = true;
    for c in it: text.chars()
        invariant
            it.seq() == text@,
            ok == (forall|i: int| 0 <= i < it.index() ==> is_value_char(#[trigger] text@[i])),
    {
        if !(c == '\t' || (' ' <= c && c != '\x7f')) {
            ok = false;
        }
    }
    ok
}

/// Tells whether two texts are the same, character for character.
pub fn same_text(a: &str, b: &str) -> (same: bool)
    ensures
        same == (a@ == b@),
{
    let x = a.as_bytes();
    let y = b.as_bytes();
    proof {
        encode_utf8_decode_utf8(a@);
        encode_utf8_decode_utf8(b@);
        assert(x@ == encode_utf8(a@));
        assert(y@ == encode_utf8(b@));
    }
    if x.len() != y.len() {
        return false;
    }
    let mut i: usize = 0;
    while i < x.len()
        invariant
            i <= x.len(),
            x.len() == y.len(),
            x@ == encode_utf8(a@),
            y@ == encode_utf8(b@),
            forall|k: int| 0 <= k < i ==> x@[k] == y@[k],
        decreases x.len() - i,
    {
        if x[i] != y[i] {
            return false;
        }
        i = i + 1;
    }
    proof {
        assert(x@ =~= y@);
        assert(decode_utf8(encode_utf8(a@)) == decode_utf8(encode_utf8(b@)));
    }
    true
}

/// The text that `String::from_utf8_lossy` makes of bytes that are not valid
/// UTF-8: every invalid sequence gives way to the replacement character.
pub uninterp spec fn lossy_text(bytes: Seq<u8>) -> Seq<char>;

/// The text of a byte string: its decoding where it is valid UTF-8, and the
/// repaired text where it is not.
pub open spec fn text_of_bytes(bytes: Seq<u8>) -> Seq<char> {
    if valid_utf8(bytes) {
        decode_utf8(bytes)
    } else {
        lossy_text(bytes)
    }
}

/// Calls `String::from_utf8_lossy` and takes the text as an owned string.
///
/// Trusted: valid UTF-8 comes back as the text it encodes; anything else
/// comes back repaired, and never as a failure.
#[verifier::external_body]
pub(crate) fn decode_lossy(bytes: &[u8]) -> (text: String)
    ensures
        text@ == (if valid_utf8(bytes@) {
            decode_utf8(bytes@)
        } else {
            lossy_text(bytes@)
        }),
{
    String::from_utf8_lossy(bytes).into_owned()
}

/// Encoding a text and reading the bytes back gives the text.
pub proof fn lemma_text_round_trip(text: Seq<char>)
    ensures
        text_of_bytes(encode_utf8(text)) == text,
{
    encode_utf8_valid_utf8(text);
    encode_utf8_decode_utf8(text);
}

} // verus!
