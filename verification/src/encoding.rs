//! Percent-encoding of URL path components, done by the `urlencoding` crate.

use vstd::prelude::*;
use vstd::utf8::encode_utf8;

verus! {

/// Bytes that percent-encoding leaves as they are: ASCII letters and
/// digits, `-`, `.`, `_` and `~`.
pub open spec fn is_unreserved(b: u8) -> bool {
    ||| (48 <= b && b <= 57)
    ||| (65 <= b && b <= 90)
    ||| (97 <= b && b <= 122)
    ||| b == 45
    ||| b == 46
    ||| b == 95
    ||| b == 126
}

/// The upper-case hexadecimal digit of `d`, for `d < 16`.
pub open spec fn hex_digit(d: u8) -> char {
    if d < 10 {
        (d + 48) as char
    } else {
        (d + 55) as char
    }
}

/// Each byte kept when unreserved, else written `%` and two upper-case
/// hexadecimal digits.
pub open spec fn percent_encode(bytes: Seq<u8>) -> Seq<char>
    decreases bytes.len(),
{
    if bytes.len() == 0 {
        Seq::empty()
    } else {
        let b: u8 = bytes[0];
        let head = if is_unreserved(b) {
            seq![b as char]
        } else {
            seq!['%', hex_digit(b / 16), hex_digit(b % 16)]
        };
        head + percent_encode(bytes.drop_first())
    }
}

/// The percent-encoding of the UTF-8 bytes of `s`.
pub open spec fn url_encoded(s: Seq<char>) -> Seq<char> {
    percent_encode(encode_utf8(s))
}

/// `urlencoding::encode`: encodes every UTF-8 byte of `s` except ASCII
/// letters, digits, `-`, `.`, `_` and `~` as `%XX` with upper-case hex
/// digits.
#[verifier::external_body]
pub(crate) fn url_encode(s: &str) -> (r: String)
    ensures
        r@ == url_encoded(s@),
{
    urlencoding::encode(s).into_owned()
}

/// A character that percent-encoding can produce.
pub open spec fn is_encoded_char(c: char) -> bool {
    ||| ('0' <= c && c <= '9')
    ||| ('A' <= c && c <= 'Z')
    ||| ('a' <= c && c <= 'z')
    ||| c == '-'
    ||| c == '.'
    ||| c == '_'
    ||| c == '~'
    ||| c == '%'
}

/// Percent-encoded text holds only ASCII letters and digits, `-`, `.`,
/// `_`, `~` and `%`: no `/`, `?` or `#` can reach a URL through it.
pub proof fn law_percent_encoding_is_path_safe(bytes: Seq<u8>)
    ensures
        forall|k: int|
            0 <= k < percent_encode(bytes).len() ==> is_encoded_char(
                #[trigger] percent_encode(bytes)[k],
            ),
    decreases bytes.len(),
{
    if bytes.len() > 0 {
        let b: u8 = bytes[0];
        law_percent_encoding_is_path_safe(bytes.drop_first());
        let tail = percent_encode(bytes.drop_first());
        let head = if is_unreserved(b) {
            seq![b as char]
        } else {
            seq!['%', hex_digit(b / 16), hex_digit(b % 16)]
        };
        assert(percent_encode(bytes) == head + tail);
        assert forall|k: int| 0 <= k < head.len() implies is_encoded_char(#[trigger] head[k]) by {
            if !is_unreserved(b) && k > 0 {
                assert(b / 16 < 16 && b % 16 < 16);
            }
        }
        assert forall|k: int| 0 <= k < percent_encode(bytes).len() implies is_encoded_char(
            #[trigger] percent_encode(bytes)[k],
        ) by {
            if k < head.len() {
                assert(percent_encode(bytes)[k] == head[k]);
            } else {
                assert(percent_encode(bytes)[k] == tail[k - head.len()]);
            }
        }
    }
}

} // verus!
