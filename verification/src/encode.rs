//! URL-safe encoding of entity names.
//!
//! A display name is made URL-safe in two steps: every space becomes an
//! underscore, and the UTF-8 bytes of the result are percent-encoded, keeping
//! only the RFC 3986 unreserved bytes as themselves. A spec-level decoder
//! witnesses that the encoding loses nothing: decoding the token yields the
//! space-substituted name back.

use vstd::prelude::*;
use vstd::string::StrSliceExecFns;
use vstd::utf8::decode_utf8;
use vstd::utf8::encode_utf8;
use vstd::utf8::encode_utf8_decode_utf8;

verus! {

/// A byte that percent-encoding leaves as itself: an ASCII alphanumeric or
/// one of `-`, `.`, `_`, `~` (the RFC 3986 unreserved set).
pub open spec fn is_unreserved_byte(b: u8) -> bool {
    ||| 0x41 <= b <= 0x5A  // 'A'..='Z'
    ||| 0x61 <= b <= 0x7A  // 'a'..='z'
    ||| 0x30 <= b <= 0x39  // '0'..='9'
    ||| b == 0x2D  // '-'
    ||| b == 0x2E  // '.'
    ||| b == 0x5F  // '_'
    ||| b == 0x7E  // '~'
}

/// The upper-case hexadecimal digit for a nibble.
pub open spec fn hex_digit(n: u8) -> char
    recommends
        n < 16,
{
    if n < 10 {
        ((0x30 + n) as u8) as char
    } else {
        ((0x37 + n) as u8) as char
    }
}

/// How one byte appears in percent-encoded output: itself when unreserved,
/// `%XX` otherwise.
pub open spec fn encode_byte(b: u8) -> Seq<char> {
    if is_unreserved_byte(b) {
        seq![b as char]
    } else {
        seq!['%', hex_digit(b / 16), hex_digit(b % 16)]
    }
}

/// Percent-encoding of a byte sequence.
pub open spec fn percent_encode(bs: Seq<u8>) -> Seq<char>
    decreases bs.len(),
{
    if bs.len() == 0 {
        Seq::<char>::empty()
    } else {
        encode_byte(bs[0]) + percent_encode(bs.drop_first())
    }
}

/// Percent-encoding of the UTF-8 bytes of a character sequence.
pub open spec fn url_encode(s: Seq<char>) -> Seq<char> {
    percent_encode(encode_utf8(s))
}

/// Spaces replaced by underscores, all other characters kept.
pub open spec fn replace_spaces(s: Seq<char>) -> Seq<char> {
    s.map_values(|c: char| if c == ' ' { '_' } else { c })
}

/// The URL-safe token for a display name: spaces become underscores, then the
/// rest is percent-encoded.
pub open spec fn urlsafe_name(s: Seq<char>) -> Seq<char> {
    url_encode(replace_spaces(s))
}

/// Relies on std's `String::push`: appends exactly one character.
#[verifier::external_body]
fn push_char(s: &mut String, c: char)
    ensures
        final(s)@ == old(s)@.push(c),
{
    s.push(c);
}

fn is_unreserved_byte_exec(b: u8) -> (r: bool)
    ensures
        r == is_unreserved_byte(b),
{
    (0x41 <= b && b <= 0x5A) || (0x61 <= b && b <= 0x7A) || (0x30 <= b && b <= 0x39) || b == 0x2D
        || b == 0x2E || b == 0x5F || b == 0x7E
}

fn hex_digit_exec(n: u8) -> (c: char)
    requires
        n < 16,
    ensures
        c == hex_digit(n),
{
    if n < 10 {
        (0x30 + n) as char
    } else {
        (0x37 + n) as char
    }
}

proof fn lemma_percent_encode_concat(a: Seq<u8>, b: Seq<u8>)
    ensures
        percent_encode(a + b) == percent_encode(a) + percent_encode(b),
    decreases a.len(),
{
    if a.len() == 0 {
        assert(a + b =~= b);
        assert(percent_encode(a) + percent_encode(b) =~= percent_encode(b));
    } else {
        assert((a + b).drop_first() =~= a.drop_first() + b);
        lemma_percent_encode_concat(a.drop_first(), b);
        assert(percent_encode(a + b) =~= percent_encode(a) + percent_encode(b));
    }
}

fn replace_spaces_exec(name: &str) -> (r: String)
    ensures
        r@ == replace_spaces(name@),
{
    let n = name.unicode_len();
    let mut out = String::new();
    let mut i: usize = 0;
    while i < n
        invariant
            n == name@.len(),
            i <= n,
            out@ == replace_spaces(name@.subrange(0, i as int)),
        decreases n - i,
    {
        let c = name.get_char(i);
        if c == ' ' {
            push_char(&mut out, '_');
        } else {
            push_char(&mut out, c);
        }
        proof {
            assert(out@ =~= replace_spaces(name@.subrange(0, i + 1 as int)));
        }
        i = i + 1;
    }
    proof {
        assert(name@.subrange(0, n as int) =~= name@);
    }
    out
}

fn percent_encode_exec(bytes: &Vec<u8>) -> (r: String)
    ensures
        r@ == percent_encode(bytes@),
{
    let n = bytes.len();
    let mut out = String::new();
    let mut i: usize = 0;
    while i < n
        invariant
            n == bytes@.len(),
            i <= n,
            out@ == percent_encode(bytes@.subrange(0, i as int)),
        decreases n - i,
    {
        let b = bytes[i];
        if is_unreserved_byte_exec(b) {
            push_char(&mut out, b as char);
        } else {
            push_char(&mut out, '%');
            push_char(&mut out, hex_digit_exec(b / 16));
            push_char(&mut out, hex_digit_exec(b % 16));
        }
        proof {
            let pre = bytes@.subrange(0, i as int);
            assert(bytes@.subrange(0, i + 1 as int) =~= pre + seq![b]);
            lemma_percent_encode_concat(pre, seq![b]);
            assert(seq![b].drop_first() =~= Seq::<u8>::empty());
            assert(seq![b][0] == b);
            assert(percent_encode(seq![b]) == encode_byte(b) + percent_encode(
                Seq::<u8>::empty(),
            ));
            assert(encode_byte(b) + percent_encode(Seq::<u8>::empty()) =~= encode_byte(b));
            assert(out@ =~= percent_encode(bytes@.subrange(0, i + 1 as int)));
        }
        i = i + 1;
    }
    proof {
        assert(bytes@.subrange(0, n as int) =~= bytes@);
    }
    out
}

/// Percent-encode a string's UTF-8 bytes, leaving unreserved bytes alone.
pub fn url_encode_str(s: &str) -> (r: String)
    ensures
        r@ == url_encode(s@),
{
    let bytes = s.as_bytes_vec();
    percent_encode_exec(&bytes)
}

/// Every character a percent-encoded token can contain: an unreserved
/// character or the escape lead-in `%` or an upper-case hex digit (itself
/// alphanumeric).
pub open spec fn is_urlsafe_char(c: char) -> bool {
    ||| 'A' <= c <= 'Z'
    ||| 'a' <= c <= 'z'
    ||| '0' <= c <= '9'
    ||| c == '-'
    ||| c == '.'
    ||| c == '_'
    ||| c == '~'
    ||| c == '%'
}

proof fn lemma_encode_byte_chars(b: u8)
    ensures
        forall|i: int| 0 <= i < encode_byte(b).len() ==> is_urlsafe_char(#[trigger] encode_byte(b)[i]),
{
}

proof fn lemma_percent_encode_chars(bs: Seq<u8>)
    ensures
        forall|i: int|
            0 <= i < percent_encode(bs).len() ==> is_urlsafe_char(
                #[trigger] percent_encode(bs)[i],
            ),
    decreases bs.len(),
{
    if bs.len() > 0 {
        lemma_encode_byte_chars(bs[0]);
        lemma_percent_encode_chars(bs.drop_first());
        let head = encode_byte(bs[0]);
        let tail = percent_encode(bs.drop_first());
        assert(percent_encode(bs) == head + tail);
        assert forall|i: int| 0 <= i < percent_encode(bs).len() implies is_urlsafe_char(
            #[trigger] percent_encode(bs)[i],
        ) by {
            if i < head.len() {
                assert((head + tail)[i] == head[i]);
            } else {
                assert((head + tail)[i] == tail[i - head.len()]);
            }
        }
    }
}

/// Law: a URL-safe token never contains a raw space, parenthesis, ampersand
/// or double quote; every one of its characters is unreserved, a hex digit or
/// the escape lead-in `%`.
pub proof fn lemma_urlsafe_name_no_raw_specials(name: Seq<char>)
    ensures
        forall|i: int|
            0 <= i < urlsafe_name(name).len() ==> is_urlsafe_char(#[trigger] urlsafe_name(name)[i]),
        forall|i: int|
            0 <= i < urlsafe_name(name).len() ==> #[trigger] urlsafe_name(name)[i] != ' '
                && urlsafe_name(name)[i] != '(' && urlsafe_name(name)[i] != ')' && urlsafe_name(
                name,
            )[i] != '&' && urlsafe_name(name)[i] != '"',
{
    lemma_percent_encode_chars(encode_utf8(replace_spaces(name)));
}

/// A hexadecimal digit as percent-encoding emits them: `0`-`9` or upper-case
/// `A`-`F`.
pub open spec fn is_hex_char(c: char) -> bool {
    ('0' <= c && c <= '9') || ('A' <= c && c <= 'F')
}

/// The nibble a hexadecimal digit stands for.
pub open spec fn hex_value(c: char) -> u8
    recommends
        is_hex_char(c),
{
    if c as int >= 0x41 {
        (c as int - 0x37) as u8
    } else {
        (c as int - 0x30) as u8
    }
}

/// Percent-decoding: each `%XX` escape with two hexadecimal digits becomes
/// one byte, every other character stands for its own byte.
pub open spec fn percent_decode(s: Seq<char>) -> Seq<u8>
    decreases s.len(),
{
    if s.len() == 0 {
        Seq::<u8>::empty()
    } else if s[0] == '%' && s.len() >= 3 && is_hex_char(s[1]) && is_hex_char(s[2]) {
        seq![(hex_value(s[1]) as int * 16 + hex_value(s[2]) as int) as u8] + percent_decode(
            s.skip(3),
        )
    } else {
        seq![s[0] as u8] + percent_decode(s.drop_first())
    }
}

/// Law: percent-decoding inverts percent-encoding on every byte sequence.
pub proof fn lemma_percent_decode_encode(bs: Seq<u8>)
    ensures
        percent_decode(percent_encode(bs)) == bs,
    decreases bs.len(),
{
    if bs.len() > 0 {
        let b = bs[0];
        let rest = bs.drop_first();
        lemma_percent_decode_encode(rest);
        let s = percent_encode(bs);
        if is_unreserved_byte(b) {
            assert(s =~= seq![b as char] + percent_encode(rest));
            assert(s[0] == b as char);
            assert(s[0] != '%');
            assert(s.drop_first() =~= percent_encode(rest));
            assert((b as char) as u8 == b);
            assert(percent_decode(s) =~= seq![b] + percent_decode(percent_encode(rest)));
        } else {
            assert(s =~= seq!['%', hex_digit(b / 16), hex_digit(b % 16)] + percent_encode(rest));
            assert(s[0] == '%' && s[1] == hex_digit(b / 16) && s[2] == hex_digit(b % 16));
            assert(is_hex_char(hex_digit(b / 16)) && is_hex_char(hex_digit(b % 16)));
            assert(hex_value(hex_digit(b / 16)) == b / 16);
            assert(hex_value(hex_digit(b % 16)) == b % 16);
            assert((b / 16) as int * 16 + (b % 16) as int == b as int);
            assert(s.skip(3) =~= percent_encode(rest));
            assert(percent_decode(s) =~= seq![b] + percent_decode(percent_encode(rest)));
        }
        assert(seq![b] + rest =~= bs);
    }
}

/// Law: decoding a URL-safe token yields exactly the space-substituted name.
/// Percent-decoding recovers the UTF-8 bytes, and decoding those recovers the
/// characters.
pub proof fn lemma_urlsafe_name_round_trip(name: Seq<char>)
    ensures
        decode_utf8(percent_decode(urlsafe_name(name))) == replace_spaces(name),
{
    lemma_percent_decode_encode(encode_utf8(replace_spaces(name)));
    encode_utf8_decode_utf8(replace_spaces(name));
}

/// The URL-safe token for a display name: spaces become underscores, then the
/// result is percent-encoded.
pub fn make_name_urlsafe(name: &str) -> (r: String)
    ensures
        r@ == urlsafe_name(name@),
{
    let replaced = replace_spaces_exec(name);
    let bytes = replaced.as_str().as_bytes_vec();
    percent_encode_exec(&bytes)
}

} // verus!
