//! Percent-encoding of the parts of a URL.

use vstd::prelude::*;
use vstd::utf8::{encode_utf8, encode_utf8_decode_utf8};

verus! {

/// Whether a byte stands for itself: a letter, a digit, or one of `-`, `_`, `.`, `~`.
pub open spec fn is_unreserved(byte: u8) -> bool {
    ||| '0' as u8 <= byte <= '9' as u8
    ||| 'A' as u8 <= byte <= 'Z' as u8
    ||| 'a' as u8 <= byte <= 'z' as u8
    ||| byte == '-' as u8
    ||| byte == '_' as u8
    ||| byte == '.' as u8
    ||| byte == '~' as u8
}

/// The hexadecimal digit of a number below sixteen, in upper case.
pub open spec fn hex_digit(n: int) -> char {
    if n < 10 {
        ('0' as u32 + n) as char
    } else {
        ('A' as u32 + (n - 10)) as char
    }
}

/// How a byte is written.
pub open spec fn percent_byte(byte: u8) -> Seq<char> {
    if is_unreserved(byte) {
        seq![byte as char]
    } else {
        seq!['%', hex_digit(byte as int / 16), hex_digit(byte as int % 16)]
    }
}

/// How bytes are written.
pub open spec fn percent_bytes(bytes: Seq<u8>) -> Seq<char>
    decreases bytes.len(),
{
    if bytes.len() == 0 {
        Seq::empty()
    } else {
        percent_byte(bytes[0]) + percent_bytes(bytes.drop_first())
    }
}

/// How a string is written: its UTF-8 bytes, each that is not unreserved as a percent sign and
/// two hexadecimal digits.
pub open spec fn percent_encoded(s: Seq<char>) -> Seq<char> {
    percent_bytes(encode_utf8(s))
}

/// Calls `urlencoding::encode`.
///
/// Trusted: it writes the UTF-8 bytes of the string, each byte that is not a letter, a digit
/// or one of `-`, `_`, `.`, `~` as a percent sign and two upper-case hexadecimal digits.
#[verifier::external_body]
fn url_encode(value: &str) -> (encoded: String)
    ensures
        encoded@ == percent_encoded(value@),
{
    urlencoding::encode(value).into_owned()
}

/// The value as it is written in the query of a URL.
pub fn encode(value: &str) -> (encoded: String)
    ensures
        encoded@ == percent_encoded(value@),
{
    url_encode(value)
}

/// Whether a character can stand in the value of a query parameter without ending it.
pub open spec fn is_query_safe(c: char) -> bool {
    c == '%' || (c as u32 <= 0x7f && is_unreserved(c as u8))
}

proof fn lemma_percent_byte(byte: u8)
    ensures
        forall|i: int|
            0 <= i < percent_byte(byte).len() ==> is_query_safe(#[trigger] percent_byte(byte)[i]),
        percent_byte(byte)[0] == '%' <==> !is_unreserved(byte),
        percent_byte(byte).len() == if is_unreserved(byte) { 1nat } else { 3nat },
{
}

/// An encoded string holds nothing that could end a query parameter or start another: only
/// unreserved characters and percent signs.
pub proof fn lemma_encoded_is_query_safe(s: Seq<char>, i: int)
    requires
        0 <= i < percent_encoded(s).len(),
    ensures
        is_query_safe(percent_encoded(s)[i]),
{
    lemma_bytes_are_query_safe(encode_utf8(s), i);
}

proof fn lemma_bytes_are_query_safe(bytes: Seq<u8>, i: int)
    requires
        0 <= i < percent_bytes(bytes).len(),
    ensures
        is_query_safe(percent_bytes(bytes)[i]),
    decreases bytes.len(),
{
    lemma_percent_byte(bytes[0]);
    let head = percent_byte(bytes[0]);
    if i < head.len() {
        assert(percent_bytes(bytes)[i] == head[i]);
    } else {
        lemma_bytes_are_query_safe(bytes.drop_first(), i - head.len());
    }
}

/// Bytes are written one after the other: a letter, a digit, `-`, `_`, `.` or `~` as it is, and
/// every other byte as a percent sign and its two hexadecimal digits, which are in upper case.
pub proof fn lemma_bytes_are_written_one_by_one(bytes: Seq<u8>, byte: u8)
    ensures
        percent_bytes(Seq::empty()) == Seq::<char>::empty(),
        percent_bytes(bytes.push(byte)) == percent_bytes(bytes) + percent_byte(byte),
        48 <= byte <= 57 || 65 <= byte <= 90 || 97 <= byte <= 122 || byte == 45 || byte == 95
            || byte == 46 || byte == 126 <==> percent_byte(byte).len() == 1,
        percent_byte(byte).len() == 1 ==> percent_byte(byte)[0] as u32 == byte,
        percent_byte(byte).len() != 1 ==> {
            let high = percent_byte(byte)[1] as u32;
            let low = percent_byte(byte)[2] as u32;
            &&& percent_byte(byte).len() == 3
            &&& percent_byte(byte)[0] == '%'
            &&& 48 <= high <= 57 || 65 <= high <= 70
            &&& 48 <= low <= 57 || 65 <= low <= 70
            &&& byte == 16 * (if high < 65 { high - 48 } else { high - 55 }) + (if low < 65 {
                low - 48
            } else {
                low - 55
            })
        },
    decreases bytes.len(),
{
    let high = byte as int / 16;
    let low = byte as int % 16;
    assert(hex_digit(high) as u32 == if high < 10 { 48 + high } else { 55 + high });
    assert(hex_digit(low) as u32 == if low < 10 { 48 + low } else { 55 + low });
    if bytes.len() > 0 {
        let rest = bytes.drop_first();
        lemma_bytes_are_written_one_by_one(rest, byte);
        assert(bytes.push(byte).drop_first() =~= rest.push(byte));
        assert(percent_bytes(bytes.push(byte)) =~= percent_bytes(bytes) + percent_byte(byte));
    } else {
        let one = bytes.push(byte);
        assert(one.drop_first() =~= bytes);
        assert(percent_bytes(bytes) =~= Seq::<char>::empty());
        assert(percent_bytes(one) =~= percent_byte(one[0]) + percent_bytes(one.drop_first()));
    }
}

/// A string is written by its UTF-8 bytes.
pub proof fn lemma_string_is_written_by_its_bytes(s: Seq<char>)
    ensures
        percent_encoded(s) == percent_bytes(encode_utf8(s)),
{
}

/// Two strings that are encoded alike are the same string.
pub proof fn lemma_encoding_is_injective(a: Seq<char>, b: Seq<char>)
    requires
        percent_encoded(a) == percent_encoded(b),
    ensures
        a == b,
{
    lemma_bytes_injective(encode_utf8(a), encode_utf8(b));
    encode_utf8_decode_utf8(a);
    encode_utf8_decode_utf8(b);
}

proof fn lemma_hex_digit_injective(m: int, n: int)
    requires
        0 <= m < 16,
        0 <= n < 16,
        hex_digit(m) == hex_digit(n),
    ensures
        m == n,
{
    assert(hex_digit(m) as u32 == if m < 10 { 48 + m } else { 55 + m });
    assert(hex_digit(n) as u32 == if n < 10 { 48 + n } else { 55 + n });
}

proof fn lemma_bytes_injective(a: Seq<u8>, b: Seq<u8>)
    requires
        percent_bytes(a) == percent_bytes(b),
    ensures
        a == b,
    decreases a.len(),
{
    if a.len() > 0 {
        lemma_percent_byte(a[0]);
    }
    if b.len() > 0 {
        lemma_percent_byte(b[0]);
    }
    if a.len() == 0 || b.len() == 0 {
        assert(percent_bytes(a).len() == 0);
        assert(a =~= b);
    } else {
        let left = percent_byte(a[0]);
        let right = percent_byte(b[0]);
        assert(percent_bytes(a)[0] == left[0]);
        assert(percent_bytes(b)[0] == right[0]);
        assert(left.len() == right.len());
        assert forall|i: int| 0 <= i < left.len() implies left[i] == right[i] by {
            assert(percent_bytes(a)[i] == left[i]);
            assert(percent_bytes(b)[i] == right[i]);
        }
        if is_unreserved(a[0]) {
            assert(a[0] as char == b[0] as char);
            assert(a[0] == b[0]);
        } else {
            assert(left[1] == right[1] && left[2] == right[2]);
            lemma_hex_digit_injective(a[0] as int / 16, b[0] as int / 16);
            lemma_hex_digit_injective(a[0] as int % 16, b[0] as int % 16);
        }
        assert(percent_bytes(a.drop_first()) =~= percent_bytes(a).skip(left.len() as int));
        assert(percent_bytes(b.drop_first()) =~= percent_bytes(b).skip(right.len() as int));
        lemma_bytes_injective(a.drop_first(), b.drop_first());
        assert(a =~= seq![a[0]] + a.drop_first());
        assert(b =~= seq![b[0]] + b.drop_first());
    }
}

} // verus!
