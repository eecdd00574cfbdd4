//! Text encodings used in query strings: percent-escaping of values and the
//! decimal rendering of numbers.

use vstd::prelude::*;
use vstd::string::*;
use vstd::utf8::*;

verus! {

/// Taken from std's documentation, not proved here: `String::push` appends
/// the character to the end of the string and leaves what was there before
/// as it was.
pub assume_specification[ String::push ](s: &mut String, ch: char)
    ensures
        final(s)@ == old(s)@.push(ch),
;

/// An ASCII letter or digit.
pub open spec fn is_plain_char(c: char) -> bool {
    ||| '0' <= c <= '9'
    ||| 'A' <= c <= 'Z'
    ||| 'a' <= c <= 'z'
}

/// A byte that is written to the output as it is: an ASCII letter or digit.
/// Every other byte is escaped.
pub open spec fn is_plain(b: u8) -> bool {
    is_plain_char(b as char)
}

/// The upper-case hexadecimal digit for a value below sixteen: `0` to `9`,
/// then `A` to `F`.
pub open spec fn hex_digit(n: int) -> char
    recommends
        0 <= n < 16,
{
    if n < 10 {
        (('0' as u8 + n) as u8) as char
    } else {
        (('A' as u8 + n - 10) as u8) as char
    }
}

/// What one byte becomes: itself if it is plain, else `%` and its two
/// hexadecimal digits, high one first.
pub open spec fn escape(b: u8) -> Seq<char> {
    if is_plain(b) {
        seq![b as char]
    } else {
        seq!['%', hex_digit(b as int / 16), hex_digit(b as int % 16)]
    }
}

/// The percent-encoding of a byte string: the escapes of its bytes, in order.
pub open spec fn percent_encode(bytes: Seq<u8>) -> Seq<char>
    decreases bytes.len(),
{
    if bytes.len() == 0 {
        Seq::empty()
    } else {
        percent_encode(bytes.drop_last()) + escape(bytes.last())
    }
}

/// The percent-encoding of a text: that of its UTF-8 bytes.
pub open spec fn encoded(text: Seq<char>) -> Seq<char> {
    percent_encode(encode_utf8(text))
}

fn byte_is_plain(b: u8) -> (plain: bool)
    ensures
        plain == is_plain(b),
{
    ('0' as u8 <= b && b <= '9' as u8) || ('A' as u8 <= b && b <= 'Z' as u8) || ('a' as u8 <= b && b
        <= 'z' as u8)
}

fn hex_char(n: u8) -> (c: char)
    requires
        n < 16,
    ensures
        c == hex_digit(n as int),
{
    if n < 10 {
        ('0' as u8 + n) as char
    } else {
        ('A' as u8 + (n - 10)) as char
    }
}

/// Appends the escape of one byte.
fn push_escaped(out: &mut String, b: u8)
    ensures
        final(out)@ == old(out)@ + escape(b),
{
    if byte_is_plain(b) {
        out.push(b as char);
    } else {
        out.push('%');
        out.push(hex_char(b / 16));
        out.push(hex_char(b % 16));
    }
}

/// Percent-encodes `s`: every byte of its UTF-8 form that is not an ASCII
/// letter or digit is replaced by `%` and two upper-case hexadecimal digits.
pub fn encode(s: &str) -> (out: String)
    ensures
        out@ == encoded(s@),
{
    let bytes = s.as_bytes();
    let mut out = String::new();
    let mut i: usize = 0;
    while i < bytes.len()
        invariant
            i <= bytes@.len(),
            out@ == percent_encode(bytes@.take(i as int)),
        decreases bytes@.len() - i,
    {
        assert(bytes@.take(i + 1).drop_last() == bytes@.take(i as int));
        push_escaped(&mut out, bytes[i]);
        i += 1;
    }
    assert(bytes@.take(i as int) == bytes@);
    out
}

/// A character that a percent-encoded text can hold: `%`, an ASCII letter or
/// a digit.
pub open spec fn is_encoded_char(c: char) -> bool {
    c == '%' || is_plain_char(c)
}

/// A percent-encoded text is made of `%`, ASCII letters and digits alone. So
/// it holds no `&`, `=`, `?`, `#` or blank, whatever the text was.
pub proof fn lemma_encoded_chars(bytes: Seq<u8>)
    ensures
        forall|i: int|
            0 <= i < percent_encode(bytes).len() ==> is_encoded_char(
                #[trigger] percent_encode(bytes)[i],
            ),
    decreases bytes.len(),
{
    if bytes.len() > 0 {
        let head = percent_encode(bytes.drop_last());
        let tail = escape(bytes.last());
        lemma_encoded_chars(bytes.drop_last());
        assert forall|i: int| 0 <= i < tail.len() implies is_encoded_char(#[trigger] tail[i]) by {
            assert(is_plain_char(hex_digit(bytes.last() as int / 16)));
            assert(is_plain_char(hex_digit(bytes.last() as int % 16)));
        }
        assert forall|i: int| 0 <= i < (head + tail).len() implies is_encoded_char(
            #[trigger] (head + tail)[i],
        ) by {
            if i < head.len() {
                assert((head + tail)[i] == head[i]);
            } else {
                assert((head + tail)[i] == tail[i - head.len()]);
            }
        }
    }
}

/// A text of ASCII letters and digits alone is its own percent-encoding.
pub proof fn lemma_plain_text_unchanged(text: Seq<char>)
    requires
        forall|i: int| 0 <= i < text.len() ==> is_plain_char(#[trigger] text[i]),
    ensures
        encoded(text) == text,
{
    assert(is_ascii_chars(text));
    is_ascii_chars_encode_utf8(text);
    lemma_plain_bytes_unchanged(encode_utf8(text));
    assert(encoded(text) =~= text);
}

/// The percent-encoding of plain bytes has one character for each byte, the
/// one with the byte's value.
proof fn lemma_plain_bytes_unchanged(bytes: Seq<u8>)
    requires
        forall|i: int| 0 <= i < bytes.len() ==> is_plain(#[trigger] bytes[i]),
    ensures
        percent_encode(bytes).len() == bytes.len(),
        forall|i: int| 0 <= i < bytes.len() ==> #[trigger] percent_encode(bytes)[i] == bytes[i] as char,
    decreases bytes.len(),
{
    if bytes.len() > 0 {
        lemma_plain_bytes_unchanged(bytes.drop_last());
    }
}

/// The decimal digit for a value below ten.
pub open spec fn digit(d: int) -> char
    recommends
        0 <= d < 10,
{
    (('0' as u8 + d) as u8) as char
}

/// The decimal numeral of `n`: no sign, no leading zero, `0` for zero.
pub open spec fn decimal(n: nat) -> Seq<char>
    decreases n,
{
    if n < 10 {
        seq![digit(n as int)]
    } else {
        decimal(n / 10).push(digit((n % 10) as int))
    }
}

/// Appends the decimal numeral of `n`.
pub fn push_decimal(out: &mut String, n: u64)
    ensures
        final(out)@ == old(out)@ + decimal(n as nat),
    decreases n,
{
    if n >= 10 {
        push_decimal(out, n / 10);
    }
    out.push(('0' as u8 + (n % 10) as u8) as char);
}

} // verus!
