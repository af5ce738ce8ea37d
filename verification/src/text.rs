//! Text helpers shared by the request builders and the decoders: comparing
//! strings, writing numerals, and writing text inside a JSON string.

use vstd::prelude::*;
use vstd::string::{StrSliceExecFns, StringExecFns};

verus! {

/// The decimal digit that stands for `d`.
pub open spec fn digit(d: int) -> char {
    if d == 0 {
        '0'
    } else if d == 1 {
        '1'
    } else if d == 2 {
        '2'
    } else if d == 3 {
        '3'
    } else if d == 4 {
        '4'
    } else if d == 5 {
        '5'
    } else if d == 6 {
        '6'
    } else if d == 7 {
        '7'
    } else if d == 8 {
        '8'
    } else {
        '9'
    }
}

/// The decimal numeral of `n`, without leading zeros.
pub open spec fn decimal(n: nat) -> Seq<char>
    decreases n,
{
    if n < 10 {
        seq![digit(n as int)]
    } else {
        decimal(n / 10).push(digit((n % 10) as int))
    }
}

/// Whether two strings hold the same text.
pub fn same_text(a: &str, b: &str) -> (same: bool)
    ensures
        same == (a@ == b@),
{
    let x = a.as_bytes();
    let y = b.as_bytes();
    proof {
        vstd::utf8::encode_utf8_decode_utf8(a@);
        vstd::utf8::encode_utf8_decode_utf8(b@);
    }
    if x.len() != y.len() {
        return false;
    }
    let mut i: usize = 0;
    while i < x.len()
        invariant
            i <= x.len(),
            x.len() == y.len(),
            x@ == vstd::utf8::encode_utf8(a@),
            y@ == vstd::utf8::encode_utf8(b@),
            forall|j: int| 0 <= j < i ==> x@[j] == y@[j],
        decreases x.len() - i,
    {
        if x[i] != y[i] {
            return false;
        }
        i = i + 1;
    }
    assert(x@ =~= y@);
    true
}

/// The one-letter text of the digit `d`.
fn digit_text(d: u64) -> (text: &'static str)
    requires
        d < 10,
    ensures
        text@ == seq![digit(d as int)],
{
    proof {
        reveal_strlit("0");
        reveal_strlit("1");
        reveal_strlit("2");
        reveal_strlit("3");
        reveal_strlit("4");
        reveal_strlit("5");
        reveal_strlit("6");
        reveal_strlit("7");
        reveal_strlit("8");
        reveal_strlit("9");
    }
    if d == 0 {
        "0"
    } else if d == 1 {
        "1"
    } else if d == 2 {
        "2"
    } else if d == 3 {
        "3"
    } else if d == 4 {
        "4"
    } else if d == 5 {
        "5"
    } else if d == 6 {
        "6"
    } else if d == 7 {
        "7"
    } else if d == 8 {
        "8"
    } else {
        "9"
    }
}

/// Appends the decimal numeral of `n` to `out`.
pub fn append_decimal(out: &mut String, n: u64)
    ensures
        final(out)@ == old(out)@ + decimal(n as nat),
    decreases n,
{
    if n >= 10 {
        append_decimal(out, n / 10);
    }
    out.append(digit_text(n % 10));
}

/// The text that an optional string holds, if any.
pub open spec fn text_of(text: Option<&str>) -> Option<Seq<char>> {
    match text {
        Some(text) => Some(text@),
        None => None,
    }
}

/// The hexadecimal digit that stands for `d`, in lower case.
pub open spec fn hex_digit(d: int) -> char {
    if d < 10 {
        digit(d)
    } else if d == 10 {
        'a'
    } else if d == 11 {
        'b'
    } else if d == 12 {
        'c'
    } else if d == 13 {
        'd'
    } else if d == 14 {
        'e'
    } else {
        'f'
    }
}

/// Whether a character stands for itself inside a JSON string: all do but
/// the quotation mark, the backslash and the control characters below
/// U+0020.
pub open spec fn is_plain(c: char) -> bool {
    c != '"' && c != '\\' && c as u32 >= 0x20
}

/// How a character is written inside a JSON string: a quotation mark as
/// `\"`, a backslash as `\\`, a control character below U+0020 as `\u00`
/// and its two hexadecimal digits, and every other character as itself.
pub open spec fn json_char(c: char) -> Seq<char> {
    if c == '"' {
        seq!['\\', '"']
    } else if c == '\\' {
        seq!['\\', '\\']
    } else if (c as u32) < 0x20 {
        seq!['\\', 'u', '0', '0', hex_digit(c as int / 16), hex_digit(c as int % 16)]
    } else {
        seq![c]
    }
}

/// How a text is written between the quotation marks of a JSON string:
/// character by character, as [`json_char`] says.
pub open spec fn json_text(text: Seq<char>) -> Seq<char>
    decreases text.len(),
{
    if text.len() == 0 {
        Seq::empty()
    } else {
        json_text(text.drop_last()) + json_char(text.last())
    }
}

/// A text of plain characters is written as it is.
pub proof fn plain_text_is_written_as_it_is(text: Seq<char>)
    requires
        forall|i: int| 0 <= i < text.len() ==> is_plain(#[trigger] text[i]),
    ensures
        json_text(text) == text,
    decreases text.len(),
{
    if text.len() > 0 {
        plain_text_is_written_as_it_is(text.drop_last());
        assert(json_text(text) =~= text);
    }
}

/// What is written holds no quotation mark but behind a backslash, and no
/// control character: it cannot end the string it stands in.
pub proof fn written_text_stays_in_its_string(text: Seq<char>)
    ensures
        forall|i: int|
            0 <= i < json_text(text).len() ==> (#[trigger] json_text(text)[i]) as u32 >= 0x20,
        forall|i: int|
            0 <= i < json_text(text).len() && #[trigger] json_text(text)[i] == '"' ==> i > 0
                && json_text(text)[i - 1] == '\\',
    decreases text.len(),
{
    if text.len() > 0 {
        written_text_stays_in_its_string(text.drop_last());
        let front = json_text(text.drop_last());
        let tail = json_char(text.last());
        assert(json_text(text) == front + tail);
        assert forall|i: int| 0 <= i < (front + tail).len() implies (#[trigger] (front + tail)[i])
            as u32 >= 0x20 && ((front + tail)[i] == '"' ==> i > 0 && (front + tail)[i - 1]
            == '\\') by {
            if i >= front.len() {
                assert((front + tail)[i] == tail[i - front.len()]);
            }
        }
    }
}

/// The number that a hexadecimal digit stands for; nothing for any other
/// character.
pub open spec fn hex_value(c: char) -> Option<int> {
    if '0' <= c <= '9' {
        Some(c as int - '0' as int)
    } else if 'a' <= c <= 'f' {
        Some(c as int - 'a' as int + 10)
    } else {
        None
    }
}

/// The text that `written` stands for inside a JSON string, as far as
/// [`json_text`] writes: plain characters, `\"`, `\\` and `\u00` with two
/// digits for a control character. Nothing where `written` is of another
/// form.
pub open spec fn read_json_text(written: Seq<char>) -> Option<Seq<char>>
    decreases written.len(),
{
    if written.len() == 0 {
        Some(Seq::empty())
    } else if written[0] != '\\' {
        if is_plain(written[0]) {
            match read_json_text(written.skip(1)) {
                Some(rest) => Some(seq![written[0]] + rest),
                None => None,
            }
        } else {
            None
        }
    } else if written.len() >= 2 && (written[1] == '"' || written[1] == '\\') {
        match read_json_text(written.skip(2)) {
            Some(rest) => Some(seq![written[1]] + rest),
            None => None,
        }
    } else if written.len() >= 6 && written[1] == 'u' && written[2] == '0' && written[3] == '0' {
        match (hex_value(written[4]), hex_value(written[5]), read_json_text(written.skip(6))) {
            (Some(high), Some(low), Some(rest)) => if high * 16 + low < 0x20 {
                Some(seq![((high * 16 + low) as u32) as char] + rest)
            } else {
                None
            },
            _ => None,
        }
    } else {
        None
    }
}

/// A text is written as its first character, then the rest.
pub proof fn lemma_json_text_from_the_front(c: char, rest: Seq<char>)
    ensures
        json_text(seq![c] + rest) == json_char(c) + json_text(rest),
    decreases rest.len(),
{
    let text = seq![c] + rest;
    if rest.len() == 0 {
        assert(text.drop_last() =~= Seq::empty());
        assert(json_text(text) == json_text(text.drop_last()) + json_char(text.last()));
        assert(json_text(text) =~= json_char(c) + json_text(rest));
    } else {
        lemma_json_text_from_the_front(c, rest.drop_last());
        assert(text.drop_last() =~= seq![c] + rest.drop_last());
        assert(text.last() == rest.last());
        assert(json_text(text) == json_text(text.drop_last()) + json_char(text.last()));
        assert(json_text(rest) == json_text(rest.drop_last()) + json_char(rest.last()));
        assert(json_text(text) =~= json_char(c) + json_text(rest));
    }
}

/// What is written reads back as the text it was written from: no two texts
/// are written alike.
pub proof fn written_text_reads_back(text: Seq<char>)
    ensures
        read_json_text(json_text(text)) == Some(text),
    decreases text.len(),
{
    if text.len() > 0 {
        let c = text[0];
        let rest = text.skip(1);
        assert(text =~= seq![c] + rest);
        lemma_json_text_from_the_front(c, rest);
        written_text_reads_back(rest);
        let written = json_text(text);
        let escape = json_char(c);
        assert(written == escape + json_text(rest));
        assert(written.skip(escape.len() as int) =~= json_text(rest));
        assert(forall|i: int| 0 <= i < escape.len() ==> written[i] == escape[i]);
        if (c as u32) < 0x20 {
            vstd::utf8::char_u32_cast(c, c as u32);
            assert(hex_value(hex_digit(c as int / 16)) == Some(c as int / 16));
            assert(hex_value(hex_digit(c as int % 16)) == Some(c as int % 16));
        }
    }
}

/// The escape for the control character `c`.
fn append_control(out: &mut String, c: char)
    requires
        (c as u32) < 0x20,
    ensures
        final(out)@ == old(out)@ + json_char(c),
{
    proof {
        reveal_strlit("\\u00");
        reveal_strlit("a");
        reveal_strlit("b");
        reveal_strlit("c");
        reveal_strlit("d");
        reveal_strlit("e");
        reveal_strlit("f");
    }
    let code = c as u32;
    let high = (code / 16) as u64;
    let low = (code % 16) as u64;
    out.append("\\u00");
    out.append(digit_text(high));
    if low < 10 {
        out.append(digit_text(low));
    } else if low == 10 {
        out.append("a");
    } else if low == 11 {
        out.append("b");
    } else if low == 12 {
        out.append("c");
    } else if low == 13 {
        out.append("d");
    } else if low == 14 {
        out.append("e");
    } else {
        out.append("f");
    }
}

/// Appends `text` to `out` as it is written inside a JSON string. Runs of
/// plain characters are copied in one piece.
pub fn append_json_text(out: &mut String, text: &str)
    ensures
        final(out)@ == old(out)@ + json_text(text@),
{
    let length = text.unicode_len();
    let mut start: usize = 0;
    let mut i: usize = 0;
    proof {
        reveal_strlit("\\\"");
        reveal_strlit("\\\\");
    }
    for c in iter: text.chars()
        invariant
            i == iter.index(),
            iter.seq() == text@,
            length == text@.len(),
            start <= i <= length,
            out@ + text@.subrange(start as int, i as int) == old(out)@ + json_text(
                text@.take(i as int),
            ),
            "\\\""@ == seq!['\\', '"'],
            "\\\\"@ == seq!['\\', '\\'],
    {
        assert(text@.take(i + 1).drop_last() =~= text@.take(i as int));
        assert(json_text(text@.take(i + 1)) == json_text(text@.take(i as int)) + json_char(c));
        if c == '"' || c == '\\' || (c as u32) < 0x20 {
            out.append(text.substring_char(start, i));
            if c == '"' {
                out.append("\\\"");
            } else if c == '\\' {
                out.append("\\\\");
            } else {
                append_control(out, c);
            }
            start = i + 1;
            assert(text@.subrange(start as int, i + 1) =~= Seq::empty());
        } else {
            assert(out@ + text@.subrange(start as int, i + 1) =~= (out@ + text@.subrange(
                start as int,
                i as int,
            )) + seq![c]);
        }
        i = i + 1;
    }
    out.append(text.substring_char(start, length));
    assert(text@.take(length as int) =~= text@);
}

} // verus!
