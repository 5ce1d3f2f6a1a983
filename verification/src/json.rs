use crate::text::to_chars;
use vstd::prelude::*;

verus! {

/// The lower-case hexadecimal digit that stands for `d`.
pub open spec fn hex_char(d: int) -> char
    recommends
        0 <= d < 16,
{
    if d == 0 {
        '0'
    } else if d == 1 {
        '1'
    } else if d == 2 {
        '2'
    } else if d == 3 {
        '3'
    } else if d == 4 {
        '4'
    } else if d == 5 {
        '5'
    } else if d == 6 {
        '6'
    } else if d == 7 {
        '7'
    } else if d == 8 {
        '8'
    } else if d == 9 {
        '9'
    } else if d == 10 {
        'a'
    } else if d == 11 {
        'b'
    } else if d == 12 {
        'c'
    } else if d == 13 {
        'd'
    } else if d == 14 {
        'e'
    } else {
        'f'
    }
}

/// The value of a hexadecimal digit, or -1 for any other character.
pub open spec fn hex_value(c: char) -> int {
    if c == '0' {
        0
    } else if c == '1' {
        1
    } else if c == '2' {
        2
    } else if c == '3' {
        3
    } else if c == '4' {
        4
    } else if c == '5' {
        5
    } else if c == '6' {
        6
    } else if c == '7' {
        7
    } else if c == '8' {
        8
    } else if c == '9' {
        9
    } else if c == 'a' || c == 'A' {
        10
    } else if c == 'b' || c == 'B' {
        11
    } else if c == 'c' || c == 'C' {
        12
    } else if c == 'd' || c == 'D' {
        13
    } else if c == 'e' || c == 'E' {
        14
    } else if c == 'f' || c == 'F' {
        15
    } else {
        -1
    }
}

/// Whether a character may not stand as itself inside a JSON string.
pub open spec fn is_control(c: char) -> bool {
    (c as u32) < 0x20
}

/// How one character is written inside a JSON string: the quote and the
/// backslash behind a backslash, the control characters by their short names
/// or as `\u00` and two hexadecimal digits, every other character as itself.
pub open spec fn escape_char(c: char) -> Seq<char> {
    if c == '"' {
        seq!['\\', '"']
    } else if c == '\\' {
        seq!['\\', '\\']
    } else if c == '\n' {
        seq!['\\', 'n']
    } else if c == '\r' {
        seq!['\\', 'r']
    } else if c == '\t' {
        seq!['\\', 't']
    } else if c == '\u{8}' {
        seq!['\\', 'b']
    } else if c == '\u{c}' {
        seq!['\\', 'f']
    } else if is_control(c) {
        seq!['\\', 'u', '0', '0', hex_char((c as u32) as int / 16), hex_char((c as u32) as int % 16)]
    } else {
        seq![c]
    }
}

/// The characters of a text, each written as it stands inside a JSON string.
pub open spec fn escape_text(text: Seq<char>) -> Seq<char>
    decreases text.len(),
{
    if text.len() == 0 {
        Seq::empty()
    } else {
        escape_char(text[0]) + escape_text(text.drop_first())
    }
}

/// A text as a JSON string: escaped, between two quotes.
pub open spec fn quote(text: Seq<char>) -> Seq<char> {
    seq!['"'] + escape_text(text) + seq!['"']
}

/// Calls `serde_json::to_string` on a string slice, which writes it as a
/// JSON string. The contract says what the crate's writer does with each
/// character: its table of escapes gives the quote and the backslash a
/// backslash, five control characters their short names, the other
/// characters below the space `\u00` and two lower-case hexadecimal
/// digits, and lets every other character stand. Writing to a string
/// cannot fail.
#[verifier::external_body]
fn json_string(text: &str) -> (out: String)
    ensures
        out@ == quote(text@),
{
    serde_json::to_string(text).unwrap_or_default()
}

/// Appends `text` to `out` as a JSON string.
pub fn push_quoted(out: &mut String, text: &str)
    ensures
        final(out)@ == old(out)@ + quote(text@),
{
    let written = json_string(text);
    out.append(written.as_str());
}

/// A text as a JSON string.
pub fn quoted(text: &str) -> (out: String)
    ensures
        out@ == quote(text@),
{
    json_string(text)
}

/// The character that the escape `\e` names, for the short escapes of JSON.
pub open spec fn short_escape(e: char) -> Option<char> {
    if e == '"' {
        Some('"')
    } else if e == '\\' {
        Some('\\')
    } else if e == '/' {
        Some('/')
    } else if e == 'n' {
        Some('\n')
    } else if e == 'r' {
        Some('\r')
    } else if e == 't' {
        Some('\t')
    } else if e == 'b' {
        Some('\u{8}')
    } else if e == 'f' {
        Some('\u{c}')
    } else {
        None
    }
}

/// Puts a character in front of what was read after it.
pub open spec fn read_after(c: char, rest: Option<(Seq<char>, Seq<char>)>) -> Option<
    (Seq<char>, Seq<char>),
> {
    match rest {
        Some((content, left)) => Some((seq![c] + content, left)),
        None => None,
    }
}

/// Reads the inside of a JSON string up to its closing quote: the text that
/// the string holds, and what follows the quote. It reads the short escapes
/// and `\u00` with two hexadecimal digits; `None` for a string that does not
/// end, holds a bare control character or uses another escape.
pub open spec fn read_string_body(text: Seq<char>) -> Option<(Seq<char>, Seq<char>)>
    decreases text.len(),
{
    if text.len() == 0 {
        None
    } else if text[0] == '"' {
        Some((Seq::empty(), text.drop_first()))
    } else if text[0] == '\\' {
        if text.len() >= 6 && text[1] == 'u' {
            if text[2] == '0' && text[3] == '0' && hex_value(text[4]) >= 0 && hex_value(text[5])
                >= 0 {
                read_after(
                    ((16 * hex_value(text[4]) + hex_value(text[5])) as u32) as char,
                    read_string_body(text.skip(6)),
                )
            } else {
                None
            }
        } else if text.len() >= 2 {
            match short_escape(text[1]) {
                Some(c) => read_after(c, read_string_body(text.skip(2))),
                None => None,
            }
        } else {
            None
        }
    } else if is_control(text[0]) {
        None
    } else {
        read_after(text[0], read_string_body(text.drop_first()))
    }
}

/// Reads a JSON string at the start of `text`: the text that it holds, and
/// what follows it.
pub open spec fn read_string(text: Seq<char>) -> Option<(Seq<char>, Seq<char>)> {
    if text.len() > 0 && text[0] == '"' {
        read_string_body(text.drop_first())
    } else {
        None
    }
}

/// A hexadecimal digit reads back as the value it was written for.
pub proof fn lemma_hex_round_trip(d: int)
    requires
        0 <= d < 16,
    ensures
        hex_value(hex_char(d)) == d,
{
}

/// What was escaped reads back as it was, whatever follows the closing quote.
pub proof fn lemma_read_escaped(text: Seq<char>, rest: Seq<char>)
    ensures
        read_string_body(escape_text(text) + seq!['"'] + rest) == Some((text, rest)),
    decreases text.len(),
{
    let written = escape_text(text) + seq!['"'] + rest;
    if text.len() == 0 {
        assert(written =~= seq!['"'] + rest);
        assert(written.drop_first() =~= rest);
    } else {
        let c = text[0];
        let tail = text.drop_first();
        let e = escape_char(c);
        let after = escape_text(tail) + seq!['"'] + rest;
        lemma_read_escaped(tail, rest);
        assert(written =~= e + after);
        assert(written.skip(e.len() as int) =~= after);
        assert(seq![c] + tail =~= text);
        if c == '"' || c == '\\' || c == '\n' || c == '\r' || c == '\t' || c == '\u{8}' || c
            == '\u{c}' {
            assert(written[0] == '\\');
            assert(written[1] == e[1]);
            assert(short_escape(e[1]) == Some(c));
        } else if is_control(c) {
            let unit: u32 = c as u32;
            let code = unit as int;
            vstd::utf8::char_u32_cast(c, unit);
            lemma_hex_round_trip(code / 16);
            lemma_hex_round_trip(code % 16);
            assert(written[0] == '\\');
            assert(written[1] == 'u');
            assert(written[2] == '0');
            assert(written[3] == '0');
            assert(written[4] == hex_char(code / 16));
            assert(written[5] == hex_char(code % 16));
            assert(16 * (code / 16) + code % 16 == code);
            assert((16 * (code / 16) + code % 16) as u32 == unit);
        } else {
            assert(written[0] == c);
            assert(written.drop_first() =~= after);
        }
    }
}

/// A quoted text reads back as the text, whatever follows it.
pub proof fn lemma_read_quoted(text: Seq<char>, rest: Seq<char>)
    ensures
        read_string(quote(text) + rest) == Some((text, rest)),
{
    let written = quote(text) + rest;
    lemma_read_escaped(text, rest);
    assert(written[0] == '"');
    assert(written.drop_first() =~= escape_text(text) + seq!['"'] + rest);
}

/// Where a reader stands inside the text of a JSON value: how many brackets
/// are open, whether it is inside a string, and whether the character before
/// was the backslash of an escape.
pub struct Scan {
    pub depth: nat,
    pub in_string: bool,
    pub escaped: bool,
}

/// Outside every bracket and string: where a value begins and ends.
pub open spec fn scan_start() -> Scan {
    Scan { depth: 0, in_string: false, escaped: false }
}

/// Where the reader stands after one more character, or `None` where that
/// character is past the value: a comma or a closing bracket outside every
/// bracket and string of the value.
pub open spec fn scan_step(at: Scan, c: char) -> Option<Scan> {
    if at.in_string {
        if at.escaped {
            Some(Scan { escaped: false, ..at })
        } else if c == '\\' {
            Some(Scan { escaped: true, ..at })
        } else if c == '"' {
            Some(Scan { in_string: false, ..at })
        } else {
            Some(at)
        }
    } else if c == '"' {
        Some(Scan { in_string: true, ..at })
    } else if c == '[' || c == '{' {
        Some(Scan { depth: at.depth + 1, ..at })
    } else if c == ']' || c == '}' {
        if at.depth == 0 {
            None
        } else {
            Some(Scan { depth: (at.depth - 1) as nat, ..at })
        }
    } else if c == ',' && at.depth == 0 {
        None
    } else {
        Some(at)
    }
}

/// Where the reader stands after the whole of `text`, or `None` where the
/// text runs past the end of the value.
pub open spec fn scan(text: Seq<char>, from: Scan) -> Option<Scan>
    decreases text.len(),
{
    if text.len() == 0 {
        Some(from)
    } else {
        match scan_step(from, text[0]) {
            Some(next) => scan(text.drop_first(), next),
            None => None,
        }
    }
}

/// What the text of every JSON value meets: it is not empty, its strings and
/// brackets are closed, and no comma or closing bracket stands outside them.
/// A value's text that meets this can be set into a document and found
/// again.
pub open spec fn is_value_text(text: Seq<char>) -> bool {
    text.len() > 0 && scan(text, scan_start()) == Some(scan_start())
}

/// The number of characters up to the end of the value that the reader is
/// in, or `None` where the text ends before the value does.
pub open spec fn value_end(text: Seq<char>, from: Scan) -> Option<int>
    decreases text.len(),
{
    if text.len() == 0 {
        None
    } else {
        match scan_step(from, text[0]) {
            None => Some(0),
            Some(next) => match value_end(text.drop_first(), next) {
                Some(n) => Some(n + 1),
                None => None,
            },
        }
    }
}

/// Reads the text of a JSON value at the start of `text`: the value's text,
/// and what follows it.
pub open spec fn read_value(text: Seq<char>) -> Option<(Seq<char>, Seq<char>)> {
    match value_end(text, scan_start()) {
        Some(n) => if n > 0 {
            Some((text.take(n), text.skip(n)))
        } else {
            None
        },
        None => None,
    }
}

/// A reader that can pass over `value` finds the end of what it is reading
/// where it finds it in `rest`, counted from behind `value`.
pub proof fn lemma_value_end(value: Seq<char>, rest: Seq<char>, from: Scan)
    requires
        scan(value, from) is Some,
    ensures
        value_end(value + rest, from) == match value_end(rest, scan(value, from)->0) {
            Some(n) => Some(n + value.len()),
            None => None,
        },
    decreases value.len(),
{
    if value.len() == 0 {
        assert(value + rest =~= rest);
    } else {
        let next = scan_step(from, value[0])->0;
        lemma_value_end(value.drop_first(), rest, next);
        assert((value + rest).drop_first() =~= value.drop_first() + rest);
        assert((value + rest)[0] == value[0]);
    }
}

/// The text of a value reads back as it was where a comma or a closing
/// bracket follows it.
pub proof fn lemma_read_value(value: Seq<char>, rest: Seq<char>)
    requires
        is_value_text(value),
        rest.len() > 0,
        rest[0] == ',' || rest[0] == '}' || rest[0] == ']',
    ensures
        read_value(value + rest) == Some((value, rest)),
{
    lemma_value_end(value, rest, scan_start());
    assert((value + rest).take(value.len() as int) =~= value);
    assert((value + rest).skip(value.len() as int) =~= rest);
}

/// Whether a text meets what the text of every JSON value meets.
pub fn check_value_text(text: &str) -> (ok: bool)
    ensures
        ok == is_value_text(text@),
{
    let chars = to_chars(text);
    let mut depth: usize = 0;
    let mut in_string = false;
    let mut escaped = false;
    let mut i: usize = 0;
    assert(chars@.skip(0) =~= chars@);
    while i < chars.len()
        invariant
            i <= chars.len(),
            chars@ == text@,
            depth <= i,
            scan(chars@, scan_start()) == scan(
                chars@.skip(i as int),
                Scan { depth: depth as nat, in_string, escaped },
            ),
        decreases chars.len() - i,
    {
        let c = chars[i];
        proof {
            assert(chars@.skip(i as int)[0] == c);
            assert(chars@.skip(i as int).drop_first() =~= chars@.skip(i + 1));
        }
        if in_string {
            if escaped {
                escaped = false;
            } else if c == '\\' {
                escaped = true;
            } else if c == '"' {
                in_string = false;
            }
        } else if c == '"' {
            in_string = true;
        } else if c == '[' || c == '{' {
            depth += 1;
        } else if c == ']' || c == '}' {
            if depth == 0 {
                return false;
            }
            depth -= 1;
        } else if c == ',' && depth == 0 {
            return false;
        }
        i += 1;
    }
    assert(chars@.skip(chars.len() as int) =~= Seq::<char>::empty());
    chars.len() > 0 && depth == 0 && !in_string && !escaped
}

} // verus!
