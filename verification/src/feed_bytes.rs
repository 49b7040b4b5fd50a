//! A screen over the raw bytes of a feed, run before the feed parser.
//!
//! The feed parser reads play times ("normal play time") from the text of an
//! iTunes `duration` element and from the `start`, `end` and `time` attributes
//! of Media RSS elements, with a regular expression whose `\d` matches every
//! Unicode decimal digit, and then converts the captured digits to `u64` with
//! a conversion that panics when they are not ASCII digits or do not fit.
//! [`feed_bytes_safe`] describes, from the bytes alone, documents on which that
//! cannot happen.
//!
//! Those elements exist only in a document that binds the iTunes or the Media
//! RSS namespace, whose address must then stand in the bytes; a document
//! without it passes. In one with it, a scan that follows the markup as the
//! XML reader of the parser delimits it (tags and their quoted values,
//! comments, processing instructions, CDATA sections, the document type)
//! finds the text that follows the start tag of a `duration` element and the
//! quoted values of `start`, `end` and `time` attributes, and looks in them,
//! as the parser will read them, for non-ASCII digits, references to digits,
//! runs of 20 digits, and runs of 16 digits before a `:`.
use vstd::prelude::*;

use crate::text::chars_of;

verus! {

/// An ASCII digit.
pub open spec fn is_digit_byte(x: u8) -> bool {
    48 <= x <= 57
}

/// `b[i]` exists and is an ASCII digit.
pub open spec fn digit_at(b: Seq<u8>, i: int) -> bool {
    0 <= i < b.len() && is_digit_byte(b[i])
}

/// `b[i]` exists and is the ASCII character `c`.
pub open spec fn byte_is(b: Seq<u8>, i: int, c: char) -> bool {
    0 <= i < b.len() && b[i] as u32 == c as u32
}

/// The ASCII characters of `pat` stand in `b` from index `i` on.
pub open spec fn text_at(b: Seq<u8>, i: int, pat: Seq<char>) -> bool {
    &&& 0 <= i
    &&& i + pat.len() <= b.len()
    &&& forall|k: int| 0 <= k < pat.len() ==> b[i + k] as u32 == pat[k] as u32
}

/// An ASCII letter turned to lowercase; other bytes unchanged.
pub open spec fn lower_byte(x: u8) -> int {
    if 65 <= x <= 90 {
        x + 32
    } else {
        x as int
    }
}

/// The lowercase ASCII characters of `pat` stand in `b` from index `i` on,
/// ignoring ASCII case.
pub open spec fn text_at_ignoring_case(b: Seq<u8>, i: int, pat: Seq<char>) -> bool {
    &&& 0 <= i
    &&& i + pat.len() <= b.len()
    &&& forall|k: int| 0 <= k < pat.len() ==> lower_byte(b[i + k]) == pat[k] as u32
}

/// A UTF-8 continuation byte.
pub open spec fn is_continuation(x: u8) -> bool {
    128 <= x < 192
}

/// The code point of the UTF-8 sequence that starts at `i`, or -1 when no
/// sequence starts there.
pub open spec fn utf8_code_at(b: Seq<u8>, i: int) -> int {
    if !(0 <= i < b.len()) {
        -1
    } else if 192 <= b[i] < 224 && i + 1 < b.len() && is_continuation(b[i + 1]) {
        (b[i] - 192) * 64 + (b[i + 1] - 128)
    } else if 224 <= b[i] < 240 && i + 2 < b.len() && is_continuation(b[i + 1])
        && is_continuation(b[i + 2]) {
        (b[i] - 224) * 4096 + (b[i + 1] - 128) * 64 + (b[i + 2] - 128)
    } else if 240 <= b[i] < 248 && i + 3 < b.len() && is_continuation(b[i + 1])
        && is_continuation(b[i + 2]) && is_continuation(b[i + 3]) {
        (b[i] - 240) * 262144 + (b[i + 1] - 128) * 4096 + (b[i + 2] - 128) * 64 + (b[i + 3]
            - 128)
    } else {
        -1
    }
}

/// `cp` lies in the ten code points from `start` on.
pub open spec fn in_ten(cp: int, start: int) -> bool {
    start <= cp < start + 10
}

/// A decimal digit of Unicode (general category `Nd`) that is not an ASCII
/// digit: the digit blocks of the Basic Multilingual Plane, and, beyond it,
/// the planes' range that holds the other digit blocks.
pub open spec fn is_wide_digit(cp: int) -> bool {
    ||| in_ten(cp, 0x660) || in_ten(cp, 0x6f0) || in_ten(cp, 0x7c0) || in_ten(cp, 0x966)
    ||| in_ten(cp, 0x9e6) || in_ten(cp, 0xa66) || in_ten(cp, 0xae6) || in_ten(cp, 0xb66)
    ||| in_ten(cp, 0xbe6) || in_ten(cp, 0xc66) || in_ten(cp, 0xce6) || in_ten(cp, 0xd66)
    ||| in_ten(cp, 0xde6) || in_ten(cp, 0xe50) || in_ten(cp, 0xed0) || in_ten(cp, 0xf20)
    ||| in_ten(cp, 0x1040) || in_ten(cp, 0x1090) || in_ten(cp, 0x17e0) || in_ten(cp, 0x1810)
    ||| in_ten(cp, 0x1946) || in_ten(cp, 0x19d0) || in_ten(cp, 0x1a80) || in_ten(cp, 0x1a90)
    ||| in_ten(cp, 0x1b50) || in_ten(cp, 0x1bb0) || in_ten(cp, 0x1c40) || in_ten(cp, 0x1c50)
    ||| in_ten(cp, 0xa620) || in_ten(cp, 0xa8d0) || in_ten(cp, 0xa900) || in_ten(cp, 0xa9d0)
    ||| in_ten(cp, 0xa9f0) || in_ten(cp, 0xaa50) || in_ten(cp, 0xabf0) || in_ten(cp, 0xff10)
    ||| 0x10000 <= cp <= 0x1efff
    ||| 0x1fbf0 <= cp <= 0x1fbf9
}

/// A digit of the given radix (10, or 16 when `hex`).
pub open spec fn is_radix_digit(x: u8, hex: bool) -> bool {
    is_digit_byte(x) || (hex && ((97 <= x <= 102) || (65 <= x <= 70)))
}

/// The value of a digit of radix 16 or 10.
pub open spec fn digit_value(x: u8) -> int {
    if 97 <= x <= 102 {
        x - 87
    } else if 65 <= x <= 70 {
        x - 55
    } else {
        x - 48
    }
}

/// The bound above every code point.
pub open spec fn code_cap() -> int {
    0x110000
}

/// The number written by the digits of the given radix from `k` on, read
/// after `acc`, counted up to [`code_cap`].
pub open spec fn ref_number(b: Seq<u8>, k: int, hex: bool, acc: int) -> int
    decreases b.len() - k,
{
    if 0 <= k < b.len() && is_radix_digit(b[k], hex) {
        let radix: int = if hex {
            16
        } else {
            10
        };
        let next = acc * radix + digit_value(b[k]);
        ref_number(b, k + 1, hex, if next < code_cap() {
            next
        } else {
            code_cap()
        })
    } else {
        acc
    }
}

/// A character reference (`&#...;` or `&#x...;`) at `i` that can stand for a
/// digit, ASCII or not.
pub open spec fn digit_char_ref_at(b: Seq<u8>, i: int) -> bool {
    &&& byte_is(b, i, '&')
    &&& byte_is(b, i + 1, '#')
    &&& {
        let v = if byte_is(b, i + 2, 'x') {
            ref_number(b, i + 3, true, 0)
        } else {
            ref_number(b, i + 2, false, 0)
        };
        (48 <= v <= 57) || is_wide_digit(v)
    }
}

/// White space as XML markup knows it: space, tab, line feed, carriage return.
pub open spec fn is_xml_space(x: u8) -> bool {
    x == 32 || x == 9 || x == 10 || x == 13
}

/// The first index at or after `k` that is not XML white space.
pub open spec fn skip_space(b: Seq<u8>, k: int) -> int
    decreases b.len() - k,
{
    if 0 <= k < b.len() && is_xml_space(b[k]) {
        skip_space(b, k + 1)
    } else {
        k
    }
}

/// The label `label` (lowercase), in any case, stands at `s` and is followed
/// by the quote `q`.
pub open spec fn label_then_quote(b: Seq<u8>, s: int, label: Seq<char>, q: u8) -> bool {
    text_at_ignoring_case(b, s, label) && 0 <= s + label.len() < b.len() && b[s + label.len()]
        == q
}

/// An encoding label under which the document is read as UTF-8 or as
/// windows-1252, followed by the quote `q`.
pub open spec fn accepted_label(b: Seq<u8>, s: int, q: u8) -> bool {
    ||| label_then_quote(b, s, "utf-8"@, q)
    ||| label_then_quote(b, s, "utf8"@, q)
    ||| label_then_quote(b, s, "us-ascii"@, q)
    ||| label_then_quote(b, s, "iso-8859-1"@, q)
    ||| label_then_quote(b, s, "latin1"@, q)
    ||| label_then_quote(b, s, "windows-1252"@, q)
}

/// Where `encoding` is given a value at `i`, the value is a quoted accepted
/// label.
pub open spec fn encoding_ok_at(b: Seq<u8>, i: int) -> bool {
    text_at(b, i, "encoding"@) ==> {
        let k = skip_space(b, i + 8);
        byte_is(b, k, '=') ==> {
            let v = skip_space(b, k + 1);
            (byte_is(b, v, '"') || byte_is(b, v, '\'')) && accepted_label(b, v + 1, b[v])
        }
    }
}

/// `name` stands at `i` and is given a value there (`name` `=`).
pub open spec fn assigned_at(b: Seq<u8>, i: int, name: Seq<char>) -> bool {
    text_at(b, i, name) && byte_is(b, skip_space(b, i + name.len()), '=')
}


/// The address of the iTunes namespace.
pub open spec fn itunes_namespace() -> Seq<char> {
    "http://www.itunes.com/dtds/podcast-1.0.dtd"@
}

/// The address of the Media RSS namespace.
pub open spec fn media_namespace() -> Seq<char> {
    "http://search.yahoo.com/mrss/"@
}

/// Byte `j` of `pat` written in a 16-bit encoding: its ASCII characters at
/// the even places, NUL bytes between them.
pub open spec fn interleaved_byte(pat: Seq<char>, j: int) -> int {
    if j % 2 == 0 {
        pat[j / 2] as u32 as int
    } else {
        0
    }
}

/// The ASCII characters of `pat` stand at `i` as in a 16-bit encoding: each
/// followed by a NUL byte, but for the last.
pub open spec fn wide_text_at(b: Seq<u8>, i: int, pat: Seq<char>) -> bool {
    &&& pat.len() > 0
    &&& 0 <= i
    &&& i + 2 * pat.len() - 1 <= b.len()
    &&& forall|j: int|
        #![trigger interleaved_byte(pat, j)]
        0 <= j < 2 * pat.len() - 1 ==> b[i + j] as int == interleaved_byte(pat, j)
}

/// One of the two namespace addresses stands at `i` in a 16-bit encoding.
pub open spec fn wide_namespace_at(b: Seq<u8>, i: int) -> bool {
    wide_text_at(b, i, itunes_namespace()) || wide_text_at(b, i, media_namespace())
}

/// One of the two namespace addresses stands at `i`, in ASCII or in a 16-bit
/// encoding.
pub open spec fn namespace_at(b: Seq<u8>, i: int) -> bool {
    text_at(b, i, itunes_namespace()) || text_at(b, i, media_namespace()) || wide_namespace_at(
        b,
        i,
    )
}

/// Every encoding that the document names is read as UTF-8 or windows-1252.
pub open spec fn accepted_encodings(b: Seq<u8>) -> bool {
    forall|i: int| 0 <= i < b.len() ==> encoding_ok_at(b, i)
}

/// The document holds an escape byte, with which ISO-2022-JP switches its
/// character sets.
pub open spec fn has_escape(b: Seq<u8>) -> bool {
    exists|i: int| 0 <= i < b.len() && b[i] == 27
}

/// The document may bind a namespace in which the parser reads play times:
/// an address stands in it, or it names an encoding whose escapes could hide
/// one.
pub open spec fn play_time_namespace_hint(b: Seq<u8>) -> bool {
    (exists|i: int| 0 <= i < b.len() && namespace_at(b, i)) || (has_escape(b)
        && !accepted_encodings(b))
}

/// Where the scan of the markup stands, as the XML reader of the parser
/// delimits it.
#[derive(Clone, Copy, PartialEq, Eq, Structural)]
pub enum Phase {
    /// Text between tags.
    Content,
    /// In a tag: `quote` is the quote of the value it is in (0 outside
    /// values), `end` marks an end tag, `duration` a tag named `duration`,
    /// `pending` a `start`, `end` or `time` whose value is still to come, and
    /// `play` a value of one of those.
    Tag { quote: u8, end: bool, duration: bool, pending: bool, play: bool },
    /// In the comment opened at `start`.
    Comment { start: usize },
    /// In the processing instruction opened at `start`.
    Pi { start: usize },
    /// In the rest of a `<![CDATA[`, `left` bytes of it to come.
    CdataOpen { left: u8 },
    /// In a CDATA section.
    Cdata,
    /// In the rest of a `]]>`, `left` bytes of it to come.
    CdataClose { left: u8 },
    /// In a document type declaration, before any internal subset: `quote`
    /// is the quote of the literal it is in (0 outside literals).
    Doctype { quote: u8 },
}

/// The scan before a byte: the phase, whether the text in hand belongs to a
/// `duration` element, and how many digits (up to 20) the text read as a
/// play time ends with.
#[derive(Clone, Copy, PartialEq, Eq, Structural)]
pub struct Scan {
    pub phase: Phase,
    pub duration_text: bool,
    pub run: u8,
}

/// The number of digits a text ends with after `x`, given `run` before it.
pub open spec fn next_run(run: u8, x: u8) -> u8 {
    if is_digit_byte(x) {
        if run < 19 {
            (run + 1) as u8
        } else {
            20
        }
    } else {
        0
    }
}

/// `duration` stands at `t` as the local part of a tag name: after `<` or
/// `:`, before white space, `>` or `/`.
pub open spec fn duration_name_at(b: Seq<u8>, t: int) -> bool {
    &&& text_at(b, t, "duration"@)
    &&& (byte_is(b, t - 1, '<') || byte_is(b, t - 1, ':'))
    &&& 0 <= t + 8 < b.len()
    &&& (is_xml_space(b[t + 8]) || b[t + 8] == 62 || b[t + 8] == 47)
}

/// `start`, `end` or `time` is given a value at `t` (any attribute whose name
/// ends so counts).
pub open spec fn play_time_name_at(b: Seq<u8>, t: int) -> bool {
    assigned_at(b, t, "start"@) || assigned_at(b, t, "end"@) || assigned_at(b, t, "time"@)
}

/// Byte `t` belongs to a text that the parser may read as a play time: the
/// text of a `duration` element (its CDATA included, its markup excluded), or
/// the value of a `start`, `end` or `time` attribute.
pub open spec fn play_time_byte(b: Seq<u8>, t: int, s: Scan) -> bool {
    match s.phase {
        Phase::Content => s.duration_text && b[t] != 60,
        Phase::Cdata => s.duration_text && !text_at(b, t, "]]>"@),
        Phase::Tag { quote, end, duration, pending, play } => quote != 0 && play && b[t] != quote,
        _ => false,
    }
}

/// The scan after byte `t`, given the scan `s` before it.
pub open spec fn scan_step(b: Seq<u8>, t: int, s: Scan) -> Scan {
    let x = b[t];
    match s.phase {
        Phase::Content => if x == 60 {
            if byte_is(b, t + 1, '!') {
                if text_at(b, t, "<!--"@) {
                    Scan { phase: Phase::Comment { start: t as usize }, ..s }
                } else if text_at(b, t, "<![CDATA["@) {
                    Scan { phase: Phase::CdataOpen { left: 8 }, ..s }
                } else if byte_is(b, t + 2, 'D') || byte_is(b, t + 2, 'd') {
                    Scan { phase: Phase::Doctype { quote: 0 }, ..s }
                } else {
                    s
                }
            } else if byte_is(b, t + 1, '?') {
                Scan { phase: Phase::Pi { start: t as usize }, ..s }
            } else {
                Scan {
                    phase: Phase::Tag {
                        quote: 0,
                        end: byte_is(b, t + 1, '/'),
                        duration: false,
                        pending: false,
                        play: false,
                    },
                    duration_text: false,
                    run: 0,
                }
            }
        } else {
            Scan {
                run: if s.duration_text {
                    next_run(s.run, x)
                } else {
                    0
                },
                ..s
            }
        },
        Phase::Tag { quote, end, duration, pending, play } => if quote != 0 {
            if x == quote {
                Scan {
                    phase: Phase::Tag { quote: 0, end, duration, pending: false, play: false },
                    run: 0,
                    ..s
                }
            } else if play {
                Scan { run: next_run(s.run, x), ..s }
            } else {
                s
            }
        } else if x == 34 || x == 39 {
            Scan {
                phase: Phase::Tag { quote: x, end, duration, pending: false, play: pending },
                run: 0,
                ..s
            }
        } else if x == 62 {
            Scan { phase: Phase::Content, duration_text: duration && !end, run: 0 }
        } else {
            Scan {
                phase: Phase::Tag {
                    quote: 0,
                    end,
                    duration: duration || (duration_name_at(b, t) && !end),
                    pending: pending || play_time_name_at(b, t),
                    play: false,
                },
                ..s
            }
        },
        Phase::Comment { start } => if x == 62 && t >= start + 6 && b[t - 1] == 45 && b[t - 2]
            == 45 {
            Scan { phase: Phase::Content, ..s }
        } else {
            s
        },
        Phase::Pi { start } => if x == 62 && t >= start + 2 && b[t - 1] == 63 {
            Scan { phase: Phase::Content, ..s }
        } else {
            s
        },
        Phase::CdataOpen { left } => if left <= 1 {
            Scan { phase: Phase::Cdata, ..s }
        } else {
            Scan { phase: Phase::CdataOpen { left: (left - 1) as u8 }, ..s }
        },
        Phase::Cdata => if text_at(b, t, "]]>"@) {
            Scan { phase: Phase::CdataClose { left: 2 }, ..s }
        } else {
            Scan {
                run: if s.duration_text {
                    next_run(s.run, x)
                } else {
                    0
                },
                ..s
            }
        },
        Phase::CdataClose { left } => if left <= 1 {
            Scan { phase: Phase::Content, ..s }
        } else {
            Scan { phase: Phase::CdataClose { left: (left - 1) as u8 }, ..s }
        },
        Phase::Doctype { quote } => if quote != 0 {
            if x == quote {
                Scan { phase: Phase::Doctype { quote: 0 }, ..s }
            } else {
                s
            }
        } else if x == 34 || x == 39 {
            Scan { phase: Phase::Doctype { quote: x }, ..s }
        } else if x == 62 {
            Scan { phase: Phase::Content, ..s }
        } else {
            s
        },
    }
}

/// The scan before byte `t`.
pub open spec fn scan_at(b: Seq<u8>, t: int) -> Scan
    decreases t,
{
    if t <= 0 {
        Scan { phase: Phase::Content, duration_text: false, run: 0 }
    } else {
        scan_step(b, t - 1, scan_at(b, t - 1))
    }
}

/// Byte `t`, read with the scan `s` before it, may make the parser panic: in
/// a play-time text, a 20th digit in a row, a `:` or a reference after 16
/// digits in a row, a non-ASCII digit (or, under an encoding other than
/// UTF-8 and windows-1252, any non-ASCII byte), or a reference to a digit; or
/// an internal subset of a document type declaration, which the scan does not
/// follow.
pub open spec fn danger_at(b: Seq<u8>, t: int, s: Scan, accepted: bool) -> bool {
    ||| play_time_byte(b, t, s) && {
        ||| is_digit_byte(b[t]) && s.run >= 19
        ||| (b[t] == 58 || b[t] == 38) && s.run >= 16
        ||| b[t] >= 128 && (!accepted || is_wide_digit(utf8_code_at(b, t)))
        ||| digit_char_ref_at(b, t)
    }
    ||| s.phase == (Phase::Doctype { quote: 0 }) && b[t] == 91
}

/// The whole document passes the screen: no namespace address in a 16-bit
/// encoding, no hidden escapes, and no byte that [`danger_at`] flags.
pub open spec fn screen_passes(b: Seq<u8>) -> bool {
    &&& forall|i: int| 0 <= i < b.len() ==> !wide_namespace_at(b, i)
    &&& !(has_escape(b) && !accepted_encodings(b))
    &&& forall|t: int| 0 <= t < b.len() ==> !danger_at(b, t, scan_at(b, t), accepted_encodings(b))
}

/// The feed parser reads these bytes without panicking on a play time: the
/// document gives no hint of a namespace that holds play times, or it passes
/// the screen.
pub open spec fn feed_bytes_safe(b: Seq<u8>) -> bool {
    !play_time_namespace_hint(b) || screen_passes(b)
}

/// Whether the ASCII characters of `pat` stand in `b` from `i` on.
fn bytes_match(b: &[u8], i: usize, pat: &Vec<char>) -> (r: bool)
    ensures
        r == text_at(b@, i as int, pat@),
{
    let m = pat.len();
    if i > b.len() || m > b.len() - i {
        return false;
    }
    let mut k: usize = 0;
    while k < m
        invariant
            m == pat.len(),
            i + m <= b.len(),
            k <= m,
            forall|t: int| 0 <= t < k ==> b@[i + t] as u32 == pat@[t] as u32,
        decreases m - k,
    {
        if b[i + k] as u32 != pat[k] as u32 {
            assert(b@[i + k as int] as u32 != pat@[k as int] as u32);
            return false;
        }
        k = k + 1;
    }
    true
}

fn lower(x: u8) -> (r: u32)
    ensures
        r as int == lower_byte(x),
{
    if 65 <= x && x <= 90 {
        x as u32 + 32
    } else {
        x as u32
    }
}

/// Whether the lowercase ASCII characters of `pat` stand in `b` from `i` on,
/// in any case.
fn bytes_match_ignoring_case(b: &[u8], i: usize, pat: &Vec<char>) -> (r: bool)
    ensures
        r == text_at_ignoring_case(b@, i as int, pat@),
{
    let m = pat.len();
    if i > b.len() || m > b.len() - i {
        return false;
    }
    let mut k: usize = 0;
    while k < m
        invariant
            m == pat.len(),
            i + m <= b.len(),
            k <= m,
            forall|t: int| 0 <= t < k ==> lower_byte(b@[i + t]) == pat@[t] as u32,
        decreases m - k,
    {
        if lower(b[i + k]) != pat[k] as u32 {
            assert(lower_byte(b@[i + k as int]) != pat@[k as int] as u32);
            return false;
        }
        k = k + 1;
    }
    true
}

fn skip_space_from(b: &[u8], k: usize) -> (r: usize)
    requires
        k <= b.len(),
    ensures
        r as int == skip_space(b@, k as int),
        k <= r <= b.len(),
{
    let mut j = k;
    while j < b.len() && (b[j] == 32 || b[j] == 9 || b[j] == 10 || b[j] == 13)
        invariant
            k <= j <= b.len(),
            skip_space(b@, k as int) == skip_space(b@, j as int),
        decreases b.len() - j,
    {
        j = j + 1;
    }
    j
}

fn byte_is_exec(b: &[u8], i: usize, c: u8) -> (r: bool)
    ensures
        r == (i < b.len() && b@[i as int] == c),
{
    i < b.len() && b[i] == c
}

fn label_then_quote_exec(b: &[u8], s: usize, label: &str, q: u8) -> (r: bool)
    ensures
        r == label_then_quote(b@, s as int, label@, q),
{
    let pat = chars_of(label);
    let m = pat.len();
    if s > b.len() || m >= b.len() - s {
        return false;
    }
    bytes_match_ignoring_case(b, s, &pat) && b[s + m] == q
}

fn accepted_label_exec(b: &[u8], s: usize, q: u8) -> (r: bool)
    ensures
        r == accepted_label(b@, s as int, q),
{
    label_then_quote_exec(b, s, "utf-8", q) || label_then_quote_exec(b, s, "utf8", q)
        || label_then_quote_exec(b, s, "us-ascii", q) || label_then_quote_exec(
        b,
        s,
        "iso-8859-1",
        q,
    ) || label_then_quote_exec(b, s, "latin1", q) || label_then_quote_exec(
        b,
        s,
        "windows-1252",
        q,
    )
}

/// The fixed texts that the screen looks for.
struct Patterns {
    itunes: Vec<char>,
    media: Vec<char>,
    duration: Vec<char>,
    start: Vec<char>,
    end: Vec<char>,
    time: Vec<char>,
    encoding: Vec<char>,
    comment_open: Vec<char>,
    cdata_open: Vec<char>,
    cdata_close: Vec<char>,
}

impl Patterns {
    spec fn wf(&self) -> bool {
        &&& self.itunes@ == itunes_namespace()
        &&& self.media@ == media_namespace()
        &&& self.duration@ == "duration"@
        &&& self.start@ == "start"@
        &&& self.end@ == "end"@
        &&& self.time@ == "time"@
        &&& self.encoding@ == "encoding"@
        &&& self.comment_open@ == "<!--"@
        &&& self.cdata_open@ == "<![CDATA["@
        &&& self.cdata_close@ == "]]>"@
    }

    fn new() -> (p: Patterns)
        ensures
            p.wf(),
    {
        Patterns {
            itunes: chars_of("http://www.itunes.com/dtds/podcast-1.0.dtd"),
            media: chars_of("http://search.yahoo.com/mrss/"),
            duration: chars_of("duration"),
            start: chars_of("start"),
            end: chars_of("end"),
            time: chars_of("time"),
            encoding: chars_of("encoding"),
            comment_open: chars_of("<!--"),
            cdata_open: chars_of("<![CDATA["),
            cdata_close: chars_of("]]>"),
        }
    }
}

fn assigned_at_exec(b: &[u8], i: usize, name: &Vec<char>) -> (r: bool)
    ensures
        r == assigned_at(b@, i as int, name@),
{
    let m = name.len();
    if i > b.len() || m > b.len() - i || !bytes_match(b, i, name) {
        return false;
    }
    let k = skip_space_from(b, i + m);
    byte_is_exec(b, k, 61)
}

fn encoding_ok_exec(b: &[u8], i: usize, p: &Patterns) -> (r: bool)
    requires
        p.wf(),
    ensures
        r == encoding_ok_at(b@, i as int),
{
    proof {
        reveal_strlit("encoding");
    }
    if i > b.len() || 8 > b.len() - i || !bytes_match(b, i, &p.encoding) {
        return true;
    }
    let k = skip_space_from(b, i + 8);
    if !byte_is_exec(b, k, 61) {
        return true;
    }
    let v = skip_space_from(b, k + 1);
    if v < b.len() && (b[v] == 34 || b[v] == 39) {
        accepted_label_exec(b, v + 1, b[v])
    } else {
        false
    }
}

fn utf8_code_exec(b: &[u8], i: usize) -> (r: i64)
    requires
        i < b.len(),
    ensures
        r as int == utf8_code_at(b@, i as int),
{
    let n = b.len();
    let x = b[i] as i64;
    if 192 <= x && x < 224 && n - i > 1 && 128 <= b[i + 1] && b[i + 1] < 192 {
        (x - 192) * 64 + (b[i + 1] as i64 - 128)
    } else if 224 <= x && x < 240 && n - i > 2 && 128 <= b[i + 1] && b[i + 1] < 192 && 128
        <= b[i + 2] && b[i + 2] < 192 {
        (x - 224) * 4096 + (b[i + 1] as i64 - 128) * 64 + (b[i + 2] as i64 - 128)
    } else if 240 <= x && x < 248 && n - i > 3 && 128 <= b[i + 1] && b[i + 1] < 192 && 128
        <= b[i + 2] && b[i + 2] < 192 && 128 <= b[i + 3] && b[i + 3] < 192 {
        (x - 240) * 262144 + (b[i + 1] as i64 - 128) * 4096 + (b[i + 2] as i64 - 128) * 64 + (
        b[i + 3] as i64 - 128)
    } else {
        -1
    }
}

fn in_ten_exec(cp: i64, start: i64) -> (r: bool)
    requires
        start < 0x200000,
    ensures
        r == in_ten(cp as int, start as int),
{
    start <= cp && cp < start + 10
}

fn wide_digit_exec(cp: i64) -> (r: bool)
    ensures
        r == is_wide_digit(cp as int),
{
    in_ten_exec(cp, 0x660) || in_ten_exec(cp, 0x6f0) || in_ten_exec(cp, 0x7c0) || in_ten_exec(
        cp,
        0x966,
    ) || in_ten_exec(cp, 0x9e6) || in_ten_exec(cp, 0xa66) || in_ten_exec(cp, 0xae6)
        || in_ten_exec(cp, 0xb66) || in_ten_exec(cp, 0xbe6) || in_ten_exec(cp, 0xc66)
        || in_ten_exec(cp, 0xce6) || in_ten_exec(cp, 0xd66) || in_ten_exec(cp, 0xde6)
        || in_ten_exec(cp, 0xe50) || in_ten_exec(cp, 0xed0) || in_ten_exec(cp, 0xf20)
        || in_ten_exec(cp, 0x1040) || in_ten_exec(cp, 0x1090) || in_ten_exec(cp, 0x17e0)
        || in_ten_exec(cp, 0x1810) || in_ten_exec(cp, 0x1946) || in_ten_exec(cp, 0x19d0)
        || in_ten_exec(cp, 0x1a80) || in_ten_exec(cp, 0x1a90) || in_ten_exec(cp, 0x1b50)
        || in_ten_exec(cp, 0x1bb0) || in_ten_exec(cp, 0x1c40) || in_ten_exec(cp, 0x1c50)
        || in_ten_exec(cp, 0xa620) || in_ten_exec(cp, 0xa8d0) || in_ten_exec(cp, 0xa900)
        || in_ten_exec(cp, 0xa9d0) || in_ten_exec(cp, 0xa9f0) || in_ten_exec(cp, 0xaa50)
        || in_ten_exec(cp, 0xabf0) || in_ten_exec(cp, 0xff10) || (0x10000 <= cp && cp
        <= 0x1efff) || (0x1fbf0 <= cp && cp <= 0x1fbf9)
}

fn is_radix_digit_exec(x: u8, hex: bool) -> (r: bool)
    ensures
        r == is_radix_digit(x, hex),
{
    (48 <= x && x <= 57) || (hex && ((97 <= x && x <= 102) || (65 <= x && x <= 70)))
}

fn ref_number_exec(b: &[u8], start: usize, hex: bool) -> (r: i64)
    requires
        start <= b.len(),
    ensures
        r as int == ref_number(b@, start as int, hex, 0),
{
    let mut k = start;
    let mut acc: i64 = 0;
    while k < b.len() && is_radix_digit_exec(b[k], hex)
        invariant
            start <= k <= b.len(),
            0 <= acc <= 0x110000,
            ref_number(b@, start as int, hex, 0) == ref_number(b@, k as int, hex, acc as int),
        decreases b.len() - k,
    {
        let x = b[k];
        let d: i64 = if 97 <= x && x <= 102 {
            x as i64 - 87
        } else if 65 <= x && x <= 70 {
            x as i64 - 55
        } else {
            x as i64 - 48
        };
        let radix: i64 = if hex {
            16
        } else {
            10
        };
        let next = acc * radix + d;
        acc = if next < 0x110000 {
            next
        } else {
            0x110000
        };
        k = k + 1;
    }
    acc
}

fn digit_char_ref_exec(b: &[u8], i: usize) -> (r: bool)
    requires
        i < b.len(),
    ensures
        r == digit_char_ref_at(b@, i as int),
{
    if !(b[i] == 38 && byte_is_exec(b, i + 1, 35)) {
        return false;
    }
    let v = if byte_is_exec(b, i + 2, 120) {
        ref_number_exec(b, i + 3, true)
    } else {
        ref_number_exec(b, i + 2, false)
    };
    (48 <= v && v <= 57) || wide_digit_exec(v)
}

/// Whether the ASCII characters of `pat` stand at `i` as in a 16-bit encoding.
fn wide_bytes_match(b: &[u8], i: usize, pat: &Vec<char>) -> (r: bool)
    ensures
        r == wide_text_at(b@, i as int, pat@),
{
    let m = pat.len();
    if m == 0 || i > b.len() || m > b.len() - i || m - 1 > b.len() - i - m {
        return false;
    }
    let w = m + (m - 1);
    let mut j: usize = 0;
    while j < w
        invariant
            m == pat.len(),
            m > 0,
            w == 2 * m - 1,
            i + w <= b.len(),
            j <= w,
            forall|t: int|
                #![trigger interleaved_byte(pat@, t)]
                0 <= t < j ==> b@[i + t] as int == interleaved_byte(pat@, t),
        decreases w - j,
    {
        let expected: u32 = if j % 2 == 0 {
            pat[j / 2] as u32
        } else {
            0
        };
        assert(expected as int == interleaved_byte(pat@, j as int));
        if b[i + j] as u32 != expected {
            return false;
        }
        j = j + 1;
    }
    true
}

fn wide_namespace_exec(b: &[u8], i: usize, p: &Patterns) -> (r: bool)
    requires
        p.wf(),
    ensures
        r == wide_namespace_at(b@, i as int),
{
    wide_bytes_match(b, i, &p.itunes) || wide_bytes_match(b, i, &p.media)
}

fn next_run_exec(run: u8, x: u8) -> (r: u8)
    ensures
        r == next_run(run, x),
{
    if 48 <= x && x <= 57 {
        if run < 19 {
            run + 1
        } else {
            20
        }
    } else {
        0
    }
}

fn duration_name_exec(b: &[u8], t: usize, p: &Patterns) -> (r: bool)
    requires
        p.wf(),
    ensures
        r == duration_name_at(b@, t as int),
{
    proof {
        reveal_strlit("duration");
    }
    if t > b.len() || 8 >= b.len() - t || !bytes_match(b, t, &p.duration) {
        return false;
    }
    let before = t >= 1 && (b[t - 1] == 60 || b[t - 1] == 58);
    let x = b[t + 8];
    before && (x == 32 || x == 9 || x == 10 || x == 13 || x == 62 || x == 47)
}

fn play_time_name_exec(b: &[u8], t: usize, p: &Patterns) -> (r: bool)
    requires
        p.wf(),
    ensures
        r == play_time_name_at(b@, t as int),
{
    assigned_at_exec(b, t, &p.start) || assigned_at_exec(b, t, &p.end) || assigned_at_exec(
        b,
        t,
        &p.time,
    )
}

fn play_time_byte_exec(b: &[u8], t: usize, s: Scan, p: &Patterns) -> (r: bool)
    requires
        p.wf(),
        t < b.len(),
    ensures
        r == play_time_byte(b@, t as int, s),
{
    match s.phase {
        Phase::Content => s.duration_text && b[t] != 60,
        Phase::Cdata => s.duration_text && !bytes_match(b, t, &p.cdata_close),
        Phase::Tag { quote, end, duration, pending, play } => quote != 0 && play && b[t] != quote,
        _ => false,
    }
}

fn scan_step_exec(b: &[u8], t: usize, s: Scan, p: &Patterns) -> (r: Scan)
    requires
        p.wf(),
        t < b.len(),
    ensures
        r == scan_step(b@, t as int, s),
{
    let x = b[t];
    match s.phase {
        Phase::Content => if x == 60 {
            if byte_is_exec(b, t + 1, 33) {
                if bytes_match(b, t, &p.comment_open) {
                    Scan { phase: Phase::Comment { start: t }, ..s }
                } else if bytes_match(b, t, &p.cdata_open) {
                    Scan { phase: Phase::CdataOpen { left: 8 }, ..s }
                } else if byte_is_exec(b, t + 2, 68) || byte_is_exec(b, t + 2, 100) {
                    Scan { phase: Phase::Doctype { quote: 0 }, ..s }
                } else {
                    s
                }
            } else if byte_is_exec(b, t + 1, 63) {
                Scan { phase: Phase::Pi { start: t }, ..s }
            } else {
                Scan {
                    phase: Phase::Tag {
                        quote: 0,
                        end: byte_is_exec(b, t + 1, 47),
                        duration: false,
                        pending: false,
                        play: false,
                    },
                    duration_text: false,
                    run: 0,
                }
            }
        } else {
            let run = if s.duration_text {
                next_run_exec(s.run, x)
            } else {
                0
            };
            Scan { run, ..s }
        },
        Phase::Tag { quote, end, duration, pending, play } => if quote != 0 {
            if x == quote {
                Scan {
                    phase: Phase::Tag { quote: 0, end, duration, pending: false, play: false },
                    run: 0,
                    ..s
                }
            } else if play {
                Scan { run: next_run_exec(s.run, x), ..s }
            } else {
                s
            }
        } else if x == 34 || x == 39 {
            Scan {
                phase: Phase::Tag { quote: x, end, duration, pending: false, play: pending },
                run: 0,
                ..s
            }
        } else if x == 62 {
            Scan { phase: Phase::Content, duration_text: duration && !end, run: 0 }
        } else {
            let named = duration || (duration_name_exec(b, t, p) && !end);
            let waiting = pending || play_time_name_exec(b, t, p);
            Scan {
                phase: Phase::Tag { quote: 0, end, duration: named, pending: waiting, play: false },
                ..s
            }
        },
        Phase::Comment { start } => if x == 62 && t >= 6 && t - 6 >= start && b[t - 1] == 45
            && b[t - 2] == 45 {
            Scan { phase: Phase::Content, ..s }
        } else {
            s
        },
        Phase::Pi { start } => if x == 62 && t >= 2 && t - 2 >= start && b[t - 1] == 63 {
            Scan { phase: Phase::Content, ..s }
        } else {
            s
        },
        Phase::CdataOpen { left } => if left <= 1 {
            Scan { phase: Phase::Cdata, ..s }
        } else {
            Scan { phase: Phase::CdataOpen { left: left - 1 }, ..s }
        },
        Phase::Cdata => if bytes_match(b, t, &p.cdata_close) {
            Scan { phase: Phase::CdataClose { left: 2 }, ..s }
        } else {
            let run = if s.duration_text {
                next_run_exec(s.run, x)
            } else {
                0
            };
            Scan { run, ..s }
        },
        Phase::CdataClose { left } => if left <= 1 {
            Scan { phase: Phase::Content, ..s }
        } else {
            Scan { phase: Phase::CdataClose { left: left - 1 }, ..s }
        },
        Phase::Doctype { quote } => if quote != 0 {
            if x == quote {
                Scan { phase: Phase::Doctype { quote: 0 }, ..s }
            } else {
                s
            }
        } else if x == 34 || x == 39 {
            Scan { phase: Phase::Doctype { quote: x }, ..s }
        } else if x == 62 {
            Scan { phase: Phase::Content, ..s }
        } else {
            s
        },
    }
}

fn danger_exec(b: &[u8], t: usize, s: Scan, accepted: bool, p: &Patterns) -> (r: bool)
    requires
        p.wf(),
        t < b.len(),
    ensures
        r == danger_at(b@, t as int, s, accepted),
{
    let x = b[t];
    let in_doctype = match s.phase {
        Phase::Doctype { quote } => quote == 0,
        _ => false,
    };
    if in_doctype && x == 91 {
        return true;
    }
    if !play_time_byte_exec(b, t, s, p) {
        return false;
    }
    ((48 <= x && x <= 57) && s.run >= 19) || ((x == 58 || x == 38) && s.run >= 16) || (x >= 128
        && (!accepted || wide_digit_exec(utf8_code_exec(b, t)))) || digit_char_ref_exec(b, t)
}

/// Whether the document passes the screen, given whether it names only
/// accepted encodings and whether it holds an escape byte.
fn screen_passes_exec(b: &[u8], p: &Patterns, accepted: bool, escape: bool) -> (r: bool)
    requires
        p.wf(),
        accepted == accepted_encodings(b@),
        escape == has_escape(b@),
    ensures
        r == screen_passes(b@),
{
    if escape && !accepted {
        return false;
    }
    let n = b.len();
    let mut s = Scan { phase: Phase::Content, duration_text: false, run: 0 };
    let mut i: usize = 0;
    while i < n
        invariant
            p.wf(),
            n == b.len(),
            i <= n,
            accepted == accepted_encodings(b@),
            !(has_escape(b@) && !accepted_encodings(b@)),
            s == scan_at(b@, i as int),
            forall|k: int| 0 <= k < i ==> !wide_namespace_at(b@, k),
            forall|k: int| 0 <= k < i ==> !danger_at(b@, k, scan_at(b@, k), accepted),
        decreases n - i,
    {
        if wide_namespace_exec(b, i, p) {
            return false;
        }
        if danger_exec(b, i, s, accepted, p) {
            return false;
        }
        s = scan_step_exec(b, i, s, p);
        i = i + 1;
    }
    true
}

/// Whether the feed parser can be handed these bytes (see [`feed_bytes_safe`]).
pub fn feed_bytes_are_safe(b: &[u8]) -> (r: bool)
    ensures
        r == feed_bytes_safe(b@),
{
    let p = Patterns::new();
    let n = b.len();
    let mut accepted = true;
    let mut escape = false;
    let mut hinted = false;
    let mut i: usize = 0;
    while i < n
        invariant
            p.wf(),
            n == b.len(),
            i <= n,
            accepted == (forall|k: int| 0 <= k < i ==> encoding_ok_at(b@, k)),
            escape == (exists|k: int| 0 <= k < i && b@[k] == 27),
            hinted == (exists|k: int| 0 <= k < i && namespace_at(b@, k)),
        decreases n - i,
    {
        if !encoding_ok_exec(b, i, &p) {
            accepted = false;
        }
        if b[i] == 27 {
            escape = true;
        }
        if bytes_match(b, i, &p.itunes) || bytes_match(b, i, &p.media) || wide_namespace_exec(
            b,
            i,
            &p,
        ) {
            assert(namespace_at(b@, i as int));
            hinted = true;
        } else {
            assert(!namespace_at(b@, i as int));
        }
        i = i + 1;
    }
    if !hinted && !(escape && !accepted) {
        return true;
    }
    screen_passes_exec(b, &p, accepted, escape)
}

} // verus!
