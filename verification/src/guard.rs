//! Guarding the feed parser against bodies it cannot process safely. The
//! parser's media-duration handling unwraps integer parses of digit runs that
//! its regular expressions capture, so a body that can place an overlong or
//! non-ASCII digit run in that text would abort the process. Digits reach
//! that text in three ways: literally (and the parser coalesces text across
//! comments, processing instructions and CDATA delimiters, so split runs can
//! rejoin), through numeric character references, and through re-decoding the
//! stream under an `encoding` other than UTF-8. `body_tame` names the bodies
//! on which provably none of these arises: every `encoding` attribute names
//! UTF-8; no `<!` markup with unmodeled extent (a document type declaration)
//! occurs; no numeric character reference denotes a decimal digit; the body
//! with comment and instruction spans and CDATA delimiters erased — mirroring
//! the parser's own lexing, quoted attribute values included — has no run of
//! sixteen or more ASCII digits; and no character is a decimal digit outside
//! the ASCII range. Assembly treats every other body as an unavailable feed.

use vstd::prelude::*;
use vstd::std_specs::iter::IteratorSpec;

verus! {

/// Whether a code point is a decimal digit outside the ASCII range: the
/// Unicode decimal-number blocks above U+0039, which a digit character class
/// matches.
pub open spec fn is_wide_digit_value(u: int) -> bool {
    ||| (0x660 <= u && u <= 0x669)
    ||| (0x6F0 <= u && u <= 0x6F9)
    ||| (0x7C0 <= u && u <= 0x7C9)
    ||| (0x966 <= u && u <= 0x96F)
    ||| (0x9E6 <= u && u <= 0x9EF)
    ||| (0xA66 <= u && u <= 0xA6F)
    ||| (0xAE6 <= u && u <= 0xAEF)
    ||| (0xB66 <= u && u <= 0xB6F)
    ||| (0xBE6 <= u && u <= 0xBEF)
    ||| (0xC66 <= u && u <= 0xC6F)
    ||| (0xCE6 <= u && u <= 0xCEF)
    ||| (0xD66 <= u && u <= 0xD6F)
    ||| (0xDE6 <= u && u <= 0xDEF)
    ||| (0xE50 <= u && u <= 0xE59)
    ||| (0xED0 <= u && u <= 0xED9)
    ||| (0xF20 <= u && u <= 0xF29)
    ||| (0x1040 <= u && u <= 0x1049)
    ||| (0x1090 <= u && u <= 0x1099)
    ||| (0x17E0 <= u && u <= 0x17E9)
    ||| (0x1810 <= u && u <= 0x1819)
    ||| (0x1946 <= u && u <= 0x194F)
    ||| (0x19D0 <= u && u <= 0x19D9)
    ||| (0x1A80 <= u && u <= 0x1A89)
    ||| (0x1A90 <= u && u <= 0x1A99)
    ||| (0x1B50 <= u && u <= 0x1B59)
    ||| (0x1BB0 <= u && u <= 0x1BB9)
    ||| (0x1C40 <= u && u <= 0x1C49)
    ||| (0x1C50 <= u && u <= 0x1C59)
    ||| (0xA620 <= u && u <= 0xA629)
    ||| (0xA8D0 <= u && u <= 0xA8D9)
    ||| (0xA900 <= u && u <= 0xA909)
    ||| (0xA9D0 <= u && u <= 0xA9D9)
    ||| (0xA9F0 <= u && u <= 0xA9F9)
    ||| (0xAA50 <= u && u <= 0xAA59)
    ||| (0xABF0 <= u && u <= 0xABF9)
    ||| (0xFF10 <= u && u <= 0xFF19)
    ||| (0x104A0 <= u && u <= 0x104A9)
    ||| (0x10D30 <= u && u <= 0x10D39)
    ||| (0x10D40 <= u && u <= 0x10D49)
    ||| (0x11066 <= u && u <= 0x1106F)
    ||| (0x110F0 <= u && u <= 0x110F9)
    ||| (0x11136 <= u && u <= 0x1113F)
    ||| (0x111D0 <= u && u <= 0x111D9)
    ||| (0x112F0 <= u && u <= 0x112F9)
    ||| (0x11450 <= u && u <= 0x11459)
    ||| (0x114D0 <= u && u <= 0x114D9)
    ||| (0x11650 <= u && u <= 0x11659)
    ||| (0x116C0 <= u && u <= 0x116C9)
    ||| (0x116D0 <= u && u <= 0x116E3)
    ||| (0x11730 <= u && u <= 0x11739)
    ||| (0x118E0 <= u && u <= 0x118E9)
    ||| (0x11950 <= u && u <= 0x11959)
    ||| (0x11BF0 <= u && u <= 0x11BF9)
    ||| (0x11C50 <= u && u <= 0x11C59)
    ||| (0x11D50 <= u && u <= 0x11D59)
    ||| (0x11DA0 <= u && u <= 0x11DA9)
    ||| (0x11F50 <= u && u <= 0x11F59)
    ||| (0x16130 <= u && u <= 0x16139)
    ||| (0x16A60 <= u && u <= 0x16A69)
    ||| (0x16AC0 <= u && u <= 0x16AC9)
    ||| (0x16B50 <= u && u <= 0x16B59)
    ||| (0x16D70 <= u && u <= 0x16D79)
    ||| (0x1CCF0 <= u && u <= 0x1CCF9)
    ||| (0x1D7CE <= u && u <= 0x1D7FF)
    ||| (0x1E140 <= u && u <= 0x1E149)
    ||| (0x1E2F0 <= u && u <= 0x1E2F9)
    ||| (0x1E4F0 <= u && u <= 0x1E4F9)
    ||| (0x1E5F1 <= u && u <= 0x1E5FA)
    ||| (0x1E950 <= u && u <= 0x1E959)
    ||| (0x1FBF0 <= u && u <= 0x1FBF9)
}

/// Whether a character is a decimal digit outside the ASCII range.
pub open spec fn is_wide_decimal_digit(c: char) -> bool {
    is_wide_digit_value(c as u32 as int)
}

/// Whether a code point is a decimal digit outside the ASCII range.
pub fn value_is_wide_digit(u: u32) -> (r: bool)
    ensures
        r == is_wide_digit_value(u as int),
{
    (0x660 <= u && u <= 0x669)
        || (0x6F0 <= u && u <= 0x6F9)
        || (0x7C0 <= u && u <= 0x7C9)
        || (0x966 <= u && u <= 0x96F)
        || (0x9E6 <= u && u <= 0x9EF)
        || (0xA66 <= u && u <= 0xA6F)
        || (0xAE6 <= u && u <= 0xAEF)
        || (0xB66 <= u && u <= 0xB6F)
        || (0xBE6 <= u && u <= 0xBEF)
        || (0xC66 <= u && u <= 0xC6F)
        || (0xCE6 <= u && u <= 0xCEF)
        || (0xD66 <= u && u <= 0xD6F)
        || (0xDE6 <= u && u <= 0xDEF)
        || (0xE50 <= u && u <= 0xE59)
        || (0xED0 <= u && u <= 0xED9)
        || (0xF20 <= u && u <= 0xF29)
        || (0x1040 <= u && u <= 0x1049)
        || (0x1090 <= u && u <= 0x1099)
        || (0x17E0 <= u && u <= 0x17E9)
        || (0x1810 <= u && u <= 0x1819)
        || (0x1946 <= u && u <= 0x194F)
        || (0x19D0 <= u && u <= 0x19D9)
        || (0x1A80 <= u && u <= 0x1A89)
        || (0x1A90 <= u && u <= 0x1A99)
        || (0x1B50 <= u && u <= 0x1B59)
        || (0x1BB0 <= u && u <= 0x1BB9)
        || (0x1C40 <= u && u <= 0x1C49)
        || (0x1C50 <= u && u <= 0x1C59)
        || (0xA620 <= u && u <= 0xA629)
        || (0xA8D0 <= u && u <= 0xA8D9)
        || (0xA900 <= u && u <= 0xA909)
        || (0xA9D0 <= u && u <= 0xA9D9)
        || (0xA9F0 <= u && u <= 0xA9F9)
        || (0xAA50 <= u && u <= 0xAA59)
        || (0xABF0 <= u && u <= 0xABF9)
        || (0xFF10 <= u && u <= 0xFF19)
        || (0x104A0 <= u && u <= 0x104A9)
        || (0x10D30 <= u && u <= 0x10D39)
        || (0x10D40 <= u && u <= 0x10D49)
        || (0x11066 <= u && u <= 0x1106F)
        || (0x110F0 <= u && u <= 0x110F9)
        || (0x11136 <= u && u <= 0x1113F)
        || (0x111D0 <= u && u <= 0x111D9)
        || (0x112F0 <= u && u <= 0x112F9)
        || (0x11450 <= u && u <= 0x11459)
        || (0x114D0 <= u && u <= 0x114D9)
        || (0x11650 <= u && u <= 0x11659)
        || (0x116C0 <= u && u <= 0x116C9)
        || (0x116D0 <= u && u <= 0x116E3)
        || (0x11730 <= u && u <= 0x11739)
        || (0x118E0 <= u && u <= 0x118E9)
        || (0x11950 <= u && u <= 0x11959)
        || (0x11BF0 <= u && u <= 0x11BF9)
        || (0x11C50 <= u && u <= 0x11C59)
        || (0x11D50 <= u && u <= 0x11D59)
        || (0x11DA0 <= u && u <= 0x11DA9)
        || (0x11F50 <= u && u <= 0x11F59)
        || (0x16130 <= u && u <= 0x16139)
        || (0x16A60 <= u && u <= 0x16A69)
        || (0x16AC0 <= u && u <= 0x16AC9)
        || (0x16B50 <= u && u <= 0x16B59)
        || (0x16D70 <= u && u <= 0x16D79)
        || (0x1CCF0 <= u && u <= 0x1CCF9)
        || (0x1D7CE <= u && u <= 0x1D7FF)
        || (0x1E140 <= u && u <= 0x1E149)
        || (0x1E2F0 <= u && u <= 0x1E2F9)
        || (0x1E4F0 <= u && u <= 0x1E4F9)
        || (0x1E5F1 <= u && u <= 0x1E5FA)
        || (0x1E950 <= u && u <= 0x1E959)
        || (0x1FBF0 <= u && u <= 0x1FBF9)
}

/// Whether a character is a decimal digit outside the ASCII range.
pub fn char_is_wide_decimal_digit(c: char) -> (r: bool)
    ensures
        r == is_wide_decimal_digit(c),
{
    value_is_wide_digit(c as u32)
}

/// Whether a character is an ASCII decimal digit.
pub open spec fn is_ascii_digit_char(c: char) -> bool {
    0x30 <= c as u32 && c as u32 <= 0x39
}

/// Whether a character is an ASCII hexadecimal digit.
pub open spec fn is_hex_digit_char(c: char) -> bool {
    let u = c as u32;
    (0x30 <= u && u <= 0x39) || (0x61 <= u && u <= 0x66) || (0x41 <= u && u <= 0x46)
}

/// The value of an ASCII hexadecimal digit.
pub open spec fn hex_digit_value(c: char) -> int {
    let u = c as u32;
    if u <= 0x39 {
        u - 0x30
    } else if 0x61 <= u {
        u - 0x61 + 10
    } else {
        u - 0x41 + 10
    }
}

/// The number an ASCII decimal digit sequence denotes.
pub open spec fn dec_value(s: Seq<char>) -> int
    decreases s.len(),
{
    if s.len() == 0 {
        0
    } else {
        dec_value(s.drop_last()) * 10 + (s.last() as u32 - 0x30)
    }
}

/// The number an ASCII hexadecimal digit sequence denotes.
pub open spec fn hex_value(s: Seq<char>) -> int
    decreases s.len(),
{
    if s.len() == 0 {
        0
    } else {
        hex_value(s.drop_last()) * 16 + hex_digit_value(s.last())
    }
}

/// Whether a code point is a decimal digit, ASCII or not.
pub open spec fn denotes_digit_codepoint(u: int) -> bool {
    (0x30 <= u && u <= 0x39) || is_wide_digit_value(u)
}

/// Case-insensitive comparison of a character against a lowercase ASCII
/// letter or other ASCII character.
pub open spec fn eq_ci(c: char, l: char) -> bool {
    c == l || ('A' <= c && c <= 'Z' && c as u32 + 32 == l as u32)
}

/// Whether the word "encoding" stands at position `i`, in any letter case.
pub open spec fn encoding_word_at(s: Seq<char>, i: int) -> bool {
    &&& 0 <= i
    &&& i + 8 <= s.len()
    &&& eq_ci(s[i], 'e')
    &&& eq_ci(s[i + 1], 'n')
    &&& eq_ci(s[i + 2], 'c')
    &&& eq_ci(s[i + 3], 'o')
    &&& eq_ci(s[i + 4], 'd')
    &&& eq_ci(s[i + 5], 'i')
    &&& eq_ci(s[i + 6], 'n')
    &&& eq_ci(s[i + 7], 'g')
}

/// Whether the word at `i` is immediately followed by `="utf-8"` (either
/// quote, any letter case of the label): the one value under which the
/// parser's stream decoding stays the identity.
pub open spec fn utf8_value_at(s: Seq<char>, i: int) -> bool {
    &&& i + 16 <= s.len()
    &&& s[i + 8] == '='
    &&& (s[i + 9] == '"' || s[i + 9] == '\'')
    &&& eq_ci(s[i + 10], 'u')
    &&& eq_ci(s[i + 11], 't')
    &&& eq_ci(s[i + 12], 'f')
    &&& s[i + 13] == '-'
    &&& s[i + 14] == '8'
    &&& s[i + 15] == s[i + 9]
}

/// Every occurrence of "encoding" pins the stream to UTF-8.
pub open spec fn encodings_pinned(s: Seq<char>) -> bool {
    forall|i: int| encoding_word_at(s, i) ==> utf8_value_at(s, i)
}

/// Whether a comment opener `<!--` stands at `i`.
pub open spec fn comment_open_at(s: Seq<char>, i: int) -> bool {
    &&& 0 <= i
    &&& i + 4 <= s.len()
    &&& s[i] == '<'
    &&& s[i + 1] == '!'
    &&& s[i + 2] == '-'
    &&& s[i + 3] == '-'
}

/// Whether a CDATA opener `<![CDATA[` stands at `i`.
pub open spec fn cdata_open_at(s: Seq<char>, i: int) -> bool {
    &&& 0 <= i
    &&& i + 9 <= s.len()
    &&& s[i] == '<'
    &&& s[i + 1] == '!'
    &&& s[i + 2] == '['
    &&& s[i + 3] == 'C'
    &&& s[i + 4] == 'D'
    &&& s[i + 5] == 'A'
    &&& s[i + 6] == 'T'
    &&& s[i + 7] == 'A'
    &&& s[i + 8] == '['
}

/// Whether a processing-instruction opener `<?` stands at `i`.
pub open spec fn pi_open_at(s: Seq<char>, i: int) -> bool {
    &&& 0 <= i
    &&& i + 2 <= s.len()
    &&& s[i] == '<'
    &&& s[i + 1] == '?'
}

/// `<!` opening neither a comment nor a CDATA section: a document type
/// declaration or malformed markup. Its extent follows quoting rules this
/// library does not model, so such bodies are refused outright.
pub open spec fn bang_other_at(s: Seq<char>, i: int) -> bool {
    &&& 0 <= i
    &&& i + 2 <= s.len()
    &&& s[i] == '<'
    &&& s[i + 1] == '!'
    &&& !comment_open_at(s, i)
    &&& !cdata_open_at(s, i)
}

/// Whether markup of unmodeled extent occurs.
pub open spec fn has_unmodeled_markup(s: Seq<char>) -> bool {
    exists|i: int| bang_other_at(s, i)
}

/// A decimal character reference `&#`digits`;` spanning `i..=k` that denotes
/// a decimal-digit code point.
pub open spec fn dec_digit_ref_at(s: Seq<char>, i: int, k: int) -> bool {
    &&& 0 <= i
    &&& i + 2 < k
    &&& k < s.len()
    &&& s[i] == '&'
    &&& s[i + 1] == '#'
    &&& s[k] == ';'
    &&& (forall|j: int| i + 2 <= j < k ==> is_ascii_digit_char(#[trigger] s[j]))
    &&& denotes_digit_codepoint(dec_value(s.subrange(i + 2, k)))
}

/// A hexadecimal character reference `&#x`digits`;` spanning `i..=k` that
/// denotes a decimal-digit code point.
pub open spec fn hex_digit_ref_at(s: Seq<char>, i: int, k: int) -> bool {
    &&& 0 <= i
    &&& i + 3 < k
    &&& k < s.len()
    &&& s[i] == '&'
    &&& s[i + 1] == '#'
    &&& s[i + 2] == 'x'
    &&& s[k] == ';'
    &&& (forall|j: int| i + 3 <= j < k ==> is_hex_digit_char(#[trigger] s[j]))
    &&& denotes_digit_codepoint(hex_value(s.subrange(i + 3, k)))
}

/// Whether a character reference denoting a decimal digit occurs: the one
/// kind of reference that can place a digit in the decoded text.
pub open spec fn has_digit_char_ref(s: Seq<char>) -> bool {
    exists|i: int, k: int| dec_digit_ref_at(s, i, k) || hex_digit_ref_at(s, i, k)
}

/// Whether sixteen consecutive ASCII digits stand at position `i`.
pub open spec fn digit_run_at(s: Seq<char>, i: int) -> bool {
    &&& 0 <= i
    &&& i + 16 <= s.len()
    &&& forall|j: int| i <= j < i + 16 ==> is_ascii_digit_char(#[trigger] s[j])
}

/// Whether a run of sixteen or more ASCII digits occurs.
pub open spec fn has_long_digit_run(s: Seq<char>) -> bool {
    exists|i: int| digit_run_at(s, i)
}

/// Whether a decimal digit outside the ASCII range occurs.
pub open spec fn has_wide_decimal_digit(s: Seq<char>) -> bool {
    exists|i: int| 0 <= i < s.len() && is_wide_decimal_digit(s[i])
}

/// The lexical region the body scanner is inside, mirroring the parser's own
/// lexer: plain character data, an entity or character reference, a tag
/// (plain or inside one of its two quote kinds), a comment, a processing
/// instruction, or a CDATA section.
#[derive(Debug, Clone, Copy, PartialEq, Eq, Structural)]
pub enum ScanMode {
    Text,
    Reference,
    Tag,
    TagSingle,
    TagDouble,
    Comment,
    Pi,
    Cdata,
}

/// The body as the parser's text layer sees it, from position `i` in the
/// given mode: comment and processing-instruction spans and the CDATA
/// delimiters are erased (the parser coalesces character data across them),
/// everything else — tag markup with its quoted attribute values, references,
/// CDATA content — is kept.
pub open spec fn erased_from(s: Seq<char>, i: int, mode: ScanMode) -> Seq<char>
    decreases s.len() - i,
{
    if i < 0 || i >= s.len() {
        Seq::empty()
    } else {
        match mode {
            ScanMode::Text => {
                if comment_open_at(s, i) {
                    erased_from(s, i + 4, ScanMode::Comment)
                } else if cdata_open_at(s, i) {
                    erased_from(s, i + 9, ScanMode::Cdata)
                } else if pi_open_at(s, i) {
                    erased_from(s, i + 2, ScanMode::Pi)
                } else if s[i] == '<' {
                    seq![s[i]] + erased_from(s, i + 1, ScanMode::Tag)
                } else if s[i] == '&' {
                    seq![s[i]] + erased_from(s, i + 1, ScanMode::Reference)
                } else {
                    seq![s[i]] + erased_from(s, i + 1, ScanMode::Text)
                }
            },
            ScanMode::Reference => {
                if s[i] == ';' {
                    seq![s[i]] + erased_from(s, i + 1, ScanMode::Text)
                } else {
                    seq![s[i]] + erased_from(s, i + 1, ScanMode::Reference)
                }
            },
            ScanMode::Tag => {
                if s[i] == '>' {
                    seq![s[i]] + erased_from(s, i + 1, ScanMode::Text)
                } else if s[i] == '"' {
                    seq![s[i]] + erased_from(s, i + 1, ScanMode::TagDouble)
                } else if s[i] == '\'' {
                    seq![s[i]] + erased_from(s, i + 1, ScanMode::TagSingle)
                } else {
                    seq![s[i]] + erased_from(s, i + 1, ScanMode::Tag)
                }
            },
            ScanMode::TagSingle => {
                if s[i] == '\'' {
                    seq![s[i]] + erased_from(s, i + 1, ScanMode::Tag)
                } else {
                    seq![s[i]] + erased_from(s, i + 1, ScanMode::TagSingle)
                }
            },
            ScanMode::TagDouble => {
                if s[i] == '"' {
                    seq![s[i]] + erased_from(s, i + 1, ScanMode::Tag)
                } else {
                    seq![s[i]] + erased_from(s, i + 1, ScanMode::TagDouble)
                }
            },
            ScanMode::Comment => {
                if i + 3 <= s.len() && s[i] == '-' && s[i + 1] == '-' && s[i + 2] == '>' {
                    erased_from(s, i + 3, ScanMode::Text)
                } else {
                    erased_from(s, i + 1, ScanMode::Comment)
                }
            },
            ScanMode::Pi => {
                if i + 2 <= s.len() && s[i] == '?' && s[i + 1] == '>' {
                    erased_from(s, i + 2, ScanMode::Text)
                } else {
                    erased_from(s, i + 1, ScanMode::Pi)
                }
            },
            ScanMode::Cdata => {
                if i + 3 <= s.len() && s[i] == ']' && s[i + 1] == ']' && s[i + 2] == '>' {
                    erased_from(s, i + 3, ScanMode::Text)
                } else {
                    seq![s[i]] + erased_from(s, i + 1, ScanMode::Cdata)
                }
            },
        }
    }
}

/// The body as the parser's text layer sees it.
pub open spec fn erased(s: Seq<char>) -> Seq<char> {
    erased_from(s, 0, ScanMode::Text)
}

/// The characters of a string, in order.
fn chars_of(s: &str) -> (r: Vec<char>)
    ensures
        r@ == s@,
{
    broadcast use vstd::string::axiom_spec_iter, vstd::string::next_postcondition;

    let mut it = s.chars();
    let mut out: Vec<char> = Vec::new();
    proof {
        assert(out@ + it.remaining() =~= s@);
    }
    loop
        invariant
            it.obeys_prophetic_iter_laws(),
            it.decrease() is Some,
            out@ + it.remaining() == s@,
        ensures
            out@ == s@,
        decreases it.decrease()->0,
    {
        match it.next() {
            Some(c) => {
                out.push(c);
                proof {
                    assert(out@ + it.remaining() =~= s@);
                }
            },
            None => {
                proof {
                    assert(out@ + it.remaining() =~= out@);
                }
                break ;
            },
        }
    }
    out
}

fn eq_ci_exec(c: char, l: char) -> (r: bool)
    ensures
        r == eq_ci(c, l),
{
    c == l || ('A' <= c && c <= 'Z' && (c as u32) + 32 == (l as u32))
}

fn is_digit_exec(c: char) -> (r: bool)
    ensures
        r == is_ascii_digit_char(c),
{
    let u = c as u32;
    0x30 <= u && u <= 0x39
}

fn is_hex_digit_exec(c: char) -> (r: bool)
    ensures
        r == is_hex_digit_char(c),
{
    let u = c as u32;
    (0x30 <= u && u <= 0x39) || (0x61 <= u && u <= 0x66) || (0x41 <= u && u <= 0x46)
}

fn encoding_word_at_exec(v: &Vec<char>, i: usize) -> (r: bool)
    requires
        i + 8 <= v@.len(),
    ensures
        r == encoding_word_at(v@, i as int),
{
    let n = v.len();
    proof {
        assert(i + 8 <= n);
    }
    eq_ci_exec(v[i], 'e') && eq_ci_exec(v[i + 1], 'n') && eq_ci_exec(v[i + 2], 'c')
        && eq_ci_exec(v[i + 3], 'o') && eq_ci_exec(v[i + 4], 'd') && eq_ci_exec(v[i + 5], 'i')
        && eq_ci_exec(v[i + 6], 'n') && eq_ci_exec(v[i + 7], 'g')
}

fn utf8_value_at_exec(v: &Vec<char>, i: usize) -> (r: bool)
    requires
        i < v@.len(),
    ensures
        r == utf8_value_at(v@, i as int),
{
    let n = v.len();
    if n < 16 || i > n - 16 {
        proof {
            assert(!(i + 16 <= v@.len()));
        }
        return false;
    }
    let q = v[i + 9];
    v[i + 8] == '=' && (q == '"' || q == '\'') && eq_ci_exec(v[i + 10], 'u') && eq_ci_exec(
        v[i + 11],
        't',
    ) && eq_ci_exec(v[i + 12], 'f') && v[i + 13] == '-' && v[i + 14] == '8' && v[i + 15] == q
}

fn scan_encodings_pinned(v: &Vec<char>) -> (r: bool)
    ensures
        r == encodings_pinned(v@),
{
    let n = v.len();
    if n < 8 {
        proof {
            assert forall|i: int| encoding_word_at(v@, i) implies utf8_value_at(v@, i) by {
                assert(i + 8 <= v@.len());
            }
        }
        return true;
    }
    let mut i: usize = 0;
    while i <= n - 8
        invariant
            n == v@.len(),
            8 <= n,
            i <= n - 8 + 1,
            forall|k: int| 0 <= k < i ==> (encoding_word_at(v@, k) ==> utf8_value_at(v@, k)),
        decreases n - i,
    {
        if encoding_word_at_exec(v, i) {
            if !utf8_value_at_exec(v, i) {
                proof {
                    assert(encoding_word_at(v@, i as int) && !utf8_value_at(v@, i as int));
                }
                return false;
            }
        }
        i += 1;
    }
    proof {
        assert forall|k: int| encoding_word_at(v@, k) implies utf8_value_at(v@, k) by {
            assert(0 <= k && k + 8 <= v@.len());
            assert(k < i);
        }
    }
    true
}

fn comment_open_exec(v: &Vec<char>, i: usize) -> (r: bool)
    requires
        i < v@.len(),
    ensures
        r == comment_open_at(v@, i as int),
{
    let n = v.len();
    n - i >= 4 && v[i] == '<' && v[i + 1] == '!' && v[i + 2] == '-' && v[i + 3] == '-'
}

fn cdata_open_exec(v: &Vec<char>, i: usize) -> (r: bool)
    requires
        i < v@.len(),
    ensures
        r == cdata_open_at(v@, i as int),
{
    let n = v.len();
    n - i >= 9 && v[i] == '<' && v[i + 1] == '!' && v[i + 2] == '[' && v[i + 3] == 'C' && v[i + 4]
        == 'D' && v[i + 5] == 'A' && v[i + 6] == 'T' && v[i + 7] == 'A' && v[i + 8] == '['
}

fn pi_open_exec(v: &Vec<char>, i: usize) -> (r: bool)
    requires
        i < v@.len(),
    ensures
        r == pi_open_at(v@, i as int),
{
    let n = v.len();
    n - i >= 2 && v[i] == '<' && v[i + 1] == '?'
}

fn scan_unmodeled_markup(v: &Vec<char>) -> (r: bool)
    ensures
        r == has_unmodeled_markup(v@),
{
    let n = v.len();
    let mut i: usize = 0;
    while i < n
        invariant
            n == v@.len(),
            i <= n,
            forall|k: int| 0 <= k < i ==> !bang_other_at(v@, k),
        decreases n - i,
    {
        if n - i >= 2 && v[i] == '<' && v[i + 1] == '!' {
            if !comment_open_exec(v, i) && !cdata_open_exec(v, i) {
                proof {
                    assert(bang_other_at(v@, i as int));
                }
                return true;
            }
        }
        proof {
            assert(!bang_other_at(v@, i as int));
        }
        i += 1;
    }
    proof {
        assert forall|k: int| !bang_other_at(v@, k) by {
            if 0 <= k && k + 2 <= v@.len() {
                assert(k < i);
            }
        }
    }
    false
}

/// Whether the character reference opening at `i` (where `&#` stands) denotes
/// a decimal-digit code point.
fn check_ref_at(v: &Vec<char>, i: usize) -> (r: bool)
    requires
        i + 2 <= v@.len(),
        v@[i as int] == '&',
        v@[i + 1] == '#',
    ensures
        r == exists|k: int| dec_digit_ref_at(v@, i as int, k) || hex_digit_ref_at(v@, i as int, k),
{
    let n = v.len();
    let hex = n - i >= 3 && v[i + 2] == 'x';
    let start: usize = if hex {
        i + 3
    } else {
        i + 2
    };
    let base: u32 = if hex {
        16
    } else {
        10
    };
    let mut j: usize = start;
    let mut value: u32 = 0;
    let mut big = false;
    proof {
        assert(v@.subrange(start as int, start as int) =~= Seq::<char>::empty());
    }
    loop
        invariant
            n == v@.len(),
            start <= j <= n,
            i + 2 <= start,
            hex ==> start == i + 3,
            !hex ==> start == i + 2,
            base == (if hex { 16u32 } else { 10u32 }),
            forall|t: int|
                start <= t < j ==> (if hex {
                    is_hex_digit_char(#[trigger] v@[t])
                } else {
                    is_ascii_digit_char(v@[t])
                }),
            !big ==> value <= 0x10FFFF,
            !big && hex ==> value == hex_value(v@.subrange(start as int, j as int)),
            !big && !hex ==> value == dec_value(v@.subrange(start as int, j as int)),
            big && hex ==> hex_value(v@.subrange(start as int, j as int)) > 0x10FFFF,
            big && !hex ==> dec_value(v@.subrange(start as int, j as int)) > 0x10FFFF,
        ensures
            start <= j <= n,
            forall|t: int|
                start <= t < j ==> (if hex {
                    is_hex_digit_char(#[trigger] v@[t])
                } else {
                    is_ascii_digit_char(v@[t])
                }),
            !big ==> value <= 0x10FFFF,
            !big && hex ==> value == hex_value(v@.subrange(start as int, j as int)),
            !big && !hex ==> value == dec_value(v@.subrange(start as int, j as int)),
            big && hex ==> hex_value(v@.subrange(start as int, j as int)) > 0x10FFFF,
            big && !hex ==> dec_value(v@.subrange(start as int, j as int)) > 0x10FFFF,
            j < n ==> (if hex {
                !is_hex_digit_char(v@[j as int])
            } else {
                !is_ascii_digit_char(v@[j as int])
            }),
        decreases n - j,
    {
        if j >= n {
            break ;
        }
        let c = v[j];
        let ok = if hex {
            is_hex_digit_exec(c)
        } else {
            is_digit_exec(c)
        };
        if !ok {
            break ;
        }
        let d: u32 = if hex {
            let u = c as u32;
            if u <= 0x39 {
                u - 0x30
            } else if u >= 0x61 {
                u - 0x61 + 10
            } else {
                u - 0x41 + 10
            }
        } else {
            (c as u32) - 0x30
        };
        proof {
            let pre = v@.subrange(start as int, j as int);
            let post = v@.subrange(start as int, j + 1);
            assert(post.drop_last() =~= pre);
            assert(post.last() == v@[j as int]);
            if hex {
                assert(hex_value(post) == hex_value(pre) * 16 + hex_digit_value(v@[j as int]));
                assert(hex_digit_value(v@[j as int]) == d);
            } else {
                assert(dec_value(post) == dec_value(pre) * 10 + (v@[j as int] as u32 - 0x30));
            }
        }
        if !big {
            let nv = value * base + d;
            if nv > 0x10FFFF {
                big = true;
                proof {
                    if hex {
                        assert(hex_value(v@.subrange(start as int, j + 1)) == nv);
                    } else {
                        assert(dec_value(v@.subrange(start as int, j + 1)) == nv);
                    }
                }
            } else {
                value = nv;
            }
        } else {
            proof {
                let pre = v@.subrange(start as int, j as int);
                if hex {
                    assert(hex_value(pre) * 16 + hex_digit_value(v@[j as int]) > 0x10FFFF);
                } else {
                    assert(dec_value(pre) * 10 + (v@[j as int] as u32 - 0x30) > 0x10FFFF);
                }
            }
        }
        j += 1;
    }
    let found = j > start && j < n && v[j] == ';' && !big && ((0x30 <= value && value <= 0x39)
        || value_is_wide_digit(value));
    proof {
        if found {
            if hex {
                assert(hex_digit_ref_at(v@, i as int, j as int));
            } else {
                assert(dec_digit_ref_at(v@, i as int, j as int));
            }
        } else {
            assert forall|k: int| !dec_digit_ref_at(v@, i as int, k) && !hex_digit_ref_at(
                v@,
                i as int,
                k,
            ) by {
                if hex {
                    // A decimal form would need a digit where the 'x' stands.
                    if dec_digit_ref_at(v@, i as int, k) {
                        assert(is_ascii_digit_char(v@[i + 2]));
                        assert(v@[i + 2] == 'x');
                        assert(false);
                    }
                    if hex_digit_ref_at(v@, i as int, k) {
                        // The digits end exactly at the maximal run end `j`.
                        if k < j {
                            assert(is_hex_digit_char(v@[k]));
                            assert(v@[k] == ';');
                            assert(false);
                        }
                        if k > j {
                            assert(is_hex_digit_char(v@[j as int]));
                            assert(false);
                        }
                        assert(k == j);
                        assert(false);
                    }
                } else {
                    if hex_digit_ref_at(v@, i as int, k) {
                        assert(v@[i + 2] == 'x');
                        assert(is_ascii_digit_char('x') == false);
                        assert(false);
                    }
                    if dec_digit_ref_at(v@, i as int, k) {
                        if k < j {
                            assert(is_ascii_digit_char(v@[k]));
                            assert(v@[k] == ';');
                            assert(false);
                        }
                        if k > j {
                            assert(is_ascii_digit_char(v@[j as int]));
                            assert(false);
                        }
                        assert(k == j);
                        assert(false);
                    }
                }
            }
        }
    }
    found
}

/// Whether a character reference denoting a decimal digit occurs.
fn scan_digit_char_refs(v: &Vec<char>) -> (r: bool)
    ensures
        r == has_digit_char_ref(v@),
{
    let n = v.len();
    let mut i: usize = 0;
    while i < n
        invariant
            n == v@.len(),
            i <= n,
            forall|i2: int, k: int| 0 <= i2 < i ==> !dec_digit_ref_at(v@, i2, k),
            forall|i2: int, k: int| 0 <= i2 < i ==> !hex_digit_ref_at(v@, i2, k),
        decreases n - i,
    {
        if v[i] == '&' && n - i >= 2 && v[i + 1] == '#' {
            if check_ref_at(v, i) {
                return true;
            }
        } else {
            proof {
                assert forall|k: int| !dec_digit_ref_at(v@, i as int, k) && !hex_digit_ref_at(
                    v@,
                    i as int,
                    k,
                ) by {}
            }
        }
        i += 1;
    }
    false
}

/// One step of the erasing scanner: whether the character at `i` is kept, how
/// far to advance, and the next mode, matching one unfolding of
/// `erased_from`.
fn scan_step(v: &Vec<char>, i: usize, mode: ScanMode) -> (r: (bool, usize, ScanMode))
    requires
        i < v@.len(),
    ensures
        1 <= r.1,
        i + r.1 <= v@.len(),
        erased_from(v@, i as int, mode) == (if r.0 {
            seq![v@[i as int]]
        } else {
            Seq::<char>::empty()
        }) + erased_from(v@, i + r.1, r.2),
{
    let n = v.len();
    let c = v[i];
    let r = match mode {
        ScanMode::Text => {
            if comment_open_exec(v, i) {
                (false, 4usize, ScanMode::Comment)
            } else if cdata_open_exec(v, i) {
                (false, 9usize, ScanMode::Cdata)
            } else if pi_open_exec(v, i) {
                (false, 2usize, ScanMode::Pi)
            } else if c == '<' {
                (true, 1usize, ScanMode::Tag)
            } else if c == '&' {
                (true, 1usize, ScanMode::Reference)
            } else {
                (true, 1usize, ScanMode::Text)
            }
        },
        ScanMode::Reference => {
            if c == ';' {
                (true, 1usize, ScanMode::Text)
            } else {
                (true, 1usize, ScanMode::Reference)
            }
        },
        ScanMode::Tag => {
            if c == '>' {
                (true, 1usize, ScanMode::Text)
            } else if c == '"' {
                (true, 1usize, ScanMode::TagDouble)
            } else if c == '\'' {
                (true, 1usize, ScanMode::TagSingle)
            } else {
                (true, 1usize, ScanMode::Tag)
            }
        },
        ScanMode::TagSingle => {
            if c == '\'' {
                (true, 1usize, ScanMode::Tag)
            } else {
                (true, 1usize, ScanMode::TagSingle)
            }
        },
        ScanMode::TagDouble => {
            if c == '"' {
                (true, 1usize, ScanMode::Tag)
            } else {
                (true, 1usize, ScanMode::TagDouble)
            }
        },
        ScanMode::Comment => {
            if n - i >= 3 && c == '-' && v[i + 1] == '-' && v[i + 2] == '>' {
                (false, 3usize, ScanMode::Text)
            } else {
                (false, 1usize, ScanMode::Comment)
            }
        },
        ScanMode::Pi => {
            if n - i >= 2 && c == '?' && v[i + 1] == '>' {
                (false, 2usize, ScanMode::Text)
            } else {
                (false, 1usize, ScanMode::Pi)
            }
        },
        ScanMode::Cdata => {
            if n - i >= 3 && c == ']' && v[i + 1] == ']' && v[i + 2] == '>' {
                (false, 3usize, ScanMode::Text)
            } else {
                (true, 1usize, ScanMode::Cdata)
            }
        },
    };
    proof {
        let rest = erased_from(v@, i + r.1, r.2);
        if !r.0 {
            assert(Seq::<char>::empty() + rest =~= rest);
        }
    }
    r
}

/// The body as the parser's text layer sees it: comment and instruction
/// spans and the CDATA delimiters erased, all other characters kept.
fn erase_unparsed_spans(v: &Vec<char>) -> (r: Vec<char>)
    ensures
        r@ == erased(v@),
{
    let n = v.len();
    let mut out: Vec<char> = Vec::new();
    let mut i: usize = 0;
    let mut mode = ScanMode::Text;
    proof {
        assert(Seq::<char>::empty() + erased_from(v@, 0, ScanMode::Text) =~= erased(v@));
    }
    while i < n
        invariant
            n == v@.len(),
            i <= n,
            out@ + erased_from(v@, i as int, mode) == erased(v@),
        decreases n - i,
    {
        let ghost prev_out = out@;
        let ghost prev_i = i as int;
        let ghost prev_mode = mode;
        let step = scan_step(v, i, mode);
        if step.0 {
            out.push(v[i]);
        }
        i = i + step.1;
        mode = step.2;
        proof {
            let rest = erased_from(v@, i as int, mode);
            if step.0 {
                assert((prev_out + seq![v@[prev_i]]) + rest =~= prev_out + (seq![v@[prev_i]]
                    + rest));
            } else {
                assert(prev_out + (Seq::<char>::empty() + rest) =~= prev_out + rest);
            }
        }
    }
    proof {
        assert(erased_from(v@, i as int, mode) =~= Seq::<char>::empty());
        assert(out@ + Seq::<char>::empty() =~= out@);
    }
    out
}

fn scan_wide_decimal_digit(v: &Vec<char>) -> (r: bool)
    ensures
        r == has_wide_decimal_digit(v@),
{
    let n = v.len();
    let mut i: usize = 0;
    while i < n
        invariant
            n == v@.len(),
            i <= n,
            forall|k: int| 0 <= k < i ==> !is_wide_decimal_digit(v@[k]),
        decreases n - i,
    {
        if char_is_wide_decimal_digit(v[i]) {
            return true;
        }
        i += 1;
    }
    false
}

fn scan_long_digit_run(v: &Vec<char>) -> (r: bool)
    ensures
        r == has_long_digit_run(v@),
{
    let n = v.len();
    let mut i: usize = 0;
    let mut run: usize = 0;
    while i < n
        invariant
            n == v@.len(),
            run <= i <= n,
            run < 16,
            forall|j: int| i - run <= j < i ==> is_ascii_digit_char(v@[j]),
            i - run - 1 >= 0 ==> !is_ascii_digit_char(v@[i - run - 1]),
            forall|k: int| 0 <= k && k + 16 <= i ==> !digit_run_at(v@, k),
        decreases n - i,
    {
        if is_digit_exec(v[i]) {
            run += 1;
            if run >= 16 {
                proof {
                    assert(digit_run_at(v@, i + 1 - 16));
                }
                return true;
            }
        } else {
            run = 0;
        }
        i += 1;
        proof {
            assert forall|k: int| 0 <= k && k + 16 <= i implies !digit_run_at(v@, k) by {
                if k + 16 == i {
                    let gap = i - run - 1;
                    assert(k <= gap < i);
                    assert(!is_ascii_digit_char(v@[gap]));
                }
            }
        }
    }
    false
}

/// Whether a fetched body is one the feed parser provably processes without
/// aborting; assembly treats every other body as an unavailable feed.
pub fn body_is_tame(body: &str) -> (r: bool)
    ensures
        r == body_tame(body@),
{
    let chars = chars_of(body);
    if !scan_encodings_pinned(&chars) {
        return false;
    }
    if scan_unmodeled_markup(&chars) {
        return false;
    }
    if scan_digit_char_refs(&chars) {
        return false;
    }
    if scan_wide_decimal_digit(&chars) {
        return false;
    }
    let text_view = erase_unparsed_spans(&chars);
    !scan_long_digit_run(&text_view)
}

/// The bodies the feed parser provably processes without aborting: the stream
/// encoding pinned to UTF-8, no markup of unmodeled extent, no character
/// reference denoting a digit, no decimal digit outside ASCII, and no run of
/// sixteen or more ASCII digits in the text as the parser's lexing sees it.
pub open spec fn body_tame(s: Seq<char>) -> bool {
    &&& encodings_pinned(s)
    &&& !has_unmodeled_markup(s)
    &&& !has_digit_char_ref(s)
    &&& !has_wide_decimal_digit(s)
    &&& !has_long_digit_run(erased(s))
}

} // verus!
