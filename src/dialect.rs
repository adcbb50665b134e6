//! The lexical rules of each dialect: how atoms are spelled and escaped.
use vstd::prelude::*;

use crate::writer::LanguageStyle;
use itertools::Itertools;

verus! {

/// The code point of a character.
pub open spec fn code(c: char) -> int {
    c as u32 as int
}

/// The characters that are escaped when they occur in strings, symbols or character literals.
/// The set is the same in every dialect; only the spelling of the escape differs.
pub open spec fn is_nonprintable(c: char) -> bool {
    let u = code(c);
    ||| 0x0000 <= u < 0x0008
    ||| 0x000B <= u < 0x001F
    ||| 0x007F <= u < 0x009F
    ||| 0x2000 <= u < 0x200F
    ||| 0x2028 <= u < 0x202F
    ||| 0x205F <= u < 0x206F
    ||| 0x3000 <= u < 0xFEFF
    ||| 0xE0100 <= u < 0xE01EF
}

/// The non-printable characters whose escape needs more than four hex digits.
pub open spec fn needs_long_escape(c: char) -> bool {
    0xE0100 <= code(c) < 0xE01EF
}

/// The upper-case hex digit of a value below 16.
pub open spec fn hex_digit(d: int) -> char {
    if d < 10 {
        ((0x30 + d) as u8) as char
    } else {
        ((0x41 + d - 10) as u8) as char
    }
}

/// The `width` lowest hex digits of `n`, most significant first, padded with zeros.
pub open spec fn hex_text(n: nat, width: nat) -> Seq<char>
    decreases width,
{
    if width == 0 {
        Seq::empty()
    } else {
        hex_text(n / 16, (width - 1) as nat).push(hex_digit((n % 16) as int))
    }
}

/// Whether `c` is non-printable.
pub fn is_char_nonprintable(c: char) -> (r: bool)
    ensures
        r == is_nonprintable(c),
{
    let u = c as u32;
    (u < 0x0008) || (0x000B <= u && u < 0x001F) || (0x007F <= u && u < 0x009F) || (0x2000 <= u
        && u < 0x200F) || (0x2028 <= u && u < 0x202F) || (0x205F <= u && u < 0x206F) || (0x3000
        <= u && u < 0xFEFF) || (0xE0100 <= u && u < 0xE01EF)
}

fn hex_digit_char(d: u32) -> (r: char)
    requires
        d < 16,
    ensures
        r == hex_digit(d as int),
{
    if d < 10 {
        ((0x30 + d) as u8) as char
    } else {
        ((0x41 + d - 10) as u8) as char
    }
}

/// What `char`'s `Debug` writes: the character as a quoted Rust character literal.
pub uninterp spec fn char_debug_of(c: char) -> Seq<char>;

/// What `str`'s `Debug` writes: the text as a quoted Rust string literal.
pub uninterp spec fn str_debug_of(s: Seq<char>) -> Seq<char>;

/// Relies on `String::push`: it appends one character.
#[verifier::external_body]
pub(crate) fn push_char(out: &mut String, c: char)
    ensures
        final(out)@ == old(out)@.push(c),
{
    out.push(c)
}

/// Relies on `char`'s `Debug` impl, which quotes and escapes the character.
#[verifier::external_body]
fn debug_char(c: char) -> (r: String)
    ensures
        r@ == char_debug_of(c),
{
    format!("{:?}", c)
}

/// Relies on `str`'s `Debug` impl, which quotes and escapes the text.
#[verifier::external_body]
fn debug_str(s: &str) -> (r: String)
    ensures
        r@ == str_debug_of(s@),
{
    format!("{:?}", s)
}

/// The spelling of a boolean.
pub open spec fn bool_text(b: bool, style: LanguageStyle) -> Seq<char> {
    match style {
        LanguageStyle::Racket | LanguageStyle::Scheme => if b { "#t"@ } else { "#f"@ },
        LanguageStyle::TreeSitter => if b { "true"@ } else { "false"@ },
        LanguageStyle::CommonLisp | LanguageStyle::EmacsLisp => if b { "t"@ } else { "nil"@ },
    }
}

/// The characters that Emacs Lisp writes after `?\`.
pub open spec fn is_elisp_special(c: char) -> bool {
    c == '(' || c == ')' || c == '[' || c == ']' || c == '\\' || c == ';' || c == '|' || c
        == '\'' || c == '`' || c == '#' || c == '.' || c == ',' || c == '\u{2018}'
}

/// The name a dialect gives to a character, where it has one.
pub open spec fn char_name(c: char, style: LanguageStyle) -> Option<Seq<char>> {
    let u = code(c);
    match style {
        LanguageStyle::Racket => if u == 0x00 {
            Some("#\\null"@)
        } else if u == 0x08 {
            Some("#\\backspace"@)
        } else if u == 0x09 {
            Some("#\\tab"@)
        } else if u == 0x0A {
            Some("#\\newline"@)
        } else if u == 0x0B {
            Some("#\\vtab"@)
        } else if u == 0x0C {
            Some("#\\page"@)
        } else if u == 0x0D {
            Some("#\\return"@)
        } else if u == 0x20 {
            Some("#\\space"@)
        } else if u == 0x7F {
            Some("#\\rubout"@)
        } else {
            None
        },
        LanguageStyle::TreeSitter => None,
        LanguageStyle::CommonLisp => if u == 0x08 {
            Some("#\\Backspace"@)
        } else if u == 0x09 {
            Some("#\\Tab"@)
        } else if u == 0x0A {
            Some("#\\Newline"@)
        } else if u == 0x0C {
            Some("#\\Page"@)
        } else if u == 0x0D {
            Some("#\\Return"@)
        } else if u == 0x20 {
            Some("#\\Space"@)
        } else if u == 0x7F {
            Some("#\\Rubout"@)
        } else {
            None
        },
        LanguageStyle::Scheme => if u == 0x00 {
            Some("#\\null"@)
        } else if u == 0x07 {
            Some("#\\alarm"@)
        } else if u == 0x08 {
            Some("#\\backspace"@)
        } else if u == 0x09 {
            Some("#\\tab"@)
        } else if u == 0x0A {
            Some("#\\newline"@)
        } else if u == 0x0D {
            Some("#\\return"@)
        } else if u == 0x1B {
            Some("#\\escape"@)
        } else if u == 0x20 {
            Some("#\\space"@)
        } else if u == 0x7F {
            Some("#\\delete"@)
        } else {
            None
        },
        LanguageStyle::EmacsLisp => if u == 0x00 {
            Some("?\\u00"@)
        } else if u == 0x07 {
            Some("?\\a"@)
        } else if u == 0x08 {
            Some("?\\b"@)
        } else if u == 0x09 {
            Some("?\\t"@)
        } else if u == 0x0A {
            Some("?\\n"@)
        } else if u == 0x0B {
            Some("?\\v"@)
        } else if u == 0x0C {
            Some("?\\f"@)
        } else if u == 0x0D {
            Some("?\\r"@)
        } else if u == 0x1B {
            Some("?\\e"@)
        } else if u == 0x20 {
            Some("?\\s"@)
        } else if u == 0x7F {
            Some("?\\d"@)
        } else {
            None
        },
    }
}

/// A character literal without a name: verbatim after `plain`, or, when non-printable, its code
/// point in hex after `short` (four digits) or `long` (six digits, for the code points that
/// need them).
pub open spec fn char_escape(c: char, plain: Seq<char>, short: Seq<char>, long: Seq<char>) -> Seq<
    char,
> {
    if needs_long_escape(c) {
        long + hex_text(code(c) as nat, 6)
    } else if is_nonprintable(c) {
        short + hex_text(code(c) as nat, 4)
    } else {
        plain.push(c)
    }
}

/// The spelling of a character literal.
pub open spec fn char_text(c: char, style: LanguageStyle) -> Seq<char> {
    match char_name(c, style) {
        Some(name) => name,
        None => match style {
            LanguageStyle::Racket => char_escape(c, "#\\"@, "#\\u"@, "#\\U"@),
            LanguageStyle::TreeSitter => char_debug_of(c),
            LanguageStyle::CommonLisp => char_escape(c, "#\\"@, "#\\U"@, "#\\U"@),
            LanguageStyle::Scheme => char_escape(c, "#\\"@, "#\\x"@, "#\\x"@),
            LanguageStyle::EmacsLisp => if is_elisp_special(c) {
                "?\\"@.push(c)
            } else {
                char_escape(c, "?"@, "?\\u"@, "?\\U"@)
            },
        },
    }
}

/// Appends the spelling of a boolean.
pub fn write_bool(b: bool, style: LanguageStyle, out: &mut String)
    ensures
        final(out)@ == old(out)@ + bool_text(b, style),
{
    let t = match style {
        LanguageStyle::Racket | LanguageStyle::Scheme => if b { "#t" } else { "#f" },
        LanguageStyle::TreeSitter => if b { "true" } else { "false" },
        LanguageStyle::CommonLisp | LanguageStyle::EmacsLisp => if b { "t" } else { "nil" },
    };
    out.append(t);
}

/// Appends the `width` lowest hex digits of `n`.
fn write_hex(n: u32, width: usize, out: &mut String)
    ensures
        final(out)@ == old(out)@ + hex_text(n as nat, width as nat),
    decreases width,
{
    if width > 0 {
        write_hex(n / 16, width - 1, out);
        let d = hex_digit_char(n % 16);
        push_char(out, d);
        assert(final(out)@ =~= old(out)@ + hex_text(n as nat, width as nat));
    } else {
        assert(final(out)@ =~= old(out)@ + hex_text(n as nat, width as nat));
    }
}

fn named_char(c: char, style: LanguageStyle) -> (r: Option<&'static str>)
    ensures
        match char_name(c, style) {
            Some(t) => r is Some && r->0@ == t,
            None => r is None,
        },
{
    let u = c as u32;
    match style {
        LanguageStyle::Racket => if u == 0x00 {
            Some("#\\null")
        } else if u == 0x08 {
            Some("#\\backspace")
        } else if u == 0x09 {
            Some("#\\tab")
        } else if u == 0x0A {
            Some("#\\newline")
        } else if u == 0x0B {
            Some("#\\vtab")
        } else if u == 0x0C {
            Some("#\\page")
        } else if u == 0x0D {
            Some("#\\return")
        } else if u == 0x20 {
            Some("#\\space")
        } else if u == 0x7F {
            Some("#\\rubout")
        } else {
            None
        },
        LanguageStyle::TreeSitter => None,
        LanguageStyle::CommonLisp => if u == 0x08 {
            Some("#\\Backspace")
        } else if u == 0x09 {
            Some("#\\Tab")
        } else if u == 0x0A {
            Some("#\\Newline")
        } else if u == 0x0C {
            Some("#\\Page")
        } else if u == 0x0D {
            Some("#\\Return")
        } else if u == 0x20 {
            Some("#\\Space")
        } else if u == 0x7F {
            Some("#\\Rubout")
        } else {
            None
        },
        LanguageStyle::Scheme => if u == 0x00 {
            Some("#\\null")
        } else if u == 0x07 {
            Some("#\\alarm")
        } else if u == 0x08 {
            Some("#\\backspace")
        } else if u == 0x09 {
            Some("#\\tab")
        } else if u == 0x0A {
            Some("#\\newline")
        } else if u == 0x0D {
            Some("#\\return")
        } else if u == 0x1B {
            Some("#\\escape")
        } else if u == 0x20 {
            Some("#\\space")
        } else if u == 0x7F {
            Some("#\\delete")
        } else {
            None
        },
        LanguageStyle::EmacsLisp => if u == 0x00 {
            Some("?\\u00")
        } else if u == 0x07 {
            Some("?\\a")
        } else if u == 0x08 {
            Some("?\\b")
        } else if u == 0x09 {
            Some("?\\t")
        } else if u == 0x0A {
            Some("?\\n")
        } else if u == 0x0B {
            Some("?\\v")
        } else if u == 0x0C {
            Some("?\\f")
        } else if u == 0x0D {
            Some("?\\r")
        } else if u == 0x1B {
            Some("?\\e")
        } else if u == 0x20 {
            Some("?\\s")
        } else if u == 0x7F {
            Some("?\\d")
        } else {
            None
        },
    }
}

fn is_elisp_special_char(c: char) -> (r: bool)
    ensures
        r == is_elisp_special(c),
{
    c == '(' || c == ')' || c == '[' || c == ']' || c == '\\' || c == ';' || c == '|' || c
        == '\'' || c == '`' || c == '#' || c == '.' || c == ',' || c == '\u{2018}'
}

/// Appends a character literal without a name, as `char_escape` spells it.
fn write_char_escape(c: char, plain: &str, short: &str, long: &str, out: &mut String)
    ensures
        final(out)@ == old(out)@ + char_escape(c, plain@, short@, long@),
{
    let u = c as u32;
    if 0xE0100 <= u && u < 0xE01EF {
        out.append(long);
        write_hex(u, 6, out);
    } else if is_char_nonprintable(c) {
        out.append(short);
        write_hex(u, 4, out);
    } else {
        out.append(plain);
        push_char(out, c);
    }
    assert(final(out)@ =~= old(out)@ + char_escape(c, plain@, short@, long@));
}

/// Appends the spelling of a character literal.
pub fn write_char(c: char, style: LanguageStyle, out: &mut String)
    ensures
        final(out)@ == old(out)@ + char_text(c, style),
{
    match named_char(c, style) {
        Some(name) => {
            out.append(name);
        },
        None => {
            if style == LanguageStyle::EmacsLisp && is_elisp_special_char(c) {
                out.append("?\\");
                push_char(out, c);
                assert(final(out)@ =~= old(out)@ + char_text(c, style));
            } else {
                match style {
                    LanguageStyle::Racket => write_char_escape(c, "#\\", "#\\u", "#\\U", out),
                    LanguageStyle::TreeSitter => {
                        let t = debug_char(c);
                        out.append(t.as_str());
                    },
                    LanguageStyle::CommonLisp => write_char_escape(c, "#\\", "#\\U", "#\\U", out),
                    LanguageStyle::Scheme => write_char_escape(c, "#\\", "#\\x", "#\\x", out),
                    LanguageStyle::EmacsLisp => write_char_escape(c, "?", "?\\u", "?\\U", out),
                }
            }
        },
    }
}

/// The letter after the backslash in an escape inside a string or symbol: the letter of the
/// dialect's character escape, `long` for the code points that need six hex digits.
pub open spec fn escape_letter(style: LanguageStyle, long: bool) -> char {
    match style {
        LanguageStyle::CommonLisp => 'U',
        LanguageStyle::Scheme => 'x',
        _ => if long {
            'U'
        } else {
            'u'
        },
    }
}

/// The escape of a non-printable character inside a string or symbol: a backslash, the
/// dialect's letter, and the code point in hex, four digits or six for those that need them.
pub open spec fn string_escape(c: char, style: LanguageStyle) -> Seq<char> {
    if needs_long_escape(c) {
        seq!['\\', escape_letter(style, true)] + hex_text(code(c) as nat, 6)
    } else {
        seq!['\\', escape_letter(style, false)] + hex_text(code(c) as nat, 4)
    }
}

/// A character as the scan writes it: escaped when it is non-printable.
pub open spec fn inner_char(c: char, style: LanguageStyle) -> Seq<char> {
    if is_nonprintable(c) {
        string_escape(c, style)
    } else {
        seq![c]
    }
}

/// A `|` that does not follow a backslash.
pub open spec fn is_unescaped_bar(c0: char, c1: char) -> bool {
    c1 == '|' && c0 != '\\'
}

/// What the window of two neighbouring characters contributes to the scan. Only the final
/// window writes its second character; the others leave it to the next window.
pub open spec fn window_text(c0: char, c1: char, last: bool, style: LanguageStyle) -> Seq<char> {
    if is_unescaped_bar(c0, c1) {
        if last {
            seq![c0, '\\', '|']
        } else {
            seq![c0, '\\']
        }
    } else if last {
        inner_char(c0, style) + inner_char(c1, style)
    } else {
        inner_char(c0, style)
    }
}

/// The pairwise scan: the windows of neighbouring characters, left to right. A text of one
/// character is that character as the scan writes it.
pub open spec fn scan(t: Seq<char>, style: LanguageStyle) -> Seq<char>
    decreases t.len(),
{
    if t.len() == 0 {
        Seq::empty()
    } else if t.len() == 1 {
        inner_char(t[0], style)
    } else if t.len() == 2 {
        window_text(t[0], t[1], true, style)
    } else {
        window_text(t[0], t[1], false, style) + scan(t.subrange(1, t.len() as int), style)
    }
}

/// Whether a symbol's text must be written between bars: it holds a non-printable character or
/// an unescaped `|` after its first character.
pub open spec fn needs_pipes(t: Seq<char>) -> bool {
    ||| exists|i: int| 0 <= i < t.len() && is_nonprintable(#[trigger] t[i])
    ||| exists|i: int| 1 <= i < t.len() && #[trigger] is_unescaped_bar(t[i - 1], t[i])
}

/// A string literal: the scanned text, quoted and escaped as Rust's `Debug` writes a string.
pub open spec fn string_text(s: Seq<char>, style: LanguageStyle) -> Seq<char> {
    str_debug_of(scan(s, style))
}

/// The text of a symbol once Racket's reserved `#%` prefix, or the bars around an already
/// delimited symbol, are taken off.
pub open spec fn strip_symbol(s: Seq<char>, style: LanguageStyle) -> Seq<char> {
    if style == LanguageStyle::Racket && s.len() >= 2 && s[0] == '#' && s[1] == '%' {
        s.subrange(2, s.len() as int)
    } else if s.len() >= 2 && s[0] == '|' && s[s.len() - 1] == '|' {
        s.subrange(1, s.len() - 1)
    } else {
        s
    }
}

/// A symbol's text written bare, or scanned between bars where it needs them.
pub open spec fn bare_or_piped(t: Seq<char>, style: LanguageStyle) -> Seq<char> {
    if needs_pipes(t) {
        seq!['|'] + scan(t, style) + seq!['|']
    } else {
        t
    }
}

/// The spelling of a symbol. The tree-sitter style writes every symbol verbatim.
pub open spec fn symbol_text(s: Seq<char>, style: LanguageStyle) -> Seq<char> {
    if style == LanguageStyle::TreeSitter {
        s
    } else {
        bare_or_piped(strip_symbol(s, style), style)
    }
}

/// The spelling of a keyword: its symbol's spelling with the dialect's prefix or suffix.
pub open spec fn keyword_text(s: Seq<char>, style: LanguageStyle) -> Seq<char> {
    match style {
        LanguageStyle::Racket => "#:"@ + symbol_text(s, style),
        LanguageStyle::TreeSitter => symbol_text(s, style) + ":"@,
        _ => ":"@ + symbol_text(s, style),
    }
}

/// The decimal digits of a natural number.
pub open spec fn nat_text(n: nat) -> Seq<char>
    decreases n,
{
    if n < 10 {
        seq![hex_digit(n as int)]
    } else {
        nat_text(n / 10).push(hex_digit((n % 10) as int))
    }
}

/// The decimal spelling of an integer, with a leading `-` when it is negative.
pub open spec fn int_text(i: int) -> Seq<char> {
    if i < 0 {
        seq!['-'] + nat_text((-i) as nat)
    } else {
        nat_text(i as nat)
    }
}

/// Relies on `Itertools::tuple_windows`: the pairs of neighbouring characters, in order.
#[verifier::external_body]
fn char_windows(s: &str) -> (r: Vec<(char, char)>)
    ensures
        r@.len() == if s@.len() == 0 {
            0
        } else {
            s@.len() - 1
        },
        forall|i: int| 0 <= i < r@.len() ==> #[trigger] r@[i] == (s@[i], s@[i + 1]),
{
    s.chars().tuple_windows().collect()
}

fn escape_letter_char(style: LanguageStyle, long: bool) -> (r: char)
    ensures
        r == escape_letter(style, long),
{
    match style {
        LanguageStyle::CommonLisp => 'U',
        LanguageStyle::Scheme => 'x',
        _ => if long {
            'U'
        } else {
            'u'
        },
    }
}

/// Appends the escape of a non-printable character inside a string or symbol.
pub fn string_escape_char(c: char, style: LanguageStyle, out: &mut String)
    ensures
        final(out)@ == old(out)@ + string_escape(c, style),
{
    let u = c as u32;
    let long = 0xE0100 <= u && u < 0xE01EF;
    push_char(out, '\\');
    push_char(out, escape_letter_char(style, long));
    if long {
        write_hex(u, 6, out);
    } else {
        write_hex(u, 4, out);
    }
    assert(final(out)@ =~= old(out)@ + string_escape(c, style));
}

fn write_inner_char(c: char, style: LanguageStyle, out: &mut String)
    ensures
        final(out)@ == old(out)@ + inner_char(c, style),
{
    if is_char_nonprintable(c) {
        string_escape_char(c, style, out);
    } else {
        push_char(out, c);
        assert(final(out)@ =~= old(out)@ + inner_char(c, style));
    }
}

fn write_window(c0: char, c1: char, last: bool, style: LanguageStyle, out: &mut String)
    ensures
        final(out)@ == old(out)@ + window_text(c0, c1, last, style),
{
    if c1 == '|' && c0 != '\\' {
        push_char(out, c0);
        push_char(out, '\\');
        if last {
            push_char(out, '|');
        }
        assert(final(out)@ =~= old(out)@ + window_text(c0, c1, last, style));
    } else {
        write_inner_char(c0, style, out);
        if last {
            write_inner_char(c1, style, out);
        }
        assert(final(out)@ =~= old(out)@ + window_text(c0, c1, last, style));
    }
}

/// Appends the pairwise scan of `s`.
pub fn write_scanned(s: &str, style: LanguageStyle, out: &mut String)
    ensures
        final(out)@ == old(out)@ + scan(s@, style),
{
    let ghost t = s@;
    let pairs = char_windows(s);
    let m = pairs.len();
    if m == 0 {
        if s.unicode_len() == 1 {
            let c = s.get_char(0);
            write_inner_char(c, style, out);
        } else {
            assert(final(out)@ =~= old(out)@ + scan(s@, style));
        }
        return;
    }
    assert(t.subrange(0, t.len() as int) =~= t);
    let mut i: usize = 0;
    while i + 1 < m
        invariant
            m == pairs@.len(),
            m + 1 == t.len(),
            t == s@,
            forall|k: int| 0 <= k < m ==> #[trigger] pairs@[k] == (t[k], t[k + 1]),
            i + 1 <= m,
            out@ + scan(t.subrange(i as int, t.len() as int), style) == old(out)@ + scan(t, style),
        decreases m - i,
    {
        let ghost rest = t.subrange(i as int, t.len() as int);
        assert(rest.subrange(1, rest.len() as int) =~= t.subrange(i + 1, t.len() as int));
        let (c0, c1) = pairs[i];
        assert(c0 == rest[0] && c1 == rest[1]);
        write_window(c0, c1, false, style, out);
        i = i + 1;
        assert(out@ + scan(t.subrange(i as int, t.len() as int), style) == old(out)@ + scan(t, style)) by {
            assert(scan(rest, style) == window_text(c0, c1, false, style) + scan(t.subrange(i as int, t.len() as int), style));
            assert(out@ + scan(t.subrange(i as int, t.len() as int), style) =~= old(out)@ + scan(t, style));
        }
    }
    let (c0, c1) = pairs[i];
    write_window(c0, c1, true, style, out);
    proof {
        let rest = t.subrange(i as int, t.len() as int);
        assert(rest.len() == 2);
        assert(c0 == rest[0] && c1 == rest[1]);
        assert(final(out)@ =~= old(out)@ + scan(t, style));
    }
}

/// Whether the text of `s` needs bars around it as a symbol.
pub fn has_pipe_trigger(s: &str) -> (r: bool)
    ensures
        r == needs_pipes(s@),
{
    let ghost t = s@;
    let pairs = char_windows(s);
    let m = pairs.len();
    if m == 0 {
        if s.unicode_len() == 1 {
            let c = s.get_char(0);
            let r = is_char_nonprintable(c);
            assert(r ==> is_nonprintable(t[0]));
            return r;
        } else {
            return false;
        }
    }
    let mut i: usize = 0;
    while i < m
        invariant
            m == pairs@.len(),
            m + 1 == t.len(),
            t == s@,
            forall|k: int| 0 <= k < m ==> #[trigger] pairs@[k] == (t[k], t[k + 1]),
            i <= m,
            forall|k: int| 0 <= k < i ==> !is_nonprintable(#[trigger] t[k]),
            forall|k: int| 1 <= k <= i ==> !is_unescaped_bar(t[k - 1], #[trigger] t[k]),
        decreases m - i,
    {
        let (c0, c1) = pairs[i];
        assert(c0 == t[i as int] && c1 == t[i + 1]);
        if is_char_nonprintable(c0) {
            return true;
        }
        if c1 == '|' && c0 != '\\' {
            assert(is_unescaped_bar(t[(i + 1) - 1], t[i + 1]));
            return true;
        }
        i = i + 1;
    }
    let (c0, c1) = pairs[m - 1];
    let r = is_char_nonprintable(c1);
    proof {
        assert(c1 == t[m as int]);
        if !r {
            assert forall|k: int| 0 <= k < t.len() implies !is_nonprintable(#[trigger] t[k]) by {
                if k == m {
                } else {
                }
            }
            assert forall|k: int| 1 <= k < t.len() implies !#[trigger] is_unescaped_bar(t[k - 1], t[k]) by {
                assert(!is_unescaped_bar(t[k - 1], t[k]));
            }
        }
    }
    r
}

/// Appends the spelling of a string literal.
pub fn write_string(s: &str, style: LanguageStyle, out: &mut String)
    ensures
        final(out)@ == old(out)@ + string_text(s@, style),
{
    let mut body = String::new();
    write_scanned(s, style, &mut body);
    assert(body@ =~= scan(s@, style));
    let quoted = debug_str(body.as_str());
    out.append(quoted.as_str());
}

/// Appends the spelling of a symbol whose text is `s`.
pub fn write_symbol(s: &str, style: LanguageStyle, out: &mut String)
    ensures
        final(out)@ == old(out)@ + symbol_text(s@, style),
{
    if style == LanguageStyle::TreeSitter {
        out.append(s);
        return;
    }
    let n = s.unicode_len();
    let t: &str = if style == LanguageStyle::Racket && n >= 2 && s.get_char(0) == '#' && s.get_char(1)
        == '%' {
        s.substring_char(2, n)
    } else if n >= 2 && s.get_char(0) == '|' && s.get_char(n - 1) == '|' {
        s.substring_char(1, n - 1)
    } else {
        s
    };
    assert(t@ == strip_symbol(s@, style));
    if has_pipe_trigger(t) {
        push_char(out, '|');
        write_scanned(t, style, out);
        push_char(out, '|');
        assert(final(out)@ =~= old(out)@ + symbol_text(s@, style));
    } else {
        out.append(t);
    }
}

/// Appends the spelling of a keyword whose symbol's text is `s`.
pub fn write_keyword(s: &str, style: LanguageStyle, out: &mut String)
    ensures
        final(out)@ == old(out)@ + keyword_text(s@, style),
{
    match style {
        LanguageStyle::Racket => {
            out.append("#:");
            write_symbol(s, style, out);
        },
        LanguageStyle::TreeSitter => {
            write_symbol(s, style, out);
            out.append(":");
        },
        _ => {
            out.append(":");
            write_symbol(s, style, out);
        },
    }
    assert(final(out)@ =~= old(out)@ + keyword_text(s@, style));
}

fn write_nat(n: u64, out: &mut String)
    ensures
        final(out)@ == old(out)@ + nat_text(n as nat),
    decreases n,
{
    if n >= 10 {
        write_nat(n / 10, out);
    }
    let d = hex_digit_char((n % 10) as u32);
    push_char(out, d);
    assert(final(out)@ =~= old(out)@ + nat_text(n as nat));
}

/// Appends the decimal spelling of an integer.
pub fn write_integer(i: i64, out: &mut String)
    ensures
        final(out)@ == old(out)@ + int_text(i as int),
{
    if i < 0 {
        push_char(out, '-');
        let m = (0 - (i as i128)) as u64;
        write_nat(m, out);
    } else {
        write_nat(i as u64, out);
    }
    assert(final(out)@ =~= old(out)@ + int_text(i as int));
}

} // verus!
