//! Laws that relate the renderings to each other.
use vstd::prelude::*;
use vstd::utf8::encode_utf8;

use crate::dialect::{
    code, escape_letter, hex_text, inner_char, is_nonprintable, is_unescaped_bar, keyword_text,
    needs_long_escape, needs_pipes, scan, strip_symbol, symbol_text, window_text,
};
use crate::layout::{
    byte_len, pretty, pretty_items, printed_len, printed_len_items, render, render_items,
    rendered_len, spaces,
};
use crate::value::Value;
use crate::writer::LanguageStyle;

verus! {

/// Rendering is a function of the value and the style alone: equal values render to the same
/// text, flat and pretty, and have the same printed length.
pub proof fn rendering_is_deterministic(
    a: Value,
    b: Value,
    style: LanguageStyle,
    indent: int,
    width: int,
)
    requires
        a == b,
    ensures
        render(a, style) == render(b, style),
        printed_len(a, style) == printed_len(b, style),
        pretty(a, indent, width, style) == pretty(b, indent, width, style),
{
}

/// The printed length of an atom is the byte length of its rendering, in every style.
pub proof fn printed_len_of_atom(v: Value, style: LanguageStyle)
    requires
        !(v is List),
    ensures
        printed_len(v, style) == byte_len(render(v, style)),
{
}

proof fn lemma_byte_len_concat(a: Seq<char>, b: Seq<char>)
    ensures
        byte_len(a + b) == byte_len(a) + byte_len(b),
    decreases a.len(),
{
    if a.len() > 0 {
        assert((a + b).drop_first() =~= a.drop_first() + b);
        assert((a + b)[0] == a[0]);
        lemma_byte_len_concat(a.drop_first(), b);
    } else {
        assert(a + b =~= b);
    }
}

proof fn lemma_byte_len_single(c: char)
    requires
        c as u32 <= 0x7F,
    ensures
        byte_len(seq![c]) == 1,
{
    assert(seq![c].drop_first() =~= Seq::<char>::empty());
    assert(seq![c][0] == c);
    assert(encode_utf8(Seq::<char>::empty()) =~= Seq::<u8>::empty());
    assert(vstd::utf8::encode_scalar(c as u32).len() == 1);
    assert(encode_utf8(seq![c]) =~= vstd::utf8::encode_scalar(c as u32));
}

proof fn lemma_byte_len_render_items(items: Seq<Value>, style: LanguageStyle)
    ensures
        byte_len(render_items(items, style)) == printed_len_items(items, style),
    decreases items.len(),
{
    if items.len() > 1 {
        let rest = items.subrange(1, items.len() as int);
        lemma_byte_len_render_items(rest, style);
        lemma_byte_len_single(' ');
        let r0 = render(items[0], style);
        lemma_byte_len_concat(r0, seq![' ']);
        lemma_byte_len_concat(r0 + seq![' '], render_items(rest, style));
    } else if items.len() == 0 {
        assert(encode_utf8(Seq::<char>::empty()) =~= Seq::<u8>::empty());
    }
}

/// The printed length of a nonempty list is the byte length of its rendering without its two
/// parentheses.
pub proof fn printed_len_of_list(v: Value, style: LanguageStyle)
    requires
        v matches Value::List(items) && items@.len() > 0,
    ensures
        printed_len(v, style) + 2 == byte_len(render(v, style)),
{
    let items = v->List_0@;
    let inner = render_items(items, style);
    lemma_byte_len_render_items(items, style);
    lemma_byte_len_single('(');
    lemma_byte_len_single(')');
    lemma_byte_len_concat(seq!['('], inner);
    lemma_byte_len_concat(seq!['('] + inner, seq![')']);
}

/// A keyword is spelled as its symbol with `#:` before it in Racket, `:` after it in the
/// tree-sitter style, and `:` before it in the other dialects.
pub proof fn keyword_affixes(s: Seq<char>)
    ensures
        keyword_text(s, LanguageStyle::Racket) == "#:"@ + symbol_text(s, LanguageStyle::Racket),
        keyword_text(s, LanguageStyle::TreeSitter) == symbol_text(s, LanguageStyle::TreeSitter)
            + ":"@,
        keyword_text(s, LanguageStyle::CommonLisp) == ":"@ + symbol_text(
            s,
            LanguageStyle::CommonLisp,
        ),
        keyword_text(s, LanguageStyle::Scheme) == ":"@ + symbol_text(s, LanguageStyle::Scheme),
        keyword_text(s, LanguageStyle::EmacsLisp) == ":"@ + symbol_text(
            s,
            LanguageStyle::EmacsLisp,
        ),
{
}

/// Every non-printable character inside a string or symbol is written as an escape, never as
/// itself: a backslash, the dialect's letter, and its code point in hex, six digits for those
/// that need them and four for the others.
pub proof fn nonprintable_is_escaped(c: char, style: LanguageStyle)
    requires
        is_nonprintable(c),
    ensures
        inner_char(c, style) != seq![c],
        inner_char(c, style) == seq!['\\', escape_letter(style, needs_long_escape(c))] + hex_text(
            code(c) as nat,
            if needs_long_escape(c) {
                6
            } else {
                4
            },
        ),
{
    assert(inner_char(c, style).len() > 1);
}

/// A text with each `|` after its first character that does not follow a backslash preceded by
/// a backslash.
pub open spec fn escape_bars(t: Seq<char>) -> Seq<char>
    decreases t.len(),
{
    if t.len() <= 1 {
        t
    } else {
        let rest = escape_bars(t.subrange(1, t.len() as int));
        if is_unescaped_bar(t[0], t[1]) {
            seq![t[0], '\\'] + rest
        } else {
            seq![t[0]] + rest
        }
    }
}

proof fn lemma_no_nonprintable_rest(t: Seq<char>)
    requires
        t.len() > 1,
        forall|i: int| 0 <= i < t.len() ==> !is_nonprintable(#[trigger] t[i]),
    ensures
        forall|i: int|
            0 <= i < t.len() - 1 ==> !is_nonprintable(#[trigger] t.subrange(1, t.len() as int)[i]),
{
    assert forall|i: int| 0 <= i < t.len() - 1 implies !is_nonprintable(
        #[trigger] t.subrange(1, t.len() as int)[i],
    ) by {
        assert(t.subrange(1, t.len() as int)[i] == t[i + 1]);
    }
}

proof fn lemma_scan_escapes_bars(t: Seq<char>, style: LanguageStyle)
    requires
        forall|i: int| 0 <= i < t.len() ==> !is_nonprintable(#[trigger] t[i]),
    ensures
        scan(t, style) == escape_bars(t),
    decreases t.len(),
{
    if t.len() == 1 {
        assert(!is_nonprintable(t[0]));
        assert(scan(t, style) =~= t);
    } else if t.len() == 2 {
        assert(!is_nonprintable(t[0]) && !is_nonprintable(t[1]));
        let rest = t.subrange(1, 2);
        assert(rest =~= seq![t[1]]);
        assert(escape_bars(rest) == rest);
        assert(inner_char(t[0], style) == seq![t[0]]);
        assert(inner_char(t[1], style) == seq![t[1]]);
        if is_unescaped_bar(t[0], t[1]) {
            assert(escape_bars(t) == seq![t[0], '\\'] + rest);
        } else {
            assert(escape_bars(t) == seq![t[0]] + rest);
        }
        assert(scan(t, style) =~= escape_bars(t));
    } else if t.len() > 2 {
        let rest = t.subrange(1, t.len() as int);
        assert(!is_nonprintable(t[0]));
        lemma_no_nonprintable_rest(t);
        lemma_scan_escapes_bars(rest, style);
        assert(scan(t, style) =~= escape_bars(t));
    }
}

proof fn lemma_escape_bars_plain(t: Seq<char>)
    requires
        forall|i: int| 1 <= i < t.len() ==> !#[trigger] is_unescaped_bar(t[i - 1], t[i]),
    ensures
        escape_bars(t) == t,
    decreases t.len(),
{
    if t.len() > 1 {
        let rest = t.subrange(1, t.len() as int);
        assert(!is_unescaped_bar(t[1 - 1], t[1]));
        assert forall|i: int| 1 <= i < rest.len() implies !#[trigger] is_unescaped_bar(
            rest[i - 1],
            rest[i],
        ) by {
            assert(rest[i - 1] == t[(i + 1) - 1] && rest[i] == t[i + 1]);
        }
        lemma_escape_bars_plain(rest);
        assert(escape_bars(t) =~= t);
    }
}

/// A symbol outside the tree-sitter style, with no reserved `#%` prefix in Racket and no
/// surrounding bars, that holds no non-printable character: it is written bare, exactly as it
/// is, when it holds no `|` after its first character that does not follow a backslash;
/// otherwise it is written between bars with a backslash put before each such `|`.
pub proof fn symbol_bars_escaped(s: Seq<char>, style: LanguageStyle)
    requires
        style != LanguageStyle::TreeSitter,
        strip_symbol(s, style) == s,
        forall|i: int| 0 <= i < s.len() ==> !is_nonprintable(#[trigger] s[i]),
    ensures
        !needs_pipes(s) ==> symbol_text(s, style) == s,
        needs_pipes(s) ==> symbol_text(s, style) == seq!['|'] + escape_bars(s) + seq!['|'],
{
    lemma_scan_escapes_bars(s, style);
    if !needs_pipes(s) {
        lemma_escape_bars_plain(s);
    }
}

/// A symbol outside the tree-sitter style, with no reserved `#%` prefix in Racket and no
/// surrounding bars: when it holds no non-printable character and no unescaped `|` after its
/// first character it is written bare, exactly as it is, which is also what the scan makes of
/// it; otherwise it is written as the scan of its text between bars, in which every
/// non-printable character is escaped.
pub proof fn symbol_bare_or_piped(s: Seq<char>, style: LanguageStyle)
    requires
        style != LanguageStyle::TreeSitter,
        strip_symbol(s, style) == s,
    ensures
        !needs_pipes(s) ==> symbol_text(s, style) == s && scan(s, style) == s,
        needs_pipes(s) ==> symbol_text(s, style) == seq!['|'] + scan(s, style) + seq!['|'],
{
    if !needs_pipes(s) {
        assert forall|i: int| 0 <= i < s.len() implies !is_nonprintable(#[trigger] s[i]) by {}
        lemma_scan_escapes_bars(s, style);
        lemma_escape_bars_plain(s);
    }
}

/// The text with each newline, and the spaces that follow it, turned into a single space.
/// `skipping` says that spaces are being dropped after a newline.
pub open spec fn collapse(s: Seq<char>, skipping: bool) -> Seq<char>
    decreases s.len(),
{
    if s.len() == 0 {
        Seq::empty()
    } else if s[0] == '\n' {
        seq![' '] + collapse(s.drop_first(), true)
    } else if s[0] == ' ' && skipping {
        collapse(s.drop_first(), true)
    } else {
        seq![s[0]] + collapse(s.drop_first(), false)
    }
}

/// Whether a text is no newline and begins with a character other than a space.
pub open spec fn is_layout_safe_text(t: Seq<char>) -> bool {
    &&& t.len() > 0
    &&& t[0] != ' '
    &&& forall|i: int| 0 <= i < t.len() ==> t[i] != '\n'
}

/// Whether every atom in a value renders as a nonempty text without newlines that does not
/// begin with a space. Only then can newlines and indentation be told apart from the atoms.
pub open spec fn layout_safe(v: Value, style: LanguageStyle) -> bool
    decreases v,
{
    match v {
        Value::List(items) => layout_safe_items(items@, style),
        _ => is_layout_safe_text(render(v, style)),
    }
}

/// Whether every value of a sequence is layout safe.
pub open spec fn layout_safe_items(items: Seq<Value>, style: LanguageStyle) -> bool
    decreases items,
{
    items.len() > 0 ==> layout_safe(items[0], style) && layout_safe_items(
        items.subrange(1, items.len() as int),
        style,
    )
}

proof fn lemma_collapse_plain(a: Seq<char>, b: Seq<char>)
    requires
        forall|i: int| 0 <= i < a.len() ==> a[i] != '\n',
    ensures
        collapse(a + b, false) == a + collapse(b, false),
    decreases a.len(),
{
    if a.len() > 0 {
        assert((a + b).drop_first() =~= a.drop_first() + b);
        assert((a + b)[0] == a[0]);
        lemma_collapse_plain(a.drop_first(), b);
        assert(a =~= seq![a[0]] + a.drop_first());
        assert(collapse(a + b, false) =~= a + collapse(b, false));
    } else {
        assert(a + b =~= b);
    }
}

proof fn lemma_collapse_spaces(k: nat, b: Seq<char>)
    requires
        b.len() == 0 || b[0] != ' ',
    ensures
        collapse(spaces(k) + b, true) == collapse(b, false),
    decreases k,
{
    if k > 0 {
        assert((spaces(k) + b)[0] == ' ');
        assert((spaces(k) + b).drop_first() =~= spaces((k - 1) as nat) + b);
        lemma_collapse_spaces((k - 1) as nat, b);
    } else {
        assert(spaces(k) + b =~= b);
    }
}

proof fn lemma_render_safe(v: Value, style: LanguageStyle)
    requires
        layout_safe(v, style),
    ensures
        is_layout_safe_text(render(v, style)),
    decreases v,
{
    if let Value::List(items) = v {
        lemma_render_items_safe(items@, style);
        let t = render(v, style);
        assert(t == seq!['('] + render_items(items@, style) + seq![')']);
        assert(t[0] == '(');
        assert forall|i: int| 0 <= i < t.len() implies t[i] != '\n' by {
            if 0 < i < t.len() - 1 {
                assert(t[i] == render_items(items@, style)[i - 1]);
            }
        }
    }
}

proof fn lemma_render_items_safe(items: Seq<Value>, style: LanguageStyle)
    requires
        layout_safe_items(items, style),
    ensures
        forall|i: int|
            0 <= i < render_items(items, style).len() ==> render_items(items, style)[i] != '\n',
    decreases items,
{
    if items.len() > 0 {
        lemma_render_safe(items[0], style);
        if items.len() > 1 {
            let rest = items.subrange(1, items.len() as int);
            lemma_render_items_safe(rest, style);
            let a = render(items[0], style);
            let b = render_items(rest, style);
            let t = render_items(items, style);
            assert(t == a + seq![' '] + b);
            assert forall|i: int| 0 <= i < t.len() implies t[i] != '\n' by {
                if i < a.len() {
                    assert(t[i] == a[i]);
                } else if i > a.len() {
                    assert(t[i] == b[i - a.len() - 1]);
                }
            }
        }
    }
}

proof fn lemma_pretty_starts(v: Value, indent: int, width: int, style: LanguageStyle)
    requires
        layout_safe(v, style),
    ensures
        pretty(v, indent, width, style).len() > 0,
        pretty(v, indent, width, style)[0] != ' ',
    decreases v,
{
    lemma_render_safe(v, style);
}

proof fn lemma_pretty_items_starts(
    items: Seq<Value>,
    indent: int,
    cur: int,
    width: int,
    style: LanguageStyle,
)
    requires
        items.len() > 0,
        layout_safe_items(items, style),
    ensures
        pretty_items(items, indent, cur, width, style).len() > 0,
        pretty_items(items, indent, cur, width, style)[0] != ' ',
{
    lemma_pretty_starts(items[0], indent, width, style);
    let first = pretty(items[0], indent, width, style);
    let t = pretty_items(items, indent, cur, width, style);
    assert(t[0] == first[0]);
}

proof fn lemma_collapse_pretty(
    v: Value,
    indent: int,
    width: int,
    style: LanguageStyle,
    rest: Seq<char>,
)
    requires
        layout_safe(v, style),
    ensures
        collapse(pretty(v, indent, width, style) + rest, false) == render(v, style) + collapse(
            rest,
            false,
        ),
    decreases v,
{
    lemma_render_safe(v, style);
    let p = pretty(v, indent, width, style);
    if p == render(v, style) {
        lemma_collapse_plain(p, rest);
    } else {
        let items = v->List_0;
        let inner = pretty_items(items@, indent + 1, indent + 1, width, style);
        let flat = render_items(items@, style);
        assert(p == seq!['('] + inner + seq![')']);
        assert(render(v, style) == seq!['('] + flat + seq![')']);
        assert(items@.len() > 0);
        lemma_collapse_pretty_items(items@, indent + 1, indent + 1, width, style, seq![')'] + rest);
        assert(p + rest =~= seq!['('] + (inner + (seq![')'] + rest)));
        lemma_collapse_plain(seq!['('], inner + (seq![')'] + rest));
        lemma_collapse_plain(seq![')'], rest);
        assert(collapse(p + rest, false) =~= render(v, style) + collapse(rest, false));
    }
}

proof fn lemma_collapse_separator(broken: bool, indent: nat, after: Seq<char>, rest: Seq<char>)
    requires
        after.len() > 0,
        after[0] != ' ',
    ensures
        collapse(
            (if broken {
                seq!['\n'] + spaces(indent)
            } else {
                seq![' ']
            }) + after + rest,
            false,
        ) == seq![' '] + collapse(after + rest, false),
{
    let z = after + rest;
    assert(z[0] == after[0]);
    if broken {
        let sep = seq!['\n'] + spaces(indent);
        assert((sep + z)[0] == '\n');
        assert((sep + z).drop_first() =~= spaces(indent) + z);
        lemma_collapse_spaces(indent, z);
        assert(sep + after + rest =~= sep + z);
    } else {
        let sep = seq![' '];
        assert((sep + z).drop_first() =~= z);
        assert(sep + after + rest =~= sep + z);
    }
}

proof fn lemma_collapse_pretty_items(
    items: Seq<Value>,
    indent: int,
    cur: int,
    width: int,
    style: LanguageStyle,
    rest: Seq<char>,
)
    requires
        items.len() > 0,
        layout_safe_items(items, style),
    ensures
        collapse(pretty_items(items, indent, cur, width, style) + rest, false) == render_items(
            items,
            style,
        ) + collapse(rest, false),
    decreases items,
{
    let first = pretty(items[0], indent, width, style);
    let flat0 = render(items[0], style);
    if items.len() == 1 {
        lemma_collapse_pretty(items[0], indent, width, style, rest);
    } else {
        let tail = items.subrange(1, items.len() as int);
        let cur1 = cur + rendered_len(items[0], style);
        let broken = cur1 + rendered_len(items[1], style) + 1 >= width;
        let next_cur = if broken {
            indent
        } else {
            cur1
        };
        let after = pretty_items(tail, indent, next_cur, width, style);
        let sep = if broken {
            seq!['\n'] + spaces(indent as nat)
        } else {
            seq![' ']
        };
        assert(pretty_items(items, indent, cur, width, style) == first + sep + after);
        assert(tail[0] == items[1]);
        lemma_pretty_items_starts(tail, indent, next_cur, width, style);
        lemma_collapse_pretty_items(tail, indent, next_cur, width, style, rest);
        lemma_collapse_pretty(items[0], indent, width, style, sep + after + rest);
        assert(first + sep + after + rest =~= first + (sep + after + rest));
        lemma_collapse_separator(broken, indent as nat, after, rest);
        assert(render_items(items, style) == flat0 + seq![' '] + render_items(tail, style));
        assert(collapse(pretty_items(items, indent, cur, width, style) + rest, false)
            =~= render_items(items, style) + collapse(rest, false));
    }
}

/// Turning each newline of the pretty layout, with the indentation after it, into a single
/// space gives the flat rendering, whatever the indentation and width, provided that no atom
/// renders empty, with a newline, or with a leading space.
pub proof fn pretty_collapses_to_flat(v: Value, indent: int, width: int, style: LanguageStyle)
    requires
        layout_safe(v, style),
    ensures
        collapse(pretty(v, indent, width, style), false) == render(v, style),
{
    lemma_collapse_pretty(v, indent, width, style, Seq::empty());
    assert(pretty(v, indent, width, style) + Seq::<char>::empty() =~= pretty(
        v,
        indent,
        width,
        style,
    ));
    assert(render(v, style) + Seq::<char>::empty() =~= render(v, style));
}

} // verus!
