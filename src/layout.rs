//! Flat rendering, the printed-length estimate, and the width-aware pretty layout.
use vstd::prelude::*;
use vstd::utf8::encode_utf8;

use crate::dialect::{
    bool_text, char_text, int_text, keyword_text, push_char, string_text, symbol_text, write_bool,
    write_char, write_integer, write_keyword, write_string, write_symbol,
};
use crate::value::{depth, depth_of_items, Number, Value};
use crate::writer::LanguageStyle;

verus! {

/// The spelling of a number.
pub open spec fn number_text(n: Number) -> Seq<char> {
    match n {
        Number::Integer(i) => int_text(i as int),
        Number::Flonum(t) => t@,
    }
}

/// The flat rendering of a value: atoms as their dialect spells them, a list as its elements
/// separated by single spaces between parentheses.
pub open spec fn render(v: Value, style: LanguageStyle) -> Seq<char>
    decreases v,
{
    match v {
        Value::Bool(b) => bool_text(b, style),
        Value::Number(n) => number_text(n),
        Value::Character(c) => char_text(c, style),
        Value::String(s) => string_text(s@, style),
        Value::Symbol(s) => symbol_text(s@, style),
        Value::Keyword(k) => keyword_text(k@, style),
        Value::List(items) => seq!['('] + render_items(items@, style) + seq![')'],
    }
}

/// The flat renderings of a sequence of values, separated by single spaces.
pub open spec fn render_items(items: Seq<Value>, style: LanguageStyle) -> Seq<char>
    decreases items,
{
    if items.len() == 0 {
        Seq::empty()
    } else if items.len() == 1 {
        render(items[0], style)
    } else {
        render(items[0], style) + seq![' '] + render_items(
            items.subrange(1, items.len() as int),
            style,
        )
    }
}

/// The number of bytes of a text in UTF-8.
pub open spec fn byte_len(s: Seq<char>) -> nat {
    encode_utf8(s).len()
}

/// The byte length of a value's flat rendering.
pub open spec fn rendered_len(v: Value, style: LanguageStyle) -> nat {
    byte_len(render(v, style))
}

/// The printed length that layout decisions use: the byte length of an atom's rendering; for a
/// list, the rendered lengths of its elements plus one for each space between them, leaving out
/// the list's own parentheses.
pub open spec fn printed_len(v: Value, style: LanguageStyle) -> nat {
    match v {
        Value::List(items) => printed_len_items(items@, style),
        _ => rendered_len(v, style),
    }
}

/// The rendered lengths of a sequence of values plus one for each space between them.
pub open spec fn printed_len_items(items: Seq<Value>, style: LanguageStyle) -> nat
    decreases items.len(),
{
    if items.len() == 0 {
        0
    } else if items.len() == 1 {
        rendered_len(items[0], style)
    } else {
        rendered_len(items[0], style) + 1 + printed_len_items(
            items.subrange(1, items.len() as int),
            style,
        )
    }
}

/// A number capped at `usize::MAX`.
pub open spec fn capped(n: int) -> int {
    if n > usize::MAX as int {
        usize::MAX as int
    } else {
        n
    }
}

/// `n` spaces.
pub open spec fn spaces(n: nat) -> Seq<char> {
    Seq::new(n, |i: int| ' ')
}

/// The pretty layout of a value whose first character stands at column `indent`, in lines
/// shorter than `width`. An atom, an empty list, and a list that fits on the rest of the line are
/// rendered flat. Otherwise the list's elements are laid out by `pretty_items`, aligned one
/// column right of its opening parenthesis.
pub open spec fn pretty(v: Value, indent: int, width: int, style: LanguageStyle) -> Seq<char>
    decreases v,
{
    match v {
        Value::List(items) => if items@.len() == 0 {
            seq!['(', ')']
        } else if indent + printed_len(v, style) < width {
            render(v, style)
        } else {
            seq!['('] + pretty_items(items@, indent + 1, indent + 1, width, style) + seq![')']
        },
        _ => render(v, style),
    }
}

/// The elements of a broken list, laid out at column `indent`. `cur` is the running width before
/// the first of them. After an element its rendered length is added to the running width; the
/// next element goes on a new line, indented to `indent`, when the running width plus its
/// rendered length plus one reaches `width`, and after a single space otherwise.
pub open spec fn pretty_items(
    items: Seq<Value>,
    indent: int,
    cur: int,
    width: int,
    style: LanguageStyle,
) -> Seq<char>
    decreases items,
{
    if items.len() == 0 {
        Seq::empty()
    } else {
        let first = pretty(items[0], indent, width, style);
        let cur1 = cur + rendered_len(items[0], style);
        let rest = items.subrange(1, items.len() as int);
        if items.len() == 1 {
            first
        } else if cur1 + rendered_len(items[1], style) + 1 >= width {
            first + seq!['\n'] + spaces(indent as nat) + pretty_items(rest, indent, indent, width, style)
        } else {
            first + seq![' '] + pretty_items(rest, indent, cur1, width, style)
        }
    }
}

proof fn lemma_printed_len_items_push(items: Seq<Value>, x: Value, style: LanguageStyle)
    ensures
        printed_len_items(items.push(x), style) == if items.len() == 0 {
            rendered_len(x, style)
        } else {
            printed_len_items(items, style) + 1 + rendered_len(x, style)
        },
    decreases items.len(),
{
    let longer = items.push(x);
    if items.len() > 1 {
        let rest = items.subrange(1, items.len() as int);
        assert(longer.subrange(1, longer.len() as int) =~= rest.push(x));
        assert(longer[0] == items[0]);
        lemma_printed_len_items_push(rest, x, style);
    } else if items.len() == 1 {
        assert(longer.subrange(1, 2) =~= seq![x]);
        assert(longer[0] == items[0]);
        assert(printed_len_items(seq![x], style) == rendered_len(x, style));
    }
}

proof fn lemma_depth_of_item(items: Seq<Value>, i: int)
    requires
        0 <= i < items.len(),
    ensures
        depth(items[i]) <= depth_of_items(items),
    decreases items.len(),
{
    if i > 0 {
        let rest = items.subrange(1, items.len() as int);
        assert(rest[i - 1] == items[i]);
        lemma_depth_of_item(rest, i - 1);
    }
}

fn write_number(n: &Number, out: &mut String)
    ensures
        final(out)@ == old(out)@ + number_text(*n),
{
    match n {
        Number::Integer(i) => write_integer(*i, out),
        Number::Flonum(t) => out.append(t.as_str()),
    }
}

/// Appends the flat rendering of `v`.
pub fn write_flat(v: &Value, style: LanguageStyle, out: &mut String)
    ensures
        final(out)@ == old(out)@ + render(*v, style),
    decreases v,
{
    match v {
        Value::Bool(b) => write_bool(*b, style, out),
        Value::Number(n) => write_number(n, out),
        Value::Character(c) => write_char(*c, style, out),
        Value::String(s) => write_string(s.as_str(), style, out),
        Value::Symbol(s) => write_symbol(s.as_str(), style, out),
        Value::Keyword(k) => write_keyword(k.as_str(), style, out),
        Value::List(items) => {
            let ghost target = old(out)@ + seq!['('] + render_items(items@, style);
            push_char(out, '(');
            let n = items.len();
            if n == 0 {
                assert(out@ =~= target);
            }
            let mut i: usize = 0;
            while i < n
                invariant
                    *v == Value::List(*items),
                    n == items@.len(),
                    i <= n,
                    target == old(out)@ + seq!['('] + render_items(items@, style),
                    i == 0 ==> out@ == old(out)@ + seq!['('],
                    0 < i < n ==> out@ + seq![' '] + render_items(
                        items@.subrange(i as int, n as int),
                        style,
                    ) == target,
                    0 < i == n ==> out@ == target,
                    n == 0 ==> out@ == target,
                decreases n - i,
            {
                let ghost prev = out@;
                if i > 0 {
                    push_char(out, ' ');
                }
                let ghost before = out@;
                proof {
                    assert(decreases_to!(*v => v->List_0));
                    assert(decreases_to!(*items => items[i as int]));
                }
                write_flat(&items[i], style, out);
                proof {
                    let rest = items@.subrange(i as int, n as int);
                    assert(rest[0] == items@[i as int]);
                    if i + 1 < n {
                        assert(render_items(rest, style) == render(rest[0], style) + seq![' ']
                            + render_items(rest.subrange(1, rest.len() as int), style));
                    }
                    if i > 0 {
                        assert(before == prev + seq![' ']);
                    }
                    if i + 1 < n {
                        assert(rest.subrange(1, rest.len() as int) =~= items@.subrange(
                            i + 1,
                            n as int,
                        ));
                    }
                    if i == 0 {
                        assert(items@.subrange(0, n as int) =~= items@);
                    }
                    assert(out@ == before + render(items@[i as int], style));
                    if i + 1 < n {
                        let tail = render_items(items@.subrange(i + 1, n as int), style);
                        assert(render_items(rest, style) == render(items@[i as int], style) + seq![' '] + tail);
                        if i == 0 {
                            assert(target == old(out)@ + seq!['('] + render_items(rest, style));
                            assert(out@ == old(out)@ + seq!['('] + render(items@[i as int], style));
                        } else {
                            assert(target == prev + seq![' '] + render_items(rest, style));
                            assert(out@ == prev + seq![' '] + render(items@[i as int], style));
                        }
                        assert(out@ + seq![' '] + tail =~= target);
                    } else {
                        assert(out@ =~= target);
                    }
                }
                i = i + 1;
            }
            push_char(out, ')');
        },
    }
}

/// The exact byte length of a text held in memory.
fn byte_length(s: &String) -> (r: usize)
    ensures
        r == byte_len(s@),
{
    s.as_str().as_bytes().len()
}

/// The byte length of the flat rendering of `v`.
pub fn rendered_length(v: &Value, style: LanguageStyle) -> (r: usize)
    ensures
        r == rendered_len(*v, style),
{
    let mut s = String::new();
    write_flat(v, style, &mut s);
    assert(s@ =~= render(*v, style));
    byte_length(&s)
}

/// The printed length of `v`, capped at `usize::MAX`; the cap leaves every layout decision as
/// the exact length would take it.
pub fn printed_length(v: &Value, style: LanguageStyle) -> (r: usize)
    ensures
        r == capped(printed_len(*v, style) as int),
{
    match v {
        Value::List(items) => {
            let n = items.len();
            let mut total: usize = 0;
            let mut i: usize = 0;
            assert(items@.subrange(0, 0) =~= Seq::<Value>::empty());
            while i < n
                invariant
                    n == items@.len(),
                    i <= n,
                    total == capped(printed_len_items(items@.subrange(0, i as int), style) as int),
                decreases n - i,
            {
                let w = rendered_length(&items[i], style);
                proof {
                    assert(items@.subrange(0, i + 1) =~= items@.subrange(0, i as int).push(
                        items@[i as int],
                    ));
                    lemma_printed_len_items_push(
                        items@.subrange(0, i as int),
                        items@[i as int],
                        style,
                    );
                }
                if i > 0 {
                    total = total.saturating_add(1);
                }
                total = total.saturating_add(w);
                i = i + 1;
            }
            assert(items@.subrange(0, n as int) =~= items@);
            total
        },
        _ => rendered_length(v, style),
    }
}

/// Appends a newline and `n` spaces of indentation.
pub fn newline_and_indent(n: usize, out: &mut String)
    ensures
        final(out)@ == old(out)@ + seq!['\n'] + spaces(n as nat),
{
    push_char(out, '\n');
    let ghost start = out@;
    let mut i: usize = 0;
    while i < n
        invariant
            i <= n,
            start == old(out)@ + seq!['\n'],
            out@ == start + spaces(i as nat),
        decreases n - i,
    {
        push_char(out, ' ');
        i = i + 1;
        assert(out@ =~= start + spaces(i as nat));
    }
}

/// Appends the pretty layout of `v`, whose first character stands at column `indent`, in lines
/// shorter than `width`.
pub fn write_pretty(v: &Value, indent: usize, width: usize, style: LanguageStyle, out: &mut String)
    requires
        indent + depth(*v) <= usize::MAX,
    ensures
        final(out)@ == old(out)@ + pretty(*v, indent as int, width as int, style),
    decreases v,
{
    match v {
        Value::List(items) => {
            let n = items.len();
            if n == 0 {
                push_char(out, '(');
                push_char(out, ')');
                assert(final(out)@ =~= old(out)@ + pretty(*v, indent as int, width as int, style));
                return;
            }
            let pw = printed_length(v, style);
            if indent.saturating_add(pw) < width {
                write_flat(v, style, out);
                return;
            }
            let ci = indent + 1;
            let ghost target = old(out)@ + seq!['('] + pretty_items(
                items@,
                ci as int,
                ci as int,
                width as int,
                style,
            );
            push_char(out, '(');
            assert(items@.subrange(0, n as int) =~= items@);
            let mut cur: usize = ci;
            let ghost mut g: int = ci as int;
            let mut i: usize = 0;
            while i < n
                invariant
                    *v == Value::List(*items),
                    n == items@.len(),
                    0 < n,
                    i <= n,
                    ci == indent + 1,
                    ci + depth_of_items(items@) <= usize::MAX,
                    target == old(out)@ + seq!['('] + pretty_items(
                        items@,
                        ci as int,
                        ci as int,
                        width as int,
                        style,
                    ),
                    g >= 0,
                    cur == capped(g),
                    i < n ==> out@ + pretty_items(
                        items@.subrange(i as int, n as int),
                        ci as int,
                        g,
                        width as int,
                        style,
                    ) == target,
                    i == n ==> out@ == target,
                decreases n - i,
            {
                let ghost prev = out@;
                let ghost rest = items@.subrange(i as int, n as int);
                proof {
                    assert(decreases_to!(*v => v->List_0));
                    assert(decreases_to!(v->List_0 => v->List_0[i as int]));
                    lemma_depth_of_item(items@, i as int);
                    assert(rest[0] == items@[i as int]);
                }
                let w = rendered_length(&items[i], style);
                write_pretty(&items[i], ci, width, style, out);
                let ghost first = pretty(items@[i as int], ci as int, width as int, style);
                let ghost g1 = g + rendered_len(items@[i as int], style);
                cur = cur.saturating_add(w);
                assert(cur == capped(g1));
                if i + 1 < n {
                    proof {
                        assert(rest[1] == items@[i + 1]);
                        assert(rest.subrange(1, rest.len() as int) =~= items@.subrange(
                            i + 1,
                            n as int,
                        ));
                    }
                    let next = rendered_length(&items[i + 1], style);
                    let ghost pn = rendered_len(items@[i + 1], style);
                    if cur.saturating_add(next).saturating_add(1) >= width {
                        assert(g1 + pn + 1 >= width);
                        newline_and_indent(ci, out);
                        cur = ci;
                        proof {
                            g = ci as int;
                            let tail = pretty_items(
                                items@.subrange(i + 1, n as int),
                                ci as int,
                                g,
                                width as int,
                                style,
                            );
                            assert(out@ + tail =~= target);
                        }
                    } else {
                        assert(g1 + pn + 1 < width);
                        push_char(out, ' ');
                        proof {
                            g = g1;
                            let tail = pretty_items(
                                items@.subrange(i + 1, n as int),
                                ci as int,
                                g,
                                width as int,
                                style,
                            );
                            assert(out@ + tail =~= target);
                        }
                    }
                } else {
                    assert(rest.len() == 1);
                    assert(out@ =~= target);
                    proof {
                        g = g1;
                    }
                }
                i = i + 1;
            }
            push_char(out, ')');
        },
        _ => write_flat(v, style, out),
    }
}

} // verus!
