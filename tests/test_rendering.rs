use sexpr_out::dialect::is_char_nonprintable;
use sexpr_out::error::{io_error, symbol_parser_error, Error};
use sexpr_out::layout::{printed_length, write_flat, write_pretty};
use sexpr_out::value::{Keyword, Number, Symbol, Value};
use sexpr_out::writer::{LanguageStyle, Options, QuoteStyle, ToStringFor, Writer};

const STYLES: [LanguageStyle; 5] = [
    LanguageStyle::Racket,
    LanguageStyle::TreeSitter,
    LanguageStyle::CommonLisp,
    LanguageStyle::Scheme,
    LanguageStyle::EmacsLisp,
];

fn nested() -> Value {
    Value::from(vec![
        Value::from(1),
        Value::from(2),
        Value::from(3),
        Value::from(vec![
            Value::from(4),
            Value::from(5),
            Value::from(vec![
                Value::from(6),
                Value::from(7),
                Value::from(vec![Value::from(8)]),
            ]),
        ]),
        Value::from(9),
        Value::from(10),
    ])
}

fn atoms() -> Vec<Value> {
    vec![
        Value::from(true),
        Value::from(false),
        Value::from(-42i64),
        Value::from('a'),
        Value::from('\n'),
        Value::from('§'),
        Value::from('\u{3001}'),
        Value::from('\u{E0101}'),
        Value::from("hello"),
        Value::from("h§llo\u{0}"),
        Value::from(Symbol::new("abc")),
        Value::from(Symbol::new("a|b")),
        Value::from(Keyword::new("key")),
    ]
}

fn pretty(v: &Value, width: usize, style: LanguageStyle) -> String {
    let mut out = String::new();
    write_pretty(v, 0, width, style, &mut out);
    out
}

fn flat(v: &Value, style: LanguageStyle) -> String {
    let mut out = String::new();
    write_flat(v, style, &mut out);
    out
}

fn collapse(s: &str) -> String {
    let mut out = String::new();
    let mut skipping = false;
    for c in s.chars() {
        if c == '\n' {
            out.push(' ');
            skipping = true;
        } else if c == ' ' && skipping {
        } else {
            out.push(c);
            skipping = false;
        }
    }
    out
}

#[test]
fn rendering_twice_gives_the_same_text() {
    for style in STYLES {
        let v = nested();
        assert_eq!(v.to_string_for(style), v.to_string_for(style));
        assert_eq!(pretty(&v, 20, style), pretty(&v, 20, style));
        for a in atoms() {
            assert_eq!(a.to_string_for(style), a.to_string_for(style));
        }
    }
}

#[test]
fn printed_length_of_atoms_is_their_byte_length() {
    for style in STYLES {
        for a in atoms() {
            assert_eq!(printed_length(&a, style), a.to_string_for(style).len());
        }
    }
    assert_eq!(printed_length(&Value::from('§'), LanguageStyle::Racket), 4);
}

#[test]
fn printed_length_of_lists_leaves_out_parentheses() {
    let v = Value::from(vec![Value::from(1), Value::from(22)]);
    assert_eq!(printed_length(&v, LanguageStyle::Racket), 4);
    let inner = Value::from(vec![Value::from(vec![Value::from(1)]), Value::from(2)]);
    assert_eq!(printed_length(&inner, LanguageStyle::Racket), 5);
    assert_eq!(printed_length(&Value::empty_list(), LanguageStyle::Racket), 0);
}

#[test]
fn pretty_layout_collapses_to_flat() {
    for style in STYLES {
        for width in [20usize, 21, 25, 30, 80] {
            let v = nested();
            assert_eq!(collapse(&pretty(&v, width, style)), flat(&v, style));
        }
    }
}

#[test]
fn true_in_every_style() {
    let expected = ["#t", "true", "t", "#t", "t"];
    for (style, text) in STYLES.iter().zip(expected) {
        let writer = Writer::default().with_options(Options::default().with_style(*style));
        assert_eq!(writer.write_to_string(&Value::from(true)).unwrap(), text);
    }
}

#[test]
fn newline_character_per_style() {
    assert_eq!('\n'.to_string_for(LanguageStyle::Racket), r"#\newline");
    assert_eq!('\n'.to_string_for(LanguageStyle::CommonLisp), r"#\Newline");
    assert_eq!('\n'.to_string_for(LanguageStyle::Scheme), r"#\newline");
    assert_eq!('\n'.to_string_for(LanguageStyle::EmacsLisp), r"?\n");
}

#[test]
fn empty_list_pretty_in_every_style() {
    for style in STYLES {
        let writer = Writer::default()
            .pretty_printed(true)
            .with_options(Options::default().with_line_width(20).with_style(style));
        assert_eq!(writer.write_to_string(&Value::empty_list()).unwrap(), "()\n");
    }
}

#[test]
fn plain_symbol_renders_bare() {
    for style in STYLES {
        assert_eq!(Symbol::new("abc").to_string_for(style), "abc");
        assert_eq!(Symbol::new("a").to_string_for(style), "a");
        assert_eq!(Symbol::new("").to_string_for(style), "");
    }
}

#[test]
fn symbol_with_bar_is_piped() {
    assert_eq!(Symbol::new("a|b").to_string_for(LanguageStyle::Racket), r"|a\|b|");
    assert_eq!(Symbol::new("ab|").to_string_for(LanguageStyle::Scheme), r"|ab\||");
    assert_eq!(Symbol::new(r"a\|b").to_string_for(LanguageStyle::Racket), r"a\|b");
    assert_eq!(Symbol::new("|ab").to_string_for(LanguageStyle::Racket), "|ab");
    assert_eq!(Symbol::new("a|b").to_string_for(LanguageStyle::TreeSitter), "a|b");
}

#[test]
fn symbol_with_nonprintable_is_piped() {
    assert_eq!(Symbol::new("a\u{7}b").to_string_for(LanguageStyle::Racket), r"|a\u0007b|");
    assert_eq!(Symbol::new("ab\u{7}").to_string_for(LanguageStyle::CommonLisp), r"|ab\U0007|");
    assert_eq!(Symbol::new("\u{1}").to_string_for(LanguageStyle::Racket), r"|\u0001|");
    assert_eq!(Symbol::new("a\u{2000}b").to_string_for(LanguageStyle::Racket), r"|a\u2000b|");
    assert_eq!(Symbol::new("\u{3001}a").to_string_for(LanguageStyle::Racket), r"|\u3001a|");
    assert_eq!(Symbol::new("\u{3001}a").to_string_for(LanguageStyle::CommonLisp), r"|\U3001a|");
    assert_eq!(Symbol::new("\u{3001}a").to_string_for(LanguageStyle::Scheme), r"|\x3001a|");
    assert_eq!(Symbol::new("a\u{E0100}").to_string_for(LanguageStyle::EmacsLisp), r"|a\U0E0100|");
    assert_eq!(Symbol::new("a\u{E0100}").to_string_for(LanguageStyle::Scheme), r"|a\x0E0100|");
}

#[test]
fn symbol_prefix_and_bars_are_stripped() {
    assert_eq!(Symbol::new("#%foo").to_string_for(LanguageStyle::Racket), "foo");
    assert_eq!(Symbol::new("#%foo").to_string_for(LanguageStyle::Scheme), "#%foo");
    assert_eq!(Symbol::new("|abc|").to_string_for(LanguageStyle::Racket), "abc");
    assert_eq!(Symbol::new("|a b|").to_string_for(LanguageStyle::EmacsLisp), "a b");
}

#[test]
fn keyword_affixes_per_style() {
    let k = Keyword::new("key");
    let expected = ["#:key", "key:", ":key", ":key", ":key"];
    for (style, text) in STYLES.iter().zip(expected) {
        assert_eq!(k.to_string_for(*style), text);
        assert_eq!(k.to_string_for(*style), k.to_string_for(*style));
        assert_eq!(Value::from(Keyword::new("key")).to_string_for(*style), text);
    }
    assert_eq!(Keyword::new("a|b").to_string_for(LanguageStyle::Racket), r"#:|a\|b|");
}

#[test]
fn integers_in_decimal() {
    assert_eq!(Number::from(0i64).to_string_for(LanguageStyle::Racket), "0");
    assert_eq!(Number::from(-42i32).to_string_for(LanguageStyle::Racket), "-42");
    assert_eq!(Value::from(i64::MIN).to_string_for(LanguageStyle::Scheme), "-9223372036854775808");
    assert_eq!(Value::from(i64::MAX).to_string_for(LanguageStyle::Scheme), "9223372036854775807");
    assert_eq!(Value::from(7i8).to_string_for(LanguageStyle::EmacsLisp), "7");
}

#[test]
fn flonum_spelling_is_written_out() {
    let n = Number::Flonum(1.5f64.to_string());
    assert!(n.is_flonum());
    assert!(!n.is_integer());
    assert_eq!(n.as_integer(), None);
    assert_eq!(n.to_string_for(LanguageStyle::Racket), "1.5");
    assert_eq!(Number::from(3i16).as_integer(), Some(3));
}

#[test]
fn character_escapes() {
    assert_eq!('\u{1}'.to_string_for(LanguageStyle::Racket), r"#\u0001");
    assert_eq!('\u{0}'.to_string_for(LanguageStyle::Racket), r"#\null");
    assert_eq!('\u{1B}'.to_string_for(LanguageStyle::Scheme), r"#\escape");
    assert_eq!('\u{1}'.to_string_for(LanguageStyle::Scheme), r"#\x0001");
    assert_eq!('\u{E0100}'.to_string_for(LanguageStyle::CommonLisp), r"#\U0E0100");
    assert_eq!('\u{0}'.to_string_for(LanguageStyle::EmacsLisp), r"?\u00");
    assert_eq!('\u{2018}'.to_string_for(LanguageStyle::EmacsLisp), "?\\\u{2018}");
    assert_eq!(' '.to_string_for(LanguageStyle::CommonLisp), r"#\Space");
    assert_eq!('\u{7F}'.to_string_for(LanguageStyle::Racket), r"#\rubout");
    assert_eq!('\u{1F}'.to_string_for(LanguageStyle::Racket), "#\\\u{1F}");
}

#[test]
fn nonprintable_set_bounds() {
    assert!(is_char_nonprintable('\u{0}'));
    assert!(!is_char_nonprintable('\u{8}'));
    assert!(is_char_nonprintable('\u{B}'));
    assert!(!is_char_nonprintable('\u{1F}'));
    assert!(is_char_nonprintable('\u{E0100}'));
    assert!(!is_char_nonprintable('\u{E01EF}'));
    assert!(!is_char_nonprintable('a'));
}

#[test]
fn string_escapes() {
    assert_eq!(String::from("").to_string_for(LanguageStyle::Racket), "\"\"");
    assert_eq!(String::from("a").to_string_for(LanguageStyle::Racket), "\"a\"");
    assert_eq!(String::from("§").to_string_for(LanguageStyle::Racket), "\"§\"");
    assert_eq!(String::from("\u{1}").to_string_for(LanguageStyle::Racket), r#""\\u0001""#);
    assert_eq!(String::from("a|b").to_string_for(LanguageStyle::Racket), r#""a\\|b""#);
    assert_eq!(String::from("\u{1}").to_string_for(LanguageStyle::Scheme), r#""\\x0001""#);
    assert_eq!(String::from("\u{1}").to_string_for(LanguageStyle::CommonLisp), r#""\\U0001""#);
    assert_eq!(String::from("x\u{3001}y").to_string_for(LanguageStyle::Racket), r#""x\\u3001y""#);
    assert_eq!(String::from("\u{3001}").to_string_for(LanguageStyle::EmacsLisp), r#""\\u3001""#);
    assert_eq!(String::from("\u{E0101}").to_string_for(LanguageStyle::TreeSitter), r#""\\U0E0101""#);
    assert_eq!(String::from("a|").to_string_for(LanguageStyle::Scheme), r#""a\\|""#);
    assert_eq!(String::from("say \"hi\"").to_string_for(LanguageStyle::Racket), r#""say \"hi\"""#);
}

#[test]
fn tree_sitter_character_quoted() {
    assert_eq!('a'.to_string_for(LanguageStyle::TreeSitter), "'a'");
    assert_eq!('\t'.to_string_for(LanguageStyle::TreeSitter), r"'\t'");
}

#[test]
fn pretty_layout_from_an_indent() {
    let v = Value::from(vec![Value::from(1), Value::from(2)]);
    let mut out = String::new();
    write_pretty(&v, 16, 20, LanguageStyle::Racket, &mut out);
    assert_eq!(out, "(1 2)");
    let mut out = String::new();
    write_pretty(&v, 17, 20, LanguageStyle::Racket, &mut out);
    assert_eq!(out, "(1\n                  2)");
}

#[test]
fn options_keep_what_was_set() {
    let o = Options::default();
    assert_eq!(*o.line_width(), 80);
    assert_eq!(*o.style(), LanguageStyle::Racket);
    assert!(!*o.wrap_in_define());
    assert_eq!(*o.quote(), QuoteStyle::Unquoted);
    let o = o
        .with_line_width(20)
        .with_style(LanguageStyle::Scheme)
        .with_wrap_in_define(true)
        .with_quote(QuoteStyle::All(true));
    assert_eq!(*o.line_width(), 20);
    assert_eq!(*o.style(), LanguageStyle::Scheme);
    assert!(*o.wrap_in_define());
    assert!(o.quote().is_long_form());
    assert!(!QuoteStyle::AsNeeded(false).is_long_form());
    assert!(!QuoteStyle::Unquoted.is_long_form());
    let mut w = Writer::default();
    assert!(!w.pretty_print());
    w.set_pretty_print(true);
    assert!(w.pretty_print());
    w.set_options(o);
    assert_eq!(*w.options(), o);
}

#[test]
fn errors_carry_their_source() {
    match io_error(std::io::Error::new(std::io::ErrorKind::Other, "x")) {
        Error::IoError { source } => assert_eq!(source.kind(), std::io::ErrorKind::Other),
        _ => panic!("expected an I/O error"),
    }
    match symbol_parser_error("bad") {
        Error::SymbolParserError { source } => assert_eq!(source, "bad"),
        _ => panic!("expected a symbol error"),
    }
    let e: Error = std::io::Error::new(std::io::ErrorKind::Other, "y").into();
    assert!(matches!(e, Error::IoError { .. }));
}

#[test]
fn symbol_and_keyword_accessors() {
    let s = Symbol::new("abc");
    assert_eq!(s.inner(), "abc");
    assert_eq!(s.as_str(), "abc");
    let k = Keyword::new("kw");
    assert_eq!(k.inner().inner(), "kw");
    let k2 = Keyword::from(Symbol::new("z"));
    assert_eq!(Symbol::from(k2).inner(), "z");
}

#[test]
fn conversions_from_references_and_collections() {
    let s = String::from("hi");
    assert_eq!(Value::from(&s).to_string_for(LanguageStyle::Racket), "\"hi\"");
    assert_eq!(Value::from(&true).to_string_for(LanguageStyle::Racket), "#t");
    assert_eq!(Value::from(&'a').to_string_for(LanguageStyle::Racket), r"#\a");
    assert_eq!(Value::from(&5i64).to_string_for(LanguageStyle::Racket), "5");
    assert_eq!(Value::from(&-5i8).to_string_for(LanguageStyle::Racket), "-5");
    assert_eq!(Number::from(&7i16).as_integer(), Some(7));
    assert_eq!(Value::from(&Symbol::new("x")).to_string_for(LanguageStyle::Racket), "x");
    assert_eq!(Value::from(&Keyword::new("x")).to_string_for(LanguageStyle::Scheme), ":x");
    let items = vec![Value::from(1), Value::from(vec![Value::from(2)])];
    assert_eq!(Value::from(&items).to_string_for(LanguageStyle::Racket), "(1 (2))");
    assert_eq!(Value::from(&items[..]).to_string_for(LanguageStyle::Racket), "(1 (2))");
    let collected: Value = items.iter().cloned().collect();
    assert_eq!(collected.to_string_for(LanguageStyle::Racket), "(1 (2))");
    assert_eq!(String::from(Symbol::new("sym")), "sym");
    assert_eq!(String::from(Keyword::new("kw")), "kw");
    let sym = Symbol::new("abc");
    let r: &str = sym.as_ref();
    assert_eq!(r, "abc");
}

#[test]
fn clones_render_alike() {
    let v = nested();
    let c = v.clone();
    for style in STYLES {
        assert_eq!(c.to_string_for(style), v.to_string_for(style));
    }
    let k = Keyword::from(Symbol::new("k"));
    assert_eq!(k.to_string_for(LanguageStyle::Racket), Keyword::new("k").to_string_for(LanguageStyle::Racket));
    assert_eq!(k.inner().inner(), "k");
}
