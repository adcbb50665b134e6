//! Writer configuration and the writer that renders a value as a whole.
use vstd::prelude::*;

use crate::dialect::{bool_text, char_text, keyword_text, string_text, symbol_text, write_bool, write_char, write_keyword, write_string, write_symbol};
use crate::error::Error;
use crate::layout::{number_text, pretty, render, write_flat, write_pretty};
use crate::value::{depth, Keyword, Number, Symbol, Value};

verus! {

/// The Lisp dialect whose lexical conventions rendering follows.
#[derive(Clone, Copy, Debug, Default, PartialEq, Eq, Structural, Hash)]
pub enum LanguageStyle {
    #[default]
    Racket,
    TreeSitter,
    CommonLisp,
    Scheme,
    EmacsLisp,
}

/// How values would be quoted. Reserved: rendering does not read it yet.
#[derive(Clone, Copy, Debug, Default, PartialEq, Eq, Structural, Hash)]
pub enum QuoteStyle {
    #[default]
    Unquoted,
    All(bool),
    AsNeeded(bool),
}

impl QuoteStyle {
    /// Whether quoting is spelled in long form.
    pub fn is_long_form(&self) -> (r: bool)
        ensures
            r == match *self {
                QuoteStyle::Unquoted => false,
                QuoteStyle::All(v) => v,
                QuoteStyle::AsNeeded(v) => v,
            },
    {
        match self {
            QuoteStyle::Unquoted => false,
            QuoteStyle::All(v) => *v,
            QuoteStyle::AsNeeded(v) => *v,
        }
    }
}

/// The narrowest line width that a configuration accepts.
pub const MIN_LINE_WIDTH: usize = 20;

/// The line width of a default configuration.
pub const DEFAULT_LINE_WIDTH: usize = 80;

/// A writer's configuration. The line width is never below `MIN_LINE_WIDTH`. Keyword-argument
/// pairing, wrapping in `define` and the quote style are accepted and kept, and are reserved:
/// rendering does not read them yet.
#[derive(Clone, Copy, Debug, PartialEq, Eq, Structural, Hash)]
pub struct Options {
    line_width: usize,
    pair_kw_args: bool,
    wrap_in_define: bool,
    style: LanguageStyle,
    quote: QuoteStyle,
}

impl Options {
    #[verifier::type_invariant]
    spec fn wide_enough(self) -> bool {
        self.line_width >= MIN_LINE_WIDTH
    }

    pub closed spec fn spec_line_width(self) -> usize {
        self.line_width
    }

    pub closed spec fn spec_pair_kw_args(self) -> bool {
        self.pair_kw_args
    }

    pub closed spec fn spec_wrap_in_define(self) -> bool {
        self.wrap_in_define
    }

    pub closed spec fn spec_style(self) -> LanguageStyle {
        self.style
    }

    pub closed spec fn spec_quote(self) -> QuoteStyle {
        self.quote
    }

    /// The same configuration with another line width.
    pub fn with_line_width(self, line_width: usize) -> (r: Self)
        requires
            line_width >= MIN_LINE_WIDTH,
        ensures
            r.spec_line_width() == line_width,
            r.spec_pair_kw_args() == self.spec_pair_kw_args(),
            r.spec_wrap_in_define() == self.spec_wrap_in_define(),
            r.spec_style() == self.spec_style(),
            r.spec_quote() == self.spec_quote(),
    {
        let mut self_mut = self;
        self_mut.set_line_width(line_width);
        self_mut
    }

    pub fn line_width(&self) -> (r: &usize)
        ensures
            *r == self.spec_line_width(),
            *r >= MIN_LINE_WIDTH,
    {
        proof {
            use_type_invariant(self);
        }
        &self.line_width
    }

    pub fn set_line_width(&mut self, line_width: usize)
        requires
            line_width >= MIN_LINE_WIDTH,
        ensures
            final(self).spec_line_width() == line_width,
            final(self).spec_pair_kw_args() == old(self).spec_pair_kw_args(),
            final(self).spec_wrap_in_define() == old(self).spec_wrap_in_define(),
            final(self).spec_style() == old(self).spec_style(),
            final(self).spec_quote() == old(self).spec_quote(),
    {
        self.line_width = line_width;
    }

    /// The same configuration with another style.
    pub fn with_style(self, style: LanguageStyle) -> (r: Self)
        ensures
            r.spec_line_width() == self.spec_line_width(),
            r.spec_pair_kw_args() == self.spec_pair_kw_args(),
            r.spec_wrap_in_define() == self.spec_wrap_in_define(),
            r.spec_style() == style,
            r.spec_quote() == self.spec_quote(),
    {
        let mut self_mut = self;
        self_mut.set_style(style);
        self_mut
    }

    pub fn style(&self) -> (r: &LanguageStyle)
        ensures
            *r == self.spec_style(),
    {
        &self.style
    }

    pub fn set_style(&mut self, style: LanguageStyle)
        ensures
            final(self).spec_line_width() == old(self).spec_line_width(),
            final(self).spec_pair_kw_args() == old(self).spec_pair_kw_args(),
            final(self).spec_wrap_in_define() == old(self).spec_wrap_in_define(),
            final(self).spec_style() == style,
            final(self).spec_quote() == old(self).spec_quote(),
    {
        proof {
            use_type_invariant(&*self);
        }
        self.style = style;
    }

    /// The same configuration with another choice of wrapping in `define`.
    pub fn with_wrap_in_define(self, wrap_in_define: bool) -> (r: Self)
        ensures
            r.spec_line_width() == self.spec_line_width(),
            r.spec_pair_kw_args() == self.spec_pair_kw_args(),
            r.spec_wrap_in_define() == wrap_in_define,
            r.spec_style() == self.spec_style(),
            r.spec_quote() == self.spec_quote(),
    {
        let mut self_mut = self;
        self_mut.set_wrap_in_define(wrap_in_define);
        self_mut
    }

    pub fn wrap_in_define(&self) -> (r: &bool)
        ensures
            *r == self.spec_wrap_in_define(),
    {
        &self.wrap_in_define
    }

    pub fn set_wrap_in_define(&mut self, wrap_in_define: bool)
        ensures
            final(self).spec_line_width() == old(self).spec_line_width(),
            final(self).spec_pair_kw_args() == old(self).spec_pair_kw_args(),
            final(self).spec_wrap_in_define() == wrap_in_define,
            final(self).spec_style() == old(self).spec_style(),
            final(self).spec_quote() == old(self).spec_quote(),
    {
        proof {
            use_type_invariant(&*self);
        }
        self.wrap_in_define = wrap_in_define;
    }

    /// The same configuration with another quote style.
    pub fn with_quote(self, quote: QuoteStyle) -> (r: Self)
        ensures
            r.spec_line_width() == self.spec_line_width(),
            r.spec_pair_kw_args() == self.spec_pair_kw_args(),
            r.spec_wrap_in_define() == self.spec_wrap_in_define(),
            r.spec_style() == self.spec_style(),
            r.spec_quote() == quote,
    {
        let mut self_mut = self;
        self_mut.set_quote(quote);
        self_mut
    }

    pub fn quote(&self) -> (r: &QuoteStyle)
        ensures
            *r == self.spec_quote(),
    {
        &self.quote
    }

    pub fn set_quote(&mut self, quote: QuoteStyle)
        ensures
            final(self).spec_line_width() == old(self).spec_line_width(),
            final(self).spec_pair_kw_args() == old(self).spec_pair_kw_args(),
            final(self).spec_wrap_in_define() == old(self).spec_wrap_in_define(),
            final(self).spec_style() == old(self).spec_style(),
            final(self).spec_quote() == quote,
    {
        proof {
            use_type_invariant(&*self);
        }
        self.quote = quote;
    }
}

impl Default for Options {
    fn default() -> (r: Self)
        ensures
            r.spec_line_width() == DEFAULT_LINE_WIDTH,
            !r.spec_pair_kw_args(),
            !r.spec_wrap_in_define(),
            r.spec_style() == LanguageStyle::Racket,
            r.spec_quote() == QuoteStyle::Unquoted,
    {
        Options {
            line_width: DEFAULT_LINE_WIDTH,
            pair_kw_args: false,
            wrap_in_define: false,
            style: LanguageStyle::Racket,
            quote: QuoteStyle::Unquoted,
        }
    }
}

/// What a writer produces for a value: the flat rendering, or the pretty layout from column 0
/// followed by one newline.
pub open spec fn written(v: Value, style: LanguageStyle, line_width: int, pretty_print: bool) -> Seq<
    char,
> {
    if pretty_print {
        pretty(v, 0, line_width, style).push('\n')
    } else {
        render(v, style)
    }
}

/// Renders values under a configuration, flat or pretty.
#[derive(Debug)]
pub struct Writer {
    options: Options,
    pretty_print: bool,
}

impl Writer {
    pub closed spec fn spec_options(self) -> Options {
        self.options
    }

    pub closed spec fn spec_pretty_print(self) -> bool {
        self.pretty_print
    }

    /// The same writer with another configuration.
    pub fn with_options(self, options: Options) -> (r: Self)
        ensures
            r.spec_options() == options,
            r.spec_pretty_print() == self.spec_pretty_print(),
    {
        let mut self_mut = self;
        self_mut.set_options(options);
        self_mut
    }

    pub fn set_options(&mut self, options: Options)
        ensures
            final(self).spec_options() == options,
            final(self).spec_pretty_print() == old(self).spec_pretty_print(),
    {
        self.options = options;
    }

    pub fn options(&self) -> (r: &Options)
        ensures
            *r == self.spec_options(),
    {
        &self.options
    }

    /// The same writer, pretty printing or not.
    pub fn pretty_printed(self, pretty_print: bool) -> (r: Self)
        ensures
            r.spec_options() == self.spec_options(),
            r.spec_pretty_print() == pretty_print,
    {
        let mut self_mut = self;
        self_mut.set_pretty_print(pretty_print);
        self_mut
    }

    pub fn pretty_print(&self) -> (r: bool)
        ensures
            r == self.spec_pretty_print(),
    {
        self.pretty_print
    }

    pub fn set_pretty_print(&mut self, pretty_print: bool)
        ensures
            final(self).spec_options() == old(self).spec_options(),
            final(self).spec_pretty_print() == pretty_print,
    {
        self.pretty_print = pretty_print;
    }

    /// Renders `object` as this writer's configuration asks. Writing into a string cannot fail.
    pub fn write_to_string(&self, object: &Value) -> (r: Result<String, Error>)
        requires
            depth(*object) <= usize::MAX,
        ensures
            r matches Ok(t) && t@ == written(
                *object,
                self.spec_options().spec_style(),
                self.spec_options().spec_line_width() as int,
                self.spec_pretty_print(),
            ),
    {
        let style = *self.options.style();
        let mut out = String::new();
        if self.pretty_print {
            let width = *self.options.line_width();
            write_pretty(object, 0, width, style, &mut out);
            push_newline(&mut out);
        } else {
            write_flat(object, style, &mut out);
        }
        assert(out@ =~= written(
            *object,
            self.spec_options().spec_style(),
            self.spec_options().spec_line_width() as int,
            self.spec_pretty_print(),
        ));
        Ok(out)
    }
}

fn push_newline(out: &mut String)
    ensures
        final(out)@ == old(out)@.push('\n'),
{
    crate::dialect::push_char(out, '\n');
}

impl Default for Writer {
    fn default() -> (r: Self)
        ensures
            r.spec_options().spec_line_width() == DEFAULT_LINE_WIDTH,
            r.spec_options().spec_style() == LanguageStyle::Racket,
            !r.spec_pretty_print(),
    {
        Writer { options: Options::default(), pretty_print: false }
    }
}

/// Values that render to a text in a given style.
pub trait ToStringFor {
    /// The text that `to_string_for` returns.
    spec fn text_for(&self, style: LanguageStyle) -> Seq<char>;

    fn to_string_for(&self, style: LanguageStyle) -> (r: String)
        ensures
            r@ == self.text_for(style),
    ;
}

impl ToStringFor for bool {
    open spec fn text_for(&self, style: LanguageStyle) -> Seq<char> {
        bool_text(*self, style)
    }

    fn to_string_for(&self, style: LanguageStyle) -> (r: String) {
        let mut out = String::new();
        write_bool(*self, style, &mut out);
        assert(out@ =~= self.text_for(style));
        out
    }
}

impl ToStringFor for char {
    open spec fn text_for(&self, style: LanguageStyle) -> Seq<char> {
        char_text(*self, style)
    }

    fn to_string_for(&self, style: LanguageStyle) -> (r: String) {
        let mut out = String::new();
        write_char(*self, style, &mut out);
        assert(out@ =~= self.text_for(style));
        out
    }
}

impl ToStringFor for String {
    open spec fn text_for(&self, style: LanguageStyle) -> Seq<char> {
        string_text(self@, style)
    }

    fn to_string_for(&self, style: LanguageStyle) -> (r: String) {
        let mut out = String::new();
        write_string(self.as_str(), style, &mut out);
        assert(out@ =~= self.text_for(style));
        out
    }
}

impl ToStringFor for Symbol {
    open spec fn text_for(&self, style: LanguageStyle) -> Seq<char> {
        symbol_text(self@, style)
    }

    fn to_string_for(&self, style: LanguageStyle) -> (r: String) {
        let mut out = String::new();
        write_symbol(self.as_str(), style, &mut out);
        assert(out@ =~= self.text_for(style));
        out
    }
}

impl ToStringFor for Keyword {
    open spec fn text_for(&self, style: LanguageStyle) -> Seq<char> {
        keyword_text(self@, style)
    }

    fn to_string_for(&self, style: LanguageStyle) -> (r: String) {
        let mut out = String::new();
        write_keyword(self.as_str(), style, &mut out);
        assert(out@ =~= self.text_for(style));
        out
    }
}

impl ToStringFor for Number {
    open spec fn text_for(&self, style: LanguageStyle) -> Seq<char> {
        number_text(*self)
    }

    fn to_string_for(&self, style: LanguageStyle) -> (r: String) {
        let v = match self {
            Number::Integer(i) => Value::Number(Number::Integer(*i)),
            Number::Flonum(t) => Value::Number(Number::Flonum(t.clone())),
        };
        let mut out = String::new();
        write_flat(&v, style, &mut out);
        assert(out@ =~= self.text_for(style));
        out
    }
}

impl ToStringFor for Value {
    open spec fn text_for(&self, style: LanguageStyle) -> Seq<char> {
        render(*self, style)
    }

    fn to_string_for(&self, style: LanguageStyle) -> (r: String) {
        let mut out = String::new();
        write_flat(self, style, &mut out);
        assert(out@ =~= self.text_for(style));
        out
    }
}

} // verus!
