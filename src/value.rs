//! The data model: atoms and ordered lists of values.
use vstd::prelude::*;

verus! {

/// A number: a 64-bit signed integer, or a floating-point number held as its decimal spelling.
///
/// The spelling of a float is the text that `f64`'s `Display` writes for it; this crate never
/// computes with floats itself, it only writes that text out.
#[derive(Debug)]
pub enum Number {
    Integer(i64),
    Flonum(String),
}

/// An identifier, stored unescaped.
#[derive(Debug)]
pub struct Symbol(pub String);

/// A symbol used as a keyword; only its surface syntax differs from a symbol.
#[derive(Debug)]
pub struct Keyword(pub Symbol);

/// A value: an atom or an ordered list of values.
#[derive(Debug)]
pub enum Value {
    Bool(bool),
    Number(Number),
    Character(char),
    String(String),
    Symbol(Symbol),
    Keyword(Keyword),
    List(Vec<Value>),
}

/// Whether two values are the same tree: equal atoms, or lists whose elements are pairwise the
/// same value.
pub open spec fn same_value(a: Value, b: Value) -> bool
    decreases a,
{
    match a {
        Value::List(x) => b matches Value::List(y) && same_items(x@, y@),
        _ => a == b,
    }
}

/// Whether two sequences of values are pairwise the same value.
pub open spec fn same_items(x: Seq<Value>, y: Seq<Value>) -> bool
    decreases x,
{
    &&& x.len() == y.len()
    &&& x.len() > 0 ==> same_value(x[0], y[0]) && same_items(
        x.subrange(1, x.len() as int),
        y.subrange(1, y.len() as int),
    )
}

proof fn lemma_same_items_pointwise(x: Seq<Value>, y: Seq<Value>)
    requires
        x.len() == y.len(),
        forall|k: int| 0 <= k < x.len() ==> same_value(#[trigger] x[k], y[k]),
    ensures
        same_items(x, y),
    decreases x.len(),
{
    if x.len() > 0 {
        let xs = x.subrange(1, x.len() as int);
        let ys = y.subrange(1, y.len() as int);
        assert forall|k: int| 0 <= k < xs.len() implies same_value(#[trigger] xs[k], ys[k]) by {
            assert(xs[k] == x[k + 1] && ys[k] == y[k + 1]);
        }
        lemma_same_items_pointwise(xs, ys);
        assert(same_value(x[0], y[0]));
    }
}

impl Clone for Number {
    fn clone(&self) -> (r: Self)
        ensures
            r == *self,
    {
        match self {
            Number::Integer(i) => Number::Integer(*i),
            Number::Flonum(t) => Number::Flonum(t.clone()),
        }
    }
}

impl Clone for Symbol {
    fn clone(&self) -> (r: Self)
        ensures
            r == *self,
    {
        Symbol(self.0.clone())
    }
}

impl Clone for Keyword {
    fn clone(&self) -> (r: Self)
        ensures
            r == *self,
    {
        Keyword(self.0.clone())
    }
}

impl Clone for Value {
    fn clone(&self) -> (r: Self)
        ensures
            same_value(r, *self),
        decreases self,
    {
        match self {
            Value::Bool(b) => Value::Bool(*b),
            Value::Number(n) => Value::Number(n.clone()),
            Value::Character(c) => Value::Character(*c),
            Value::String(s) => Value::String(s.clone()),
            Value::Symbol(s) => Value::Symbol(s.clone()),
            Value::Keyword(k) => Value::Keyword(k.clone()),
            Value::List(items) => {
                let mut out: Vec<Value> = Vec::new();
                let n = items.len();
                let mut i: usize = 0;
                while i < n
                    invariant
                        *self == Value::List(*items),
                        n == items@.len(),
                        i <= n,
                        out@.len() == i,
                        forall|k: int| 0 <= k < i ==> same_value(#[trigger] out@[k], items@[k]),
                    decreases n - i,
                {
                    proof {
                        assert(decreases_to!(*self => self->List_0));
                        assert(decreases_to!(self->List_0 => self->List_0[i as int]));
                    }
                    let c = items[i].clone();
                    out.push(c);
                    i = i + 1;
                }
                proof {
                    lemma_same_items_pointwise(out@, items@);
                }
                Value::List(out)
            },
        }
    }
}

impl View for Symbol {
    type V = Seq<char>;

    open spec fn view(&self) -> Seq<char> {
        self.0@
    }
}

impl View for Keyword {
    type V = Seq<char>;

    open spec fn view(&self) -> Seq<char> {
        self.0@
    }
}

/// The nesting depth of a value: 0 for an atom, one more than its deepest element for a list.
pub open spec fn depth(v: Value) -> nat
    decreases v,
{
    match v {
        Value::List(items) => 1 + depth_of_items(items@),
        _ => 0,
    }
}

/// The largest depth among a sequence of values (0 when it is empty).
pub open spec fn depth_of_items(items: Seq<Value>) -> nat
    decreases items,
{
    if items.len() == 0 {
        0
    } else {
        let d = depth(items[0]);
        let rest = depth_of_items(items.subrange(1, items.len() as int));
        if d >= rest { d } else { rest }
    }
}

impl Number {
    pub fn is_integer(&self) -> (r: bool)
        ensures
            r == (self is Integer),
    {
        matches!(self, Number::Integer(_))
    }

    pub fn as_integer(&self) -> (r: Option<i64>)
        ensures
            r == match self {
                Number::Integer(v) => Some(*v),
                _ => None::<i64>,
            },
    {
        match self {
            Number::Integer(v) => Some(*v),
            _ => None,
        }
    }

    pub fn is_flonum(&self) -> (r: bool)
        ensures
            r == (self is Flonum),
    {
        matches!(self, Number::Flonum(_))
    }
}

impl Symbol {
    pub fn new(s: &str) -> (r: Symbol)
        ensures
            r@ == s@,
    {
        Symbol(String::from_str(s))
    }

    /// The symbol's text.
    pub fn inner(&self) -> (r: String)
        ensures
            r@ == self@,
    {
        self.0.clone()
    }

    /// The symbol's text, borrowed.
    pub fn as_str(&self) -> (r: &str)
        ensures
            r@ == self@,
    {
        self.0.as_str()
    }
}

impl Keyword {
    pub fn new(s: &str) -> (r: Keyword)
        ensures
            r@ == s@,
    {
        Keyword(Symbol::new(s))
    }

    /// The keyword's symbol.
    pub fn inner(&self) -> (r: Symbol)
        ensures
            r@ == self@,
    {
        Symbol(self.0.inner())
    }

    /// The text of the keyword's symbol, borrowed.
    pub fn as_str(&self) -> (r: &str)
        ensures
            r@ == self@,
    {
        self.0.as_str()
    }
}

impl Value {
    pub fn empty_list() -> (r: Value)
        ensures
            r matches Value::List(items) && items@.len() == 0,
    {
        Value::List(Vec::new())
    }
}

impl From<i64> for Number {
    fn from(value: i64) -> Self {
        Number::Integer(value)
    }
}

impl vstd::std_specs::convert::FromSpecImpl<i64> for Number {
    open spec fn obeys_from_spec() -> bool {
        true
    }

    open spec fn from_spec(value: i64) -> Self {
        Number::Integer(value)
    }
}

impl From<i32> for Number {
    fn from(value: i32) -> Self {
        Number::Integer(value as i64)
    }
}

impl vstd::std_specs::convert::FromSpecImpl<i32> for Number {
    open spec fn obeys_from_spec() -> bool {
        true
    }

    open spec fn from_spec(value: i32) -> Self {
        Number::Integer(value as i64)
    }
}

impl From<i16> for Number {
    fn from(value: i16) -> Self {
        Number::Integer(value as i64)
    }
}

impl vstd::std_specs::convert::FromSpecImpl<i16> for Number {
    open spec fn obeys_from_spec() -> bool {
        true
    }

    open spec fn from_spec(value: i16) -> Self {
        Number::Integer(value as i64)
    }
}

impl From<i8> for Number {
    fn from(value: i8) -> Self {
        Number::Integer(value as i64)
    }
}

impl vstd::std_specs::convert::FromSpecImpl<i8> for Number {
    open spec fn obeys_from_spec() -> bool {
        true
    }

    open spec fn from_spec(value: i8) -> Self {
        Number::Integer(value as i64)
    }
}

impl From<i64> for Value {
    fn from(value: i64) -> Self {
        Value::Number(Number::Integer(value))
    }
}

impl vstd::std_specs::convert::FromSpecImpl<i64> for Value {
    open spec fn obeys_from_spec() -> bool {
        true
    }

    open spec fn from_spec(value: i64) -> Self {
        Value::Number(Number::Integer(value))
    }
}

impl From<i32> for Value {
    fn from(value: i32) -> Self {
        Value::Number(Number::Integer(value as i64))
    }
}

impl vstd::std_specs::convert::FromSpecImpl<i32> for Value {
    open spec fn obeys_from_spec() -> bool {
        true
    }

    open spec fn from_spec(value: i32) -> Self {
        Value::Number(Number::Integer(value as i64))
    }
}

impl From<i16> for Value {
    fn from(value: i16) -> Self {
        Value::Number(Number::Integer(value as i64))
    }
}

impl vstd::std_specs::convert::FromSpecImpl<i16> for Value {
    open spec fn obeys_from_spec() -> bool {
        true
    }

    open spec fn from_spec(value: i16) -> Self {
        Value::Number(Number::Integer(value as i64))
    }
}

impl From<i8> for Value {
    fn from(value: i8) -> Self {
        Value::Number(Number::Integer(value as i64))
    }
}

impl vstd::std_specs::convert::FromSpecImpl<i8> for Value {
    open spec fn obeys_from_spec() -> bool {
        true
    }

    open spec fn from_spec(value: i8) -> Self {
        Value::Number(Number::Integer(value as i64))
    }
}

impl From<Symbol> for Keyword {
    fn from(value: Symbol) -> Self {
        Keyword(value)
    }
}

impl vstd::std_specs::convert::FromSpecImpl<Symbol> for Keyword {
    open spec fn obeys_from_spec() -> bool {
        true
    }

    open spec fn from_spec(value: Symbol) -> Self {
        Keyword(value)
    }
}

impl From<Keyword> for Symbol {
    fn from(value: Keyword) -> Self {
        value.0
    }
}

impl vstd::std_specs::convert::FromSpecImpl<Keyword> for Symbol {
    open spec fn obeys_from_spec() -> bool {
        true
    }

    open spec fn from_spec(value: Keyword) -> Self {
        value.0
    }
}

impl From<bool> for Value {
    fn from(value: bool) -> Self {
        Value::Bool(value)
    }
}

impl vstd::std_specs::convert::FromSpecImpl<bool> for Value {
    open spec fn obeys_from_spec() -> bool {
        true
    }

    open spec fn from_spec(value: bool) -> Self {
        Value::Bool(value)
    }
}

impl From<char> for Value {
    fn from(value: char) -> Self {
        Value::Character(value)
    }
}

impl vstd::std_specs::convert::FromSpecImpl<char> for Value {
    open spec fn obeys_from_spec() -> bool {
        true
    }

    open spec fn from_spec(value: char) -> Self {
        Value::Character(value)
    }
}

impl From<Number> for Value {
    fn from(value: Number) -> Self {
        Value::Number(value)
    }
}

impl vstd::std_specs::convert::FromSpecImpl<Number> for Value {
    open spec fn obeys_from_spec() -> bool {
        true
    }

    open spec fn from_spec(value: Number) -> Self {
        Value::Number(value)
    }
}

impl From<String> for Value {
    fn from(value: String) -> Self {
        Value::String(value)
    }
}

impl vstd::std_specs::convert::FromSpecImpl<String> for Value {
    open spec fn obeys_from_spec() -> bool {
        true
    }

    open spec fn from_spec(value: String) -> Self {
        Value::String(value)
    }
}

impl From<&str> for Value {
    fn from(value: &str) -> Self {
        Value::String(String::from_str(value))
    }
}

impl vstd::std_specs::convert::FromSpecImpl<&str> for Value {
    open spec fn obeys_from_spec() -> bool {
        false
    }

    open spec fn from_spec(value: &str) -> Self {
        arbitrary()
    }
}

impl From<Symbol> for Value {
    fn from(value: Symbol) -> Self {
        Value::Symbol(value)
    }
}

impl vstd::std_specs::convert::FromSpecImpl<Symbol> for Value {
    open spec fn obeys_from_spec() -> bool {
        true
    }

    open spec fn from_spec(value: Symbol) -> Self {
        Value::Symbol(value)
    }
}

impl From<Keyword> for Value {
    fn from(value: Keyword) -> Self {
        Value::Keyword(value)
    }
}

impl vstd::std_specs::convert::FromSpecImpl<Keyword> for Value {
    open spec fn obeys_from_spec() -> bool {
        true
    }

    open spec fn from_spec(value: Keyword) -> Self {
        Value::Keyword(value)
    }
}

impl From<Vec<Value>> for Value {
    fn from(value: Vec<Value>) -> Self {
        Value::List(value)
    }
}

impl vstd::std_specs::convert::FromSpecImpl<Vec<Value>> for Value {
    open spec fn obeys_from_spec() -> bool {
        true
    }

    open spec fn from_spec(value: Vec<Value>) -> Self {
        Value::List(value)
    }
}

impl From<&i64> for Number {
    fn from(value: &i64) -> Self {
        Number::Integer(*value)
    }
}

impl vstd::std_specs::convert::FromSpecImpl<&i64> for Number {
    open spec fn obeys_from_spec() -> bool {
        true
    }

    open spec fn from_spec(value: &i64) -> Self {
        Number::Integer(*value)
    }
}

impl From<&i32> for Number {
    fn from(value: &i32) -> Self {
        Number::Integer(*value as i64)
    }
}

impl vstd::std_specs::convert::FromSpecImpl<&i32> for Number {
    open spec fn obeys_from_spec() -> bool {
        true
    }

    open spec fn from_spec(value: &i32) -> Self {
        Number::Integer(*value as i64)
    }
}

impl From<&i16> for Number {
    fn from(value: &i16) -> Self {
        Number::Integer(*value as i64)
    }
}

impl vstd::std_specs::convert::FromSpecImpl<&i16> for Number {
    open spec fn obeys_from_spec() -> bool {
        true
    }

    open spec fn from_spec(value: &i16) -> Self {
        Number::Integer(*value as i64)
    }
}

impl From<&i8> for Number {
    fn from(value: &i8) -> Self {
        Number::Integer(*value as i64)
    }
}

impl vstd::std_specs::convert::FromSpecImpl<&i8> for Number {
    open spec fn obeys_from_spec() -> bool {
        true
    }

    open spec fn from_spec(value: &i8) -> Self {
        Number::Integer(*value as i64)
    }
}

impl From<&i64> for Value {
    fn from(value: &i64) -> Self {
        Value::Number(Number::Integer(*value))
    }
}

impl vstd::std_specs::convert::FromSpecImpl<&i64> for Value {
    open spec fn obeys_from_spec() -> bool {
        true
    }

    open spec fn from_spec(value: &i64) -> Self {
        Value::Number(Number::Integer(*value))
    }
}

impl From<&i32> for Value {
    fn from(value: &i32) -> Self {
        Value::Number(Number::Integer(*value as i64))
    }
}

impl vstd::std_specs::convert::FromSpecImpl<&i32> for Value {
    open spec fn obeys_from_spec() -> bool {
        true
    }

    open spec fn from_spec(value: &i32) -> Self {
        Value::Number(Number::Integer(*value as i64))
    }
}

impl From<&i16> for Value {
    fn from(value: &i16) -> Self {
        Value::Number(Number::Integer(*value as i64))
    }
}

impl vstd::std_specs::convert::FromSpecImpl<&i16> for Value {
    open spec fn obeys_from_spec() -> bool {
        true
    }

    open spec fn from_spec(value: &i16) -> Self {
        Value::Number(Number::Integer(*value as i64))
    }
}

impl From<&i8> for Value {
    fn from(value: &i8) -> Self {
        Value::Number(Number::Integer(*value as i64))
    }
}

impl vstd::std_specs::convert::FromSpecImpl<&i8> for Value {
    open spec fn obeys_from_spec() -> bool {
        true
    }

    open spec fn from_spec(value: &i8) -> Self {
        Value::Number(Number::Integer(*value as i64))
    }
}

impl From<&bool> for Value {
    fn from(value: &bool) -> Self {
        Value::Bool(*value)
    }
}

impl vstd::std_specs::convert::FromSpecImpl<&bool> for Value {
    open spec fn obeys_from_spec() -> bool {
        true
    }

    open spec fn from_spec(value: &bool) -> Self {
        Value::Bool(*value)
    }
}

impl From<&char> for Value {
    fn from(value: &char) -> Self {
        Value::Character(*value)
    }
}

impl vstd::std_specs::convert::FromSpecImpl<&char> for Value {
    open spec fn obeys_from_spec() -> bool {
        true
    }

    open spec fn from_spec(value: &char) -> Self {
        Value::Character(*value)
    }
}

impl From<&String> for Value {
    fn from(value: &String) -> Self {
        Value::String(value.clone())
    }
}

impl vstd::std_specs::convert::FromSpecImpl<&String> for Value {
    open spec fn obeys_from_spec() -> bool {
        true
    }

    open spec fn from_spec(value: &String) -> Self {
        Value::String(*value)
    }
}

impl From<&Symbol> for Value {
    fn from(value: &Symbol) -> Self {
        Value::Symbol(value.clone())
    }
}

impl vstd::std_specs::convert::FromSpecImpl<&Symbol> for Value {
    open spec fn obeys_from_spec() -> bool {
        true
    }

    open spec fn from_spec(value: &Symbol) -> Self {
        Value::Symbol(*value)
    }
}

impl From<&Keyword> for Value {
    fn from(value: &Keyword) -> Self {
        Value::Keyword(value.clone())
    }
}

impl vstd::std_specs::convert::FromSpecImpl<&Keyword> for Value {
    open spec fn obeys_from_spec() -> bool {
        true
    }

    open spec fn from_spec(value: &Keyword) -> Self {
        Value::Keyword(*value)
    }
}

impl From<Symbol> for String {
    fn from(value: Symbol) -> Self {
        value.0
    }
}

impl vstd::std_specs::convert::FromSpecImpl<Symbol> for String {
    open spec fn obeys_from_spec() -> bool {
        true
    }

    open spec fn from_spec(value: Symbol) -> Self {
        value.0
    }
}

impl From<Keyword> for String {
    fn from(value: Keyword) -> Self {
        (value.0).0
    }
}

impl vstd::std_specs::convert::FromSpecImpl<Keyword> for String {
    open spec fn obeys_from_spec() -> bool {
        true
    }

    open spec fn from_spec(value: Keyword) -> Self {
        (value.0).0
    }
}

/// Copies of the values of a slice, each the same tree as the value it copies.
pub fn clone_items(items: &[Value]) -> (r: Vec<Value>)
    ensures
        same_items(r@, items@),
{
    let mut out: Vec<Value> = Vec::new();
    let n = items.len();
    let mut i: usize = 0;
    while i < n
        invariant
            n == items@.len(),
            i <= n,
            out@.len() == i,
            forall|k: int| 0 <= k < i ==> same_value(#[trigger] out@[k], items@[k]),
        decreases n - i,
    {
        let c = items[i].clone();
        out.push(c);
        i = i + 1;
    }
    proof {
        lemma_same_items_pointwise(out@, items@);
    }
    out
}

/// A list holding copies of the values of a vector; the copies are the same trees, which
/// `same_value` states and `==` cannot.
impl From<&Vec<Value>> for Value {
    fn from(value: &Vec<Value>) -> Self {
        Value::List(clone_items(value.as_slice()))
    }
}

impl vstd::std_specs::convert::FromSpecImpl<&Vec<Value>> for Value {
    open spec fn obeys_from_spec() -> bool {
        false
    }

    open spec fn from_spec(value: &Vec<Value>) -> Self {
        arbitrary()
    }
}

/// A list holding copies of the values of a slice.
impl From<&[Value]> for Value {
    fn from(value: &[Value]) -> Self {
        Value::List(clone_items(value))
    }
}

impl vstd::std_specs::convert::FromSpecImpl<&[Value]> for Value {
    open spec fn obeys_from_spec() -> bool {
        false
    }

    open spec fn from_spec(value: &[Value]) -> Self {
        arbitrary()
    }
}

impl FromIterator<Value> for Value {
    /// Relies on `Vec::from_iter`, which collects the items in the order the iterator gives
    /// them.
    #[verifier::external_body]
    fn from_iter<T: IntoIterator<Item = Value>>(iter: T) -> Self {
        Value::List(Vec::from_iter(iter))
    }
}

impl AsRef<str> for Symbol {
    fn as_ref(&self) -> &str {
        self.0.as_str()
    }
}

} // verus!
