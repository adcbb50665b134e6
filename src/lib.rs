//! Rendering of Lisp-style s-expressions in several dialect conventions.
//!
//! A [`value::Value`] tree is rendered either flat, on one line, or pretty, packed into lines
//! of a chosen width. The lexical spelling of atoms depends on a [`writer::LanguageStyle`].
use vstd::prelude::*;

pub mod dialect;
pub mod error;
pub mod laws;
pub mod layout;
pub mod value;
pub mod writer;

verus! {

} // verus!
