//! The crate's error and result types.
use vstd::prelude::*;

verus! {

/// std's I/O error, carried through as it is.
#[verifier::external_type_specification]
#[verifier::external_body]
pub struct ExIoError(std::io::Error);

/// The errors of this crate.
#[derive(Debug)]
pub enum Error {
    /// A write to the output failed.
    IoError { source: std::io::Error },
    /// A symbol's text could not be read.
    SymbolParserError { source: String },
}

/// A result whose error is this crate's [`Error`].
pub type Result<T> = std::result::Result<T, Error>;

/// The error for a failed write.
pub fn io_error(source: std::io::Error) -> (r: Error)
    ensures
        r == (Error::IoError { source }),
{
    Error::IoError { source }
}

/// The error for a symbol whose text could not be read.
pub fn symbol_parser_error(source: &str) -> (r: Error)
    ensures
        r matches Error::SymbolParserError { source: s } && s@ == source@,
{
    Error::SymbolParserError { source: String::from_str(source) }
}

impl From<std::io::Error> for Error {
    fn from(source: std::io::Error) -> Self {
        io_error(source)
    }
}

impl vstd::std_specs::convert::FromSpecImpl<std::io::Error> for Error {
    open spec fn obeys_from_spec() -> bool {
        true
    }

    open spec fn from_spec(source: std::io::Error) -> Self {
        Error::IoError { source }
    }
}

} // verus!
