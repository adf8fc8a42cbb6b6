//! A catalog of commonly found licenses of the SPDX license list, with exact
//! lookup of a license by its identifier.
use vstd::prelude::*;

pub mod spdx;
pub mod text;

pub use spdx::SpdxLicense;

verus! {

/// Why a string could not be parsed into a license.
#[derive(Clone, Copy, Debug, PartialEq, Eq)]
pub enum ParseError<'a> {
    /// The input was empty.
    Empty,
    /// The input names no license of the catalog; it is handed back as given.
    UnknownIdentifier(&'a str),
}

} // verus!
