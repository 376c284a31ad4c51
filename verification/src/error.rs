use crate::boxtype::BoxType;
use vstd::prelude::*;

verus! {

/// Why a box could not be read.
#[derive(Debug, Clone, Copy, PartialEq, Eq)]
pub enum Error {
    /// The bytes ended before a field, a payload or a declared box did.
    UnexpectedEof,
    /// The bytes are all there but do not form the expected structure.
    InvalidData(&'static str),
    /// A container ended without the child of this kind, which it must have.
    BoxNotFound(BoxType),
}

} // verus!
