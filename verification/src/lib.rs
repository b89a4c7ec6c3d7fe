//! Shader handling for a raylib binding: uniform data layout and the
//! decisions taken while a shader is loaded.
use vstd::prelude::*;

pub mod error;
pub mod load;
pub mod uniform;

verus! {

/// Takes ownership of a value and lets it go out of scope without any
/// further action of its own; used as the release routine of handles whose
/// resource belongs to someone else.
pub fn no_drop<T>(_thing: T) {
}

} // verus!
