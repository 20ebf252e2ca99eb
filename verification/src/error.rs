use vstd::prelude::*;

verus! {

/// Errors surfaced by the typed attribute-list accessors, the vdev-tree
/// decoder and the pool/dataset query layer.
#[derive(Clone, Copy, Debug, PartialEq, Eq, Structural)]
pub enum LibZfsError {
    /// A required key is absent from an attribute list, or the stored type
    /// disagrees with the requested accessor.
    NotFound,
    /// A numeric status code lies outside its enumerated domain during
    /// device-state derivation.
    InvalidState,
    /// The vdev `type` tag is absent or not in the recognized vocabulary.
    UnknownVdevType,
    /// A native call returned a nonzero status; carries the raw code.
    NativeCallFailed(i32),
    /// Native string data was not validly encoded text.
    StringConversion,
}

} // verus!
