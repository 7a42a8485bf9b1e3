//! The terminal failures of a conversion.

use vstd::prelude::*;

verus! {

/// Why a conversion ended without a surface. Every failure is final: nothing
/// is retried and no partial surface is handed out.
#[derive(Clone, Copy, Debug, PartialEq, Eq, Structural)]
pub enum MeshError {
    /// Every entry of the container was scanned and none carries the wanted suffix.
    ArchiveEntryNotFound,
    /// The bytes are not a readable container, or a wanted entry in it cannot be read out.
    MalformedContainer,
    /// A geometry buffer does not decode.
    GeometryDecodeError,
    /// An attribute buffer does not decode, or does not pair with its geometry.
    AttributeDecodeError,
    /// A record has no elevation: the field is absent or left blank.
    MissingAttributeField,
    /// The points admit no triangulation, or the one offered is not a mesh over them.
    TriangulationFailed,
}

} // verus!
