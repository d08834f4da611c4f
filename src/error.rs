use vstd::prelude::*;

verus! {

/// Why a resolution or an acquisition failed.
#[derive(Debug, Clone, Copy, PartialEq, Eq, Structural)]
pub enum Error {
    /// The transport failed.
    Network,
    /// A descriptor, manifest or archive is malformed.
    Parse,
    /// The requested id is absent from a manifest.
    NotFound,
    /// The local store could not be read or written.
    Filesystem,
}

} // verus!
