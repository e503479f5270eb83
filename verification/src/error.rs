//! Failure taxonomy of the bridge: construction and lookup failures are
//! fatal to the frame that raises them; nothing is retried mid-frame.

use vstd::prelude::*;

verus! {

/// Why a bridge operation failed.
#[derive(Clone, Copy, PartialEq, Eq, Structural, Debug)]
pub enum BridgeError {
    /// A texture patch named an id the store has never seen.
    TextureMissing(u64),
    /// A texture patch region does not fit inside the stored image.
    PatchOutOfBounds(u64),
    /// A paint callback named a registry key with no resource bundle.
    BundleMissing(u64),
    /// A bundle was created under a registry key already occupied.
    AlreadyRegistered(u64),
}

} // verus!
