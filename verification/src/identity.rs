//! The identity guard: after a reload, the token that the host was built
//! with is held against the token that the loaded library reports. Only
//! equal tokens admit the library.

use crate::controller::HotReload;
use vstd::prelude::*;

verus! {

/// Whether the identity check is due: in the tick that reloaded the library,
/// before anything else is called in it.
pub fn identity_check_due(hot_reload: &HotReload) -> (r: bool)
    ensures
        r == hot_reload.updated_this_frame,
{
    hot_reload.updated_this_frame
}

/// Host and library were built from different type definitions. Calling
/// further into the library would run code laid out for another build, so
/// the host stops on this.
#[derive(Clone, Copy, Debug, PartialEq, Eq, Structural)]
pub struct TypeIdMismatch {
    /// The token compiled into the host.
    pub host: u64,
    /// The token that the loaded library reported.
    pub library: u64,
}

/// Admits the loaded library if and only if the two tokens are equal.
///
/// The host runs this through the stub of the check, so that the library's
/// own token is the one compared.
pub fn check_type_ids(host_type_id: u64, library_type_id: u64) -> (r: Result<(), TypeIdMismatch>)
    ensures
        r == if host_type_id == library_type_id {
            Ok::<(), TypeIdMismatch>(())
        } else {
            Err::<(), TypeIdMismatch>(
                TypeIdMismatch { host: host_type_id, library: library_type_id },
            )
        },
{
    if host_type_id == library_type_id {
        Ok(())
    } else {
        Err(TypeIdMismatch { host: host_type_id, library: library_type_id })
    }
}

/// How the report of a mismatch opens.
pub open spec fn mismatch_opening() -> Seq<char> {
    "ridiculous_bevy_hot_reloading: ERROR TypeIds do not match: "@
}

/// The cause that the report names.
pub open spec fn mismatch_cause() -> Seq<char> {
    "host/library build-configuration divergence"@
}

/// What the report advises.
pub open spec fn mismatch_advice() -> Seq<char> {
    ". This happens when the primary and dynamic libraries are not identically built. Make sure either both, or neither are using bevy_dylib"@
}

impl TypeIdMismatch {
    /// The report to stop the process with. It names the cause.
    pub fn message(&self) -> (r: String)
        ensures
            r@ == mismatch_opening() + mismatch_cause() + mismatch_advice(),
    {
        let mut r = String::from_str("ridiculous_bevy_hot_reloading: ERROR TypeIds do not match: ");
        r.append("host/library build-configuration divergence");
        r.append(
            ". This happens when the primary and dynamic libraries are not identically built. Make sure either both, or neither are using bevy_dylib",
        );
        r
    }
}

} // verus!
