//! The revision guard: the one policy that decides whether a result that was
//! computed against some revision of a buffer may still be written back.

use vstd::prelude::*;

verus! {

/// A result computed against `result_revision` is valid for a buffer that is
/// now at `current_revision` exactly when the two are equal.
pub open spec fn accepts(result_revision: u64, current_revision: u64) -> bool {
    result_revision == current_revision
}

/// A reload tagged `reload_revision` follows a buffer at `current_revision`
/// exactly when it is the very next revision.
pub open spec fn follows(reload_revision: u64, current_revision: u64) -> bool {
    current_revision + 1 == reload_revision
}

/// The staleness check applied at every write of derived data.
pub fn accept(result_revision: u64, current_revision: u64) -> (ok: bool)
    ensures
        ok == accepts(result_revision, current_revision),
{
    result_revision == current_revision
}

/// The check applied to a reload: the new content must be tagged with the
/// revision that directly succeeds the buffer's own.
pub fn accept_reload(reload_revision: u64, current_revision: u64) -> (ok: bool)
    ensures
        ok == follows(reload_revision, current_revision),
{
    current_revision < u64::MAX && current_revision + 1 == reload_revision
}

} // verus!
