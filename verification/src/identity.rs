//! The operating-system identity under which a run looks up its secret.

use vstd::prelude::*;

verus! {

/// Calls `whoami::username`: the login name of the user who owns the process,
/// or the crate's stand-in name where the operating system gives none. The
/// name comes from outside the program, so nothing is claimed about it, and
/// callers are proved for every string.
#[verifier::external_body]
pub(crate) fn current_username() -> (name: String) {
    whoami::username()
}

} // verus!
