//! The exit codes. They are an interface: programs read them.

use vstd::prelude::*;

verus! {

/// Rehearsed clean, or a management command succeeded.
pub const CLEAN: u8 = 0;

/// Something went wrong inside git-rehearse itself.
pub const INTERNAL: u8 = 1;

/// The rehearsed command stopped part-way, usually on a conflict.
pub const STOPPED: u8 = 2;

/// The rehearsed command failed in the sandbox.
pub const FAILED: u8 = 3;

/// Refused: a ref race, an unsupported repository.
pub const REFUSED: u8 = 4;

} // verus!
