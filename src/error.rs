//! Errors shared by the room's components.

use vstd::prelude::*;

verus! {

/// Common errors across the room's components.
#[derive(Clone, Debug)]
pub enum AorError {
    Mqtt(String),
    Validation(String),
    PermissionDenied(String),
}

} // verus!
