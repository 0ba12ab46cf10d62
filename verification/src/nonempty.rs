//! Emptiness testing spelled positively, for the values the program
//! keeps asking that question of: option strings and byte payloads.

use vstd::prelude::*;

verus! {

/// `x.is_not_empty()` reads better than `!x.is_empty()` where the code
/// cares about presence, not absence.
pub trait IsNotEmpty {
    /// Whether the value holds anything, at the specification level.
    spec fn spec_is_not_empty(&self) -> bool;

    /// Whether the value holds anything.
    fn is_not_empty(&self) -> (r: bool)
        ensures
            r == self.spec_is_not_empty(),
    ;
}

impl IsNotEmpty for String {
    open spec fn spec_is_not_empty(&self) -> bool {
        self@.len() != 0
    }

    fn is_not_empty(&self) -> (r: bool) {
        !self.as_str().is_empty()
    }
}

impl IsNotEmpty for &str {
    open spec fn spec_is_not_empty(&self) -> bool {
        self@.len() != 0
    }

    fn is_not_empty(&self) -> (r: bool) {
        !self.is_empty()
    }
}

impl IsNotEmpty for Vec<u8> {
    open spec fn spec_is_not_empty(&self) -> bool {
        self@.len() != 0
    }

    fn is_not_empty(&self) -> (r: bool) {
        self.len() != 0
    }
}

} // verus!
