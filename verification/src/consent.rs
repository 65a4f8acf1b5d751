//! The consent gate: a tri-state flag, supplied fresh on every call and
//! never persisted, that governs whether a mutating operation on the
//! measurement store proceeds.

use vstd::prelude::*;

verus! {

/// Per-call authorization signal gating persistence and deletion of a
/// caller's measurement. `Unspecified` means the caller said nothing,
/// and every gated operation silently does nothing.
#[derive(Clone, Copy, Debug, PartialEq, Eq, Structural)]
pub enum Consent {
    Granted,
    Denied,
    Unspecified,
}

/// The consent flag as it crosses the call boundary: an optional boolean,
/// `None` meaning unspecified.
#[derive(Clone, Debug)]
pub struct DataPermission(Option<bool>);

impl View for DataPermission {
    type V = Consent;

    closed spec fn view(&self) -> Consent {
        match self.0 {
            Some(true) => Consent::Granted,
            Some(false) => Consent::Denied,
            None => Consent::Unspecified,
        }
    }
}

impl DataPermission {
    /// Wraps an optional boolean consent flag.
    pub fn new(data: Option<bool>) -> (r: Self)
        ensures
            r@ == (match data {
                Some(true) => Consent::Granted,
                Some(false) => Consent::Denied,
                None => Consent::Unspecified,
            }),
    {
        match data {
            Some(d) => DataPermission(Some(d)),
            None => DataPermission(None),
        }
    }

    /// Reads the flag as an explicit tri-state value.
    pub fn consent(&self) -> (c: Consent)
        ensures
            c == self@,
    {
        match self.0 {
            Some(true) => Consent::Granted,
            Some(false) => Consent::Denied,
            None => Consent::Unspecified,
        }
    }
}

impl Default for DataPermission {
    /// Consent defaults to granted.
    fn default() -> (r: Self)
        ensures
            r@ == Consent::Granted,
    {
        DataPermission(Some(true))
    }
}

} // verus!
