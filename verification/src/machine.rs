//! The host's side of port I/O.

use vstd::prelude::*;

verus! {

/// The devices behind the I/O ports. The host implements it; the core
/// calls it for the OUT and IN instructions only.
///
/// `written` and `answered` are the host's own account of what a call does
/// to it. The core relies on neither: it hands them on in its contracts, so
/// that a caller learns which port and value were passed. A host that has
/// nothing to say leaves both as they are here, true of every call.
pub trait Machine {
    /// Whether writing `value` to `port` can take this host to `after`.
    open spec fn written(&self, port: u8, value: u8, after: &Self) -> bool {
        true
    }

    /// Whether reading `port` can give `value` and take this host to `after`.
    open spec fn answered(&self, port: u8, value: u8, after: &Self) -> bool {
        true
    }

    fn output(&mut self, port: u8, value: u8)
        ensures
            old(self).written(port, value, final(self)),
    ;

    fn input(&mut self, port: u8) -> (value: u8)
        ensures
            old(self).answered(port, value, final(self)),
    ;
}

} // verus!
