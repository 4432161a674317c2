//! A signal-processing network owned on behalf of a garbage-collecting host.

use crate::foreign::Foreign;
use fundsp::net::Net64;
use vstd::prelude::*;

verus! {

/// A network handed to the host; the host's finalizer releases it.
pub struct Net(pub Foreign<Net64>);

impl Net {
    /// Takes ownership of `net` on behalf of the host.
    pub fn new(net: Net64) -> (r: Self)
        ensures
            r.0@ == Some(net),
    {
        Net(Foreign::new(net))
    }

    /// The network, while the host has not finalized it.
    pub fn get(&self) -> (r: &Net64)
        requires
            self.0@ is Some,
        ensures
            self.0@ == Some(*r),
    {
        self.0.get()
    }
}

} // verus!
