//! Association of a socket with the selector it is registered with.
//!
//! A socket can be registered with one selector only. The first successful
//! registration fixes the selector; registering again with the same selector
//! is allowed, registering with any other one is refused. Selector ids are
//! nonzero; the value 0 stands for "not registered yet".

use vstd::prelude::*;

verus! {

/// Why a registration is refused.
#[derive(Clone, Copy, Debug, PartialEq, Eq, Structural)]
pub enum RegisterError {
    /// The socket is already registered with another selector.
    AlreadyRegistered,
}

impl RegisterError {
    /// The text that accompanies the error.
    pub fn message(&self) -> (m: &'static str)
        ensures
            m@ == "socket already registered"@,
    {
        "socket already registered"
    }
}

/// The id of the selector a socket is registered with, 0 while it is not
/// registered with any.
#[derive(Clone, Copy, Debug)]
pub struct SelectorId {
    id: usize,
}

impl View for SelectorId {
    type V = usize;

    /// The raw id: 0 while the socket is unregistered, else the selector's id.
    closed spec fn view(&self) -> usize {
        self.id
    }
}

/// Whether a socket whose association is `current` may be registered with
/// the selector `selector`.
pub open spec fn accepts(current: usize, selector: usize) -> bool {
    current == 0 || current == selector
}

impl SelectorId {
    /// A socket that is not registered with any selector.
    pub fn new() -> (s: SelectorId)
        ensures
            s@ == 0,
    {
        SelectorId { id: 0 }
    }

    /// Records that the socket is being registered with `selector`, or refuses
    /// it when the socket is already registered with a different selector.
    pub fn associate_selector(&mut self, selector: usize) -> (r: Result<(), RegisterError>)
        requires
            selector != 0,
        ensures
            r is Ok <==> accepts(old(self)@, selector),
            r is Ok ==> final(self)@ == selector,
            r is Err ==> final(self)@ == old(self)@ && r == Err::<(), RegisterError>(
                RegisterError::AlreadyRegistered,
            ),
    {
        if self.id != 0 && self.id != selector {
            Err(RegisterError::AlreadyRegistered)
        } else {
            self.id = selector;
            Ok(())
        }
    }

    /// The association of a new handle to the same socket: the same selector.
    pub fn duplicate(&self) -> (c: SelectorId)
        ensures
            c@ == self@,
    {
        SelectorId { id: self.id }
    }
}

} // verus!
