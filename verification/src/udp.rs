//! The decisions that a UDP socket makes when it is registered with a
//! selector; the socket itself, and the calls into the operating system, are
//! the program's.

use vstd::prelude::*;
use crate::event::{
    is_edge_mode, is_oneshot_mode, registration, registration_of, request_carries, PollOpt, Ready,
    Registration, Token,
};
use crate::selector::{accepts, RegisterError, SelectorId};

verus! {

/// The first step of registering a socket whose association is `selector_id`
/// with the selector `selector`: records the association and gives the request
/// to hand to the selector, whatever the token; or refuses when the socket is
/// already registered with another selector, which leaves the association as
/// it was. The association stays recorded whatever the selector then answers.
pub fn prepare_register(
    selector_id: &mut SelectorId,
    selector: usize,
    token: Token,
    interest: Ready,
    opts: PollOpt,
) -> (r: Result<Registration, RegisterError>)
    requires
        selector != 0,
    ensures
        r is Ok <==> accepts(old(selector_id)@, selector),
        r matches Ok(req) ==> final(selector_id)@ == selector && req == registration_of(
            token,
            interest@,
            opts@,
        ) && request_carries(req, token, interest@, opts@),
        r matches Ok(req) ==> req.key == token.0 && req.readable == interest@.0 && req.writable
            == interest@.1,
        r matches Ok(req) ==> (is_edge_mode(req.mode) <==> opts@.0) && (is_oneshot_mode(req.mode)
            <==> opts@.2),
        r is Err ==> final(selector_id)@ == old(selector_id)@ && r == Err::<
            Registration,
            RegisterError,
        >(RegisterError::AlreadyRegistered),
{
    match selector_id.associate_selector(selector) {
        Ok(()) => Ok(registration(token, interest, opts)),
        Err(e) => Err(e),
    }
}

/// The first step of changing an earlier registration of a socket whose
/// association is `selector_id`: the request for `token`, `interest` and
/// `opts`. It neither consults nor changes the association.
pub fn prepare_reregister(
    selector_id: &SelectorId,
    token: Token,
    interest: Ready,
    opts: PollOpt,
) -> (r: Registration)
    ensures
        r == registration_of(token, interest@, opts@),
        request_carries(r, token, interest@, opts@),
        r.key == token.0,
        r.readable == interest@.0,
        r.writable == interest@.1,
        is_edge_mode(r.mode) <==> opts@.0,
        is_oneshot_mode(r.mode) <==> opts@.2,
{
    registration(token, interest, opts)
}

/// A socket registered with the selector `first` (selector ids are nonzero)
/// may afterwards be registered again with that selector and with no other.
pub proof fn lemma_registered_socket_keeps_its_selector(first: usize, next: usize)
    requires
        first != 0,
    ensures
        accepts(first, next) <==> next == first,
{
}

/// A socket that was never registered may be registered with any selector.
pub proof fn lemma_fresh_socket_accepts_any_selector(selector: usize)
    ensures
        accepts(0, selector),
{
}

} // verus!
