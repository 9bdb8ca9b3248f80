//! The values a registration is made of: the token that identifies the
//! registered handle, the readiness it is interested in and the options of
//! the registration; and how they combine into one registration request.

use vstd::prelude::*;

verus! {

/// Identifies a registered handle in the readiness events of its selector.
#[derive(Clone, Copy, Debug, PartialEq, Eq, Structural)]
pub struct Token(pub usize);

/// A set of readiness kinds: readable, writable, or both.
#[derive(Clone, Copy, Debug, PartialEq, Eq, Structural)]
pub struct Ready {
    readable: bool,
    writable: bool,
}

impl View for Ready {
    /// Whether the set holds readable, and whether it holds writable.
    type V = (bool, bool);

    closed spec fn view(&self) -> (bool, bool) {
        (self.readable, self.writable)
    }
}

impl Ready {
    /// The empty set.
    pub fn empty() -> (r: Ready)
        ensures
            r@ == (false, false),
    {
        Ready { readable: false, writable: false }
    }

    /// The set that holds readable only.
    pub fn readable() -> (r: Ready)
        ensures
            r@ == (true, false),
    {
        Ready { readable: true, writable: false }
    }

    /// The set that holds writable only.
    pub fn writable() -> (r: Ready)
        ensures
            r@ == (false, true),
    {
        Ready { readable: false, writable: true }
    }

    /// Whether the set is empty.
    pub fn is_empty(&self) -> (b: bool)
        ensures
            b == (!self@.0 && !self@.1),
    {
        !self.readable && !self.writable
    }

    /// Whether the set holds readable.
    pub fn is_readable(&self) -> (b: bool)
        ensures
            b == self@.0,
    {
        self.readable
    }

    /// Whether the set holds writable.
    pub fn is_writable(&self) -> (b: bool)
        ensures
            b == self@.1,
    {
        self.writable
    }

    /// Adds the kinds of `other` to this set.
    pub fn insert(&mut self, other: Ready)
        ensures
            final(self)@ == (old(self)@.0 || other@.0, old(self)@.1 || other@.1),
    {
        self.readable = self.readable || other.readable;
        self.writable = self.writable || other.writable;
    }

    /// Whether every kind of `other` is in this set.
    pub fn contains(&self, other: Ready) -> (b: bool)
        ensures
            b == ((other@.0 ==> self@.0) && (other@.1 ==> self@.1)),
    {
        (!other.readable || self.readable) && (!other.writable || self.writable)
    }
}

/// The options of a registration: edge-triggered, level-triggered, oneshot.
#[derive(Clone, Copy, Debug, PartialEq, Eq, Structural)]
pub struct PollOpt {
    edge: bool,
    level: bool,
    oneshot: bool,
}

impl View for PollOpt {
    /// Whether edge, level and oneshot are set, in that order.
    type V = (bool, bool, bool);

    closed spec fn view(&self) -> (bool, bool, bool) {
        (self.edge, self.level, self.oneshot)
    }
}

impl PollOpt {
    /// No option set.
    pub fn empty() -> (o: PollOpt)
        ensures
            o@ == (false, false, false),
    {
        PollOpt { edge: false, level: false, oneshot: false }
    }

    /// Edge-triggered only.
    pub fn edge() -> (o: PollOpt)
        ensures
            o@ == (true, false, false),
    {
        PollOpt { edge: true, level: false, oneshot: false }
    }

    /// Level-triggered only.
    pub fn level() -> (o: PollOpt)
        ensures
            o@ == (false, true, false),
    {
        PollOpt { edge: false, level: true, oneshot: false }
    }

    /// Oneshot only.
    pub fn oneshot() -> (o: PollOpt)
        ensures
            o@ == (false, false, true),
    {
        PollOpt { edge: false, level: false, oneshot: true }
    }

    /// Whether edge-triggered is set.
    pub fn is_edge(&self) -> (b: bool)
        ensures
            b == self@.0,
    {
        self.edge
    }

    /// Whether level-triggered is set.
    pub fn is_level(&self) -> (b: bool)
        ensures
            b == self@.1,
    {
        self.level
    }

    /// Whether oneshot is set.
    pub fn is_oneshot(&self) -> (b: bool)
        ensures
            b == self@.2,
    {
        self.oneshot
    }

    /// Adds the options of `other` to these.
    pub fn insert(&mut self, other: PollOpt)
        ensures
            final(self)@ == (
                old(self)@.0 || other@.0,
                old(self)@.1 || other@.1,
                old(self)@.2 || other@.2,
            ),
    {
        self.edge = self.edge || other.edge;
        self.level = self.level || other.level;
        self.oneshot = self.oneshot || other.oneshot;
    }
}

/// How a selector reports the readiness of a registered handle.
#[derive(Clone, Copy, Debug, PartialEq, Eq, Structural)]
pub enum TriggerMode {
    /// One event, after which the registration must be renewed.
    Oneshot,
    /// An event for as long as the handle stays ready.
    Level,
    /// An event each time the handle becomes ready.
    Edge,
    /// One event on a change of readiness, after which the registration must
    /// be renewed.
    EdgeOneshot,
}

/// One registration request as a selector takes it.
#[derive(Clone, Copy, Debug, PartialEq, Eq, Structural)]
pub struct Registration {
    /// The token's value, reported back with each event.
    pub key: usize,
    /// Interest in readability.
    pub readable: bool,
    /// Interest in writability.
    pub writable: bool,
    /// How events are reported.
    pub mode: TriggerMode,
}

/// The trigger mode that the options `(edge, level, oneshot)` ask for: edge
/// triggering where edge is set (whether or not level is set too), level
/// triggering otherwise, each made oneshot where oneshot is set.
pub open spec fn trigger_mode(opts: (bool, bool, bool)) -> TriggerMode {
    if opts.0 {
        if opts.2 { TriggerMode::EdgeOneshot } else { TriggerMode::Edge }
    } else {
        if opts.2 { TriggerMode::Oneshot } else { TriggerMode::Level }
    }
}

/// The registration request that `token`, an interest whose view is
/// `interest` and options whose view is `opts` make up.
pub open spec fn registration_of(
    token: Token,
    interest: (bool, bool),
    opts: (bool, bool, bool),
) -> Registration {
    Registration {
        key: token.0,
        readable: interest.0,
        writable: interest.1,
        mode: trigger_mode(opts),
    }
}

/// Whether `mode` is edge-triggered (with or without oneshot).
pub open spec fn is_edge_mode(mode: TriggerMode) -> bool {
    mode == TriggerMode::Edge || mode == TriggerMode::EdgeOneshot
}

/// Whether `mode` is oneshot (edge-triggered or not).
pub open spec fn is_oneshot_mode(mode: TriggerMode) -> bool {
    mode == TriggerMode::Oneshot || mode == TriggerMode::EdgeOneshot
}

/// What a request made of `token`, an interest whose view is `interest` and
/// options whose view is `opts` hands on: the token's value as key, exactly
/// the readiness asked for, and a mode that is edge-triggered exactly when the
/// edge option is set and oneshot exactly when the oneshot option is set.
pub open spec fn request_carries(
    r: Registration,
    token: Token,
    interest: (bool, bool),
    opts: (bool, bool, bool),
) -> bool {
    &&& r.key == token.0
    &&& r.readable == interest.0
    &&& r.writable == interest.1
    &&& (is_edge_mode(r.mode) <==> opts.0)
    &&& (is_oneshot_mode(r.mode) <==> opts.2)
}

/// The request hands on the caller's token and exactly the readiness asked
/// for, whatever the options; its mode is edge-triggered exactly when edge is
/// set and oneshot exactly when oneshot is set, whatever the token and the
/// interest; with neither edge nor oneshot set it is level-triggered.
pub proof fn lemma_request_carries_its_inputs(
    token: Token,
    interest: (bool, bool),
    opts: (bool, bool, bool),
)
    ensures
        request_carries(registration_of(token, interest, opts), token, interest, opts),
        !opts.0 && !opts.2 ==> registration_of(token, interest, opts).mode == TriggerMode::Level,
{
}

/// The trigger mode depends on the options alone: two requests with the same
/// options have the same mode, whatever their tokens and interests.
pub proof fn lemma_mode_depends_on_options_alone(
    token1: Token,
    interest1: (bool, bool),
    token2: Token,
    interest2: (bool, bool),
    opts: (bool, bool, bool),
)
    ensures
        registration_of(token1, interest1, opts).mode == registration_of(token2, interest2, opts).mode,
{
}

/// The options fix the mode: requests whose modes agree on edge triggering
/// and on oneshot have the same mode.
pub proof fn lemma_mode_is_fixed_by_edge_and_oneshot(m1: TriggerMode, m2: TriggerMode)
    requires
        is_edge_mode(m1) == is_edge_mode(m2),
        is_oneshot_mode(m1) == is_oneshot_mode(m2),
    ensures
        m1 == m2,
{
}

/// The registration request for `token`, `interest` and `opts`.
pub fn registration(token: Token, interest: Ready, opts: PollOpt) -> (r: Registration)
    ensures
        r == registration_of(token, interest@, opts@),
        request_carries(r, token, interest@, opts@),
        r.key == token.0,
        r.readable == interest@.0,
        r.writable == interest@.1,
        is_edge_mode(r.mode) <==> opts@.0,
        is_oneshot_mode(r.mode) <==> opts@.2,
        !opts@.0 && !opts@.2 ==> r.mode == TriggerMode::Level,
{
    let mode = if opts.is_edge() {
        if opts.is_oneshot() {
            TriggerMode::EdgeOneshot
        } else {
            TriggerMode::Edge
        }
    } else if opts.is_oneshot() {
        TriggerMode::Oneshot
    } else {
        TriggerMode::Level
    };
    Registration {
        key: token.0,
        readable: interest.is_readable(),
        writable: interest.is_writable(),
        mode,
    }
}

} // verus!
