use mio_udp::event::{registration, PollOpt, Ready, Registration, Token, TriggerMode};

#[test]
fn ready_constructors() {
    assert!(Ready::readable().is_readable());
    assert!(!Ready::readable().is_writable());
    assert!(Ready::writable().is_writable());
    assert!(!Ready::writable().is_readable());
    assert!(Ready::empty().is_empty());
    assert!(!Ready::readable().is_empty());
}

#[test]
fn ready_insert_and_contains() {
    let mut r = Ready::empty();
    r.insert(Ready::readable());
    assert_eq!(r, Ready::readable());
    r.insert(Ready::writable());
    assert!(r.is_readable() && r.is_writable());
    assert!(r.contains(Ready::readable()));
    assert!(r.contains(Ready::writable()));
    assert!(!Ready::readable().contains(Ready::writable()));
    assert!(Ready::readable().contains(Ready::empty()));
}

#[test]
fn poll_opt_constructors_and_insert() {
    assert!(PollOpt::edge().is_edge() && !PollOpt::edge().is_level() && !PollOpt::edge().is_oneshot());
    assert!(PollOpt::level().is_level() && !PollOpt::level().is_edge());
    assert!(PollOpt::oneshot().is_oneshot() && !PollOpt::oneshot().is_edge());
    let mut o = PollOpt::empty();
    assert!(!o.is_edge() && !o.is_level() && !o.is_oneshot());
    o.insert(PollOpt::edge());
    o.insert(PollOpt::oneshot());
    assert!(o.is_edge() && o.is_oneshot() && !o.is_level());
}

#[test]
fn trigger_modes() {
    let mut eo = PollOpt::edge();
    eo.insert(PollOpt::oneshot());
    let mut lo = PollOpt::level();
    lo.insert(PollOpt::oneshot());
    let t = Token(0);
    let r = Ready::readable();
    assert_eq!(registration(t, r, PollOpt::edge()).mode, TriggerMode::Edge);
    assert_eq!(registration(t, r, eo).mode, TriggerMode::EdgeOneshot);
    assert_eq!(registration(t, r, PollOpt::level()).mode, TriggerMode::Level);
    assert_eq!(registration(t, r, PollOpt::empty()).mode, TriggerMode::Level);
    assert_eq!(registration(t, r, PollOpt::oneshot()).mode, TriggerMode::Oneshot);
    assert_eq!(registration(t, r, lo).mode, TriggerMode::Oneshot);
}

#[test]
fn registration_carries_token_and_interest() {
    assert_eq!(
        registration(Token(7), Ready::writable(), PollOpt::level()),
        Registration { key: 7, readable: false, writable: true, mode: TriggerMode::Level }
    );
    assert_eq!(
        registration(Token(0), Ready::empty(), PollOpt::edge()),
        Registration { key: 0, readable: false, writable: false, mode: TriggerMode::Edge }
    );
}
