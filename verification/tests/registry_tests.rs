use relay::registry::Registry;
use relay::session::{Session, SessionState};

#[test]
fn a_new_registry_routes_no_one() {
    let registry = Registry::new();
    assert_eq!(registry.lookup(1), None);
    assert_eq!(registry.lookup(-1), None);
}

#[test]
fn register_routes_the_user() {
    let mut registry = Registry::new();
    assert_eq!(registry.register(5, 10), None);
    assert_eq!(registry.lookup(5), Some(10));
    assert_eq!(registry.lookup(6), None);
}

#[test]
fn the_later_registration_wins_and_names_the_earlier_session() {
    let mut registry = Registry::new();
    assert_eq!(registry.register(5, 10), None);
    assert_eq!(registry.register(5, 11), Some(10));
    assert_eq!(registry.lookup(5), Some(11));
}

#[test]
fn registering_the_same_session_again_supersedes_nothing() {
    let mut registry = Registry::new();
    assert_eq!(registry.register(5, 10), None);
    assert_eq!(registry.register(5, 10), None);
    assert_eq!(registry.lookup(5), Some(10));
}

#[test]
fn unregister_removes_the_route_of_the_session() {
    let mut registry = Registry::new();
    registry.register(5, 10);
    registry.register(6, 12);
    assert!(registry.unregister(5, 10));
    assert_eq!(registry.lookup(5), None);
    assert_eq!(registry.lookup(6), Some(12));
    assert!(!registry.unregister(5, 10));
}

#[test]
fn a_stale_unregister_is_a_no_op() {
    let mut registry = Registry::new();
    registry.register(5, 10);
    registry.register(5, 11);
    assert!(!registry.unregister(5, 10));
    assert_eq!(registry.lookup(5), Some(11));
    assert!(!registry.unregister(7, 11));
    assert_eq!(registry.lookup(5), Some(11));
}

#[test]
fn a_session_starts_unauthenticated() {
    let session = Session::new(3);
    assert_eq!(session.handle, 3);
    assert_eq!(session.uid, None);
    assert_eq!(session.state, SessionState::Unauthenticated);
}

#[test]
fn a_session_walks_through_its_states() {
    let session = Session::new(3);
    let initializing = session.begin_login(9).unwrap();
    assert_eq!(initializing.state, SessionState::Initializing);
    assert_eq!(initializing.uid, Some(9));
    assert_eq!(initializing.handle, 3);
    let active = initializing.activate().unwrap();
    assert_eq!(active.state, SessionState::Active);
    assert_eq!(active.uid, Some(9));
    assert_eq!(active.handle, 3);
}

#[test]
fn a_session_takes_no_step_out_of_turn() {
    let session = Session::new(3);
    assert!(session.activate().is_none());
    let initializing = session.begin_login(9).unwrap();
    assert!(initializing.begin_login(10).is_none());
    let active = initializing.activate().unwrap();
    assert!(active.begin_login(10).is_none());
    assert!(active.activate().is_none());
    let closed = Session { handle: 3, uid: None, state: SessionState::Closed };
    assert!(closed.begin_login(1).is_none());
    assert!(closed.activate().is_none());
}
