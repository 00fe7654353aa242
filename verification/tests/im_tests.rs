use relay::command::Command;
use relay::error::StoreError;
use relay::im::{Outcome, IM};
use relay::cassandra::{CassandraStorer, MemoryRowStorer, RowStorer};
use relay::message::{Message, MessageStorer};
use relay::session::SessionState;
use relay::keyvalue::MemoryKeyValueStorer;
use relay::status::{ConnStatusStorer, RedisConnStatusStorer};

type Relay =
    IM<RedisConnStatusStorer<MemoryKeyValueStorer>, CassandraStorer<MemoryRowStorer>>;

fn relay() -> Relay {
    IM::new(RedisConnStatusStorer::new(MemoryKeyValueStorer::new()), CassandraStorer::new(MemoryRowStorer::new()))
}

fn contents(backlog: &[Message]) -> Vec<String> {
    backlog.iter().map(|m| m.content.clone()).collect()
}

/// Connects and logs `uid` in, flush included.
fn online(im: &mut Relay, uid: i32, now: i64) -> u64 {
    let conn = im.connect().unwrap();
    assert!(matches!(im.apply(conn, Command::Login { uid }, now), Outcome::Flushing(_)));
    assert!(matches!(im.complete_login_at(conn, now), Outcome::Activated(_)));
    conn
}

fn send(target: i32, content: &str) -> Command {
    Command::Send { target, content: String::from(content) }
}

#[test]
fn a_new_relay_has_no_session_and_no_route() {
    let im = relay();
    assert_eq!(im.state(0), SessionState::Closed);
    assert!(im.session(0).is_none());
    assert_eq!(im.lookup(1), None);
}

#[test]
fn connect_hands_out_handles_in_turn() {
    let mut im = relay();
    assert_eq!(im.connect(), Some(0));
    assert_eq!(im.connect(), Some(1));
    assert_eq!(im.state(0), SessionState::Unauthenticated);
    assert_eq!(im.state(1), SessionState::Unauthenticated);
    assert_eq!(im.state(2), SessionState::Closed);
    let session = im.session(1).unwrap();
    assert_eq!(session.handle, 1);
    assert_eq!(session.uid, None);
}

#[test]
fn a_login_walks_through_initializing_to_active() {
    let mut im = relay();
    let conn = im.connect().unwrap();
    match im.apply(conn, Command::Login { uid: 7 }, 100) {
        Outcome::Flushing(backlog) => assert!(backlog.is_empty()),
        other => panic!("unexpected: {:?}", other),
    }
    assert_eq!(im.state(conn), SessionState::Initializing);
    assert_eq!(im.session(conn).unwrap().uid, Some(7));
    assert_eq!(im.status_storer().get_init(7), Ok(true));
    assert_eq!(im.lookup(7), None);
    assert!(matches!(im.complete_login_at(conn, 101), Outcome::Activated(None)));
    assert_eq!(im.state(conn), SessionState::Active);
    assert_eq!(im.lookup(7), Some(conn));
    assert_eq!(im.status_storer().get_init(7), Ok(false));
    assert_eq!(im.status_storer().get(7), Ok(Some(101)));
}

#[test]
fn a_heartbeat_refreshes_the_presence_record() {
    let mut im = relay();
    let conn = online(&mut im, 7, 100);
    assert!(matches!(im.apply(conn, Command::HeartBeat { uid: 7 }, 160), Outcome::Refreshed));
    assert_eq!(im.status_storer().get(7), Ok(Some(160)));
    assert_eq!(im.state(conn), SessionState::Active);
    assert!(matches!(im.apply(conn, Command::HeartBeat { uid: 7 }, 220), Outcome::Refreshed));
    assert_eq!(im.status_storer().get(7), Ok(Some(220)));
}

#[test]
fn a_heartbeat_through_a_frame_is_close_to_now() {
    let mut im = relay();
    let conn = online(&mut im, 7, 100);
    let before = chrono::Utc::now().timestamp();
    assert!(matches!(im.handle(conn, "{\"type\":\"HeartBeat\",\"uid\":7}"), Outcome::Refreshed));
    let after = chrono::Utc::now().timestamp();
    let stored = im.status_storer().get(7).unwrap().unwrap();
    assert!(before <= stored && stored <= after);
}

#[test]
fn a_logout_clears_presence_route_and_session() {
    let mut im = relay();
    let conn = online(&mut im, 7, 100);
    let other = online(&mut im, 8, 100);
    assert!(matches!(im.apply(conn, Command::Logout { uid: 7 }, 130), Outcome::Closed));
    assert_eq!(im.status_storer().get(7), Ok(None));
    assert_eq!(im.lookup(7), None);
    assert_eq!(im.state(conn), SessionState::Closed);
    assert_eq!(im.status_storer().get(8), Ok(Some(100)));
    assert_eq!(im.lookup(8), Some(other));
}

#[test]
fn a_message_for_an_offline_user_waits_for_the_login() {
    let mut im = relay();
    let sender = online(&mut im, 1, 100);
    match im.handle_at(sender, "{\"type\":\"Send\",\"target\":2,\"content\":\"hi\"}", 110) {
        Outcome::Queued(message, route) => {
            assert_eq!(route, None);
            assert_eq!(message.content, "hi");
            assert_eq!(message.recipient, 2);
            assert_eq!(message.sender, 1);
            assert_eq!(message.created_at, 110);
            assert_eq!(message.message_id, "0");
            assert!(!message.acknowledged);
        }
        other => panic!("unexpected: {:?}", other),
    }
    let recipient = im.connect().unwrap();
    match im.handle_at(recipient, "{\"type\":\"Login\",\"uid\":2}", 500) {
        Outcome::Flushing(backlog) => {
            assert_eq!(backlog.len(), 1);
            assert!(backlog.iter().any(|m| m.content == "hi"));
            assert_eq!(backlog[0].message_id, "0");
            assert_eq!(backlog[0].sender, 1);
        }
        other => panic!("unexpected: {:?}", other),
    }
}

#[test]
fn the_backlog_keeps_the_order_of_sending() {
    let mut im = relay();
    let sender = online(&mut im, 1, 100);
    assert!(matches!(im.apply(sender, send(2, "a"), 110), Outcome::Queued(_, None)));
    assert!(matches!(im.apply(sender, send(2, "b"), 111), Outcome::Queued(_, None)));
    let recipient = im.connect().unwrap();
    match im.apply(recipient, Command::Login { uid: 2 }, 500) {
        Outcome::Flushing(backlog) => assert_eq!(contents(&backlog), vec!["a", "b"]),
        other => panic!("unexpected: {:?}", other),
    }
}

#[test]
fn messages_get_identifiers_in_turn() {
    let mut im = relay();
    let sender = online(&mut im, 1, 100);
    let mut identifiers = Vec::new();
    for i in 0..12 {
        match im.apply(sender, send(2 + (i % 3), "x"), 110) {
            Outcome::Queued(message, _) => identifiers.push(message.message_id),
            other => panic!("unexpected: {:?}", other),
        }
    }
    let expected: Vec<String> = (0..12).map(|i: u32| format!("{}", i)).collect();
    assert_eq!(identifiers, expected);
}

#[test]
fn a_message_for_an_online_user_is_durable_and_pushed() {
    let mut im = relay();
    let sender = online(&mut im, 1, 100);
    let recipient = online(&mut im, 2, 100);
    match im.apply(sender, send(2, "now"), 110) {
        Outcome::Queued(message, route) => {
            assert_eq!(route, Some(recipient));
            assert_eq!(message.content, "now");
        }
        other => panic!("unexpected: {:?}", other),
    }
    assert_eq!(im.message_broker().session().len(), 1);
    assert_eq!(contents(&im.message_broker().load(2).unwrap()), vec!["now"]);
}

#[test]
fn an_unacknowledged_message_is_flushed_again() {
    let mut im = relay();
    let sender = online(&mut im, 1, 100);
    let recipient = online(&mut im, 2, 100);
    assert!(matches!(im.apply(sender, send(2, "again"), 110), Outcome::Queued(_, Some(_))));
    assert_eq!(im.disconnect(recipient), Ok(()));
    let back = im.connect().unwrap();
    match im.apply(back, Command::Login { uid: 2 }, 200) {
        Outcome::Flushing(backlog) => assert_eq!(contents(&backlog), vec!["again"]),
        other => panic!("unexpected: {:?}", other),
    }
}

#[test]
fn an_acknowledged_message_is_not_flushed_again() {
    let mut im = relay();
    let sender = online(&mut im, 1, 100);
    let recipient = online(&mut im, 2, 100);
    assert!(matches!(im.apply(sender, send(2, "one"), 110), Outcome::Queued(_, Some(_))));
    assert!(matches!(im.apply(sender, send(2, "two"), 111), Outcome::Queued(_, Some(_))));
    assert!(matches!(
        im.handle_at(recipient, "{\"type\":\"Acknowledge\",\"msg_id\":\"0\"}", 120),
        Outcome::Acknowledged
    ));
    assert_eq!(im.disconnect(recipient), Ok(()));
    let back = im.connect().unwrap();
    match im.apply(back, Command::Login { uid: 2 }, 200) {
        Outcome::Flushing(backlog) => assert_eq!(contents(&backlog), vec!["two"]),
        other => panic!("unexpected: {:?}", other),
    }
}

#[test]
fn acknowledging_twice_or_an_unknown_message_is_no_error() {
    let mut im = relay();
    let sender = online(&mut im, 1, 100);
    assert!(matches!(im.apply(sender, send(2, "one"), 110), Outcome::Queued(_, None)));
    let acknowledge = |id: &str| Command::Acknowledge { msg_id: String::from(id) };
    assert!(matches!(im.apply(sender, acknowledge("0"), 120), Outcome::Acknowledged));
    let once = im.message_broker().session().get(0).unwrap();
    assert!(matches!(im.apply(sender, acknowledge("0"), 121), Outcome::Acknowledged));
    let twice = im.message_broker().session().get(0).unwrap();
    assert!(once.acknowledged && twice.acknowledged);
    assert_eq!(once.content, twice.content);
    assert_eq!(once.message_id, twice.message_id);
    assert!(matches!(im.apply(sender, acknowledge("404"), 122), Outcome::Acknowledged));
    assert_eq!(im.message_broker().session().len(), 1);
}

#[test]
fn of_two_logins_for_one_user_the_later_wins_and_the_earlier_is_closed() {
    let mut im = relay();
    let first = im.connect().unwrap();
    let second = im.connect().unwrap();
    assert!(matches!(im.apply(first, Command::Login { uid: 5 }, 100), Outcome::Flushing(_)));
    assert!(matches!(im.apply(second, Command::Login { uid: 5 }, 100), Outcome::Flushing(_)));
    assert!(matches!(im.complete_login_at(first, 101), Outcome::Activated(None)));
    assert_eq!(im.lookup(5), Some(first));
    match im.complete_login_at(second, 102) {
        Outcome::Activated(closed) => assert_eq!(closed, Some(first)),
        other => panic!("unexpected: {:?}", other),
    }
    assert_eq!(im.lookup(5), Some(second));
    assert_eq!(im.state(second), SessionState::Active);
    assert_eq!(im.state(first), SessionState::Closed);
    assert_eq!(im.status_storer().get(5), Ok(Some(102)));
}

#[test]
fn of_two_logins_the_one_that_completes_last_wins_in_the_other_order_too() {
    let mut im = relay();
    let first = im.connect().unwrap();
    let second = im.connect().unwrap();
    assert!(matches!(im.apply(first, Command::Login { uid: 5 }, 100), Outcome::Flushing(_)));
    assert!(matches!(im.apply(second, Command::Login { uid: 5 }, 100), Outcome::Flushing(_)));
    assert!(matches!(im.complete_login_at(second, 101), Outcome::Activated(None)));
    assert!(matches!(im.complete_login_at(first, 102), Outcome::Activated(Some(_))));
    assert_eq!(im.lookup(5), Some(first));
    assert_eq!(im.state(first), SessionState::Active);
    assert_eq!(im.state(second), SessionState::Closed);
}

#[test]
fn the_drop_of_a_superseded_connection_leaves_its_successor_alone() {
    let mut im = relay();
    let first = online(&mut im, 5, 100);
    let second = online(&mut im, 5, 110);
    assert_eq!(im.state(first), SessionState::Closed);
    assert_eq!(im.disconnect(first), Ok(()));
    assert_eq!(im.lookup(5), Some(second));
    assert_eq!(im.state(second), SessionState::Active);
    assert_eq!(im.status_storer().get(5), Ok(Some(110)));
}

#[test]
fn an_invalid_frame_is_refused_and_the_session_goes_on() {
    let mut im = relay();
    let conn = online(&mut im, 7, 100);
    assert!(matches!(im.handle_at(conn, "{\"type\":\"Unknown\"}", 110), Outcome::Invalid));
    assert_eq!(im.state(conn), SessionState::Active);
    assert_eq!(im.lookup(7), Some(conn));
    assert_eq!(im.status_storer().get(7), Ok(Some(100)));
    assert!(matches!(
        im.handle_at(conn, "{\"type\":\"HeartBeat\",\"uid\":7}", 120),
        Outcome::Refreshed
    ));
    assert_eq!(im.status_storer().get(7), Ok(Some(120)));
}

#[test]
fn an_invalid_frame_is_refused_in_every_state() {
    let mut im = relay();
    let conn = im.connect().unwrap();
    assert!(matches!(im.handle(conn, "not json"), Outcome::Invalid));
    assert_eq!(im.state(conn), SessionState::Unauthenticated);
    assert!(matches!(im.handle(conn, "{\"type\":\"Login\",\"uid\":3}"), Outcome::Flushing(_)));
    assert!(matches!(im.handle(conn, "{}"), Outcome::Invalid));
    assert_eq!(im.state(conn), SessionState::Initializing);
    assert!(matches!(im.handle(99, "{\"type\":\"Unknown\"}"), Outcome::Invalid));
}

#[test]
fn a_command_out_of_turn_is_rejected_and_changes_nothing() {
    let mut im = relay();
    let conn = im.connect().unwrap();
    assert!(matches!(im.apply(conn, Command::HeartBeat { uid: 7 }, 100), Outcome::Rejected));
    assert!(matches!(im.apply(conn, Command::Logout { uid: 7 }, 100), Outcome::Rejected));
    assert!(matches!(im.apply(conn, send(2, "x"), 100), Outcome::Rejected));
    assert!(matches!(
        im.apply(conn, Command::Acknowledge { msg_id: String::from("0") }, 100),
        Outcome::Rejected
    ));
    assert!(matches!(im.complete_login_at(conn, 100), Outcome::Rejected));
    assert_eq!(im.state(conn), SessionState::Unauthenticated);
    assert_eq!(im.status_storer().get(7), Ok(None));
    assert_eq!(im.message_broker().session().len(), 0);

    assert!(matches!(im.apply(conn, Command::Login { uid: 7 }, 100), Outcome::Flushing(_)));
    assert!(matches!(im.apply(conn, Command::Login { uid: 7 }, 100), Outcome::Rejected));
    assert!(matches!(im.apply(conn, Command::HeartBeat { uid: 7 }, 100), Outcome::Rejected));
    assert!(matches!(im.complete_login_at(conn, 100), Outcome::Activated(None)));
    assert!(matches!(im.apply(conn, Command::Login { uid: 7 }, 100), Outcome::Rejected));
    assert!(matches!(im.complete_login_at(conn, 100), Outcome::Rejected));
    assert_eq!(im.state(conn), SessionState::Active);
}

#[test]
fn a_command_for_another_user_is_rejected() {
    let mut im = relay();
    let conn = online(&mut im, 7, 100);
    let other = online(&mut im, 8, 100);
    assert!(matches!(im.apply(conn, Command::HeartBeat { uid: 8 }, 150), Outcome::Rejected));
    assert!(matches!(im.apply(conn, Command::Logout { uid: 8 }, 150), Outcome::Rejected));
    assert_eq!(im.status_storer().get(8), Ok(Some(100)));
    assert_eq!(im.lookup(8), Some(other));
    assert_eq!(im.state(conn), SessionState::Active);
}

#[test]
fn a_command_over_a_connection_without_a_session_is_rejected() {
    let mut im = relay();
    assert!(matches!(im.apply(3, Command::Login { uid: 7 }, 100), Outcome::Rejected));
    assert!(matches!(im.complete_login_at(3, 100), Outcome::Rejected));
    let conn = online(&mut im, 7, 100);
    assert!(matches!(im.apply(conn, Command::Logout { uid: 7 }, 100), Outcome::Closed));
    assert!(matches!(im.apply(conn, Command::HeartBeat { uid: 7 }, 100), Outcome::Rejected));
    assert!(matches!(im.apply(conn, Command::Login { uid: 7 }, 100), Outcome::Rejected));
}

#[test]
fn a_failed_append_is_reported_and_not_followed_by_a_push() {
    let mut im = relay();
    let sender = online(&mut im, 1, 100);
    let recipient = online(&mut im, 2, 100);
    im.message_broker().session().set_reachable(false);
    match im.apply(sender, send(2, "lost"), 110) {
        Outcome::Failed(error) => assert_eq!(error, StoreError::Connection),
        other => panic!("unexpected: {:?}", other),
    }
    im.message_broker().session().set_reachable(true);
    assert_eq!(im.message_broker().session().len(), 0);
    assert_eq!(im.lookup(2), Some(recipient));
    match im.apply(sender, send(2, "kept"), 111) {
        Outcome::Queued(message, route) => {
            assert_eq!(message.message_id, "0");
            assert_eq!(route, Some(recipient));
        }
        other => panic!("unexpected: {:?}", other),
    }
}

#[test]
fn a_store_out_of_reach_fails_the_command_and_changes_nothing() {
    let mut im = relay();
    let conn = online(&mut im, 7, 100);
    im.status_storer().client().set_reachable(false);
    assert!(matches!(
        im.apply(conn, Command::HeartBeat { uid: 7 }, 150),
        Outcome::Failed(StoreError::Connection)
    ));
    assert!(matches!(
        im.apply(conn, Command::Logout { uid: 7 }, 150),
        Outcome::Failed(StoreError::Connection)
    ));
    assert_eq!(im.state(conn), SessionState::Active);
    assert_eq!(im.lookup(7), Some(conn));
    im.status_storer().client().set_reachable(true);
    assert_eq!(im.status_storer().get(7), Ok(Some(100)));

    im.message_broker().session().set_reachable(false);
    assert!(matches!(
        im.apply(conn, Command::Acknowledge { msg_id: String::from("0") }, 150),
        Outcome::Failed(StoreError::Connection)
    ));
    let fresh = im.connect().unwrap();
    assert!(matches!(
        im.apply(fresh, Command::Login { uid: 9 }, 150),
        Outcome::Failed(StoreError::Connection)
    ));
    assert_eq!(im.state(fresh), SessionState::Unauthenticated);
    assert_eq!(im.status_storer().get_init(9), Ok(false));
}

#[test]
fn a_login_fails_without_the_presence_store_and_can_be_tried_again() {
    let mut im = relay();
    let conn = im.connect().unwrap();
    im.status_storer().client().set_reachable(false);
    assert!(matches!(im.apply(conn, Command::Login { uid: 9 }, 150), Outcome::Failed(_)));
    assert_eq!(im.state(conn), SessionState::Unauthenticated);
    im.status_storer().client().set_reachable(true);
    assert!(matches!(im.apply(conn, Command::Login { uid: 9 }, 151), Outcome::Flushing(_)));
    im.status_storer().client().set_reachable(false);
    assert!(matches!(im.complete_login_at(conn, 152), Outcome::Failed(_)));
    assert_eq!(im.state(conn), SessionState::Initializing);
    assert_eq!(im.lookup(9), None);
    im.status_storer().client().set_reachable(true);
    assert_eq!(im.status_storer().get(9), Ok(None));
    assert!(matches!(im.complete_login_at(conn, 153), Outcome::Activated(None)));
    assert_eq!(im.lookup(9), Some(conn));
}

#[test]
fn a_dropped_connection_is_cleaned_up_in_every_state() {
    let mut im = relay();
    let idle = im.connect().unwrap();
    assert_eq!(im.disconnect(idle), Ok(()));
    assert_eq!(im.state(idle), SessionState::Closed);

    let waiting = im.connect().unwrap();
    assert!(matches!(im.apply(waiting, Command::Login { uid: 3 }, 100), Outcome::Flushing(_)));
    assert_eq!(im.status_storer().get_init(3), Ok(true));
    assert_eq!(im.disconnect(waiting), Ok(()));
    assert_eq!(im.state(waiting), SessionState::Closed);
    assert_eq!(im.status_storer().get_init(3), Ok(false));

    let active = online(&mut im, 4, 100);
    assert_eq!(im.disconnect(active), Ok(()));
    assert_eq!(im.state(active), SessionState::Closed);
    assert_eq!(im.lookup(4), None);
    assert_eq!(im.status_storer().get(4), Ok(None));

    assert_eq!(im.disconnect(active), Ok(()));
    assert_eq!(im.disconnect(12345), Ok(()));
}

#[test]
fn a_dropped_connection_is_closed_even_when_the_store_is_out_of_reach() {
    let mut im = relay();
    let active = online(&mut im, 4, 100);
    im.status_storer().client().set_reachable(false);
    assert_eq!(im.disconnect(active), Err(StoreError::Connection));
    assert_eq!(im.state(active), SessionState::Closed);
    assert_eq!(im.lookup(4), None);
    im.status_storer().client().set_reachable(true);
    assert_eq!(im.status_storer().get(4), Ok(Some(100)));
}

#[test]
fn complete_login_takes_the_time_of_the_clock() {
    let mut im = relay();
    let conn = im.connect().unwrap();
    assert!(matches!(im.handle(conn, "{\"type\":\"Login\",\"uid\":6}"), Outcome::Flushing(_)));
    let before = chrono::Utc::now().timestamp();
    assert!(matches!(im.complete_login(conn), Outcome::Activated(None)));
    let after = chrono::Utc::now().timestamp();
    let stored = im.status_storer().get(6).unwrap().unwrap();
    assert!(before <= stored && stored <= after);
}

#[test]
fn a_sender_may_write_to_itself() {
    let mut im = relay();
    let conn = online(&mut im, 1, 100);
    match im.apply(conn, send(1, "note"), 110) {
        Outcome::Queued(message, route) => {
            assert_eq!(route, Some(conn));
            assert_eq!(message.sender, 1);
            assert_eq!(message.recipient, 1);
        }
        other => panic!("unexpected: {:?}", other),
    }
}

#[test]
fn a_relay_goes_on_numbering_where_it_is_told_to() {
    let mut im: Relay = IM::starting_at(
        RedisConnStatusStorer::new(MemoryKeyValueStorer::new()),
        CassandraStorer::new(MemoryRowStorer::new()),
        41,
    );
    let sender = online(&mut im, 1, 100);
    match im.apply(sender, send(2, "a"), 110) {
        Outcome::Queued(message, _) => assert_eq!(message.message_id, "41"),
        other => panic!("unexpected: {:?}", other),
    }
    match im.apply(sender, send(2, "b"), 110) {
        Outcome::Queued(message, _) => assert_eq!(message.message_id, "42"),
        other => panic!("unexpected: {:?}", other),
    }
}

#[test]
fn a_relay_without_identifiers_left_sends_nothing() {
    let mut im: Relay = IM::starting_at(
        RedisConnStatusStorer::new(MemoryKeyValueStorer::new()),
        CassandraStorer::new(MemoryRowStorer::new()),
        u64::MAX - 1,
    );
    let sender = online(&mut im, 1, 100);
    let recipient = online(&mut im, 2, 100);
    match im.apply(sender, send(2, "last"), 110) {
        Outcome::Queued(message, route) => {
            assert_eq!(message.message_id, "18446744073709551614");
            assert_eq!(route, Some(recipient));
        }
        other => panic!("unexpected: {:?}", other),
    }
    assert!(matches!(im.apply(sender, send(2, "none"), 111), Outcome::Exhausted));
    assert!(matches!(im.apply(sender, send(2, "none"), 112), Outcome::Exhausted));
    assert_eq!(im.message_broker().session().len(), 1);
    assert_eq!(im.state(sender), SessionState::Active);
    let idle = im.connect().unwrap();
    assert!(matches!(im.apply(idle, send(2, "none"), 113), Outcome::Rejected));
}

#[test]
fn a_relay_started_at_the_length_of_the_table_hands_out_fresh_identifiers() {
    let mut table = MemoryRowStorer::new();
    for (number, content) in ["a", "b", "c"].iter().enumerate() {
        table
            .insert(Message {
                message_id: format!("{}", number),
                sender: 1,
                recipient: 2,
                content: String::from(*content),
                created_at: 50,
                acknowledged: false,
            })
            .unwrap();
    }
    let first = table.len() as u64;
    let mut im: Relay = IM::starting_at(
        RedisConnStatusStorer::new(MemoryKeyValueStorer::new()),
        CassandraStorer::new(table),
        first,
    );
    let sender = online(&mut im, 1, 100);
    match im.apply(sender, send(2, "d"), 110) {
        Outcome::Queued(message, _) => assert_eq!(message.message_id, "3"),
        other => panic!("unexpected: {:?}", other),
    }
    let recipient = im.connect().unwrap();
    match im.apply(recipient, Command::Login { uid: 2 }, 120) {
        Outcome::Flushing(backlog) => {
            assert_eq!(contents(&backlog), vec!["a", "b", "c", "d"]);
            let identifiers: Vec<String> = backlog.iter().map(|m| m.message_id.clone()).collect();
            assert_eq!(identifiers, vec!["0", "1", "2", "3"]);
        }
        other => panic!("unexpected: {:?}", other),
    }
}
