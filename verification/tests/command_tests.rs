use relay::command::{command_from_parts, decode, invalid_command_notice, uid_from, Command};

#[test]
fn decodes_a_heartbeat() {
    match decode("{\"type\":\"HeartBeat\",\"uid\":7}") {
        Some(Command::HeartBeat { uid }) => assert_eq!(uid, 7),
        other => panic!("unexpected: {:?}", other),
    }
}

#[test]
fn decodes_a_login() {
    match decode("{\"type\":\"Login\",\"uid\":2}") {
        Some(Command::Login { uid }) => assert_eq!(uid, 2),
        other => panic!("unexpected: {:?}", other),
    }
}

#[test]
fn decodes_a_logout() {
    match decode("{\"type\":\"Logout\",\"uid\":-4}") {
        Some(Command::Logout { uid }) => assert_eq!(uid, -4),
        other => panic!("unexpected: {:?}", other),
    }
}

#[test]
fn decodes_a_send() {
    match decode("{\"type\":\"Send\",\"target\":2,\"content\":\"hi\"}") {
        Some(Command::Send { target, content }) => {
            assert_eq!(target, 2);
            assert_eq!(content, "hi");
        }
        other => panic!("unexpected: {:?}", other),
    }
}

#[test]
fn decodes_an_acknowledge() {
    match decode("{\"type\":\"Acknowledge\",\"msg_id\":\"17\"}") {
        Some(Command::Acknowledge { msg_id }) => assert_eq!(msg_id, "17"),
        other => panic!("unexpected: {:?}", other),
    }
}

#[test]
fn decodes_escapes_and_whitespace_as_json_does() {
    match decode(" { \"content\" : \"a\\n\\u00e9\" , \"target\" : 3 , \"type\" : \"Send\" } ") {
        Some(Command::Send { target, content }) => {
            assert_eq!(target, 3);
            assert_eq!(content, "a\n\u{e9}");
        }
        other => panic!("unexpected: {:?}", other),
    }
}

#[test]
fn members_that_a_command_does_not_need_are_not_looked_at() {
    match decode("{\"type\":\"HeartBeat\",\"uid\":1,\"content\":5,\"extra\":[1,2]}") {
        Some(Command::HeartBeat { uid }) => assert_eq!(uid, 1),
        other => panic!("unexpected: {:?}", other),
    }
}

#[test]
fn refuses_an_unknown_type() {
    assert!(decode("{\"type\":\"Unknown\"}").is_none());
    assert!(decode("{\"type\":\"heartbeat\",\"uid\":1}").is_none());
    assert!(decode("{\"type\":7,\"uid\":1}").is_none());
    assert!(decode("{\"uid\":1}").is_none());
}

#[test]
fn refuses_what_is_no_json_object() {
    assert!(decode("").is_none());
    assert!(decode("hello").is_none());
    assert!(decode("{\"type\":\"HeartBeat\",\"uid\":1").is_none());
    assert!(decode("[\"HeartBeat\",1]").is_none());
    assert!(decode("\"HeartBeat\"").is_none());
    assert!(decode("{\"type\":\"HeartBeat\",\"uid\":1} trailing").is_none());
}

#[test]
fn refuses_a_command_without_its_members() {
    assert!(decode("{\"type\":\"HeartBeat\"}").is_none());
    assert!(decode("{\"type\":\"Login\",\"target\":1}").is_none());
    assert!(decode("{\"type\":\"Send\",\"target\":1}").is_none());
    assert!(decode("{\"type\":\"Send\",\"content\":\"x\"}").is_none());
    assert!(decode("{\"type\":\"Acknowledge\",\"uid\":1}").is_none());
}

#[test]
fn refuses_members_of_the_wrong_kind() {
    assert!(decode("{\"type\":\"HeartBeat\",\"uid\":\"1\"}").is_none());
    assert!(decode("{\"type\":\"HeartBeat\",\"uid\":1.5}").is_none());
    assert!(decode("{\"type\":\"HeartBeat\",\"uid\":1.0}").is_none());
    assert!(decode("{\"type\":\"HeartBeat\",\"uid\":null}").is_none());
    assert!(decode("{\"type\":\"Send\",\"target\":1,\"content\":7}").is_none());
    assert!(decode("{\"type\":\"Acknowledge\",\"msg_id\":17}").is_none());
}

#[test]
fn refuses_a_uid_outside_the_range() {
    assert!(decode("{\"type\":\"HeartBeat\",\"uid\":2147483648}").is_none());
    assert!(decode("{\"type\":\"HeartBeat\",\"uid\":-2147483649}").is_none());
    assert!(decode("{\"type\":\"HeartBeat\",\"uid\":18446744073709551615}").is_none());
    match decode("{\"type\":\"HeartBeat\",\"uid\":2147483647}") {
        Some(Command::HeartBeat { uid }) => assert_eq!(uid, i32::MAX),
        other => panic!("unexpected: {:?}", other),
    }
    match decode("{\"type\":\"HeartBeat\",\"uid\":-2147483648}") {
        Some(Command::HeartBeat { uid }) => assert_eq!(uid, i32::MIN),
        other => panic!("unexpected: {:?}", other),
    }
}

#[test]
fn uid_from_keeps_what_fits() {
    assert_eq!(uid_from(None), None);
    assert_eq!(uid_from(Some(0)), Some(0));
    assert_eq!(uid_from(Some(2147483647)), Some(i32::MAX));
    assert_eq!(uid_from(Some(2147483648)), None);
    assert_eq!(uid_from(Some(-2147483648)), Some(i32::MIN));
    assert_eq!(uid_from(Some(-2147483649)), None);
    assert_eq!(uid_from(Some(i64::MAX)), None);
    assert_eq!(uid_from(Some(i64::MIN)), None);
}

#[test]
fn command_from_parts_builds_each_command() {
    let text = |s: &str| Some(String::from(s));
    assert!(matches!(
        command_from_parts(text("HeartBeat"), Some(1), None, None, None),
        Some(Command::HeartBeat { uid: 1 })
    ));
    assert!(matches!(
        command_from_parts(text("Login"), Some(2), None, None, None),
        Some(Command::Login { uid: 2 })
    ));
    assert!(matches!(
        command_from_parts(text("Logout"), Some(3), None, None, None),
        Some(Command::Logout { uid: 3 })
    ));
    match command_from_parts(text("Send"), None, Some(4), text("hello"), None) {
        Some(Command::Send { target, content }) => {
            assert_eq!(target, 4);
            assert_eq!(content, "hello");
        }
        other => panic!("unexpected: {:?}", other),
    }
    match command_from_parts(text("Acknowledge"), None, None, None, text("m1")) {
        Some(Command::Acknowledge { msg_id }) => assert_eq!(msg_id, "m1"),
        other => panic!("unexpected: {:?}", other),
    }
}

#[test]
fn command_from_parts_refuses_what_is_incomplete() {
    let text = |s: &str| Some(String::from(s));
    assert!(command_from_parts(None, Some(1), Some(1), text("x"), text("y")).is_none());
    assert!(command_from_parts(text("Nothing"), Some(1), Some(1), text("x"), text("y")).is_none());
    assert!(command_from_parts(text("HeartBeat"), None, Some(1), None, None).is_none());
    assert!(command_from_parts(text("Login"), Some(1 << 40), None, None, None).is_none());
    assert!(command_from_parts(text("Send"), Some(1), None, text("x"), None).is_none());
    assert!(command_from_parts(text("Send"), Some(1), Some(1), None, None).is_none());
    assert!(command_from_parts(text("Acknowledge"), Some(1), Some(1), text("x"), None).is_none());
}

#[test]
fn the_notice_is_the_literal_text() {
    assert_eq!(invalid_command_notice(), "invalid command");
}
