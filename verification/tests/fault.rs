use easytier_ios::fault::{has_nul, ret, Fault};

#[test]
fn success_is_zero() {
    let reply = ret(true, Ok(()));
    assert_eq!(reply.code, 0);
    assert!(reply.message.is_none());
}

#[test]
fn failure_hands_its_message_over() {
    let reply = ret(true, Err(Fault::NoInstance));
    assert_eq!(reply.code, -1);
    assert_eq!(reply.message, Some("no running instance".to_owned()));
}

#[test]
fn failure_without_a_place_is_only_a_code() {
    let reply = ret(false, Err(Fault::NoInstance));
    assert_eq!(reply.code, -1);
    assert!(reply.message.is_none());
}

#[test]
fn message_with_a_nul_is_not_handed_over() {
    let reply = ret(true, Err(Fault::Outside("a\0b".to_owned())));
    assert_eq!(reply.code, -1);
    assert!(reply.message.is_none());
}

#[test]
fn nul_is_found_anywhere() {
    assert!(!has_nul(""));
    assert!(!has_nul("\u{e9}0\\0"));
    assert!(has_nul("\0"));
    assert!(has_nul("\u{1f600}\0"));
}

#[test]
fn messages_are_worded() {
    assert_eq!(Fault::NullConfig.message(), "cfg_str is nullptr");
    assert_eq!(Fault::NullJson.message(), "json is a nullptr");
    assert_eq!(Fault::NullMsg.message(), "msg is a nullptr");
    assert_eq!(Fault::NullCallback.message(), "callback is null");
    assert_eq!(Fault::NoInstance.message(), "no running instance");
    assert_eq!(Fault::InstanceNotFound.message(), "instance not found");
    assert_eq!(Fault::NoSubscriber.message(), "no event subscriber");
    assert_eq!(Fault::NotReady.message(), "running info not ready yet");
    assert_eq!(Fault::NoLogger.message(), "logger is not initialized");
    assert_eq!(
        Fault::KeyMismatch.message(),
        "local public key does not match local private key"
    );
    assert_eq!(Fault::Outside("x".to_owned()).message(), "x");
}
