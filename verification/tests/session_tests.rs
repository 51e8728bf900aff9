use xfwl4::session::{
    session_status, NewSessionStatus, SessionError, SessionRecord, SessionRegistry, SessionReply, SessionToplevels,
    ToplevelSessionError,
};

#[test]
fn new_session_without_id() {
    let mut reg = SessionRegistry::new();
    match reg.get_session(1, 100, None, false) {
        Ok(SessionReply::Created(id)) => {
            assert_eq!(id.len(), 32);
            assert_eq!(reg.sessions[0].id, id);
        }
        _ => panic!("expected a new session"),
    }
}

#[test]
fn session_held_by_same_client_is_in_use() {
    let mut reg = SessionRegistry::new();
    reg.sessions.push(SessionRecord { instance: 1, id: "abc".to_string(), client: Some(100) });
    assert_eq!(reg.get_session(2, 100, Some("abc".to_string()), true), Err(SessionError::InUse));
    assert_eq!(reg.sessions.len(), 1);
}

#[test]
fn session_held_by_other_client_is_replaced() {
    let mut reg = SessionRegistry::new();
    reg.sessions.push(SessionRecord { instance: 1, id: "abc".to_string(), client: Some(100) });
    assert_eq!(reg.get_session(2, 200, Some("abc".to_string()), false), Ok(SessionReply::Replaced { previous_instance: 1 }));
    assert_eq!(reg.sessions[1].id, "abc");
}

#[test]
fn known_session_is_restored_and_unknown_is_new() {
    let sessions = vec![SessionRecord { instance: 1, id: "gone".to_string(), client: None }];
    assert_eq!(
        session_status(&sessions, Some("gone".to_string()), 5, true),
        Ok(NewSessionStatus::Exists("gone".to_string()))
    );
    assert_eq!(session_status(&sessions, Some("gone".to_string()), 5, false), Ok(NewSessionStatus::CreateNew));
    let mut reg = SessionRegistry::new();
    assert_eq!(reg.get_session(3, 7, Some("x".to_string()), true), Ok(SessionReply::Restored));
    assert!(reg.remove(3));
    assert!(!reg.remove(3));
}

#[test]
fn toplevel_names_are_unique_in_a_session() {
    let mut t = SessionToplevels::new();
    assert_eq!(t.add(1, 10, "main".to_string()), Ok(()));
    assert_eq!(t.add(2, 11, "main".to_string()), Err(ToplevelSessionError::NameInUse));
    assert_eq!(t.add(3, 10, "other".to_string()), Err(ToplevelSessionError::AlreadyInSession));
    assert_eq!(t.add(4, 12, "side".to_string()), Ok(()));
    assert_eq!(t.rename(4, "main".to_string()), Err(ToplevelSessionError::NameInUse));
    assert_eq!(t.rename(4, "aside".to_string()), Ok(true));
    assert_eq!(t.rename(99, "x".to_string()), Ok(false));
    assert_eq!(t.remove_by_name(&"aside".to_string()), Some((4, 12)));
    assert_eq!(t.remove_by_name(&"aside".to_string()), None);
    assert!(t.forget_instance(1));
    assert!(t.entries.is_empty());
}
