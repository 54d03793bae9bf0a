use user_auth::{
    relay_removal, remove_user, AuthError, RemovalAction, RemovalDelegate, RemovalEvent,
    RemovalPhase, RemovalReply, RemovedAccount,
};

fn not_found_reply() -> RemovalReply {
    RemovalReply { message: "User not found".to_string(), account: None }
}

#[test]
fn removal_with_invalid_id_is_bad_request_without_call() {
    let mut d = RemovalDelegate::new();
    let a = d.step(RemovalEvent::Requested("not-a-valid-id".to_string()));
    assert!(matches!(a, RemovalAction::Fail(AuthError::InvalidUserId)));
    assert_eq!(d.phase, RemovalPhase::Failed);
    assert_eq!(AuthError::InvalidUserId.status(), 400);
    // A late reply does not revive a failed removal.
    let later = d.step(RemovalEvent::Replied(not_found_reply()));
    assert!(matches!(later, RemovalAction::Ignore));
    assert_eq!(d.phase, RemovalPhase::Failed);
}

#[test]
fn removal_relays_remote_verdict_verbatim() {
    let mut d = RemovalDelegate::new();
    let a = d.step(RemovalEvent::Requested("65A1B2C3D4E5F60718293A4B".to_string()));
    match a {
        RemovalAction::CallRemote(req) => assert_eq!(req.id, "65a1b2c3d4e5f60718293a4b"),
        _ => panic!("expected a remote call"),
    }
    assert_eq!(d.phase, RemovalPhase::Delegating);
    let a = d.step(RemovalEvent::Replied(not_found_reply()));
    match a {
        RemovalAction::Respond(reply) => {
            assert_eq!(reply.message, "User not found");
            assert!(reply.account.is_none());
        }
        _ => panic!("expected the reply"),
    }
    assert_eq!(d.phase, RemovalPhase::Done);
}

#[test]
fn removal_relays_removed_account() {
    let reply = RemovalReply {
        message: "User removed successfully".to_string(),
        account: Some(RemovedAccount {
            id: "65a1b2c3d4e5f60718293a4b".to_string(),
            username: "alice".to_string(),
            role: "user".to_string(),
        }),
    };
    let relayed = relay_removal(Some(reply)).unwrap();
    assert_eq!(relayed.message, "User removed successfully");
    assert_eq!(relayed.account.unwrap().username, "alice");
}

#[test]
fn removal_with_unreachable_service_is_upstream_unavailable() {
    let mut d = RemovalDelegate::new();
    let _ = d.step(RemovalEvent::Requested("65a1b2c3d4e5f60718293a4b".to_string()));
    let a = d.step(RemovalEvent::TransportFailed);
    assert!(matches!(a, RemovalAction::Fail(AuthError::UpstreamUnavailable)));
    assert_eq!(d.phase, RemovalPhase::Failed);
    assert_eq!(AuthError::UpstreamUnavailable.status(), 503);
    assert_eq!(relay_removal(None).err(), Some(AuthError::UpstreamUnavailable));
}

#[test]
fn removal_request_validation() {
    assert_eq!(remove_user("not-a-valid-id").err(), Some(AuthError::InvalidUserId));
    assert_eq!(remove_user("65a1b2c3d4e5f60718293a4b").unwrap().id, "65a1b2c3d4e5f60718293a4b");
}

#[test]
fn reply_before_request_is_ignored() {
    let mut d = RemovalDelegate::new();
    let a = d.step(RemovalEvent::TransportFailed);
    assert!(matches!(a, RemovalAction::Ignore));
    assert_eq!(d.phase, RemovalPhase::Idle);
}
