use presence_relay::handler::{HandlerEvent, SessionHandler};
use presence_relay::hub::Hub;
use presence_relay::roster::Roster;
use presence_relay::session::{ClientAuth, UpdateEvent, UserStore, Vec2i};

fn auth(username: &str, pass_hash: u64) -> ClientAuth {
    ClientAuth { username: username.to_string(), pass_hash }
}

fn movement(username: &str, x: i32, y: i32, logout: bool) -> UpdateEvent {
    UpdateEvent {
        username: username.to_string(),
        pos: Vec2i { x, y },
        speed: Vec2i { x: 0, y: 0 },
        location: "outside".to_string(),
        logout,
    }
}

#[test]
fn fresh_user_gets_default_authenticated_state() {
    // A fresh server: no stored record for "alice".
    let handler = SessionHandler::new();
    let (next, action) = handler.step(HandlerEvent::AuthMessage(Some((auth("alice", 7), None))));

    let delivered = action.deliver.expect("state is delivered");
    assert_eq!(delivered.username, "alice");
    assert!(delivered.authenticated);
    assert_eq!(delivered.pos, Vec2i { x: 0, y: 0 });
    assert_eq!(delivered.speed, Vec2i { x: 0, y: 0 });
    assert_eq!(delivered.location, "outside");
    assert_eq!(delivered.current_quest_id, 0);
    assert!(delivered.complete_quest_ids.is_empty());
    assert!(action.publish.is_none());
    assert!(action.persist.is_none());
    assert!(!action.close);
    assert!(matches!(next, SessionHandler::Streaming { .. }));
}

#[test]
fn stored_user_with_matching_credential_gets_stored_state() {
    let mut stored = UserStore::new("alice", 7);
    stored.state.pos = Vec2i { x: 3, y: 4 };
    stored.state.location = "library".to_string();

    let handler = SessionHandler::new();
    let (next, action) =
        handler.step(HandlerEvent::AuthMessage(Some((auth("alice", 7), Some(stored)))));

    let delivered = action.deliver.expect("state is delivered");
    assert!(delivered.authenticated);
    assert_eq!(delivered.pos, Vec2i { x: 3, y: 4 });
    assert_eq!(delivered.location, "library");
    assert!(!action.close);
    assert!(matches!(next, SessionHandler::Streaming { .. }));
}

#[test]
fn credential_mismatch_is_delivered_then_closed() {
    let stored = UserStore::new("alice", 7);
    let handler = SessionHandler::new();
    let (next, action) =
        handler.step(HandlerEvent::AuthMessage(Some((auth("alice", 8), Some(stored)))));

    // The rejection is delivered, not silently dropped, and nothing is
    // persisted for a rejected session.
    let delivered = action.deliver.expect("rejection state is delivered");
    assert!(!delivered.authenticated);
    assert_eq!(delivered.username, "alice");
    assert!(action.persist.is_none());
    assert!(action.close);
    assert!(matches!(next, SessionHandler::Done));
}

#[test]
fn missing_auth_frame_closes_without_persisting() {
    let handler = SessionHandler::new();
    let (next, action) = handler.step(HandlerEvent::AuthMessage(None));
    assert!(action.deliver.is_none());
    assert!(action.publish.is_none());
    assert!(action.persist.is_none());
    assert!(action.close);
    assert!(matches!(next, SessionHandler::Done));
}

#[test]
fn close_after_valid_auth_persists_exactly_the_established_state() {
    // A valid auth frame followed by a socket close: the handler terminates
    // and persistence sees the authenticated record, nothing partial.
    let handler = SessionHandler::new();
    let (streaming, _) = handler.step(HandlerEvent::AuthMessage(Some((auth("alice", 7), None))));
    let (done, action) = streaming.step(HandlerEvent::ConnectionLost);

    let persisted = action.persist.expect("teardown persists the record");
    assert_eq!(persisted.username, "alice");
    assert_eq!(persisted.pass_hash, 7);
    assert!(persisted.state.authenticated);
    assert_eq!(persisted.state.location, "outside");
    assert!(action.close);
    assert!(matches!(done, SessionHandler::Done));
}

#[test]
fn update_is_applied_and_published_without_exiting() {
    let handler = SessionHandler::new();
    let (streaming, _) = handler.step(HandlerEvent::AuthMessage(Some((auth("alice", 7), None))));
    let (next, action) = streaming.step(HandlerEvent::UpdateMessage(movement("alice", 5, 5, false)));

    let published = action.publish.expect("update is published to the hub");
    assert_eq!(published.username, "alice");
    assert_eq!(published.pos, Vec2i { x: 5, y: 5 });
    assert!(action.persist.is_none());
    assert!(!action.close);
    assert!(matches!(next, SessionHandler::Streaming { .. }));
}

#[test]
fn logout_update_exits_and_persists_final_state() {
    let handler = SessionHandler::new();
    let (streaming, _) = handler.step(HandlerEvent::AuthMessage(Some((auth("alice", 7), None))));
    let (done, action) = streaming.step(HandlerEvent::UpdateMessage(movement("alice", 9, 2, true)));

    assert!(matches!(done, SessionHandler::Done));
    assert!(action.close);
    let published = action.publish.expect("the final event is still published");
    assert!(published.logout);
    let persisted = action.persist.expect("teardown persists the record");
    assert_eq!(persisted.state.pos, Vec2i { x: 9, y: 2 });
    assert!(persisted.state.authenticated);
}

#[test]
fn fan_out_reaches_other_session_but_not_the_sender() {
    // Alice is session 1, bob session 2; both subscribed before the publish.
    let mut hub = Hub::new(16);
    let mut alice_sub = hub.subscribe();
    let mut bob_sub = hub.subscribe();

    hub.publish(1, movement("alice", 5, 5, false));

    let bob_sees = bob_sub.drain_others(&hub, 2);
    assert_eq!(bob_sees.len(), 1);
    assert_eq!(bob_sees[0].username, "alice");
    assert_eq!(bob_sees[0].pos, Vec2i { x: 5, y: 5 });
    assert!(!bob_sees[0].logout);

    let alice_sees = alice_sub.drain_others(&hub, 1);
    assert!(alice_sees.is_empty());
}

#[test]
fn fan_out_preserves_delivery_order() {
    let mut hub = Hub::new(16);
    let mut bob_sub = hub.subscribe();
    hub.publish(1, movement("alice", 1, 1, false));
    hub.publish(3, movement("carol", 2, 2, false));
    hub.publish(1, movement("alice", 3, 3, false));

    let bob_sees = bob_sub.drain_others(&hub, 2);
    let got: Vec<(String, i32)> =
        bob_sees.iter().map(|e| (e.username.clone(), e.pos.x)).collect();
    assert_eq!(
        got,
        vec![
            ("alice".to_string(), 1),
            ("carol".to_string(), 2),
            ("alice".to_string(), 3),
        ]
    );
}

#[test]
fn slow_subscriber_loses_oldest_events_only() {
    let mut hub = Hub::new(2);
    let mut sub = hub.subscribe();
    hub.publish(1, movement("alice", 1, 1, false));
    hub.publish(1, movement("alice", 2, 2, false));
    hub.publish(1, movement("alice", 3, 3, false));

    // Capacity 2: the first event was dropped for this lagging subscriber.
    let seen = sub.drain_others(&hub, 9);
    let xs: Vec<i32> = seen.iter().map(|e| e.pos.x).collect();
    assert_eq!(xs, vec![2, 3]);
}

#[test]
fn subscriber_joining_late_sees_only_later_events() {
    let mut hub = Hub::new(16);
    hub.publish(1, movement("alice", 1, 1, false));
    let mut sub = hub.subscribe();
    hub.publish(1, movement("alice", 2, 2, false));

    let seen = sub.drain_others(&hub, 9);
    let xs: Vec<i32> = seen.iter().map(|e| e.pos.x).collect();
    assert_eq!(xs, vec![2]);
}

#[test]
fn logout_event_removes_user_from_receiving_roster() {
    // Alice logs out; after bob's next drain cycle his roster no longer
    // contains her, and the persistence action carried her final state.
    let mut hub = Hub::new(16);
    let mut bob_sub = hub.subscribe();
    let mut bob_roster = Roster::new();

    let handler = SessionHandler::new();
    let (streaming, _) = handler.step(HandlerEvent::AuthMessage(Some((auth("alice", 7), None))));
    let (_, move_action) =
        streaming.step(HandlerEvent::UpdateMessage(movement("alice", 5, 5, false)));
    hub.publish(1, move_action.publish.expect("published"));

    bob_roster.apply_events(&bob_sub.drain_others(&hub, 2));
    assert!(bob_roster.contains_user("alice"));
    let entry = bob_roster.lookup("alice").expect("alice is visible");
    assert_eq!(entry.pos, Vec2i { x: 5, y: 5 });

    // The logout event reaches bob through the same path.
    let handler = SessionHandler::new();
    let (streaming, _) = handler.step(HandlerEvent::AuthMessage(Some((auth("alice", 7), None))));
    let (_, bye_action) =
        streaming.step(HandlerEvent::UpdateMessage(movement("alice", 5, 5, true)));
    let persisted = bye_action.persist.expect("logout persists");
    assert_eq!(persisted.state.pos, Vec2i { x: 5, y: 5 });
    hub.publish(1, bye_action.publish.expect("published"));

    bob_roster.apply_events(&bob_sub.drain_others(&hub, 2));
    assert!(!bob_roster.contains_user("alice"));
    assert!(bob_roster.lookup("alice").is_none());
}

#[test]
fn roster_replaces_entries_last_write_wins() {
    let mut roster = Roster::new();
    roster.apply_event(&movement("alice", 1, 1, false));
    roster.apply_event(&movement("bob", 7, 7, false));
    roster.apply_event(&movement("alice", 2, 9, false));

    let entry = roster.lookup("alice").expect("alice is visible");
    assert_eq!(entry.pos, Vec2i { x: 2, y: 9 });
    let entry = roster.lookup("bob").expect("bob is visible");
    assert_eq!(entry.pos, Vec2i { x: 7, y: 7 });
    assert!(roster.lookup("carol").is_none());
}
