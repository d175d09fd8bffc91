use presence_relay::controller::{
    add_server, remove_server, step, ConnEvent, ConnPhase, EventQueue,
};
use presence_relay::session::{UpdateEvent, Vec2i};

fn movement(x: i32) -> UpdateEvent {
    UpdateEvent {
        username: "alice".to_string(),
        pos: Vec2i { x, y: 0 },
        speed: Vec2i { x: 0, y: 0 },
        location: "outside".to_string(),
        logout: false,
    }
}

#[test]
fn happy_path_reaches_connected() {
    let mut phase = ConnPhase::SelectingServer;
    phase = step(phase, ConnEvent::ServerChosen);
    assert_eq!(phase, ConnPhase::Connecting);
    phase = step(phase, ConnEvent::ConnectSucceeded);
    assert_eq!(phase, ConnPhase::Authenticating);
    phase = step(phase, ConnEvent::AuthSent);
    assert_eq!(phase, ConnPhase::AwaitingState);
    phase = step(phase, ConnEvent::StateReceived { authenticated: true });
    assert_eq!(phase, ConnPhase::Connected);
}

#[test]
fn connect_failures_always_return_to_selection() {
    // One failure.
    let phase = step(ConnPhase::Connecting, ConnEvent::ConnectFailed);
    assert_eq!(phase, ConnPhase::SelectingServer);

    // Several consecutive failures never leave the controller stalled.
    let mut phase = ConnPhase::Connecting;
    for _ in 0..5 {
        phase = step(phase, ConnEvent::ConnectFailed);
        assert_eq!(phase, ConnPhase::SelectingServer);
    }
}

#[test]
fn auth_write_failure_returns_to_selection() {
    let phase = step(ConnPhase::Authenticating, ConnEvent::AuthSendFailed);
    assert_eq!(phase, ConnPhase::SelectingServer);
}

#[test]
fn state_failures_return_to_selection() {
    let phase = step(ConnPhase::AwaitingState, ConnEvent::StateFailed);
    assert_eq!(phase, ConnPhase::SelectingServer);
    // An authenticated=false payload is a distinct failure with the same exit.
    let phase = step(ConnPhase::AwaitingState, ConnEvent::StateReceived { authenticated: false });
    assert_eq!(phase, ConnPhase::SelectingServer);
}

#[test]
fn io_error_while_connected_disconnects() {
    let phase = step(ConnPhase::Connected, ConnEvent::IoError);
    assert_eq!(phase, ConnPhase::Disconnected);
    // Once disconnected, the phase stays put until the user picks a server.
    let phase = step(phase, ConnEvent::IoError);
    assert_eq!(phase, ConnPhase::Disconnected);
    let phase = step(phase, ConnEvent::ServerChosen);
    assert_eq!(phase, ConnPhase::Connecting);
}

#[test]
fn queue_hands_events_out_in_program_order() {
    let mut q = EventQueue::new();
    assert_eq!(q.len(), 0);
    q.push(movement(1));
    q.push(movement(2));
    q.push(movement(3));
    assert_eq!(q.len(), 3);

    let drained = q.drain();
    let xs: Vec<i32> = drained.iter().map(|e| e.pos.x).collect();
    assert_eq!(xs, vec![1, 2, 3]);
    assert_eq!(q.len(), 0);
    assert!(q.drain().is_empty());
}

#[test]
fn server_list_appends_and_removes() {
    let mut servers: Vec<String> = vec!["one:3000".to_string(), "two:3000".to_string()];
    add_server(&mut servers, "three:3000".to_string());
    assert_eq!(servers, vec!["one:3000", "two:3000", "three:3000"]);
    remove_server(&mut servers, 0);
    assert_eq!(servers, vec!["two:3000", "three:3000"]);
}
