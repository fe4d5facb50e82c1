use queue_demo::reply::{reply_for, QueueMessage};
use queue_demo::session::{
    connect_step, handle_event, queue_name, ConnectAction, EventAction, LifecycleEvent,
};

#[test]
fn connect_failure_exits_with_success_status() {
    assert_eq!(connect_step(false), ConnectAction::ReportAndExit(0));
}

#[test]
fn connect_success_proceeds() {
    assert_eq!(connect_step(true), ConnectAction::Proceed);
}

#[test]
fn connecting_event_notes_only() {
    match handle_event(LifecycleEvent::Connecting) {
        EventAction::NoteConnecting => {}
        other => panic!("unexpected action {:?}", other),
    }
}

#[test]
fn connected_event_notes_only() {
    match handle_event(LifecycleEvent::Connected) {
        EventAction::NoteConnected => {}
        other => panic!("unexpected action {:?}", other),
    }
}

#[test]
fn disconnected_event_carries_reason() {
    match handle_event(LifecycleEvent::Disconnected(String::from("socket closed"))) {
        EventAction::NoteDisconnected(reason) => assert_eq!(reason, "socket closed"),
        other => panic!("unexpected action {:?}", other),
    }
}

#[test]
fn sign_in_registers_configured_queue() {
    match handle_event(LifecycleEvent::SignedIn) {
        EventAction::RegisterQueue(name) => assert_eq!(name, "test2queue"),
        other => panic!("unexpected action {:?}", other),
    }
}

#[test]
fn configured_queue_name() {
    assert_eq!(queue_name(), "test2queue");
}

#[test]
fn reply_is_fixed_payload_for_any_message() {
    let msg = QueueMessage {
        queuename: String::from("test2queue"),
        replyto: String::from("some-reply-address"),
        data: String::from("anything at all"),
    };
    assert_eq!(
        reply_for(&msg),
        Some(String::from("{\"payload\":\"Bettina\"}"))
    );

    let empty = QueueMessage {
        queuename: String::new(),
        replyto: String::new(),
        data: String::new(),
    };
    assert_eq!(
        reply_for(&empty),
        Some(String::from("{\"payload\":\"Bettina\"}"))
    );
}
