use chat_relay::client::{client_line_step, client_outbound, is_exit_line, ClientAction};
use chat_relay::manager::SessionManager;
use chat_relay::message::{relay_transform, Message};
use chat_relay::queue::{BoundedQueue, Enqueued, DEFAULT_CAPACITY};
use chat_relay::session::{ChatServer, CloseReason, Session, SessionState, WriterStep};

fn msg(content: &str, sender: &str) -> Message {
    Message::new(content.to_string(), sender.to_string())
}

#[test]
fn round_trip_example() {
    let m = msg("hello", "Client");
    let r = relay_transform(&m, "Server");
    assert_eq!(r.content, "Server: hello");
    assert_eq!(r.sender, "Server");
}

#[test]
fn round_trip_empty_content() {
    let r = relay_transform(&msg("", "Client"), "Server");
    assert_eq!(r.content, "Server: ");
    assert_eq!(r.sender, "Server");
}

#[test]
fn chat_server_relays_with_its_label() {
    let server = ChatServer::new();
    assert_eq!(server.label(), "Server");
    let r = server.relay(&msg("ping", "Client"));
    assert_eq!(r.content, "Server: ping");
    assert_eq!(r.sender, "Server");
}

#[test]
fn order_preserved_through_a_session() {
    let server = ChatServer::new();
    let mut session = server.new_session(1, 2);
    let inbound = vec![msg("a", "Client"), msg("b", "Client"), msg("c", "Client")];
    let out = session.run_to_completion(&inbound);
    let contents: Vec<&str> = out.iter().map(|m| m.content.as_str()).collect();
    assert_eq!(contents, vec!["Server: a", "Server: b", "Server: c"]);
    assert!(out.iter().all(|m| m.sender == "Server"));
    assert_eq!(session.current_state(), SessionState::Terminated);
}

#[test]
fn order_preserved_with_capacity_one() {
    let mut session = Session::new(9, "Server".to_string(), 1);
    let inbound: Vec<Message> = (0..10).map(|i| msg(&format!("m{}", i), "Client")).collect();
    let out = session.run_to_completion(&inbound);
    let expected: Vec<String> = (0..10).map(|i| format!("Server: m{}", i)).collect();
    let got: Vec<&String> = out.iter().map(|m| &m.content).collect();
    assert_eq!(got.len(), expected.len());
    for (g, e) in got.iter().zip(expected.iter()) {
        assert_eq!(*g, e);
    }
}

#[test]
fn empty_inbound_terminates_with_no_output() {
    let mut session = Session::new(3, "Server".to_string(), 4);
    let out = session.run_to_completion(&Vec::new());
    assert!(out.is_empty());
    assert_eq!(session.current_state(), SessionState::Terminated);
}

#[test]
fn sentinel_is_case_insensitive() {
    assert!(is_exit_line("exit"));
    assert!(is_exit_line("EXIT"));
    assert!(is_exit_line("Exit"));
    assert!(is_exit_line("eXiT"));
    assert!(!is_exit_line("exi"));
    assert!(!is_exit_line("exits"));
    assert!(!is_exit_line("quit"));
    assert!(!is_exit_line(""));
}

#[test]
fn sentinel_quits_without_a_message() {
    match client_line_step("exit", "Client") {
        ClientAction::Quit => {}
        other => panic!("expected Quit, got {:?}", other),
    }
    match client_line_step("hello there", "Client") {
        ClientAction::Send(m) => {
            assert_eq!(m.content, "hello there");
            assert_eq!(m.sender, "Client");
        }
        other => panic!("expected Send, got {:?}", other),
    }
}

#[test]
fn sentinel_termination_end_to_end() {
    let lines = vec![
        "one".to_string(),
        "two".to_string(),
        "Exit".to_string(),
        "three".to_string(),
    ];
    let outbound = client_outbound(&lines, "Client");
    assert_eq!(outbound.len(), 2);
    assert_eq!(outbound[0].content, "one");
    assert_eq!(outbound[1].content, "two");

    let server = ChatServer::new();
    let mut session = server.new_session(7, 128);
    let replies = session.run_to_completion(&outbound);
    assert_eq!(replies.len(), 2);
    assert_eq!(replies[0].content, "Server: one");
    assert_eq!(replies[1].content, "Server: two");
    assert_eq!(session.current_state(), SessionState::Terminated);
}

#[test]
fn leading_sentinel_sends_nothing() {
    let lines = vec!["exit".to_string(), "late".to_string()];
    let outbound = client_outbound(&lines, "Client");
    assert!(outbound.is_empty());
}

#[test]
fn backpressure_refuses_and_keeps_everything() {
    let capacity = 2;
    let mut q = BoundedQueue::new(capacity);
    assert_eq!(q.capacity(), capacity);
    assert_eq!(q.try_enqueue(msg("first", "p")), Enqueued::Accepted);
    assert_eq!(q.try_enqueue(msg("second", "p")), Enqueued::Accepted);
    // The (C+1)th enqueue is refused and the message comes back intact.
    match q.try_enqueue(msg("third", "p")) {
        Enqueued::Full(back) => {
            assert_eq!(back.content, "third");
            assert_eq!(back.sender, "p");
        }
        other => panic!("expected Full, got {:?}", other),
    }
    assert_eq!(q.len(), 2);
    // After the consumer drains one, the retry is accepted; nothing was
    // dropped and nothing overflowed.
    let first = q.dequeue().expect("queue was not empty");
    assert_eq!(first.content, "first");
    assert_eq!(q.try_enqueue(msg("third", "p")), Enqueued::Accepted);
    assert_eq!(q.len(), 2);
    let second = q.dequeue().expect("queue was not empty");
    let third = q.dequeue().expect("queue was not empty");
    assert_eq!(second.content, "second");
    assert_eq!(third.content, "third");
    assert!(q.dequeue().is_none());
}

#[test]
fn closed_queue_refuses_writes_but_drains() {
    let mut q = BoundedQueue::new(4);
    assert_eq!(q.try_enqueue(msg("kept", "p")), Enqueued::Accepted);
    q.close();
    assert!(q.closed());
    match q.try_enqueue(msg("late", "p")) {
        Enqueued::Closed(back) => assert_eq!(back.content, "late"),
        other => panic!("expected Closed, got {:?}", other),
    }
    assert_eq!(q.len(), 1);
    assert_eq!(q.dequeue().expect("buffered").content, "kept");
    assert!(q.is_empty());
}

#[test]
fn session_isolation_scenario() {
    let server = ChatServer::new();
    let mut s1 = server.new_session(1, 8);
    let mut s2 = server.new_session(2, 8);
    let in1 = vec![msg("alpha", "Client"), msg("beta", "Client")];
    let in2 = vec![msg("gamma", "Client"), msg("delta", "Client")];
    let out1 = session_contents(s1.run_to_completion(&in1));
    let out2 = session_contents(s2.run_to_completion(&in2));
    assert_eq!(out1, vec!["Server: alpha", "Server: beta"]);
    assert_eq!(out2, vec!["Server: gamma", "Server: delta"]);
    // Distinct inbound sets give distinct outbound sets: neither session
    // ever observes a message of the other.
    for a in &out1 {
        assert!(!out2.contains(a));
    }
}

fn session_contents(out: Vec<Message>) -> Vec<String> {
    out.into_iter().map(|m| m.content).collect()
}

#[test]
fn graceful_drain_emits_everything_buffered() {
    let mut session = Session::new(5, "Server".to_string(), 8);
    for text in ["one", "two", "three"] {
        let r = session.handle_inbound(&msg(text, "Client"));
        assert_eq!(r, Enqueued::Accepted);
    }
    assert_eq!(session.buffered_len(), 3);
    // The inbound side stops (stream end) while k = 3 messages remain.
    session.inbound_stopped(CloseReason::StreamEnded);
    assert_eq!(session.current_state(), SessionState::Closing);
    let out = session.drain();
    let contents: Vec<&str> = out.iter().map(|m| m.content.as_str()).collect();
    assert_eq!(contents, vec!["Server: one", "Server: two", "Server: three"]);
    assert_eq!(session.current_state(), SessionState::Terminated);
    assert_eq!(session.buffered_len(), 0);
}

#[test]
fn close_reason_does_not_change_the_transition() {
    for reason in [
        CloseReason::StreamEnded,
        CloseReason::TransportError,
        CloseReason::Sentinel,
    ] {
        let mut session = Session::new(6, "Server".to_string(), 2);
        session.inbound_stopped(reason);
        assert_eq!(session.current_state(), SessionState::Closing);
    }
}

#[test]
fn writer_waits_while_active_and_empty() {
    let mut session = Session::new(8, "Server".to_string(), 2);
    assert_eq!(session.writer_step(), WriterStep::Idle);
    session.handle_inbound(&msg("x", "Client"));
    match session.writer_step() {
        WriterStep::Emit(m) => assert_eq!(m.content, "Server: x"),
        other => panic!("expected Emit, got {:?}", other),
    }
    assert_eq!(session.writer_step(), WriterStep::Idle);
}

#[test]
fn terminated_session_only_finishes() {
    let mut session = Session::new(4, "Server".to_string(), 2);
    session.send_failed();
    assert_eq!(session.current_state(), SessionState::Terminated);
    assert_eq!(session.writer_step(), WriterStep::Finished);
    // Past `Active`, an enqueue is refused like a closed queue.
    match session.handle_inbound(&msg("late", "Client")) {
        Enqueued::Closed(back) => assert_eq!(back.content, "Server: late"),
        other => panic!("expected Closed, got {:?}", other),
    }
    // No re-entry: stopping the inbound side again changes nothing.
    session.inbound_stopped(CloseReason::TransportError);
    assert_eq!(session.current_state(), SessionState::Terminated);
}

#[test]
fn default_capacity_matches_the_configured_default() {
    assert_eq!(DEFAULT_CAPACITY, 128);
    let q = BoundedQueue::new(DEFAULT_CAPACITY);
    assert_eq!(q.capacity(), 128);
}

#[test]
fn message_construction_and_copy() {
    let m = Message::new("payload".to_string(), "Client".to_string());
    assert_eq!(m.content, "payload");
    assert_eq!(m.sender, "Client");
    let copy = m.duplicate();
    assert_eq!(copy, m);
}

#[test]
fn session_reports_its_setup() {
    let session = Session::new(11, "Server".to_string(), 16);
    assert_eq!(session.id(), 11);
    assert_eq!(session.relayer_label(), "Server");
    assert_eq!(session.capacity(), 16);
    assert_eq!(session.buffered_len(), 0);
    assert_eq!(session.current_state(), SessionState::Active);
}

#[test]
fn manager_tracks_and_retires_sessions() {
    let mut manager = SessionManager::new();
    let a = manager.accept("Server".to_string(), 4);
    let b = manager.accept("Server".to_string(), 4);
    assert_ne!(a, b);
    assert_eq!(manager.session_count(), 2);
    assert!(manager.is_tracked(a));
    assert!(manager.is_tracked(b));

    // A session that has not terminated stays tracked.
    assert!(!manager.retire(a));
    assert_eq!(manager.session_count(), 2);

    // Drive session `a` to completion outside the manager, then hand it
    // back and retire it.
    let mut session = manager.checkout(a).expect("tracked");
    assert_eq!(manager.session_count(), 1);
    let out = session.run_to_completion(&vec![msg("hi", "Client")]);
    assert_eq!(out.len(), 1);
    manager.checkin(session);
    assert_eq!(manager.session_count(), 2);
    assert!(manager.retire(a));
    assert!(!manager.is_tracked(a));
    assert_eq!(manager.session_count(), 1);
    assert!(manager.is_tracked(b));

    // Retiring an unknown identity does nothing.
    assert!(!manager.retire(a));
    assert!(manager.checkout(a).is_none());
}
