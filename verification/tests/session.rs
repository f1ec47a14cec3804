use chat_hub::mailbox::MAX_MESSAGE;
use chat_hub::registry::{Outbound, Registry};
use chat_hub::session::{Session, SessionAction, SessionEvent, SessionState};
use chat_hub::writer::{Writer, WriterAction};

fn line(text: &str) -> SessionEvent {
    SessionEvent::Line(text.to_string())
}

fn joined(registry: &mut Registry, id: u64, name: &str) -> Session {
    let mut session = Session::new(id);
    assert_eq!(session.handle(registry, SessionEvent::Accepted), SessionAction::WritePrompt);
    assert_eq!(session.handle(registry, line(name)), SessionAction::StartWriter);
    session
}

fn received(registry: &mut Registry, id: u64) -> Vec<String> {
    let mut writer = Writer::new(id);
    let mut lines = Vec::new();
    while let WriterAction::Write(text) = writer.next(registry) {
        lines.push(text);
    }
    lines
}

#[test]
fn session_starts_connected_and_nameless() {
    let session = Session::new(42);
    assert_eq!(session.identity(), 42);
    assert_eq!(session.username(), "");
    assert_eq!(session.state(), SessionState::Connected);
}

#[test]
fn accept_asks_for_the_prompt() {
    let mut registry = Registry::new();
    let mut session = Session::new(1);
    assert_eq!(session.handle(&mut registry, SessionEvent::Accepted), SessionAction::WritePrompt);
    assert_eq!(session.state(), SessionState::AwaitingUsername);
    assert!(registry.is_empty());
}

#[test]
fn first_line_becomes_the_username_and_registers_the_peer() {
    let mut registry = Registry::new();
    let session = joined(&mut registry, 1, "alice");
    assert_eq!(session.state(), SessionState::Joined);
    assert_eq!(session.username(), "alice");
    assert!(registry.contains(1));
    assert_eq!(registry.len(), 1);
    assert!(matches!(registry.take_next(1), Outbound::Empty));
}

#[test]
fn username_is_trimmed() {
    let mut registry = Registry::new();
    let _alice = joined(&mut registry, 1, "alice");
    let bob = joined(&mut registry, 2, "  bob \r");
    assert_eq!(bob.username(), "bob");
    assert_eq!(received(&mut registry, 1), vec!["[bob] :)"]);
}

#[test]
fn empty_username_is_accepted() {
    let mut registry = Registry::new();
    let _alice = joined(&mut registry, 1, "alice");
    let mut nobody = joined(&mut registry, 2, "   ");
    assert_eq!(nobody.state(), SessionState::Joined);
    assert_eq!(nobody.username(), "");
    assert_eq!(nobody.handle(&mut registry, line("hello")), SessionAction::ReadNext);
    assert_eq!(received(&mut registry, 1), vec!["[] :)", ": hello"]);
}

#[test]
fn handshake_abort_closes_without_a_word() {
    for event in [SessionEvent::EndOfStream, SessionEvent::TransportFailed] {
        let mut registry = Registry::new();
        let _alice = joined(&mut registry, 1, "alice");
        let mut session = Session::new(2);
        assert_eq!(
            session.handle(&mut registry, SessionEvent::Accepted),
            SessionAction::WritePrompt
        );
        assert_eq!(session.handle(&mut registry, event), SessionAction::Terminate);
        assert_eq!(session.state(), SessionState::Closed);
        assert_eq!(registry.len(), 1);
        assert!(received(&mut registry, 1).is_empty());
    }
}

#[test]
fn connection_lost_before_the_prompt_closes_without_a_word() {
    let mut registry = Registry::new();
    let mut session = Session::new(2);
    assert_eq!(session.handle(&mut registry, SessionEvent::TransportFailed), SessionAction::Terminate);
    assert_eq!(session.state(), SessionState::Closed);
    assert!(registry.is_empty());
}

#[test]
fn chat_lines_are_published_under_the_username() {
    let mut registry = Registry::new();
    let mut alice = joined(&mut registry, 1, "alice");
    let _bob = joined(&mut registry, 2, "bob");
    assert_eq!(received(&mut registry, 1), vec!["[bob] :)"]);
    assert_eq!(alice.handle(&mut registry, line("hi")), SessionAction::ReadNext);
    assert_eq!(alice.handle(&mut registry, line(" there ")), SessionAction::ReadNext);
    assert_eq!(alice.state(), SessionState::Joined);
    assert_eq!(received(&mut registry, 2), vec!["alice: hi", "alice:  there "]);
    assert!(received(&mut registry, 1).is_empty());
}

#[test]
fn disconnect_unregisters_and_tells_the_others_once() {
    for event in [SessionEvent::EndOfStream, SessionEvent::TransportFailed] {
        let mut registry = Registry::new();
        let mut alice = joined(&mut registry, 1, "alice");
        let _bob = joined(&mut registry, 2, "bob");
        let _carol = joined(&mut registry, 3, "carol");
        assert_eq!(alice.handle(&mut registry, event), SessionAction::Terminate);
        assert_eq!(alice.state(), SessionState::Closed);
        assert!(!registry.contains(1));
        assert_eq!(registry.len(), 2);
        assert_eq!(received(&mut registry, 2), vec!["[carol] :)", "[alice :(]"]);
        assert_eq!(received(&mut registry, 3), vec!["[alice :(]"]);
    }
}

#[test]
fn closed_session_stays_closed() {
    let mut registry = Registry::new();
    let mut alice = joined(&mut registry, 1, "alice");
    let _bob = joined(&mut registry, 2, "bob");
    assert_eq!(alice.handle(&mut registry, SessionEvent::EndOfStream), SessionAction::Terminate);
    assert_eq!(received(&mut registry, 2), vec!["[alice :(]"]);
    assert_eq!(alice.handle(&mut registry, line("anyone?")), SessionAction::Terminate);
    assert_eq!(alice.handle(&mut registry, SessionEvent::EndOfStream), SessionAction::Terminate);
    assert_eq!(alice.handle(&mut registry, SessionEvent::Accepted), SessionAction::Terminate);
    assert_eq!(alice.state(), SessionState::Closed);
    assert!(received(&mut registry, 2).is_empty());
    assert_eq!(registry.len(), 1);
}

#[test]
fn events_out_of_place_are_ignored() {
    let mut registry = Registry::new();
    let mut session = Session::new(1);
    assert_eq!(session.handle(&mut registry, line("too early")), SessionAction::Ignore);
    assert_eq!(session.state(), SessionState::Connected);
    assert!(registry.is_empty());
    assert_eq!(session.handle(&mut registry, SessionEvent::Accepted), SessionAction::WritePrompt);
    assert_eq!(session.handle(&mut registry, SessionEvent::Accepted), SessionAction::Ignore);
    assert_eq!(session.state(), SessionState::AwaitingUsername);
    assert_eq!(session.handle(&mut registry, line("alice")), SessionAction::StartWriter);
    assert_eq!(session.handle(&mut registry, SessionEvent::Accepted), SessionAction::Ignore);
    assert_eq!(session.state(), SessionState::Joined);
    assert_eq!(session.username(), "alice");
    assert_eq!(registry.len(), 1);
}

#[test]
fn joining_gives_a_mailbox_of_128_places() {
    let mut registry = Registry::new();
    let _alice = joined(&mut registry, 1, "alice");
    let mut bob = joined(&mut registry, 2, "bob");
    assert_eq!(received(&mut registry, 1), vec!["[bob] :)"]);
    for n in 0..MAX_MESSAGE {
        assert_eq!(bob.handle(&mut registry, line(&format!("{}", n))), SessionAction::ReadNext);
    }
    assert!(registry.contains(1));
    assert_eq!(bob.handle(&mut registry, line("one too many")), SessionAction::ReadNext);
    assert!(!registry.contains(1));
    assert!(registry.contains(2));
}

#[test]
fn n_joins_register_n_peers_and_each_hears_of_the_later_ones() {
    let n = 20u64;
    let mut registry = Registry::new();
    let mut sessions = Vec::new();
    for id in 0..n {
        sessions.push(joined(&mut registry, id, &format!("user{}", id)));
    }
    assert_eq!(registry.len(), 20);
    for id in 0..n {
        let expected: Vec<String> = ((id + 1)..n).map(|later| format!("[user{}] :)", later)).collect();
        assert_eq!(received(&mut registry, id), expected);
    }
}

#[test]
fn as_many_joins_as_a_mailbox_has_room_for_keep_everyone() {
    let mut registry = Registry::new();
    for id in 0..(MAX_MESSAGE as u64 + 1) {
        joined(&mut registry, id, &format!("user{}", id));
    }
    assert_eq!(registry.len(), MAX_MESSAGE + 1);
    assert_eq!(received(&mut registry, 0).len(), MAX_MESSAGE);
}

#[test]
fn one_join_more_than_a_mailbox_has_room_for_drops_the_first_peer() {
    let mut registry = Registry::new();
    for id in 0..(MAX_MESSAGE as u64 + 2) {
        joined(&mut registry, id, &format!("user{}", id));
    }
    assert!(!registry.contains(0));
    assert_eq!(registry.len(), MAX_MESSAGE + 1);
}

#[test]
fn scenario_alice_and_bob_chat() {
    let mut registry = Registry::new();
    let mut alice = joined(&mut registry, 1, "alice");
    assert!(received(&mut registry, 1).is_empty());
    let _bob = joined(&mut registry, 2, "bob");
    assert_eq!(received(&mut registry, 1), vec!["[bob] :)"]);
    assert!(received(&mut registry, 2).is_empty());
    assert_eq!(alice.handle(&mut registry, line("hi")), SessionAction::ReadNext);
    assert_eq!(received(&mut registry, 2), vec!["alice: hi"]);
    assert!(received(&mut registry, 1).is_empty());
}

#[test]
fn scenario_alice_is_cut_off() {
    let mut registry = Registry::new();
    let mut alice = joined(&mut registry, 1, "alice");
    let mut bob = joined(&mut registry, 2, "bob");
    assert_eq!(received(&mut registry, 1), vec!["[bob] :)"]);
    assert_eq!(alice.handle(&mut registry, SessionEvent::TransportFailed), SessionAction::Terminate);
    assert_eq!(received(&mut registry, 2), vec!["[alice :(]"]);
    assert_eq!(bob.handle(&mut registry, line("still there?")), SessionAction::ReadNext);
    assert!(!registry.contains(1));
    assert!(matches!(registry.take_next(1), Outbound::Closed));
    assert!(received(&mut registry, 2).is_empty());
    assert_eq!(registry.len(), 1);
}
