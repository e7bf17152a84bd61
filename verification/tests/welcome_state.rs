use thndrs_ui::state::welcome::{WelcomeState, WELCOME_TIPS};

#[test]
fn test_welcome_state_new() {
    let state = WelcomeState::new();
    assert_eq!(state.current_tip_index, 0);
    assert!(state.recent_sessions.is_empty());
}

#[test]
fn welcome_test_current_tip() {
    let state = WelcomeState::new();
    assert_eq!(state.current_tip(), WELCOME_TIPS[0]);
}

#[test]
fn welcome_test_next_tip() {
    let mut state = WelcomeState::new();
    assert_eq!(state.current_tip_index, 0);

    state.next_tip();
    assert_eq!(state.current_tip_index, 1);
    assert_eq!(state.current_tip(), WELCOME_TIPS[1]);
}

#[test]
fn test_tip_wraps_around() {
    let mut state = WelcomeState::new();

    for _ in 0..WELCOME_TIPS.len() {
        state.next_tip();
    }

    assert_eq!(state.current_tip_index, 0);
}

#[test]
fn test_add_recent_session() {
    let mut state = WelcomeState::new();

    state.add_recent_session("session1".to_string(), Some("First session".to_string()));
    assert_eq!(state.recent_sessions.len(), 1);
    assert_eq!(state.recent_sessions[0].id, "session1");

    state.add_recent_session("session2".to_string(), Some("Second session".to_string()));
    assert_eq!(state.recent_sessions.len(), 2);
    assert_eq!(state.recent_sessions[0].id, "session2");
}

#[test]
fn test_add_recent_session_deduplicates() {
    let mut state = WelcomeState::new();

    state.add_recent_session("session1".to_string(), Some("First".to_string()));
    state.add_recent_session("session2".to_string(), Some("Second".to_string()));
    state.add_recent_session("session1".to_string(), Some("Updated First".to_string()));

    assert_eq!(state.recent_sessions.len(), 2);
    assert_eq!(state.recent_sessions[0].id, "session1");
    assert_eq!(state.recent_sessions[0].title, Some("Updated First".to_string()));
}

#[test]
fn test_add_recent_session_max_limit() {
    let mut state = WelcomeState::new();

    for i in 0..5 {
        state.add_recent_session(format!("session{}", i), Some(format!("Session {}", i)));
    }

    assert_eq!(state.recent_sessions.len(), 3);
    assert_eq!(state.recent_sessions[0].id, "session4");
    assert_eq!(state.recent_sessions[1].id, "session3");
    assert_eq!(state.recent_sessions[2].id, "session2");
}
