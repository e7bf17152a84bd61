use thndrs_ui::state::session::{SessionStats, TokensUsed};

#[test]
fn session_test_session_stats() {
    let mut stats = SessionStats::default();

    let tokens = TokensUsed::new(10, 20);
    stats.add_tokens(&tokens);

    assert_eq!(stats.input_tokens, 10);
    assert_eq!(stats.output_tokens, 20);
    assert_eq!(stats.total_tokens(), 30);

    stats.increment_approval_gate();
    assert_eq!(stats.approval_gates, 1);

    stats.increment_tools_executed();
    assert_eq!(stats.tools_executed, 1);
}
