use thndrs_ui::state::approval::ApprovalState;

#[test]
fn approval_test_approval_state() {
    let mut approval = ApprovalState::pending("patch.feature".to_string(), "risky".to_string());

    assert!(approval.is_pending());
    assert!(approval.decision.is_none());
    assert_eq!(approval.request_id, None);

    approval.approve();
    assert!(!approval.is_pending());
    assert_eq!(approval.decision, Some(true));

    let mut approval2 = ApprovalState::pending("delete.file".to_string(), "dangerous".to_string());
    approval2.reject();
    assert_eq!(approval2.decision, Some(false));
}

#[test]
fn test_approval_state_with_request_id() {
    let approval = ApprovalState::pending("test.action".to_string(), "safe".to_string()).with_request_id(123);

    assert_eq!(approval.request_id, Some(123));
    assert_eq!(approval.action, "test.action");
    assert_eq!(approval.risk, "safe");
}

#[test]
fn state_test_approval_state() {
    let mut approval = ApprovalState::pending("patch.feature".to_string(), "risky".to_string());

    assert!(approval.is_pending());
    assert!(approval.decision.is_none());

    approval.approve();
    assert!(!approval.is_pending());
    assert_eq!(approval.decision, Some(true));

    let mut approval2 = ApprovalState::pending("delete.file".to_string(), "dangerous".to_string());
    approval2.reject();
    assert_eq!(approval2.decision, Some(false));
}
