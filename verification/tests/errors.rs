use thndrs_ui::error::UiError;

#[test]
fn ui_error_messages_carry_kind_and_detail() {
    assert_eq!(UiError::Io("broken pipe".to_string()).message(), "IO error: broken pipe");
    assert_eq!(UiError::Terminal("no tty".to_string()).message(), "Terminal error: no tty");
}
