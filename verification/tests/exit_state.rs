use std::time::Instant;
use thndrs_ui::state::exit::ExitState;

#[test]
fn a_late_press_starts_a_new_count_and_a_quick_second_press_exits() {
    let mut s = ExitState::new();
    let t = Instant::now();
    assert!(!s.register_press(t, 0));
    assert!(!s.register_press(t, 3000));
    assert!(s.register_press(t, 100));
    s.reset_ctrl_c_count();
    assert!(!s.register_press(t, 100));
}
