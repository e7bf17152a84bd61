use thndrs_ui::cmd::{combine_cmds, enqueue_cmd, Cmd};

fn names(q: &[Cmd<u8>]) -> Vec<String> {
    q.iter()
        .map(|c| match c {
            Cmd::NoCmd => "none".to_string(),
            Cmd::Batch(_) => "batch".to_string(),
            Cmd::SubmitToBackend(s) => format!("submit:{s}"),
            Cmd::RunSlash(n) => format!("slash:{n}"),
        })
        .collect()
}

fn flat(c: Cmd<u8>) -> Vec<String> {
    let mut q = Vec::new();
    enqueue_cmd(&mut q, c);
    names(&q)
}

#[test]
fn combining_keeps_order_and_drops_nothing() {
    let a = Cmd::SubmitToBackend("hi".to_string());
    assert!(matches!(combine_cmds(Cmd::NoCmd, Cmd::RunSlash(1u8)), Cmd::RunSlash(1)));
    assert!(matches!(combine_cmds(Cmd::RunSlash(2u8), Cmd::NoCmd), Cmd::RunSlash(2)));
    let ab = combine_cmds(a, Cmd::RunSlash(1u8));
    assert_eq!(flat(combine_cmds(ab, Cmd::Batch(vec![Cmd::RunSlash(2), Cmd::NoCmd, Cmd::RunSlash(3)]))),
        vec!["submit:hi", "slash:1", "slash:2", "slash:3"]);
    let nested = Cmd::Batch(vec![Cmd::Batch(vec![Cmd::RunSlash(4u8)]), Cmd::RunSlash(5)]);
    assert_eq!(flat(combine_cmds(Cmd::RunSlash(3), nested)), vec!["slash:3", "slash:4", "slash:5"]);
    assert!(flat(Cmd::<u8>::NoCmd).is_empty());
}
