//! Work the app's update hands back to run after it: backend submissions and
//! slash commands, possibly batched, run in order.

use vstd::prelude::*;

verus! {

/// A command for the app to run; `C` is the slash command type.
#[derive(Debug)]
pub enum Cmd<C> {
    /// Nothing to run.
    NoCmd,
    /// Several commands, run in order.
    Batch(Vec<Cmd<C>>),
    /// Send this text to the model backend.
    SubmitToBackend(String),
    /// Run this slash command.
    RunSlash(C),
}

/// The commands `c` runs, in order: batches are opened, nothing is dropped.
pub open spec fn leaves<C>(c: Cmd<C>) -> Seq<Cmd<C>>
    decreases c, 0nat,
{
    match c {
        Cmd::NoCmd => Seq::empty(),
        Cmd::Batch(v) => leaves_of(v@, v@.len()),
        _ => seq![c],
    }
}

/// The commands the first `n` of `s` run, in order.
pub open spec fn leaves_of<C>(s: Seq<Cmd<C>>, n: nat) -> Seq<Cmd<C>>
    decreases s, n,
{
    if n == 0 || n > s.len() {
        Seq::empty()
    } else {
        leaves_of(s, (n - 1) as nat) + leaves(s[n - 1])
    }
}

/// Opening a list depends only on the commands opened.
proof fn lemma_leaves_of_prefix<C>(s: Seq<Cmd<C>>, t: Seq<Cmd<C>>, n: nat)
    requires
        n <= s.len(),
        n <= t.len(),
        forall|i: int| 0 <= i < n ==> s[i] == t[i],
    ensures
        leaves_of(s, n) == leaves_of(t, n),
    decreases n,
{
    if n > 0 {
        lemma_leaves_of_prefix(s, t, (n - 1) as nat);
    }
}

/// Opening two lists one after the other opens their concatenation.
proof fn lemma_leaves_of_concat<C>(a: Seq<Cmd<C>>, b: Seq<Cmd<C>>, k: nat)
    requires
        k <= b.len(),
    ensures
        leaves_of(a + b, a.len() + k) == leaves_of(a, a.len()) + leaves_of(b, k),
    decreases k,
{
    if k == 0 {
        lemma_leaves_of_prefix(a + b, a, a.len());
        assert(leaves_of(b, 0) =~= Seq::<Cmd<C>>::empty());
        assert(leaves_of(a, a.len()) + leaves_of(b, 0) =~= leaves_of(a, a.len()));
    } else {
        lemma_leaves_of_concat(a, b, (k - 1) as nat);
        assert((a + b)[a.len() + k - 1] == b[k - 1]);
        assert(leaves_of(a + b, a.len() + k) == leaves_of(a + b, (a.len() + k - 1) as nat) + leaves((a + b)[a.len() + k - 1]));
        assert(leaves_of(a, a.len()) + leaves_of(b, (k - 1) as nat) + leaves(b[k - 1])
            =~= leaves_of(a, a.len()) + (leaves_of(b, (k - 1) as nat) + leaves(b[k - 1])));
    }
}

proof fn lemma_leaves_of_single<C>(c: Cmd<C>)
    ensures
        leaves_of(seq![c], 1) == leaves(c),
{
    assert(leaves_of(seq![c], 0) =~= Seq::<Cmd<C>>::empty());
    assert(Seq::<Cmd<C>>::empty() + leaves(c) =~= leaves(c));
}

/// Joins two commands to run one after the other: nothing on either side
/// leaves the other as it is, and batches are joined into one batch.
pub fn combine_cmds<C>(first: Cmd<C>, second: Cmd<C>) -> (r: Cmd<C>)
    ensures
        leaves(r) == leaves(first) + leaves(second),
        first is NoCmd ==> r == second,
        !(first is NoCmd) && second is NoCmd ==> r == first,
        !(first is NoCmd) && !(second is NoCmd) ==> r is Batch,
{
    let ghost f = first;
    let ghost g = second;
    match first {
        Cmd::NoCmd => {
            assert(leaves(f) =~= Seq::<Cmd<C>>::empty());
            assert(leaves(f) + leaves(g) =~= leaves(g));
            second
        },
        Cmd::Batch(mut left) => {
            match second {
                Cmd::NoCmd => {
                    assert(leaves(f) + leaves(g) =~= leaves(f));
                    Cmd::Batch(left)
                },
                Cmd::Batch(mut right) => {
                    let ghost l0 = left@;
                    let ghost r0 = right@;
                    left.append(&mut right);
                    proof {
                        lemma_leaves_of_concat(l0, r0, r0.len());
                        assert(left@ == l0 + r0);
                    }
                    Cmd::Batch(left)
                },
                other => {
                    let ghost l0 = left@;
                    left.push(other);
                    proof {
                        lemma_leaves_of_concat(l0, seq![g], 1);
                        lemma_leaves_of_single(g);
                        assert(left@ == l0 + seq![g]);
                    }
                    Cmd::Batch(left)
                },
            }
        },
        one => {
            match second {
                Cmd::NoCmd => {
                    assert(leaves(f) + leaves(g) =~= leaves(f));
                    one
                },
                Cmd::Batch(mut right) => {
                    let ghost r0 = right@;
                    let mut cmds: Vec<Cmd<C>> = Vec::new();
                    cmds.push(one);
                    cmds.append(&mut right);
                    proof {
                        lemma_leaves_of_concat(seq![f], r0, r0.len());
                        lemma_leaves_of_single(f);
                        assert(cmds@ == seq![f] + r0);
                    }
                    Cmd::Batch(cmds)
                },
                other => {
                    let mut cmds: Vec<Cmd<C>> = Vec::new();
                    cmds.push(one);
                    cmds.push(other);
                    proof {
                        lemma_leaves_of_concat(seq![f], seq![g], 1);
                        lemma_leaves_of_single(f);
                        lemma_leaves_of_single(g);
                        assert(cmds@ == seq![f] + seq![g]);
                    }
                    Cmd::Batch(cmds)
                },
            }
        },
    }
}

/// Puts the commands `cmd` runs at the back of `queue`, in order.
#[verifier::loop_isolation(false)]
pub fn enqueue_cmd<C>(queue: &mut Vec<Cmd<C>>, cmd: Cmd<C>)
    ensures
        final(queue)@ == old(queue)@ + leaves(cmd),
    decreases cmd,
{
    let ghost c0 = cmd;
    match cmd {
        Cmd::NoCmd => {
            assert(old(queue)@ + leaves(c0) =~= old(queue)@);
        },
        Cmd::Batch(mut cmds) => {
            let ghost v0 = cmds@;
            let n = cmds.len();
            let mut i: usize = 0;
            assert(old(queue)@ + leaves_of(v0, 0) =~= old(queue)@);
            while i < n
                invariant
                    n == v0.len(),
                    i <= n,
                    cmds@ == v0.skip(i as int),
                    queue@ == old(queue)@ + leaves_of(v0, i as nat),
                decreases n - i,
            {
                assert(cmds@[0] == v0[i as int]);
                let entry = cmds.remove(0);
                assert(cmds@ =~= v0.skip(i + 1));
                assert(decreases_to!(c0 => v0[i as int]));
                enqueue_cmd(queue, entry);
                assert(queue@ =~= old(queue)@ + leaves_of(v0, (i + 1) as nat));
                i = i + 1;
            }
        },
        other => {
            queue.push(other);
            assert(queue@ =~= old(queue)@ + leaves(c0));
        },
    }
}

} // verus!
