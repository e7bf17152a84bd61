//! Welcome screen state: rotating tips and recent sessions.

use vstd::prelude::*;

verus! {

/// State for the welcome screen
#[derive(Debug, Clone)]
pub struct WelcomeState {
    /// Current tip index for rotating tips display
    pub current_tip_index: usize,
    /// Recent sessions for quick access
    pub recent_sessions: Vec<RecentSessionInfo>,
}

/// Information about a recent session for the welcome screen
#[derive(Debug, Clone)]
pub struct RecentSessionInfo {
    /// Session identifier
    pub id: String,
    /// Session title (first message or generated summary)
    pub title: Option<String>,
}

/// Tips shown on the welcome screen
pub const WELCOME_TIPS: [&'static str; 6] = [
    "Use /theme to switch between themes",
    "Press Ctrl+S to toggle the sidebar",
    "Use Tab to autocomplete file paths",
    "Press Ctrl+T to change the color theme",
    "Use !cmd to run shell commands directly",
    "Press Ctrl+Shift+G to open external editor",
];

/// How many recent sessions are remembered.
pub const MAX_RECENT_SESSIONS: usize = 3;

/// Recent sessions after recording `id`: it moves to the front (replacing any
/// older entry with that id) and the list keeps at most three entries.
pub open spec fn recent_after(old_list: Seq<RecentSessionInfo>, entry: RecentSessionInfo) -> Seq<RecentSessionInfo> {
    let kept = old_list.filter(|s: RecentSessionInfo| s.id@ != entry.id@);
    let all = seq![entry] + kept;
    if all.len() > 3 { all.take(3) } else { all }
}

impl WelcomeState {
    pub fn new() -> (s: Self)
        ensures
            s.current_tip_index == 0,
            s.recent_sessions@.len() == 0,
    {
        WelcomeState { current_tip_index: 0, recent_sessions: Vec::new() }
    }

    /// Get the current tip text
    pub fn current_tip(&self) -> (r: &'static str)
        ensures
            r == WELCOME_TIPS@[self.current_tip_index as int % 6],
    {
        WELCOME_TIPS[self.current_tip_index % 6]
    }

    /// Advance to the next tip
    pub fn next_tip(&mut self)
        requires
            old(self).current_tip_index < usize::MAX,
        ensures
            final(self).current_tip_index == (old(self).current_tip_index + 1) % 6,
            final(self).recent_sessions@ == old(self).recent_sessions@,
    {
        self.current_tip_index = (self.current_tip_index + 1) % 6;
    }

    /// Add a recent session
    pub fn add_recent_session(&mut self, id: String, title: Option<String>)
        ensures
            final(self).recent_sessions@ == recent_after(old(self).recent_sessions@, RecentSessionInfo { id, title }),
            final(self).current_tip_index == old(self).current_tip_index,
    {
        let ghost entry = RecentSessionInfo { id, title };
        let ghost pred = |s: RecentSessionInfo| s.id@ != id@;
        let n = self.recent_sessions.len();
        let mut kept: Vec<RecentSessionInfo> = Vec::new();
        kept.push(RecentSessionInfo { id: id.clone(), title });
        let mut i: usize = 0;
        while i < n
            invariant
                n == self.recent_sessions@.len(),
                *self == *old(self),
                pred == (|s: RecentSessionInfo| s.id@ != id@),
                entry == (RecentSessionInfo { id, title }),
                i <= n,
                kept@ == seq![entry] + self.recent_sessions@.take(i as int).filter(pred),
            decreases n - i,
        {
            let ghost prefix = self.recent_sessions@.take(i + 1);
            assert(prefix.drop_last() =~= self.recent_sessions@.take(i as int));
            assert(prefix.last() == self.recent_sessions@[i as int]);
            assert(prefix.filter(pred) == if pred(prefix.last()) {
                prefix.drop_last().filter(pred).push(prefix.last())
            } else {
                prefix.drop_last().filter(pred)
            }) by {
                reveal_with_fuel(Seq::filter, 1);
            }
            let s = &self.recent_sessions[i];
            let ghost before = kept@;
            if !(s.id == id) {
                assert(pred(prefix.last()));
                kept.push(s.clone_info());
                assert(kept@ == before.push(prefix.last()));
            } else {
                assert(!pred(prefix.last()));
            }
            assert(kept@ =~= seq![entry] + prefix.filter(pred));
            i = i + 1;
        }
        assert(self.recent_sessions@.take(n as int) =~= self.recent_sessions@);
        if kept.len() > MAX_RECENT_SESSIONS {
            kept.truncate(MAX_RECENT_SESSIONS);
        }
        self.recent_sessions = kept;
    }
}

impl RecentSessionInfo {
    /// A copy of this entry.
    pub fn clone_info(&self) -> (r: Self)
        ensures
            r == *self,
    {
        RecentSessionInfo { id: self.id.clone(), title: self.title.clone() }
    }
}

impl Default for WelcomeState {
    fn default() -> (s: Self)
        ensures
            s.current_tip_index == 0,
            s.recent_sessions@.len() == 0,
    {
        Self::new()
    }
}

} // verus!
