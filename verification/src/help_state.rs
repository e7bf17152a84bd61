//! The help screen: its tabs, tips and the key handling that moves between them.

use vstd::prelude::*;
use crate::scroll::{ScrollState, max_offset_of, min_nat, sat_sub, sat_add_usize};
use crate::screen::ScreenAction;
use crate::strs::{decimal, u64_to_string, usize_to_string, to_owned};
use crate::files::content::{cut_ok, cut_of, byte_prefix, byte_cut_is_valid};

verus! {

pub const HELP_TABS: [&'static str; 5] = ["Keyboard Shortcuts", "Commands", "Tips", "About", "Tutorial"];

pub const TIPS: [&'static str; 8] = [
    "Use @ to reference files in your workspace. Type @ followed by the filename to include file context.",
    "Use Up/Down to cycle previous prompts in chat and recover drafts",
    "Tab toggles the latest tool call, Shift+Tab toggles all tool calls in the latest assistant response",
    "Ctrl+N starts a new conversation instantly",
    "Ctrl+O opens the workspace file browser for multi-file context",
    "Ctrl+W returns to the welcome screen from chat and files",
    "Use /debug chat to load a long chat for transcript stress testing",
    "Recent conversations are automatically saved and can be resumed",
];

/// Rows in each section of the keyboard-shortcut tab.
pub const SHORTCUT_SECTION_ROWS: [usize; 3] = [6, 5, 7];
/// Number of slash commands listed on the commands tab.
pub const COMMAND_COUNT: usize = 13;
/// Rows a help page shows at once.
pub const HELP_PAGE_SIZE: usize = 20;

/// The tab names, in order.
pub fn help_tabs() -> (r: &'static [&'static str])
    ensures
        r@ == HELP_TABS@,
{
    &HELP_TABS
}

/// A saved session listed on the tutorial tab.
#[derive(Debug, Clone)]
pub struct SessionSummary {
    pub id: String,
    pub title: Option<String>,
}

/// Keys the help screen reacts to (the terminal's key events mapped by the app).
#[derive(Debug, Clone, Copy, PartialEq, Eq)]
pub enum HelpKey {
    Esc,
    /// Ctrl+Left or Ctrl+H
    PrevTab,
    /// Ctrl+Right or Ctrl+L
    NextTab,
    Tab,
    BackTab,
    Up,
    Down,
    PageUp,
    PageDown,
    /// Ctrl+R: the app reloads the session list and hands it to `set_sessions`.
    Refresh,
    /// Ctrl+T
    NextTip,
    Other,
}

#[derive(Debug, Clone)]
pub struct HelpApp {
    pub selected_tab: usize,
    pub scroll: ScrollState,
    pub tip_index: usize,
    pub recent_sessions: Vec<SessionSummary>,
    pub status_message: Option<String>,
}

/// Content rows of a tab, with `sessions` recent sessions known.
pub open spec fn tab_lines(tab: nat, sessions: nat) -> nat {
    if tab == 0 {
        (6 + 3) + (5 + 3) + (7 + 3) + 3
    } else if tab == 1 {
        13 + 4
    } else if tab == 2 {
        8 + 10
    } else if tab == 3 {
        30
    } else if tab == 4 {
        24 + min_nat(sessions, 5)
    } else {
        20
    }
}

impl HelpApp {
    /// Scroll state matches the selected tab's content and page size.
    pub open spec fn synced(&self) -> bool {
        &&& self.scroll.total == tab_lines(self.selected_tab as nat, self.recent_sessions@.len())
        &&& self.scroll.page_size == HELP_PAGE_SIZE
        &&& self.scroll.wf()
    }

    pub fn new(recent_sessions: Vec<SessionSummary>) -> (app: Self)
        ensures
            app.selected_tab == 0,
            app.tip_index == 0,
            app.scroll.offset == 0,
            app.recent_sessions@ == recent_sessions@,
            app.status_message.is_none(),
            app.synced(),
    {
        let mut app = HelpApp {
            selected_tab: 0,
            scroll: ScrollState::with_viewport(0, HELP_PAGE_SIZE),
            tip_index: 0,
            recent_sessions,
            status_message: None,
        };
        app.sync_scroll_state();
        app
    }

    fn tab_line_count(&self) -> (n: usize)
        ensures
            n == tab_lines(self.selected_tab as nat, self.recent_sessions@.len()),
    {
        if self.selected_tab == 0 {
            let rows = SHORTCUT_SECTION_ROWS;
            (rows[0] + 3) + (rows[1] + 3) + (rows[2] + 3) + 3
        } else if self.selected_tab == 1 {
            COMMAND_COUNT + 4
        } else if self.selected_tab == 2 {
            8 + 10
        } else if self.selected_tab == 3 {
            30
        } else if self.selected_tab == 4 {
            let s = self.recent_sessions.len();
            24 + if s < 5 { s } else { 5 }
        } else {
            20
        }
    }

    fn sync_scroll_state(&mut self)
        ensures
            final(self).synced(),
            final(self).selected_tab == old(self).selected_tab,
            final(self).tip_index == old(self).tip_index,
            final(self).recent_sessions@ == old(self).recent_sessions@,
            final(self).status_message == old(self).status_message,
            final(self).scroll.offset == min_nat(old(self).scroll.offset as nat, max_offset_of(
                tab_lines(old(self).selected_tab as nat, old(self).recent_sessions@.len()), HELP_PAGE_SIZE as nat)),
    {
        let total = self.tab_line_count();
        self.scroll.set_viewport(total, HELP_PAGE_SIZE);
    }

    /// Replaces the listed sessions (after the app reloaded them).
    pub fn set_sessions(&mut self, sessions: Vec<SessionSummary>)
        ensures
            final(self).recent_sessions@ == sessions@,
            final(self).status_message matches Some(m) && m@ == "Session list refreshed"@,
            final(self).selected_tab == old(self).selected_tab,
            final(self).tip_index == old(self).tip_index,
            final(self).synced(),
    {
        self.recent_sessions = sessions;
        self.status_message = Some(crate::strs::to_owned("Session list refreshed"));
        self.sync_scroll_state();
    }

    pub fn next_tip(&mut self)
        requires
            old(self).tip_index < usize::MAX,
        ensures
            final(self).tip_index == (old(self).tip_index + 1) % 8,
            final(self).selected_tab == old(self).selected_tab,
            final(self).scroll == old(self).scroll,
            final(self).recent_sessions@ == old(self).recent_sessions@,
            final(self).status_message == old(self).status_message,
    {
        self.tip_index = (self.tip_index + 1) % 8;
    }

    pub fn current_tip(&self) -> (r: &'static str)
        ensures
            r == TIPS@[self.tip_index as int % 8],
    {
        TIPS[self.tip_index % 8]
    }

    /// Moves to tab `tab` at the top of its content.
    fn select_tab(&mut self, tab: usize)
        requires
            tab < 5,
        ensures
            final(self).selected_tab == tab,
            final(self).scroll.offset == 0,
            final(self).synced(),
            final(self).tip_index == old(self).tip_index,
            final(self).recent_sessions@ == old(self).recent_sessions@,
            final(self).status_message == old(self).status_message,
    {
        self.selected_tab = tab;
        self.scroll.set_offset(0);
        self.sync_scroll_state();
    }
}

/// Tab after a key press (tabs wrap with Tab/BackTab, stop at the ends with Ctrl+arrows).
pub open spec fn tab_after(tab: nat, key: HelpKey) -> nat {
    match key {
        HelpKey::PrevTab => if tab > 0 { (tab - 1) as nat } else { tab },
        HelpKey::NextTab => if tab + 1 < 5 { tab + 1 } else { tab },
        HelpKey::Tab => (tab + 1) % 5,
        HelpKey::BackTab => if tab == 0 { 4 } else { (tab - 1) as nat },
        _ => tab,
    }
}

/// What one key does to the help screen (`update`).
pub open spec fn help_step(o: HelpApp, key: HelpKey, n: HelpApp, action: ScreenAction) -> bool {
    &&& action == if key == HelpKey::Esc { ScreenAction::ReturnToPrevious } else { ScreenAction::NoAction }
    &&& n.selected_tab == tab_after(o.selected_tab as nat, key)
    &&& n.selected_tab < 5
    &&& n.recent_sessions@ == o.recent_sessions@
    &&& n.tip_index == if key == HelpKey::NextTip { (o.tip_index + 1) % 8 } else { o.tip_index as int }
    &&& n.status_message == o.status_message
    &&& match key {
        HelpKey::PrevTab | HelpKey::NextTab | HelpKey::Tab | HelpKey::BackTab =>
            if n.selected_tab != o.selected_tab { n.scroll.offset == 0 && n.synced() } else { n.scroll == o.scroll },
        HelpKey::Up => scrolled_to(o.scroll, n.scroll, sat_sub(o.scroll.offset as nat, 1)),
        HelpKey::Down => scrolled_to(o.scroll, n.scroll, min_nat(sat_add_usize(o.scroll.offset as nat, 1), o.scroll.max_off())),
        HelpKey::PageUp => scrolled_to(o.scroll, n.scroll, sat_sub(o.scroll.offset as nat, page_step(o.scroll))),
        HelpKey::PageDown => scrolled_to(o.scroll, n.scroll,
            min_nat(sat_add_usize(o.scroll.offset as nat, page_step(o.scroll)), o.scroll.max_off())),
        _ => n.scroll == o.scroll,
    }
}

/// Rows one page moves: the page size, at least one.
pub open spec fn page_step(s: ScrollState) -> nat {
    if s.page_size == 0 { 1 } else { s.page_size as nat }
}

/// `n` is `o` with the offset moved to `offset`.
pub open spec fn scrolled_to(o: ScrollState, n: ScrollState, offset: nat) -> bool {
    &&& n.offset == offset
    &&& n.total == o.total
    &&& n.page_size == o.page_size
}

/// Handles one key on the help screen.
pub fn update(model: &mut HelpApp, key: HelpKey) -> (action: ScreenAction)
    requires
        old(model).selected_tab < 5,
        old(model).tip_index < usize::MAX,
    ensures
        help_step(*old(model), key, *final(model), action),
{
    match key {
        HelpKey::Esc => ScreenAction::ReturnToPrevious,
        HelpKey::PrevTab => {
            if model.selected_tab > 0 {
                let t = model.selected_tab - 1;
                model.select_tab(t);
            }
            ScreenAction::NoAction
        },
        HelpKey::NextTab => {
            if model.selected_tab + 1 < 5 {
                let t = model.selected_tab + 1;
                model.select_tab(t);
            }
            ScreenAction::NoAction
        },
        HelpKey::Tab => {
            let t = (model.selected_tab + 1) % 5;
            model.select_tab(t);
            ScreenAction::NoAction
        },
        HelpKey::BackTab => {
            let t = if model.selected_tab == 0 { 4 } else { model.selected_tab - 1 };
            model.select_tab(t);
            ScreenAction::NoAction
        },
        HelpKey::Up => {
            model.scroll.scroll_up(1);
            ScreenAction::NoAction
        },
        HelpKey::Down => {
            model.scroll.scroll_down(1);
            ScreenAction::NoAction
        },
        HelpKey::PageUp => {
            model.scroll.page_up();
            ScreenAction::NoAction
        },
        HelpKey::PageDown => {
            model.scroll.page_down();
            ScreenAction::NoAction
        },
        HelpKey::NextTip => {
            model.next_tip();
            ScreenAction::NoAction
        },
        HelpKey::Refresh => ScreenAction::NoAction,
        HelpKey::Other => ScreenAction::NoAction,
    }
}


/// How long ago something happened, `secs` seconds back: under a minute is
/// "just now", then whole minutes, hours or days (counted down, not rounded).
pub open spec fn time_ago_text(secs: int) -> Seq<char> {
    if secs < 60 {
        "just now"@
    } else if secs < 3600 {
        decimal((secs / 60) as nat) + "m ago"@
    } else if secs < 86400 {
        decimal((secs / 3600) as nat) + "h ago"@
    } else {
        decimal((secs / 86400) as nat) + "d ago"@
    }
}

/// The age label of a recent session, from the seconds elapsed since it was
/// last used (the app reads the clock; a negative span counts as just now).
pub fn format_help_time_ago(elapsed_seconds: i64) -> (s: String)
    ensures
        s@ == time_ago_text(elapsed_seconds as int),
{
    if elapsed_seconds < 60 {
        to_owned("just now")
    } else if elapsed_seconds < 3600 {
        let m = (elapsed_seconds / 60) as u64;
        u64_to_string(m).concat("m ago")
    } else if elapsed_seconds < 86400 {
        let h = (elapsed_seconds / 3600) as u64;
        u64_to_string(h).concat("h ago")
    } else {
        let d = (elapsed_seconds / 86400) as u64;
        u64_to_string(d).concat("d ago")
    }
}

/// The age label of the older session list: as above within a week; a
/// week or more gives `None`, and the caller shows the calendar date.
pub fn format_time_ago(elapsed_seconds: i64) -> (s: Option<String>)
    ensures
        match s {
            Some(t) => elapsed_seconds < 7 * 86400 && t@ == time_ago_text(elapsed_seconds as int),
            None => elapsed_seconds >= 7 * 86400,
        },
{
    if elapsed_seconds < 7 * 86400 {
        Some(format_help_time_ago(elapsed_seconds))
    } else {
        None
    }
}

/// A recent conversation as the tutorial tab lists it: its display title,
/// its id, and the seconds since it was last used.
#[derive(Debug, Clone)]
pub struct TutorialSession {
    pub title: String,
    pub id: String,
    pub elapsed_seconds: i64,
}

/// Sessions the tutorial tab lists at most.
pub const TUTORIAL_SESSIONS: usize = 5;

/// Bytes of a session id the tutorial tab shows.
pub const SHORT_ID_BYTES: usize = 8;

/// The tutorial row of session number `i` (from zero).
pub open spec fn session_row(i: nat, s: TutorialSession) -> Seq<char> {
    "  "@ + decimal(i + 1) + ". "@ + s.title@ + " — "@ + cut_of(s.id@, SHORT_ID_BYTES as nat) + " — "@
        + time_ago_text(s.elapsed_seconds as int)
}

/// The first `n` session rows.
pub open spec fn session_rows(ss: Seq<TutorialSession>, n: nat) -> Seq<Seq<char>>
    decreases n,
{
    if n == 0 { Seq::empty() } else { session_rows(ss, (n - 1) as nat).push(session_row((n - 1) as nat, ss[n - 1])) }
}

/// How many sessions the tab lists.
pub open spec fn listed(n: nat) -> nat {
    if n <= TUTORIAL_SESSIONS { n } else { TUTORIAL_SESSIONS as nat }
}

/// Ids of the listed sessions can be cut where the tab cuts them.
pub open spec fn session_ids_cut_ok(ss: Seq<TutorialSession>) -> bool {
    forall|i: int| 0 <= i < listed(ss.len()) ==> #[trigger] cut_ok(ss[i].id@, SHORT_ID_BYTES as nat)
}

/// The lines of the tutorial tab: quick start with the version and build,
/// the recent conversations when there are any, then the current tip.
pub open spec fn tutorial_text(version: Seq<char>, build: Seq<char>, ss: Seq<TutorialSession>, tip: Seq<char>) -> Seq<Seq<char>> {
    let head = seq![
        "Quick Start"@,
        ""@,
        version,
        build,
        ""@,
        "  Ctrl+N — Start a new conversation"@,
        "  Ctrl+O — Open the workspace file browser"@,
        "  Ctrl+W — Return to welcome from chat/files"@,
        "  /help — View keyboard shortcuts"@,
        ""@
    ];
    let recent = if ss.len() == 0 {
        Seq::<Seq<char>>::empty()
    } else {
        seq!["Recent Conversations"@, ""@] + session_rows(ss, listed(ss.len())) + seq![""@]
    };
    let tail = seq!["Pro Tip"@, ""@, "  "@ + tip, ""@, "Tip: Press Ctrl+T to see another tip"@];
    head + recent + tail
}

/// Whether `tutorial_lines` can cut the ids of the sessions it lists (an id
/// cut inside a char panics).
pub fn session_ids_can_be_cut(sessions: &Vec<TutorialSession>) -> (r: bool)
    ensures
        r == session_ids_cut_ok(sessions@),
{
    let n = if sessions.len() <= TUTORIAL_SESSIONS { sessions.len() } else { TUTORIAL_SESSIONS };
    let mut i: usize = 0;
    while i < n
        invariant
            n == listed(sessions@.len()),
            i <= n,
            forall|j: int| 0 <= j < i ==> #[trigger] cut_ok(sessions@[j].id@, SHORT_ID_BYTES as nat),
        decreases n - i,
    {
        if !byte_cut_is_valid(sessions[i].id.as_str(), SHORT_ID_BYTES) {
            return false;
        }
        i = i + 1;
    }
    true
}

fn push_str(v: &mut Vec<String>, s: &str)
    ensures
        final(v)@.map_values(|x: String| x@) == old(v)@.map_values(|x: String| x@).push(s@),
{
    let ghost before = v@;
    v.push(to_owned(s));
    assert(v@.map_values(|x: String| x@) =~= before.map_values(|x: String| x@).push(s@));
}

/// The lines of the tutorial tab, given the version and build lines, the
/// recent sessions (newest first) and the current tip.
pub fn tutorial_lines(version: &str, build_info: &str, sessions: &Vec<TutorialSession>, tip: &str) -> (v: Vec<String>)
    requires
        session_ids_cut_ok(sessions@),
    ensures
        v@.map_values(|x: String| x@) == tutorial_text(version@, build_info@, sessions@, tip@),
{
    let mut v: Vec<String> = Vec::new();
    push_str(&mut v, "Quick Start");
    push_str(&mut v, "");
    push_str(&mut v, version);
    push_str(&mut v, build_info);
    push_str(&mut v, "");
    push_str(&mut v, "  Ctrl+N — Start a new conversation");
    push_str(&mut v, "  Ctrl+O — Open the workspace file browser");
    push_str(&mut v, "  Ctrl+W — Return to welcome from chat/files");
    push_str(&mut v, "  /help — View keyboard shortcuts");
    push_str(&mut v, "");
    let ghost head = v@.map_values(|x: String| x@);
    if sessions.len() > 0 {
        push_str(&mut v, "Recent Conversations");
        push_str(&mut v, "");
        let n = if sessions.len() <= TUTORIAL_SESSIONS { sessions.len() } else { TUTORIAL_SESSIONS };
        let ghost base = v@.map_values(|x: String| x@);
        let mut i: usize = 0;
        while i < n
            invariant
                n == listed(sessions@.len()),
                n <= TUTORIAL_SESSIONS,
                i <= n,
                session_ids_cut_ok(sessions@),
                v@.map_values(|x: String| x@) == base + session_rows(sessions@, i as nat),
            decreases n - i,
        {
            let s = &sessions[i];
            assert(cut_ok(sessions@[i as int].id@, SHORT_ID_BYTES as nat));
            let short = byte_prefix(s.id.as_str(), SHORT_ID_BYTES);
            let row = to_owned("  ").concat(usize_to_string(i + 1).as_str()).concat(". ").concat(s.title.as_str())
                .concat(" — ").concat(short.as_str()).concat(" — ")
                .concat(format_help_time_ago(s.elapsed_seconds).as_str());
            let ghost before = v@.map_values(|x: String| x@);
            v.push(row);
            assert(v@.map_values(|x: String| x@) =~= before.push(row@));
            assert(row@ == session_row(i as nat, sessions@[i as int]));
            i = i + 1;
        }
        push_str(&mut v, "");
    }
    push_str(&mut v, "Pro Tip");
    push_str(&mut v, "");
    let tip_line = to_owned("  ").concat(tip);
    let ghost before = v@.map_values(|x: String| x@);
    v.push(tip_line);
    assert(v@.map_values(|x: String| x@) =~= before.push(tip_line@));
    push_str(&mut v, "");
    push_str(&mut v, "Tip: Press Ctrl+T to see another tip");
    assert(v@.map_values(|x: String| x@) =~= tutorial_text(version@, build_info@, sessions@, tip@));
    v
}

/// Rows under the help content: the hint row and the two-row status.
pub const HELP_CHROME_ROWS: u16 = 3;

/// Rows of the help screen's main area and the content rows a page shows in
/// a viewport `viewport_height` rows tall: the area above the hint and status
/// rows (at least one), and that less four rows of frame and tabs (at least one).
pub fn help_page_size(viewport_height: u16) -> (r: (u16, usize))
    ensures
        r.0 == (if viewport_height > HELP_CHROME_ROWS { viewport_height - HELP_CHROME_ROWS } else { 1 }),
        r.1 == (if r.0 > 4 { r.0 - 4 } else { 1 }),
{
    let main = if viewport_height > HELP_CHROME_ROWS { viewport_height - HELP_CHROME_ROWS } else { 1 };
    let page = if main > 4 { (main - 4) as usize } else { 1 };
    (main, page)
}

/// The content lines shown: from the offset (kept on the last line) for one
/// page (at least one line), within the `len` lines.
pub fn visible_range(offset: usize, page_size: usize, len: usize) -> (r: (usize, usize))
    ensures
        r.0 == min_nat(offset as nat, if len > 0 { (len - 1) as nat } else { 0 }),
        r.1 == min_nat((r.0 + (if page_size > 0 { page_size as nat } else { 1 })) as nat, len as nat),
        r.0 <= r.1 || len == 0,
{
    let last = if len > 0 { len - 1 } else { 0 };
    let start = if offset < last { offset } else { last };
    let page = if page_size > 0 { page_size } else { 1 };
    let end = if page <= len - start { start + page } else { len };
    (start, end)
}

/// Bytes of a session title shown whole; a longer one is cut.
pub const TITLE_LABEL_BYTES: usize = 40;

/// Bytes kept of a title that is cut, before the "...".
pub const TITLE_CUT_BYTES: usize = 37;

/// Whether `session_title_label` can cut `title` (a cut inside a char panics).
pub open spec fn title_label_ok(title: Seq<char>) -> bool {
    crate::strs::utf8_len(title) <= TITLE_LABEL_BYTES || cut_ok(title, TITLE_CUT_BYTES as nat)
}

/// A session title as the classic tutorial tab lists it: whole when it has at
/// most 40 bytes, else its first 37 bytes and "...".
pub fn session_title_label(title: &str) -> (r: String)
    requires
        title_label_ok(title@),
    ensures
        r@ == if crate::strs::utf8_len(title@) <= TITLE_LABEL_BYTES {
            title@
        } else {
            cut_of(title@, TITLE_CUT_BYTES as nat) + "..."@
        },
{
    let t = to_owned(title);
    if crate::strs::byte_len(&t) <= TITLE_LABEL_BYTES {
        t
    } else {
        byte_prefix(title, TITLE_CUT_BYTES).concat("...")
    }
}

/// Whether `session_title_label` can cut `title`.
pub fn session_title_can_be_cut(title: &str) -> (r: bool)
    ensures
        r == title_label_ok(title@),
{
    let t = to_owned(title);
    crate::strs::byte_len(&t) <= TITLE_LABEL_BYTES || byte_cut_is_valid(title, TITLE_CUT_BYTES)
}

} // verus!
