//! Parsing the text after `/` into a slash-command action.

use vstd::prelude::*;
use crate::text::{words, split_words, join_with, join_words_from, chars_eq, parse_usize, parse_usize_spec};
use crate::strs::{chars_of, string_from_chars, to_owned};

verus! {

/// Where `/search` looks.
#[derive(Debug, Clone, Copy, PartialEq, Eq)]
pub enum SearchScope {
    All,
    Events,
    Views,
}

/// Actions that slash commands request.
#[derive(Debug, Clone, PartialEq, Eq)]
pub enum KeyAction {
    SlashCommandModel { model: String },
    SlashCommandApprovals { mode: String },
    SlashCommandVerbosity { level: String },
    SlashCommandStatus,
    SlashCommandPlan,
    SlashCommandPlanAdd { item: String },
    SlashCommandPlanDone { index: usize },
    SlashCommandReview,
    SlashCommandMemory,
    SlashCommandMemoryAdd { fact: String },
    SlashCommandMemorySearch { query: String },
    SlashCommandMemoryPin { id: String },
    SlashCommandClear,
    SlashCommandConfig,
    SlashCommandGardenConsolidate { session_id: String },
    SlashCommandGardenHygiene,
    SlashCommandGardenDrift,
    SlashCommandGardenVerify { doc_id: String },
    SlashCommandGardenStats,
    SlashCommandSearch { query: String, scope: SearchScope },
}

/// A slash action with its texts as character sequences.
pub enum SlashView {
    Model(Seq<char>),
    Approvals(Seq<char>),
    Verbosity(Seq<char>),
    Status,
    Plan,
    PlanAdd(Seq<char>),
    PlanDone(usize),
    Review,
    Memory,
    MemoryAdd(Seq<char>),
    MemorySearch(Seq<char>),
    MemoryPin(Seq<char>),
    Clear,
    Config,
    GardenConsolidate(Seq<char>),
    GardenHygiene,
    GardenDrift,
    GardenVerify(Seq<char>),
    GardenStats,
    Search(Seq<char>, SearchScope),
}

pub open spec fn action_view(a: KeyAction) -> SlashView {
    match a {
        KeyAction::SlashCommandModel { model } => SlashView::Model(model@),
        KeyAction::SlashCommandApprovals { mode } => SlashView::Approvals(mode@),
        KeyAction::SlashCommandVerbosity { level } => SlashView::Verbosity(level@),
        KeyAction::SlashCommandStatus => SlashView::Status,
        KeyAction::SlashCommandPlan => SlashView::Plan,
        KeyAction::SlashCommandPlanAdd { item } => SlashView::PlanAdd(item@),
        KeyAction::SlashCommandPlanDone { index } => SlashView::PlanDone(index),
        KeyAction::SlashCommandReview => SlashView::Review,
        KeyAction::SlashCommandMemory => SlashView::Memory,
        KeyAction::SlashCommandMemoryAdd { fact } => SlashView::MemoryAdd(fact@),
        KeyAction::SlashCommandMemorySearch { query } => SlashView::MemorySearch(query@),
        KeyAction::SlashCommandMemoryPin { id } => SlashView::MemoryPin(id@),
        KeyAction::SlashCommandClear => SlashView::Clear,
        KeyAction::SlashCommandConfig => SlashView::Config,
        KeyAction::SlashCommandGardenConsolidate { session_id } => SlashView::GardenConsolidate(session_id@),
        KeyAction::SlashCommandGardenHygiene => SlashView::GardenHygiene,
        KeyAction::SlashCommandGardenDrift => SlashView::GardenDrift,
        KeyAction::SlashCommandGardenVerify { doc_id } => SlashView::GardenVerify(doc_id@),
        KeyAction::SlashCommandGardenStats => SlashView::GardenStats,
        KeyAction::SlashCommandSearch { query, scope } => SlashView::Search(query@, scope),
    }
}

/// Words from index 2 on, joined by single spaces.
pub open spec fn tail2(w: Seq<Seq<char>>) -> Seq<char> {
    join_with(w.skip(2), seq![' '])
}

/// The action a command's words ask for, if any.
pub open spec fn slash_spec(w: Seq<Seq<char>>) -> Option<SlashView> {
    let n = w.len();
    if n == 0 {
        None
    } else if w[0] == "model"@ {
        Some(SlashView::Model(if n > 1 { w[1] } else { "list"@ }))
    } else if w[0] == "approvals"@ {
        Some(SlashView::Approvals(if n > 1 { w[1] } else { "list"@ }))
    } else if w[0] == "verbosity"@ {
        Some(SlashView::Verbosity(if n > 1 { w[1] } else { "list"@ }))
    } else if w[0] == "status"@ {
        Some(SlashView::Status)
    } else if w[0] == "plan"@ {
        if n > 1 && w[1] == "add"@ {
            if n > 2 { Some(SlashView::PlanAdd(tail2(w))) } else { None }
        } else if n > 1 && w[1] == "done"@ {
            if n > 2 {
                match parse_usize_spec(w[2]) {
                    Some(i) => Some(SlashView::PlanDone(i)),
                    None => None,
                }
            } else {
                None
            }
        } else {
            Some(SlashView::Plan)
        }
    } else if w[0] == "review"@ {
        Some(SlashView::Review)
    } else if w[0] == "memory"@ {
        if n > 1 && w[1] == "add"@ {
            if n > 2 { Some(SlashView::MemoryAdd(tail2(w))) } else { None }
        } else if n > 1 && w[1] == "search"@ {
            if n > 2 { Some(SlashView::MemorySearch(tail2(w))) } else { None }
        } else if n > 1 && w[1] == "pin"@ {
            if n > 2 { Some(SlashView::MemoryPin(tail2(w))) } else { None }
        } else {
            Some(SlashView::Memory)
        }
    } else if w[0] == "clear"@ {
        Some(SlashView::Clear)
    } else if w[0] == "config"@ {
        Some(SlashView::Config)
    } else if w[0] == "garden"@ {
        if n > 1 && w[1] == "consolidate"@ {
            Some(SlashView::GardenConsolidate(if n > 2 { w[2] } else { "latest"@ }))
        } else if n > 1 && w[1] == "hygiene"@ {
            Some(SlashView::GardenHygiene)
        } else if n > 1 && w[1] == "drift"@ {
            Some(SlashView::GardenDrift)
        } else if n > 1 && w[1] == "verify"@ {
            if n > 2 { Some(SlashView::GardenVerify(w[2])) } else { None }
        } else {
            Some(SlashView::GardenStats)
        }
    } else if w[0] == "search"@ {
        if n > 1 {
            let scope = if w[1] == "--events"@ {
                SearchScope::Events
            } else if w[1] == "--views"@ {
                SearchScope::Views
            } else {
                SearchScope::All
            };
            let start: int = if w[1] == "--events"@ || w[1] == "--views"@ { 2 } else { 1 };
            if n > start {
                Some(SlashView::Search(join_with(w.skip(start), seq![' ']), scope))
            } else {
                None
            }
        } else {
            None
        }
    } else {
        None
    }
}

pub open spec fn opt_view(r: Option<KeyAction>) -> Option<SlashView> {
    match r {
        Some(a) => Some(action_view(a)),
        None => None,
    }
}

/// Parse a slash command and return the appropriate action
pub fn parse_slash_command(cmd: String) -> (r: Option<KeyAction>)
    ensures
        opt_view(r) == slash_spec(words(cmd@)),
{
    let chars = chars_of(cmd.as_str());
    let parts = split_words(&chars);
    let ghost w = parts@.map_values(|p: Vec<char>| p@);
    let n = parts.len();
    if n == 0 {
        return None;
    }
    proof {
        assert(w[0] == parts@[0]@);
        if n > 1 {
            assert(w[1] == parts@[1]@);
        }
        if n > 2 {
            assert(w[2] == parts@[2]@);
        }
    }
    let head = &parts[0];
    if chars_eq(head, "model") {
        let model = if n > 1 { string_from_chars(parts[1].as_slice()) } else { to_owned("list") };
        Some(KeyAction::SlashCommandModel { model })
    } else if chars_eq(head, "approvals") {
        let mode = if n > 1 { string_from_chars(parts[1].as_slice()) } else { to_owned("list") };
        Some(KeyAction::SlashCommandApprovals { mode })
    } else if chars_eq(head, "verbosity") {
        let level = if n > 1 { string_from_chars(parts[1].as_slice()) } else { to_owned("list") };
        Some(KeyAction::SlashCommandVerbosity { level })
    } else if chars_eq(head, "status") {
        Some(KeyAction::SlashCommandStatus)
    } else if chars_eq(head, "plan") {
        if n > 1 && chars_eq(&parts[1], "add") {
            if n > 2 {
                let item = string_from_chars(join_words_from(&parts, 2).as_slice());
                Some(KeyAction::SlashCommandPlanAdd { item })
            } else {
                None
            }
        } else if n > 1 && chars_eq(&parts[1], "done") {
            if n > 2 {
                match parse_usize(&parts[2]) {
                    Some(index) => Some(KeyAction::SlashCommandPlanDone { index }),
                    None => None,
                }
            } else {
                None
            }
        } else {
            Some(KeyAction::SlashCommandPlan)
        }
    } else if chars_eq(head, "review") {
        Some(KeyAction::SlashCommandReview)
    } else if chars_eq(head, "memory") {
        if n > 1 && chars_eq(&parts[1], "add") {
            if n > 2 {
                let fact = string_from_chars(join_words_from(&parts, 2).as_slice());
                Some(KeyAction::SlashCommandMemoryAdd { fact })
            } else {
                None
            }
        } else if n > 1 && chars_eq(&parts[1], "search") {
            if n > 2 {
                let query = string_from_chars(join_words_from(&parts, 2).as_slice());
                Some(KeyAction::SlashCommandMemorySearch { query })
            } else {
                None
            }
        } else if n > 1 && chars_eq(&parts[1], "pin") {
            if n > 2 {
                let id = string_from_chars(join_words_from(&parts, 2).as_slice());
                Some(KeyAction::SlashCommandMemoryPin { id })
            } else {
                None
            }
        } else {
            Some(KeyAction::SlashCommandMemory)
        }
    } else if chars_eq(head, "clear") {
        Some(KeyAction::SlashCommandClear)
    } else if chars_eq(head, "config") {
        Some(KeyAction::SlashCommandConfig)
    } else if chars_eq(head, "garden") {
        if n > 1 && chars_eq(&parts[1], "consolidate") {
            let session_id = if n > 2 { string_from_chars(parts[2].as_slice()) } else { to_owned("latest") };
            Some(KeyAction::SlashCommandGardenConsolidate { session_id })
        } else if n > 1 && chars_eq(&parts[1], "hygiene") {
            Some(KeyAction::SlashCommandGardenHygiene)
        } else if n > 1 && chars_eq(&parts[1], "drift") {
            Some(KeyAction::SlashCommandGardenDrift)
        } else if n > 1 && chars_eq(&parts[1], "verify") {
            if n > 2 {
                let doc_id = string_from_chars(parts[2].as_slice());
                Some(KeyAction::SlashCommandGardenVerify { doc_id })
            } else {
                None
            }
        } else {
            Some(KeyAction::SlashCommandGardenStats)
        }
    } else if chars_eq(head, "search") {
        if n > 1 {
            let events = chars_eq(&parts[1], "--events");
            let views = chars_eq(&parts[1], "--views");
            let scope = if events {
                SearchScope::Events
            } else if views {
                SearchScope::Views
            } else {
                SearchScope::All
            };
            let query_start: usize = if events || views { 2 } else { 1 };
            if n > query_start {
                let query = string_from_chars(join_words_from(&parts, query_start).as_slice());
                Some(KeyAction::SlashCommandSearch { query, scope })
            } else {
                None
            }
        } else {
            None
        }
    } else {
        None
    }
}

} // verus!
