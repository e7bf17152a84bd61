//! The settings screen: groups of settings, the one being edited, the save
//! and reset dialogs, and what each key does to them. Saving to disk and the
//! numeric (floating-point) settings are the app's part: a key that needs
//! them comes back as a `SettingsEffect`.

use vstd::prelude::*;
use crate::settings::{UiSettings, SETTING_GROUPS};
use crate::scroll::{ScrollState, visible_offset, min_nat, max_offset_of};
use crate::screen::ScreenAction;
use crate::strs::{to_owned, str_eq};

verus! {

/// The core settings the screen edits as text (the provider and model).
#[derive(Debug, Clone)]
pub struct CoreSettings {
    pub default_provider: String,
    pub default_model: Option<String>,
}

/// Saved or edited settings, without the numeric ones the app keeps.
#[derive(Debug, Clone)]
pub struct Settings {
    pub core: CoreSettings,
    pub ui: UiSettings,
}

pub open spec fn opt_view(o: Option<String>) -> Option<Seq<char>> {
    match o {
        Some(s) => Some(s@),
        None => None,
    }
}

/// Two settings hold the same values.
pub open spec fn same_settings(a: Settings, b: Settings) -> bool {
    &&& a.core.default_provider@ == b.core.default_provider@
    &&& opt_view(a.core.default_model) == opt_view(b.core.default_model)
    &&& a.ui.auto_save_conversations == b.ui.auto_save_conversations
    &&& a.ui.show_tool_executions == b.ui.show_tool_executions
    &&& a.ui.sound_effects == b.ui.sound_effects
    &&& a.ui.theme@ == b.ui.theme@
    &&& a.ui.font_size@ == b.ui.font_size@
    &&& a.ui.show_line_numbers == b.ui.show_line_numbers
    &&& a.ui.word_wrap == b.ui.word_wrap
    &&& a.ui.keymap@ == b.ui.keymap@
    &&& a.ui.confirm_before_quit == b.ui.confirm_before_quit
    &&& a.ui.auto_approve_safe_tools == b.ui.auto_approve_safe_tools
    &&& a.ui.enable_network_tools == b.ui.enable_network_tools
    &&& a.ui.redact_workspace_paths == b.ui.redact_workspace_paths
    &&& a.ui.anonymous_metrics == b.ui.anonymous_metrics
}

fn opt_str_eq(a: &Option<String>, b: &Option<String>) -> (r: bool)
    ensures
        r == (opt_view(*a) == opt_view(*b)),
{
    match (a, b) {
        (Some(x), Some(y)) => str_eq(x.as_str(), y.as_str()),
        (None, None) => true,
        _ => false,
    }
}

/// Whether two settings hold the same values.
pub fn settings_equal(a: &Settings, b: &Settings) -> (r: bool)
    ensures
        r == same_settings(*a, *b),
{
    str_eq(a.core.default_provider.as_str(), b.core.default_provider.as_str())
        && opt_str_eq(&a.core.default_model, &b.core.default_model)
        && a.ui.auto_save_conversations == b.ui.auto_save_conversations
        && a.ui.show_tool_executions == b.ui.show_tool_executions
        && a.ui.sound_effects == b.ui.sound_effects
        && str_eq(a.ui.theme.as_str(), b.ui.theme.as_str())
        && str_eq(a.ui.font_size.as_str(), b.ui.font_size.as_str())
        && a.ui.show_line_numbers == b.ui.show_line_numbers
        && a.ui.word_wrap == b.ui.word_wrap
        && str_eq(a.ui.keymap.as_str(), b.ui.keymap.as_str())
        && a.ui.confirm_before_quit == b.ui.confirm_before_quit
        && a.ui.auto_approve_safe_tools == b.ui.auto_approve_safe_tools
        && a.ui.enable_network_tools == b.ui.enable_network_tools
        && a.ui.redact_workspace_paths == b.ui.redact_workspace_paths
        && a.ui.anonymous_metrics == b.ui.anonymous_metrics
}

fn clone_opt(o: &Option<String>) -> (r: Option<String>)
    ensures
        r == *o,
{
    match o {
        Some(s) => Some(s.clone()),
        None => None,
    }
}

fn clone_settings(s: &Settings) -> (r: Settings)
    ensures
        r == *s,
{
    Settings {
        core: CoreSettings {
            default_provider: s.core.default_provider.clone(),
            default_model: clone_opt(&s.core.default_model),
        },
        ui: UiSettings {
            auto_save_conversations: s.ui.auto_save_conversations,
            show_tool_executions: s.ui.show_tool_executions,
            sound_effects: s.ui.sound_effects,
            theme: s.ui.theme.clone(),
            font_size: s.ui.font_size.clone(),
            show_line_numbers: s.ui.show_line_numbers,
            word_wrap: s.ui.word_wrap,
            keymap: s.ui.keymap.clone(),
            confirm_before_quit: s.ui.confirm_before_quit,
            auto_approve_safe_tools: s.ui.auto_approve_safe_tools,
            enable_network_tools: s.ui.enable_network_tools,
            redact_workspace_paths: s.ui.redact_workspace_paths,
            anonymous_metrics: s.ui.anonymous_metrics,
        },
    }
}

/// One setting as shown on the screen.
#[derive(Debug, Clone)]
pub enum SettingItem {
    Toggle { name: String, description: String, value: bool, key: String },
    Select { name: String, description: String, value: String, options: Vec<String>, key: String },
    /// A numeric setting; its value and bounds are kept by the app.
    Number { name: String, description: String, key: String },
}

impl SettingItem {
    /// The key the item's value is stored under.
    pub fn key(&self) -> (r: &str)
        ensures
            r@ == match self {
                SettingItem::Toggle { key, .. } => key@,
                SettingItem::Select { key, .. } => key@,
                SettingItem::Number { key, .. } => key@,
            },
    {
        match self {
            SettingItem::Toggle { key, .. } => key.as_str(),
            SettingItem::Select { key, .. } => key.as_str(),
            SettingItem::Number { key, .. } => key.as_str(),
        }
    }

    /// The label shown for the item.
    pub fn name(&self) -> (r: &str)
        ensures
            r@ == match self {
                SettingItem::Toggle { name, .. } => name@,
                SettingItem::Select { name, .. } => name@,
                SettingItem::Number { name, .. } => name@,
            },
    {
        match self {
            SettingItem::Toggle { name, .. } => name.as_str(),
            SettingItem::Select { name, .. } => name.as_str(),
            SettingItem::Number { name, .. } => name.as_str(),
        }
    }

    /// The help text shown under the item's name.
    pub fn description(&self) -> (r: &str)
        ensures
            r@ == match self {
                SettingItem::Toggle { description, .. } => description@,
                SettingItem::Select { description, .. } => description@,
                SettingItem::Number { description, .. } => description@,
            },
    {
        match self {
            SettingItem::Toggle { description, .. } => description.as_str(),
            SettingItem::Select { description, .. } => description.as_str(),
            SettingItem::Number { description, .. } => description.as_str(),
        }
    }
}

/// An item as plain values: kind (0 toggle, 1 select, 2 number), name,
/// description, key, toggle value, selected text, options.
pub type ItemView = (int, Seq<char>, Seq<char>, Seq<char>, bool, Seq<char>, Seq<Seq<char>>);

pub open spec fn strings_view(v: Seq<String>) -> Seq<Seq<char>> {
    v.map_values(|s: String| s@)
}

pub open spec fn item_view(i: SettingItem) -> ItemView {
    match i {
        SettingItem::Toggle { name, description, value, key } => (0, name@, description@, key@, value, Seq::empty(), Seq::empty()),
        SettingItem::Select { name, description, value, options, key } =>
            (1, name@, description@, key@, false, value@, strings_view(options@)),
        SettingItem::Number { name, description, key } => (2, name@, description@, key@, false, Seq::empty(), Seq::empty()),
    }
}

pub open spec fn toggle_view(name: Seq<char>, description: Seq<char>, value: bool, key: Seq<char>) -> ItemView {
    (0, name, description, key, value, Seq::empty(), Seq::empty())
}

pub open spec fn select_view(name: Seq<char>, description: Seq<char>, value: Seq<char>, options: Seq<Seq<char>>, key: Seq<char>) -> ItemView {
    (1, name, description, key, false, value, options)
}

/// The items of group `g` for the settings being edited.
#[verifier::opaque]
pub open spec fn group_items(g: int, t: Settings) -> Seq<ItemView> {
    if g == 0 {
        seq![
            toggle_view("Auto-save conversations"@, "Automatically save chat history"@, t.ui.auto_save_conversations, "auto_save_conversations"@),
            toggle_view("Show tool executions"@, "Display tool calls in chat"@, t.ui.show_tool_executions, "show_tool_executions"@),
            toggle_view("Sound effects"@, "Play sounds on completion"@, t.ui.sound_effects, "sound_effects"@),
        ]
    } else if g == 1 {
        seq![
            select_view("Theme"@, "Select color scheme"@, t.ui.theme@, seq!["Oxocarbon Dark"@, "Oxocarbon Light"@, "Dracula"@], "theme"@),
            select_view("Font size"@, "Editor font size"@, t.ui.font_size@, seq!["12px"@, "14px"@, "16px"@], "font_size"@),
        ]
    } else if g == 2 {
        seq![
            toggle_view("Show line numbers"@, "Display line numbers in file view"@, t.ui.show_line_numbers, "show_line_numbers"@),
            toggle_view("Word wrap"@, "Wrap long lines in editor"@, t.ui.word_wrap, "word_wrap"@),
        ]
    } else if g == 3 {
        seq![
            select_view("Keyboard preset"@, "Navigation/editing keymap"@, t.ui.keymap@, seq!["Default"@, "Vim"@], "keymap"@),
            toggle_view("Confirm before quit"@, "Require confirmation before exit"@, t.ui.confirm_before_quit, "confirm_before_quit"@),
        ]
    } else if g == 4 {
        seq![
            select_view("Default provider"@, "Provider for new conversations"@, t.core.default_provider@, seq!["moonshot"@, "zhipu"@], "default_provider"@),
            select_view(
                "Default model"@,
                "Model for new conversations"@,
                match opt_view(t.core.default_model) { Some(m) => m, None => "kimi-k2.5"@ },
                seq!["kimi-k2.5"@, "glm-5"@, "glm-5-code"@, "glm-4.7"@, "glm-4.7-flashx"@],
                "default_model"@,
            ),
            (2, "Temperature"@, "Response creativity (0-1)"@, "temperature"@, false, Seq::empty(), Seq::empty()),
        ]
    } else if g == 5 {
        seq![
            toggle_view("Auto-approve safe tools"@, "Skip confirmation for safe tool calls"@, t.ui.auto_approve_safe_tools, "auto_approve_safe_tools"@),
            toggle_view("Enable network tools"@, "Allow web/network based tools"@, t.ui.enable_network_tools, "enable_network_tools"@),
        ]
    } else if g == 6 {
        seq![
            toggle_view("Redact workspace paths"@, "Hide local paths in logs and diagnostics"@, t.ui.redact_workspace_paths, "redact_workspace_paths"@),
            toggle_view("Anonymous metrics"@, "Share anonymized usage diagnostics"@, t.ui.anonymous_metrics, "anonymous_metrics"@),
        ]
    } else {
        Seq::empty()
    }
}

/// Number of items in group `g`.
pub open spec fn group_len(g: int) -> nat {
    if g == 0 { 3 } else if g == 4 { 3 } else if 0 <= g < 7 { 2 } else { 0 }
}

fn toggle(name: &str, description: &str, value: bool, key: &str) -> (i: SettingItem)
    ensures
        item_view(i) == toggle_view(name@, description@, value, key@),
{
    SettingItem::Toggle { name: to_owned(name), description: to_owned(description), value, key: to_owned(key) }
}

fn owned_all(options: &[&str]) -> (v: Vec<String>)
    ensures
        strings_view(v@) == options@.map_values(|s: &str| s@),
{
    let mut v: Vec<String> = Vec::new();
    let mut i: usize = 0;
    while i < options.len()
        invariant
            i <= options@.len(),
            strings_view(v@) == options@.take(i as int).map_values(|s: &str| s@),
        decreases options@.len() - i,
    {
        let ghost before = v@;
        let o = to_owned(options[i]);
        v.push(o);
        assert(strings_view(v@) =~= strings_view(before).push(options@[i as int]@));
        assert(options@.take(i + 1) =~= options@.take(i as int).push(options@[i as int]));
        i = i + 1;
        assert(strings_view(v@) =~= options@.take(i as int).map_values(|s: &str| s@));
    }
    assert(options@.take(options@.len() as int) =~= options@);
    v
}

fn select(name: &str, description: &str, value: &str, options: &[&str], key: &str) -> (i: SettingItem)
    ensures
        item_view(i) == select_view(name@, description@, value@, options@.map_values(|s: &str| s@), key@),
{
    SettingItem::Select {
        name: to_owned(name),
        description: to_owned(description),
        value: to_owned(value),
        options: owned_all(options),
        key: to_owned(key),
    }
}

/// The items of group `g` for settings `t`.
pub fn group_settings(g: usize, t: &Settings) -> (items: Vec<SettingItem>)
    ensures
        items@.map_values(|i: SettingItem| item_view(i)) == group_items(g as int, *t),
        items@.len() == group_len(g as int),
{
    reveal(group_items);
    let mut items: Vec<SettingItem> = Vec::new();
    if g == 0 {
        items.push(toggle("Auto-save conversations", "Automatically save chat history", t.ui.auto_save_conversations, "auto_save_conversations"));
        items.push(toggle("Show tool executions", "Display tool calls in chat", t.ui.show_tool_executions, "show_tool_executions"));
        items.push(toggle("Sound effects", "Play sounds on completion", t.ui.sound_effects, "sound_effects"));
    } else if g == 1 {
        let themes = ["Oxocarbon Dark", "Oxocarbon Light", "Dracula"];
        items.push(select("Theme", "Select color scheme", t.ui.theme.as_str(), &themes, "theme"));
        let sizes = ["12px", "14px", "16px"];
        items.push(select("Font size", "Editor font size", t.ui.font_size.as_str(), &sizes, "font_size"));
        assert(themes@.map_values(|s: &str| s@) =~= seq!["Oxocarbon Dark"@, "Oxocarbon Light"@, "Dracula"@]);
        assert(sizes@.map_values(|s: &str| s@) =~= seq!["12px"@, "14px"@, "16px"@]);
    } else if g == 2 {
        items.push(toggle("Show line numbers", "Display line numbers in file view", t.ui.show_line_numbers, "show_line_numbers"));
        items.push(toggle("Word wrap", "Wrap long lines in editor", t.ui.word_wrap, "word_wrap"));
    } else if g == 3 {
        let keymaps = ["Default", "Vim"];
        items.push(select("Keyboard preset", "Navigation/editing keymap", t.ui.keymap.as_str(), &keymaps, "keymap"));
        items.push(toggle("Confirm before quit", "Require confirmation before exit", t.ui.confirm_before_quit, "confirm_before_quit"));
        assert(keymaps@.map_values(|s: &str| s@) =~= seq!["Default"@, "Vim"@]);
    } else if g == 4 {
        let providers = ["moonshot", "zhipu"];
        items.push(select("Default provider", "Provider for new conversations", t.core.default_provider.as_str(), &providers, "default_provider"));
        let models = ["kimi-k2.5", "glm-5", "glm-5-code", "glm-4.7", "glm-4.7-flashx"];
        let model = match &t.core.default_model {
            Some(m) => m.as_str(),
            None => "kimi-k2.5",
        };
        items.push(select("Default model", "Model for new conversations", model, &models, "default_model"));
        items.push(SettingItem::Number {
            name: to_owned("Temperature"),
            description: to_owned("Response creativity (0-1)"),
            key: to_owned("temperature"),
        });
        assert(providers@.map_values(|s: &str| s@) =~= seq!["moonshot"@, "zhipu"@]);
        assert(models@.map_values(|s: &str| s@) =~= seq!["kimi-k2.5"@, "glm-5"@, "glm-5-code"@, "glm-4.7"@, "glm-4.7-flashx"@]);
    } else if g == 5 {
        items.push(toggle("Auto-approve safe tools", "Skip confirmation for safe tool calls", t.ui.auto_approve_safe_tools, "auto_approve_safe_tools"));
        items.push(toggle("Enable network tools", "Allow web/network based tools", t.ui.enable_network_tools, "enable_network_tools"));
    } else if g == 6 {
        items.push(toggle("Redact workspace paths", "Hide local paths in logs and diagnostics", t.ui.redact_workspace_paths, "redact_workspace_paths"));
        items.push(toggle("Anonymous metrics", "Share anonymized usage diagnostics", t.ui.anonymous_metrics, "anonymous_metrics"));
    }
    assert(items@.map_values(|i: SettingItem| item_view(i)) =~= group_items(g as int, *t));
    items
}

/// `value` read as a boolean the way `str::parse::<bool>` does, or `default`.
pub open spec fn parse_bool_or(value: Seq<char>, default: bool) -> bool {
    if value == "true"@ { true } else if value == "false"@ { false } else { default }
}

/// `n` is `t` with the setting `key` set from the text `value` (numeric and
/// unknown keys change nothing here).
pub open spec fn value_set(t: Settings, key: Seq<char>, value: Seq<char>, n: Settings) -> bool {
    let u = t.ui;
    if key == "auto_save_conversations"@ {
        same_settings(n, Settings { ui: UiSettings { auto_save_conversations: parse_bool_or(value, true), ..u }, ..t })
    } else if key == "show_tool_executions"@ {
        same_settings(n, Settings { ui: UiSettings { show_tool_executions: parse_bool_or(value, true), ..u }, ..t })
    } else if key == "sound_effects"@ {
        same_settings(n, Settings { ui: UiSettings { sound_effects: parse_bool_or(value, false), ..u }, ..t })
    } else if key == "theme"@ {
        n.ui.theme@ == value && same_settings(n, Settings { ui: UiSettings { theme: n.ui.theme, ..u }, ..t })
    } else if key == "font_size"@ {
        n.ui.font_size@ == value && same_settings(n, Settings { ui: UiSettings { font_size: n.ui.font_size, ..u }, ..t })
    } else if key == "show_line_numbers"@ {
        same_settings(n, Settings { ui: UiSettings { show_line_numbers: parse_bool_or(value, true), ..u }, ..t })
    } else if key == "word_wrap"@ {
        same_settings(n, Settings { ui: UiSettings { word_wrap: parse_bool_or(value, true), ..u }, ..t })
    } else if key == "keymap"@ {
        n.ui.keymap@ == value && same_settings(n, Settings { ui: UiSettings { keymap: n.ui.keymap, ..u }, ..t })
    } else if key == "confirm_before_quit"@ {
        same_settings(n, Settings { ui: UiSettings { confirm_before_quit: parse_bool_or(value, true), ..u }, ..t })
    } else if key == "default_provider"@ {
        n.core.default_provider@ == value
            && same_settings(n, Settings { core: CoreSettings { default_provider: n.core.default_provider, ..t.core }, ..t })
    } else if key == "default_model"@ {
        opt_view(n.core.default_model) == Some(value)
            && same_settings(n, Settings { core: CoreSettings { default_model: n.core.default_model, ..t.core }, ..t })
    } else if key == "auto_approve_safe_tools"@ {
        same_settings(n, Settings { ui: UiSettings { auto_approve_safe_tools: parse_bool_or(value, false), ..u }, ..t })
    } else if key == "enable_network_tools"@ {
        same_settings(n, Settings { ui: UiSettings { enable_network_tools: parse_bool_or(value, true), ..u }, ..t })
    } else if key == "redact_workspace_paths"@ {
        same_settings(n, Settings { ui: UiSettings { redact_workspace_paths: parse_bool_or(value, true), ..u }, ..t })
    } else if key == "anonymous_metrics"@ {
        same_settings(n, Settings { ui: UiSettings { anonymous_metrics: parse_bool_or(value, false), ..u }, ..t })
    } else {
        same_settings(n, t)
    }
}

fn parse_bool_or_exec(value: &str, default: bool) -> (b: bool)
    ensures
        b == parse_bool_or(value@, default),
{
    if str_eq(value, "true") {
        true
    } else if str_eq(value, "false") {
        false
    } else {
        default
    }
}

/// Sets the setting `key` of `t` from the text `value`.
#[verifier::rlimit(60)]
pub fn set_value(t: &mut Settings, key: &str, value: String)
    ensures
        value_set(*old(t), key@, value@, *final(t)),
{
    let ghost t0 = *t;
    if str_eq(key, "auto_save_conversations") {
        t.ui.auto_save_conversations = parse_bool_or_exec(value.as_str(), true);
    } else if str_eq(key, "show_tool_executions") {
        t.ui.show_tool_executions = parse_bool_or_exec(value.as_str(), true);
    } else if str_eq(key, "sound_effects") {
        t.ui.sound_effects = parse_bool_or_exec(value.as_str(), false);
    } else if str_eq(key, "theme") {
        t.ui.theme = value;
    } else if str_eq(key, "font_size") {
        t.ui.font_size = value;
    } else if str_eq(key, "show_line_numbers") {
        t.ui.show_line_numbers = parse_bool_or_exec(value.as_str(), true);
    } else if str_eq(key, "word_wrap") {
        t.ui.word_wrap = parse_bool_or_exec(value.as_str(), true);
    } else if str_eq(key, "keymap") {
        t.ui.keymap = value;
    } else if str_eq(key, "confirm_before_quit") {
        t.ui.confirm_before_quit = parse_bool_or_exec(value.as_str(), true);
    } else if str_eq(key, "default_provider") {
        t.core.default_provider = value;
    } else if str_eq(key, "default_model") {
        t.core.default_model = Some(value);
    } else if str_eq(key, "auto_approve_safe_tools") {
        t.ui.auto_approve_safe_tools = parse_bool_or_exec(value.as_str(), false);
    } else if str_eq(key, "enable_network_tools") {
        t.ui.enable_network_tools = parse_bool_or_exec(value.as_str(), true);
    } else if str_eq(key, "redact_workspace_paths") {
        t.ui.redact_workspace_paths = parse_bool_or_exec(value.as_str(), true);
    } else if str_eq(key, "anonymous_metrics") {
        t.ui.anonymous_metrics = parse_bool_or_exec(value.as_str(), false);
    }
}

/// Index of the first option equal to `v`, if any.
pub open spec fn first_pos(options: Seq<Seq<char>>, v: Seq<char>) -> Option<int>
    decreases options.len(),
{
    if options.len() == 0 {
        None
    } else if options[0] == v {
        Some(0)
    } else {
        match first_pos(options.drop_first(), v) {
            Some(i) => Some(i + 1),
            None => None,
        }
    }
}

/// The option after (or before) the current value, wrapping around; an
/// unknown value counts as the first option.
pub open spec fn stepped_option(options: Seq<Seq<char>>, v: Seq<char>, up: bool) -> Seq<char> {
    let i = match first_pos(options, v) { Some(i) => i, None => 0 };
    if up {
        options[(i + 1) % (options.len() as int)]
    } else {
        options[if i == 0 { options.len() - 1 } else { i - 1 }]
    }
}

/// The text `bool::to_string` gives.
pub open spec fn bool_text(b: bool) -> Seq<char> {
    if b { "true"@ } else { "false"@ }
}

/// Keys of the settings screen (the app maps terminal key events to these).
#[derive(Debug, Clone, Copy, PartialEq, Eq)]
pub enum SettingsKey {
    Esc,
    /// Ctrl+Up or Ctrl+K: previous group
    CtrlUp,
    /// Ctrl+Down or Ctrl+J: next group
    CtrlDown,
    Up,
    Down,
    /// Enter or Space
    Select,
    Left,
    Right,
    /// Ctrl+S: ask to save
    CtrlS,
    /// Ctrl+R: ask to reset
    CtrlR,
    Char(char),
    Other,
}

/// Work a key leaves to the app.
#[derive(Debug, Clone)]
pub enum SettingsEffect {
    Nothing,
    /// Write the edited settings to disk, then call `finish_save`.
    Save,
    /// Reset the numeric settings to their defaults.
    ResetNumbers,
    /// Step the numeric setting `key` up or down (within its bounds).
    StepNumber { key: String, up: bool },
}

/// State of the settings screen.
#[derive(Debug, Clone)]
pub struct SettingsApp {
    /// Saved settings
    pub settings: Settings,
    /// Settings being edited
    pub temp_settings: Settings,
    /// What a reset restores for the core settings
    pub core_defaults: CoreSettings,
    /// Whether the app's numeric settings differ from the saved ones
    pub temperature_edited: bool,
    pub selected_group: usize,
    pub has_changes: bool,
    pub show_save_dialog: bool,
    pub show_reset_dialog: bool,
    pub status_message: Option<String>,
    pub scroll: ScrollState,
    pub active_setting_index: usize,
}

/// Rows the settings list shows at once.
pub const SETTINGS_PAGE_SIZE: usize = 8;

/// Scroll offset after syncing to group `g` with `active` selected.
pub open spec fn synced_offset(offset: nat, g: int, active: nat) -> nat {
    let total = group_len(g);
    visible_offset(min_nat(offset, max_offset_of(total, 8)), 8, total, active)
}

impl SettingsApp {
    pub open spec fn wf(&self) -> bool {
        &&& self.selected_group < 7
        &&& self.scroll.page_size >= 1
        &&& self.scroll.total == group_len(self.selected_group as int)
        &&& self.scroll.wf()
    }

    /// Unsaved changes: edited values differ from the saved ones.
    pub open spec fn changed(&self) -> bool {
        !same_settings(self.temp_settings, self.settings) || self.temperature_edited
    }

    /// The item under the cursor, if any.
    pub open spec fn active_item(&self) -> Option<ItemView> {
        let items = group_items(self.selected_group as int, self.temp_settings);
        if self.active_setting_index < items.len() { Some(items[self.active_setting_index as int]) } else { None }
    }

    pub fn new(settings: Settings, core_defaults: CoreSettings, load_error: Option<String>) -> (app: Self)
        ensures
            app.wf(),
            app.settings == settings,
            app.temp_settings == settings,
            app.core_defaults == core_defaults,
            !app.temperature_edited,
            app.selected_group == 0,
            !app.has_changes,
            !app.show_save_dialog,
            !app.show_reset_dialog,
            app.active_setting_index == 0,
            app.scroll.offset == 0,
            match load_error {
                Some(e) => app.status_message matches Some(m) && m@ == "Failed to load settings: "@ + e@,
                None => app.status_message is None,
            },
    {
        let status_message = match load_error {
            Some(e) => Some(to_owned("Failed to load settings: ").concat(e.as_str())),
            None => None,
        };
        let mut app = SettingsApp {
            temp_settings: clone_settings(&settings),
            settings,
            core_defaults,
            temperature_edited: false,
            selected_group: 0,
            has_changes: false,
            show_save_dialog: false,
            show_reset_dialog: false,
            status_message,
            scroll: ScrollState::with_viewport(0, SETTINGS_PAGE_SIZE),
            active_setting_index: 0,
        };
        app.sync_scroll_state();
        app
    }

    fn sync_scroll_state(&mut self)
        requires
            old(self).selected_group < 7,
        ensures
            final(self).wf(),
            final(self).scroll.offset == synced_offset(old(self).scroll.offset as nat, old(self).selected_group as int,
                old(self).active_setting_index as nat),
            final(self).settings == old(self).settings,
            final(self).temp_settings == old(self).temp_settings,
            final(self).core_defaults == old(self).core_defaults,
            final(self).temperature_edited == old(self).temperature_edited,
            final(self).selected_group == old(self).selected_group,
            final(self).has_changes == old(self).has_changes,
            final(self).show_save_dialog == old(self).show_save_dialog,
            final(self).show_reset_dialog == old(self).show_reset_dialog,
            final(self).status_message == old(self).status_message,
            final(self).active_setting_index == old(self).active_setting_index,
    {
        let items = group_settings(self.selected_group, &self.temp_settings);
        self.scroll.set_viewport(items.len(), SETTINGS_PAGE_SIZE);
        self.scroll.ensure_visible(self.active_setting_index);
    }

    /// Fits the scroll to a screen that shows `visible_rows` settings at a
    /// time (what `settings_page_size` gives for the viewport); the offset is
    /// kept within the last page.
    pub fn fit_viewport(&mut self, visible_rows: usize)
        requires
            old(self).wf(),
            visible_rows >= 1,
        ensures
            final(self).wf(),
            final(self).scroll.page_size == visible_rows,
            final(self).scroll.total == old(self).scroll.total,
            final(self).scroll.offset == min_nat(old(self).scroll.offset as nat,
                max_offset_of(old(self).scroll.total as nat, visible_rows as nat)),
            *final(self) == (SettingsApp { scroll: final(self).scroll, ..*old(self) }),
    {
        let total = self.scroll.total;
        self.scroll.set_viewport(total, visible_rows);
    }

    pub fn current_group_settings(&self) -> (items: Vec<SettingItem>)
        ensures
            items@.map_values(|i: SettingItem| item_view(i)) == group_items(self.selected_group as int, self.temp_settings),
            items@.len() == group_len(self.selected_group as int),
    {
        group_settings(self.selected_group, &self.temp_settings)
    }

    pub fn current_group_name(&self) -> (r: &'static str)
        requires
            self.selected_group < 7,
        ensures
            r == SETTING_GROUPS@[self.selected_group as int],
    {
        SETTING_GROUPS[self.selected_group]
    }

    pub fn active_setting_index(&self) -> (r: usize)
        ensures
            r == self.active_setting_index,
    {
        self.active_setting_index
    }

    /// The status line: the last message, or "Settings".
    pub fn status_text(&self) -> (r: String)
        ensures
            r@ == match self.status_message {
                Some(m) => m@,
                None => "Settings"@,
            },
    {
        match &self.status_message {
            Some(m) => m.clone(),
            None => to_owned("Settings"),
        }
    }

    fn set_setting_value(&mut self, key: &str, value: String)
        ensures
            value_set(old(self).temp_settings, key@, value@, final(self).temp_settings),
            final(self).has_changes == final(self).changed(),
            final(self).settings == old(self).settings,
            final(self).core_defaults == old(self).core_defaults,
            final(self).temperature_edited == old(self).temperature_edited,
            final(self).selected_group == old(self).selected_group,
            final(self).show_save_dialog == old(self).show_save_dialog,
            final(self).show_reset_dialog == old(self).show_reset_dialog,
            final(self).status_message == old(self).status_message,
            final(self).scroll == old(self).scroll,
            final(self).active_setting_index == old(self).active_setting_index,
    {
        set_value(&mut self.temp_settings, key, value);
        self.has_changes = !settings_equal(&self.temp_settings, &self.settings) || self.temperature_edited;
    }

    /// Records whether the app's numeric settings now differ from the saved ones.
    pub fn note_temperature(&mut self, edited: bool)
        ensures
            final(self).temperature_edited == edited,
            final(self).has_changes == final(self).changed(),
            final(self).settings == old(self).settings,
            final(self).temp_settings == old(self).temp_settings,
            final(self).selected_group == old(self).selected_group,
            final(self).scroll == old(self).scroll,
            final(self).active_setting_index == old(self).active_setting_index,
    {
        self.temperature_edited = edited;
        self.has_changes = !settings_equal(&self.temp_settings, &self.settings) || self.temperature_edited;
    }

    /// After the app tried to save: on success the edits become the saved
    /// settings; either way the status says how it went.
    pub fn finish_save(&mut self, error: Option<String>)
        ensures
            match error {
                None => {
                    &&& final(self).settings == old(self).temp_settings
                    &&& !final(self).has_changes
                    &&& !final(self).temperature_edited
                    &&& final(self).status_message matches Some(m) && m@ == "Settings saved successfully"@
                },
                Some(e) => {
                    &&& final(self).settings == old(self).settings
                    &&& final(self).has_changes == old(self).has_changes
                    &&& final(self).temperature_edited == old(self).temperature_edited
                    &&& final(self).status_message matches Some(m) && m@ == "Error saving: "@ + e@
                },
            },
            final(self).temp_settings == old(self).temp_settings,
            final(self).selected_group == old(self).selected_group,
            final(self).scroll == old(self).scroll,
            final(self).active_setting_index == old(self).active_setting_index,
            final(self).show_save_dialog == old(self).show_save_dialog,
            final(self).show_reset_dialog == old(self).show_reset_dialog,
    {
        match error {
            None => {
                self.settings = clone_settings(&self.temp_settings);
                self.has_changes = false;
                self.temperature_edited = false;
                self.status_message = Some(to_owned("Settings saved successfully"));
            },
            Some(e) => {
                self.status_message = Some(to_owned("Error saving: ").concat(e.as_str()));
            },
        }
    }
}

fn first_pos_exec(options: &Vec<String>, v: &str) -> (r: Option<usize>)
    ensures
        r matches Some(i) ==> i < options@.len(),
        match first_pos(strings_view(options@), v@) {
            Some(i) => r == Some(i as usize),
            None => r is None,
        },
{
    let ghost ov = strings_view(options@);
    let mut i: usize = 0;
    while i < options.len()
        invariant
            i <= options@.len(),
            ov == strings_view(options@),
            forall|j: int| 0 <= j < i ==> ov[j] != v@,
        decreases options@.len() - i,
    {
        if str_eq(options[i].as_str(), v) {
            proof { lemma_first_pos_at(ov, v@, i as int); }
            return Some(i);
        }
        i = i + 1;
    }
    proof { lemma_first_pos_none(ov, v@); }
    None
}

proof fn lemma_first_pos_range(os: Seq<Seq<char>>, v: Seq<char>)
    ensures
        first_pos(os, v) matches Some(i) ==> 0 <= i < os.len(),
    decreases os.len(),
{
    if os.len() > 0 {
        lemma_first_pos_range(os.drop_first(), v);
    }
}

proof fn lemma_first_pos_at(os: Seq<Seq<char>>, v: Seq<char>, i: int)
    requires
        0 <= i < os.len(),
        os[i] == v,
        forall|j: int| 0 <= j < i ==> os[j] != v,
    ensures
        first_pos(os, v) == Some(i),
    decreases i,
{
    if i > 0 {
        assert forall|j: int| 0 <= j < i - 1 implies os.drop_first()[j] != v by {
            assert(os.drop_first()[j] == os[j + 1]);
        }
        lemma_first_pos_at(os.drop_first(), v, i - 1);
    }
}

proof fn lemma_first_pos_none(os: Seq<Seq<char>>, v: Seq<char>)
    requires
        forall|j: int| 0 <= j < os.len() ==> os[j] != v,
    ensures
        first_pos(os, v) is None,
    decreases os.len(),
{
    if os.len() > 0 {
        assert forall|j: int| 0 <= j < os.drop_first().len() implies os.drop_first()[j] != v by {
            assert(os.drop_first()[j] == os[j + 1]);
        }
        lemma_first_pos_none(os.drop_first(), v);
    }
}

/// The option after (or before) `v`.
fn step_option(options: &Vec<String>, v: &str, up: bool) -> (r: String)
    requires
        options@.len() > 0,
    ensures
        r@ == stepped_option(strings_view(options@), v@, up),
{
    let i = match first_pos_exec(options, v) {
        Some(i) => i,
        None => 0,
    };
    let n = options.len();
    let j = if up {
        (i + 1) % n
    } else if i == 0 {
        n - 1
    } else {
        i - 1
    };
    let ghost ov = strings_view(options@);
    assert(ov[j as int] == options@[j as int]@);
    proof { lemma_first_pos_range(ov, v@); }
    let ghost pos = match first_pos(ov, v@) { Some(p) => p, None => 0 };
    assert(pos == i);
    let r = options[j].clone();
    assert(r@ == ov[j as int]);
    r
}

/// Select items always offer at least one option.
pub proof fn lemma_selects_have_options(g: int, t: Settings, k: int)
    requires
        0 <= k < group_items(g, t).len(),
        group_items(g, t)[k].0 == 1,
    ensures
        group_items(g, t)[k].6.len() > 0,
{
    reveal(group_items);
}

/// What the settings are after Enter/Space on `item`.
pub open spec fn toggled(t: Settings, item: ItemView, n: Settings) -> bool {
    if item.0 == 0 {
        value_set(t, item.3, bool_text(!item.4), n)
    } else if item.0 == 1 {
        value_set(t, item.3, stepped_option(item.6, item.5, true), n)
    } else {
        n == t
    }
}

/// What the settings are after Left/Right on a select `item`.
pub open spec fn stepped(t: Settings, item: ItemView, up: bool, n: Settings) -> bool {
    if item.0 == 1 {
        value_set(t, item.3, stepped_option(item.6, item.5, up), n)
    } else {
        n == t
    }
}

impl SettingsApp {
    /// Enter/Space: flips a toggle or moves a select to its next option.
    fn toggle_current_setting(&mut self)
        requires
            old(self).selected_group < 7,
        ensures
            match old(self).active_item() {
                Some(item) => {
                    &&& toggled(old(self).temp_settings, item, final(self).temp_settings)
                    &&& final(self).has_changes == if item.0 == 2 { old(self).has_changes } else { final(self).changed() }
                },
                None => final(self).temp_settings == old(self).temp_settings && final(self).has_changes == old(self).has_changes,
            },
            final(self).settings == old(self).settings,
            final(self).core_defaults == old(self).core_defaults,
            final(self).temperature_edited == old(self).temperature_edited,
            final(self).selected_group == old(self).selected_group,
            final(self).show_save_dialog == old(self).show_save_dialog,
            final(self).show_reset_dialog == old(self).show_reset_dialog,
            final(self).status_message == old(self).status_message,
            final(self).scroll == old(self).scroll,
            final(self).active_setting_index == old(self).active_setting_index,
    {
        let items = self.current_group_settings();
        let ghost iv = items@.map_values(|i: SettingItem| item_view(i));
        if self.active_setting_index >= items.len() {
            return;
        }
        assert(iv[self.active_setting_index as int] == item_view(items@[self.active_setting_index as int]));
        match &items[self.active_setting_index] {
            SettingItem::Toggle { key, value, .. } => {
                let text = if *value { to_owned("false") } else { to_owned("true") };
                self.set_setting_value(key.as_str(), text);
            },
            SettingItem::Select { key, options, value, .. } => {
                proof {
                    lemma_selects_have_options(self.selected_group as int, self.temp_settings, self.active_setting_index as int);
                }
                let next = step_option(options, value.as_str(), true);
                self.set_setting_value(key.as_str(), next);
            },
            SettingItem::Number { .. } => {},
        }
    }

    /// Left/Right: steps a select's option; a number is stepped by the app.
    fn step_current_setting(&mut self, up: bool) -> (effect: SettingsEffect)
        requires
            old(self).selected_group < 7,
        ensures
            match old(self).active_item() {
                Some(item) => {
                    &&& stepped(old(self).temp_settings, item, up, final(self).temp_settings)
                    &&& final(self).has_changes == if item.0 == 1 { final(self).changed() } else { old(self).has_changes }
                    &&& if item.0 == 2 {
                        effect matches SettingsEffect::StepNumber { key, up: u } && key@ == item.3 && u == up
                    } else {
                        effect is Nothing
                    }
                },
                None => {
                    &&& final(self).temp_settings == old(self).temp_settings
                    &&& final(self).has_changes == old(self).has_changes
                    &&& effect is Nothing
                },
            },
            final(self).settings == old(self).settings,
            final(self).core_defaults == old(self).core_defaults,
            final(self).temperature_edited == old(self).temperature_edited,
            final(self).selected_group == old(self).selected_group,
            final(self).show_save_dialog == old(self).show_save_dialog,
            final(self).show_reset_dialog == old(self).show_reset_dialog,
            final(self).status_message == old(self).status_message,
            final(self).scroll == old(self).scroll,
            final(self).active_setting_index == old(self).active_setting_index,
    {
        let items = self.current_group_settings();
        let ghost iv = items@.map_values(|i: SettingItem| item_view(i));
        if self.active_setting_index >= items.len() {
            return SettingsEffect::Nothing;
        }
        assert(iv[self.active_setting_index as int] == item_view(items@[self.active_setting_index as int]));
        match &items[self.active_setting_index] {
            SettingItem::Number { key, .. } => SettingsEffect::StepNumber { key: key.clone(), up },
            SettingItem::Select { key, options, value, .. } => {
                proof {
                    lemma_selects_have_options(self.selected_group as int, self.temp_settings, self.active_setting_index as int);
                }
                let next = step_option(options, value.as_str(), up);
                self.set_setting_value(key.as_str(), next);
                SettingsEffect::Nothing
            },
            SettingItem::Toggle { .. } => SettingsEffect::Nothing,
        }
    }
}

/// `y`/`Y` answers a dialog yes.
pub open spec fn confirms(key: SettingsKey) -> bool {
    key == SettingsKey::Char('y') || key == SettingsKey::Char('Y')
}

/// `n`/`N`/Esc answers a dialog no.
pub open spec fn declines(key: SettingsKey) -> bool {
    key == SettingsKey::Char('n') || key == SettingsKey::Char('N') || key == SettingsKey::Esc
}

/// `t` holds the default settings (the core part as given).
pub open spec fn is_reset(defaults: CoreSettings, t: Settings) -> bool {
    &&& t.core.default_provider@ == defaults.default_provider@
    &&& opt_view(t.core.default_model) == opt_view(defaults.default_model)
    &&& t.ui.is_default()
}

/// Group, selection and whether the list jumps to the top after a key
/// outside the dialogs.
pub open spec fn moved(g: nat, a: nat, key: SettingsKey) -> (nat, nat, bool) {
    match key {
        SettingsKey::CtrlUp => if g > 0 { ((g - 1) as nat, 0, true) } else { (g, a, false) },
        SettingsKey::CtrlDown => if g + 1 < 7 { (g + 1, 0, true) } else { (g, a, false) },
        SettingsKey::Up => (g, if a > 0 { (a - 1) as nat } else { 0 }, false),
        SettingsKey::Down => (g, if a + 1 < group_len(g as int) { a + 1 } else { a }, false),
        _ => (g, a, false),
    }
}

/// The screen after a key while no dialog is open.
pub open spec fn main_step(old: SettingsApp, key: SettingsKey, new: SettingsApp, r: (ScreenAction, SettingsEffect)) -> bool {
    let m = moved(old.selected_group as nat, old.active_setting_index as nat, key);
    &&& new.selected_group == m.0
    &&& new.active_setting_index == m.1
    &&& new.scroll.offset == synced_offset(if m.2 { 0 } else { old.scroll.offset as nat }, m.0 as int, m.1)
    &&& r.0 == if key == SettingsKey::Esc { ScreenAction::ReturnToPrevious } else { ScreenAction::NoAction }
    &&& new.show_save_dialog == (key == SettingsKey::CtrlS)
    &&& new.show_reset_dialog == (key == SettingsKey::CtrlR)
    &&& new.status_message == old.status_message
    &&& match key {
        SettingsKey::Select => {
            &&& r.1 is Nothing
            &&& match old.active_item() {
                Some(item) => toggled(old.temp_settings, item, new.temp_settings)
                    && new.has_changes == if item.0 == 2 { old.has_changes } else { new.changed() },
                None => new.temp_settings == old.temp_settings && new.has_changes == old.has_changes,
            }
        },
        SettingsKey::Left | SettingsKey::Right => {
            let up = key == SettingsKey::Right;
            match old.active_item() {
                Some(item) => {
                    &&& stepped(old.temp_settings, item, up, new.temp_settings)
                    &&& new.has_changes == if item.0 == 1 { new.changed() } else { old.has_changes }
                    &&& if item.0 == 2 {
                        r.1 matches SettingsEffect::StepNumber { key: k, up: u } && k@ == item.3 && u == up
                    } else {
                        r.1 is Nothing
                    }
                },
                None => new.temp_settings == old.temp_settings && new.has_changes == old.has_changes && r.1 is Nothing,
            }
        },
        _ => new.temp_settings == old.temp_settings && new.has_changes == old.has_changes && r.1 is Nothing,
    }
}

fn save_dialog_key(model: &mut SettingsApp, key: SettingsKey) -> (r: (ScreenAction, SettingsEffect))
    ensures
        r.0 == ScreenAction::NoAction,
        final(model).show_save_dialog == (old(model).show_save_dialog && !(confirms(key) || declines(key))),
        if confirms(key) { r.1 is Save } else { r.1 is Nothing },
        final(model).temp_settings == old(model).temp_settings,
        final(model).settings == old(model).settings,
        final(model).core_defaults == old(model).core_defaults,
        final(model).temperature_edited == old(model).temperature_edited,
        final(model).has_changes == old(model).has_changes,
        final(model).status_message == old(model).status_message,
        final(model).show_reset_dialog == old(model).show_reset_dialog,
        final(model).selected_group == old(model).selected_group,
        final(model).active_setting_index == old(model).active_setting_index,
        final(model).scroll == old(model).scroll,
{
    let mut effect = SettingsEffect::Nothing;
    match key {
        SettingsKey::Char('y') | SettingsKey::Char('Y') => {
            model.show_save_dialog = false;
            effect = SettingsEffect::Save;
        },
        SettingsKey::Char('n') | SettingsKey::Char('N') | SettingsKey::Esc => model.show_save_dialog = false,
        _ => {},
    }
    (ScreenAction::NoAction, effect)
}

fn reset_dialog_key(model: &mut SettingsApp, key: SettingsKey) -> (r: (ScreenAction, SettingsEffect))
    ensures
        r.0 == ScreenAction::NoAction,
        final(model).show_reset_dialog == (old(model).show_reset_dialog && !(confirms(key) || declines(key))),
        if confirms(key) {
            &&& is_reset(old(model).core_defaults, final(model).temp_settings)
            &&& final(model).has_changes
            &&& final(model).status_message matches Some(m) && m@ == "Settings reset to defaults. Press Ctrl+S to save."@
            &&& r.1 is ResetNumbers
        } else {
            &&& final(model).temp_settings == old(model).temp_settings
            &&& final(model).has_changes == old(model).has_changes
            &&& final(model).status_message == old(model).status_message
            &&& r.1 is Nothing
        },
        final(model).settings == old(model).settings,
        final(model).core_defaults == old(model).core_defaults,
        final(model).temperature_edited == old(model).temperature_edited,
        final(model).show_save_dialog == old(model).show_save_dialog,
        final(model).selected_group == old(model).selected_group,
        final(model).active_setting_index == old(model).active_setting_index,
        final(model).scroll == old(model).scroll,
{
    let mut effect = SettingsEffect::Nothing;
    match key {
        SettingsKey::Char('y') | SettingsKey::Char('Y') => {
            let defaults = Settings {
                core: CoreSettings {
                    default_provider: model.core_defaults.default_provider.clone(),
                    default_model: clone_opt(&model.core_defaults.default_model),
                },
                ui: UiSettings::default(),
            };
            model.temp_settings = defaults;
            model.has_changes = true;
            model.status_message = Some(to_owned("Settings reset to defaults. Press Ctrl+S to save."));
            model.show_reset_dialog = false;
            effect = SettingsEffect::ResetNumbers;
        },
        SettingsKey::Char('n') | SettingsKey::Char('N') | SettingsKey::Esc => model.show_reset_dialog = false,
        _ => {},
    }
    (ScreenAction::NoAction, effect)
}

fn main_key(model: &mut SettingsApp, key: SettingsKey) -> (r: (ScreenAction, SettingsEffect))
    requires
        old(model).wf(),
        !old(model).show_save_dialog,
        !old(model).show_reset_dialog,
    ensures
        final(model).wf(),
        final(model).settings == old(model).settings,
        final(model).core_defaults == old(model).core_defaults,
        final(model).temperature_edited == old(model).temperature_edited,
        main_step(*old(model), key, *final(model), r),
{
    let mut effect = SettingsEffect::Nothing;
    let action = match key {
        SettingsKey::Esc => ScreenAction::ReturnToPrevious,
        SettingsKey::CtrlUp => {
            if model.selected_group > 0 {
                model.selected_group = model.selected_group - 1;
                model.active_setting_index = 0;
                model.scroll.set_offset(0);
            }
            ScreenAction::NoAction
        },
        SettingsKey::CtrlDown => {
            if model.selected_group + 1 < 7 {
                model.selected_group = model.selected_group + 1;
                model.active_setting_index = 0;
                model.scroll.set_offset(0);
            }
            ScreenAction::NoAction
        },
        SettingsKey::Up => {
            if model.active_setting_index > 0 {
                model.active_setting_index = model.active_setting_index - 1;
            }
            ScreenAction::NoAction
        },
        SettingsKey::Down => {
            let count = model.current_group_settings().len();
            if model.active_setting_index < count && model.active_setting_index + 1 < count {
                model.active_setting_index = model.active_setting_index + 1;
            }
            ScreenAction::NoAction
        },
        SettingsKey::Select => {
            model.toggle_current_setting();
            ScreenAction::NoAction
        },
        SettingsKey::Left => {
            effect = model.step_current_setting(false);
            ScreenAction::NoAction
        },
        SettingsKey::Right => {
            effect = model.step_current_setting(true);
            ScreenAction::NoAction
        },
        SettingsKey::CtrlS => {
            model.show_save_dialog = true;
            ScreenAction::NoAction
        },
        SettingsKey::CtrlR => {
            model.show_reset_dialog = true;
            ScreenAction::NoAction
        },
        _ => ScreenAction::NoAction,
    };
    model.sync_scroll_state();
    (action, effect)
}

/// What one key does to the settings screen (`update`): the next state and
/// what is handed back.
pub open spec fn settings_step(o: SettingsApp, key: SettingsKey, n: SettingsApp, r: (ScreenAction, SettingsEffect)) -> bool {
    &&& n.wf()
    &&& n.settings == o.settings
    &&& n.core_defaults == o.core_defaults
    &&& n.temperature_edited == o.temperature_edited
    &&& if o.show_save_dialog {
        &&& r.0 == ScreenAction::NoAction
        &&& n.show_save_dialog == !(confirms(key) || declines(key))
        &&& if confirms(key) { r.1 is Save } else { r.1 is Nothing }
        &&& n.temp_settings == o.temp_settings
        &&& n.has_changes == o.has_changes
        &&& n.status_message == o.status_message
        &&& n.show_reset_dialog == o.show_reset_dialog
        &&& n.selected_group == o.selected_group
        &&& n.active_setting_index == o.active_setting_index
        &&& n.scroll == o.scroll
    } else if o.show_reset_dialog {
        &&& r.0 == ScreenAction::NoAction
        &&& n.show_reset_dialog == !(confirms(key) || declines(key))
        &&& if confirms(key) {
            &&& is_reset(o.core_defaults, n.temp_settings)
            &&& n.has_changes
            &&& n.status_message matches Some(m) && m@ == "Settings reset to defaults. Press Ctrl+S to save."@
            &&& r.1 is ResetNumbers
        } else {
            &&& n.temp_settings == o.temp_settings
            &&& n.has_changes == o.has_changes
            &&& n.status_message == o.status_message
            &&& r.1 is Nothing
        }
        &&& n.show_save_dialog == o.show_save_dialog
        &&& n.selected_group == o.selected_group
        &&& n.active_setting_index == o.active_setting_index
        &&& n.scroll == o.scroll
    } else {
        main_step(o, key, n, r)
    }
}

/// Handles one key on the settings screen: the open dialog takes it first,
/// else it moves, edits, or opens a dialog.
pub fn update(model: &mut SettingsApp, key: SettingsKey) -> (r: (ScreenAction, SettingsEffect))
    requires
        old(model).wf(),
    ensures
        settings_step(*old(model), key, *final(model), r),
{
    if model.show_save_dialog {
        save_dialog_key(model, key)
    } else if model.show_reset_dialog {
        reset_dialog_key(model, key)
    } else {
        main_key(model, key)
    }
}


/// The value column of a settings row: `[ON]`/`[OFF]` for a toggle, the
/// chosen option for a select, and for a number the text the app formats
/// from the value it keeps (`number_text`).
pub fn setting_value(item: &SettingItem, number_text: &str) -> (s: String)
    ensures
        s@ == match item {
            SettingItem::Toggle { value, .. } => if *value { "[ON]"@ } else { "[OFF]"@ },
            SettingItem::Select { value, .. } => value@,
            SettingItem::Number { .. } => number_text@,
        },
{
    match item {
        SettingItem::Toggle { value, .. } => if *value { to_owned("[ON]") } else { to_owned("[OFF]") },
        SettingItem::Select { value, .. } => value.clone(),
        SettingItem::Number { .. } => to_owned(number_text),
    }
}

/// Rows under the settings content: the hint row and the two-row status.
pub const SETTINGS_CHROME_ROWS: u16 = 3;

/// Rows of the settings screen's main area and how many settings a page
/// shows, in a viewport `viewport_height` rows tall: the area above the hint
/// and status rows (at least one); four of its rows are frame, each setting
/// takes three of the rest, and at least one shows.
pub fn settings_page_size(viewport_height: u16) -> (r: (u16, usize))
    ensures
        r.0 == (if viewport_height > SETTINGS_CHROME_ROWS { viewport_height - SETTINGS_CHROME_ROWS } else { 1 }),
        r.1 == (if r.0 >= 10 { (r.0 - 4) / 3 } else { 1 }),
{
    let main = if viewport_height > SETTINGS_CHROME_ROWS { viewport_height - SETTINGS_CHROME_ROWS } else { 1 };
    let room = if main > 4 { (main - 4) as usize } else { 1 };
    let rows = room / 3;
    (main, if rows > 1 { rows } else { 1 })
}

} // verus!
