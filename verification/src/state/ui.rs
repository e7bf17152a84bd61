//! UI rendering state: agent status, scrolling, sidebar animation, diff navigation.

use vstd::prelude::*;
use crate::theme::ThemeVariant;
use crate::state::sidebar::SidebarCollapseState;
use crate::state::approval::ApprovalState;

verus! {

/// Main view modes for the TUI
#[derive(Debug, Clone, Copy, PartialEq, Eq)]
pub enum MainView {
    /// Standard transcript view
    Transcript,
    /// Inspector view (Trajectory/Provenance)
    Inspector,
}

/// Agent execution status
#[derive(Debug, Clone, Copy, PartialEq, Eq)]
pub enum AgentStatus {
    /// Agent is idle and waiting for input
    Idle,
    /// Agent is currently generating a response or executing tools
    Generating,
    /// Agent execution is paused due to drift or user interruption
    Paused,
    /// Agent is in the reconcile ritual after drift detection
    Reconciling,
}

/// Diff navigation state for tracking selected patch and hunk
#[derive(Debug, Clone)]
pub struct DiffNavigationState {
    /// Index of currently selected patch in the queue
    pub selected_patch_index: Option<usize>,
    /// Index of currently selected hunk within the patch
    pub selected_hunk_index: Option<usize>,
    /// Path of currently selected file within the patch
    pub selected_file_path: Option<String>,
    /// Whether to show detailed hunk view (true) or summary view (false)
    pub show_hunk_details: bool,
    /// Scroll offset within the hunk view
    pub hunk_scroll_offset: u16,
}

#[derive(Debug, Clone, Copy, PartialEq, Eq)]
pub enum SidebarAnimation {
    Showing { width: u16 },
    Hiding { width: u16 },
}

/// Width of the sidebar when fully shown.
pub const SIDEBAR_WIDTH: u16 = 20;
/// Columns the sidebar moves per animation step.
pub const SIDEBAR_STEP: u16 = 4;

/// A `u16` read back as `i16` (values above `i16::MAX` wrap to negatives).
pub open spec fn as_i16(v: u16) -> int {
    if v <= 32767 { v as int } else { v - 65536 }
}

/// Offset after scrolling by `delta`: never below zero.
pub open spec fn scrolled(v: u16, delta: i16) -> int {
    if as_i16(v) + delta < 0 { 0 } else { as_i16(v) + delta }
}

/// The scroll step does not overflow `i16`, as the computation requires.
pub open spec fn scroll_in_range(v: u16, delta: i16) -> bool {
    i16::MIN <= as_i16(v) + delta <= i16::MAX
}

fn scroll_offset(v: u16, delta: i16) -> (r: u16)
    requires
        scroll_in_range(v, delta),
    ensures
        r == scrolled(v, delta),
{
    let base: i32 = if v <= 32767 { v as i32 } else { v as i32 - 65536 };
    let next: i32 = base + delta as i32;
    if next < 0 { 0 } else { next as u16 }
}

/// Next selection when stepping forward through `total` items.
pub open spec fn next_index(sel: Option<usize>, total: nat) -> Option<usize> {
    match sel {
        Some(i) => if i + 1 < total { Some((i + 1) as usize) } else { sel },
        None => if total > 0 { Some(0usize) } else { None },
    }
}

/// Next selection when stepping backward through `total` items.
pub open spec fn prev_index(sel: Option<usize>, total: nat) -> Option<usize> {
    match sel {
        Some(i) => if i > 0 { Some((i - 1) as usize) } else { sel },
        None => if total > 0 { Some((total - 1) as usize) } else { None },
    }
}

impl DiffNavigationState {
    pub open spec fn is_initial(&self) -> bool {
        &&& self.selected_patch_index.is_none()
        &&& self.selected_hunk_index.is_none()
        &&& self.selected_file_path.is_none()
        &&& !self.show_hunk_details
        &&& self.hunk_scroll_offset == 0
    }

    /// Create a new diff navigation state
    pub fn new() -> (s: Self)
        ensures
            s.is_initial(),
    {
        DiffNavigationState {
            selected_patch_index: None,
            selected_hunk_index: None,
            selected_file_path: None,
            show_hunk_details: false,
            hunk_scroll_offset: 0,
        }
    }

    /// Reset navigation state to initial values
    pub fn reset(&mut self)
        ensures
            final(self).is_initial(),
    {
        *self = Self::new();
    }

    /// Navigate to next patch; a move clears the hunk and file selection.
    pub fn next_patch(&mut self, total_patches: usize)
        ensures
            final(self).selected_patch_index == next_index(old(self).selected_patch_index, total_patches as nat),
            final(self).show_hunk_details == old(self).show_hunk_details,
            if final(self).selected_patch_index != old(self).selected_patch_index {
                final(self).selected_hunk_index.is_none() && final(self).selected_file_path.is_none()
                    && final(self).hunk_scroll_offset == 0
            } else {
                final(self).selected_hunk_index == old(self).selected_hunk_index
                    && final(self).selected_file_path == old(self).selected_file_path
                    && final(self).hunk_scroll_offset == old(self).hunk_scroll_offset
            },
    {
        match self.selected_patch_index {
            Some(idx) => {
                if idx < total_patches && idx + 1 < total_patches {
                    self.selected_patch_index = Some(idx + 1);
                    self.reset_hunk_selection();
                }
            },
            None => {
                if total_patches > 0 {
                    self.selected_patch_index = Some(0);
                    self.reset_hunk_selection();
                }
            },
        }
    }

    /// Navigate to previous patch; a move clears the hunk and file selection.
    pub fn prev_patch(&mut self, total_patches: usize)
        ensures
            final(self).selected_patch_index == prev_index(old(self).selected_patch_index, total_patches as nat),
            final(self).show_hunk_details == old(self).show_hunk_details,
            if final(self).selected_patch_index != old(self).selected_patch_index {
                final(self).selected_hunk_index.is_none() && final(self).selected_file_path.is_none()
                    && final(self).hunk_scroll_offset == 0
            } else {
                final(self).selected_hunk_index == old(self).selected_hunk_index
                    && final(self).selected_file_path == old(self).selected_file_path
                    && final(self).hunk_scroll_offset == old(self).hunk_scroll_offset
            },
    {
        match self.selected_patch_index {
            Some(idx) => {
                if idx > 0 {
                    self.selected_patch_index = Some(idx - 1);
                    self.reset_hunk_selection();
                }
            },
            None => {
                if total_patches > 0 {
                    self.selected_patch_index = Some(total_patches - 1);
                    self.reset_hunk_selection();
                }
            },
        }
    }

    /// Navigate to next hunk in current file
    pub fn next_hunk(&mut self, total_hunks: usize)
        ensures
            final(self).selected_hunk_index == next_index(old(self).selected_hunk_index, total_hunks as nat),
            final(self).selected_patch_index == old(self).selected_patch_index,
            final(self).selected_file_path == old(self).selected_file_path,
            final(self).show_hunk_details == old(self).show_hunk_details,
            final(self).hunk_scroll_offset == if final(self).selected_hunk_index != old(self).selected_hunk_index {
                0
            } else {
                old(self).hunk_scroll_offset
            },
    {
        match self.selected_hunk_index {
            Some(idx) => {
                if idx < total_hunks && idx + 1 < total_hunks {
                    self.selected_hunk_index = Some(idx + 1);
                    self.hunk_scroll_offset = 0;
                }
            },
            None => {
                if total_hunks > 0 {
                    self.selected_hunk_index = Some(0);
                    self.hunk_scroll_offset = 0;
                }
            },
        }
    }

    /// Navigate to previous hunk in current file
    pub fn prev_hunk(&mut self, total_hunks: usize)
        ensures
            final(self).selected_hunk_index == prev_index(old(self).selected_hunk_index, total_hunks as nat),
            final(self).selected_patch_index == old(self).selected_patch_index,
            final(self).selected_file_path == old(self).selected_file_path,
            final(self).show_hunk_details == old(self).show_hunk_details,
            final(self).hunk_scroll_offset == if final(self).selected_hunk_index != old(self).selected_hunk_index {
                0
            } else {
                old(self).hunk_scroll_offset
            },
    {
        match self.selected_hunk_index {
            Some(idx) => {
                if idx > 0 {
                    self.selected_hunk_index = Some(idx - 1);
                    self.hunk_scroll_offset = 0;
                }
            },
            None => {
                if total_hunks > 0 {
                    self.selected_hunk_index = Some(total_hunks - 1);
                    self.hunk_scroll_offset = 0;
                }
            },
        }
    }

    /// Reset hunk selection when changing patches
    fn reset_hunk_selection(&mut self)
        ensures
            final(self).selected_hunk_index.is_none(),
            final(self).selected_file_path.is_none(),
            final(self).hunk_scroll_offset == 0,
            final(self).selected_patch_index == old(self).selected_patch_index,
            final(self).show_hunk_details == old(self).show_hunk_details,
    {
        self.selected_hunk_index = None;
        self.selected_file_path = None;
        self.hunk_scroll_offset = 0;
    }

    /// Toggle between summary and detailed hunk view
    pub fn toggle_details(&mut self)
        ensures
            final(self).show_hunk_details == !old(self).show_hunk_details,
            final(self).selected_patch_index == old(self).selected_patch_index,
            final(self).selected_hunk_index == old(self).selected_hunk_index,
            final(self).selected_file_path == old(self).selected_file_path,
            final(self).hunk_scroll_offset == old(self).hunk_scroll_offset,
    {
        self.show_hunk_details = !self.show_hunk_details;
    }

    /// Set the selected file path
    pub fn set_selected_file(&mut self, path: String)
        ensures
            final(self).selected_file_path == Some(path),
            final(self).selected_hunk_index.is_none(),
            final(self).hunk_scroll_offset == 0,
            final(self).selected_patch_index == old(self).selected_patch_index,
            final(self).show_hunk_details == old(self).show_hunk_details,
    {
        self.selected_file_path = Some(path);
        self.selected_hunk_index = None;
        self.hunk_scroll_offset = 0;
    }

    /// Scroll within the hunk view
    pub fn scroll_hunk(&mut self, delta: i16)
        requires
            scroll_in_range(old(self).hunk_scroll_offset, delta),
        ensures
            final(self).hunk_scroll_offset == scrolled(old(self).hunk_scroll_offset, delta),
            final(self).selected_patch_index == old(self).selected_patch_index,
            final(self).selected_hunk_index == old(self).selected_hunk_index,
            final(self).selected_file_path == old(self).selected_file_path,
            final(self).show_hunk_details == old(self).show_hunk_details,
    {
        self.hunk_scroll_offset = scroll_offset(self.hunk_scroll_offset, delta);
    }
}

impl Default for DiffNavigationState {
    fn default() -> (s: Self)
        ensures
            s.is_initial(),
    {
        Self::new()
    }
}

/// UI rendering state
#[derive(Debug, Clone)]
pub struct UIState {
    /// Whether sidebar is visible
    pub sidebar_visible: bool,
    /// Current agent execution status
    pub agent_status: AgentStatus,
    /// Horizontal scroll offset for transcript
    pub scroll_horizontal: u16,
    /// Vertical scroll offset for transcript
    pub scroll_vertical: u16,
    /// Sidebar section collapse state
    pub sidebar_collapse_state: SidebarCollapseState,
    /// Sidebar animation state (for slide in/out)
    pub sidebar_animation: Option<SidebarAnimation>,
    /// Diff navigation state
    pub diff_navigation: DiffNavigationState,
    /// Whether this is the first session (show centered welcome view)
    pub is_first_session: bool,
    /// Animation frame counter for streaming ellipsis animation (0-3 cycle)
    pub animation_frame: u8,
    /// Active UI theme variant
    pub theme_variant: ThemeVariant,
    /// Currently active main view
    pub active_view: MainView,
}

/// Sidebar width to lay out, if any.
pub open spec fn width_override(view: MainView, anim: Option<SidebarAnimation>, visible: bool) -> Option<u16> {
    match view {
        MainView::Inspector => None,
        MainView::Transcript => match anim {
            Some(SidebarAnimation::Showing { width }) => Some(width),
            Some(SidebarAnimation::Hiding { width }) => Some(width),
            None => if visible { Some(20u16) } else { None },
        },
    }
}

/// Animation after one step: showing grows by 4 up to 20, hiding shrinks by 4 down to 0;
/// an animation that reaches its end is over.
pub open spec fn animation_step(anim: Option<SidebarAnimation>) -> Option<SidebarAnimation> {
    match anim {
        Some(SidebarAnimation::Showing { width }) => {
            let w = if width + 4 < 20 { width + 4 } else { 20 };
            if w >= 20 { None } else { Some(SidebarAnimation::Showing { width: w as u16 }) }
        },
        Some(SidebarAnimation::Hiding { width }) => {
            let w = if width >= 4 { width - 4 } else { 0 };
            if w == 0 { None } else { Some(SidebarAnimation::Hiding { width: w as u16 }) }
        },
        None => None,
    }
}

impl UIState {
    /// Two states agree on everything but the fields a method names.
    pub open spec fn same_but_status(&self, other: &Self) -> bool {
        &&& self.sidebar_visible == other.sidebar_visible
        &&& self.scroll_horizontal == other.scroll_horizontal
        &&& self.scroll_vertical == other.scroll_vertical
        &&& self.sidebar_animation == other.sidebar_animation
        &&& self.is_first_session == other.is_first_session
        &&& self.animation_frame == other.animation_frame
        &&& self.theme_variant == other.theme_variant
        &&& self.active_view == other.active_view
    }

    pub open spec fn same_but_scroll(&self, other: &Self) -> bool {
        &&& self.sidebar_visible == other.sidebar_visible
        &&& self.agent_status == other.agent_status
        &&& self.sidebar_animation == other.sidebar_animation
        &&& self.is_first_session == other.is_first_session
        &&& self.animation_frame == other.animation_frame
        &&& self.theme_variant == other.theme_variant
        &&& self.active_view == other.active_view
    }

    pub fn new() -> (s: Self)
        ensures
            s.sidebar_visible,
            s.agent_status == AgentStatus::Idle,
            s.scroll_horizontal == 0,
            s.scroll_vertical == 0,
            s.sidebar_animation.is_none(),
            s.diff_navigation.is_initial(),
            s.is_first_session,
            s.animation_frame == 0,
            s.theme_variant == ThemeVariant::Iceberg,
            s.active_view == MainView::Transcript,
    {
        UIState {
            sidebar_visible: true,
            agent_status: AgentStatus::Idle,
            scroll_horizontal: 0,
            scroll_vertical: 0,
            sidebar_collapse_state: SidebarCollapseState::new(),
            sidebar_animation: None,
            diff_navigation: DiffNavigationState::new(),
            is_first_session: true,
            animation_frame: 0,
            theme_variant: ThemeVariant::Iceberg,
            active_view: MainView::Transcript,
        }
    }

    /// Advance animation frame for streaming ellipsis (cycles 0-3)
    pub fn advance_animation_frame(&mut self)
        requires
            old(self).animation_frame < 255,
        ensures
            final(self).animation_frame == (old(self).animation_frame + 1) % 4,
            final(self).agent_status == old(self).agent_status,
            final(self).sidebar_visible == old(self).sidebar_visible,
            final(self).scroll_horizontal == old(self).scroll_horizontal,
            final(self).scroll_vertical == old(self).scroll_vertical,
    {
        self.animation_frame = (self.animation_frame + 1) % 4;
    }

    /// Get current streaming ellipsis based on animation frame
    pub fn streaming_ellipsis(&self) -> (r: &'static str)
        ensures
            r@ == if self.animation_frame == 0 {
                ""@
            } else if self.animation_frame == 1 {
                "."@
            } else if self.animation_frame == 2 {
                ".."@
            } else {
                "..."@
            },
    {
        match self.animation_frame {
            0 => "",
            1 => ".",
            2 => "..",
            _ => "...",
        }
    }

    /// Exit first session mode (called when first message is sent)
    pub fn exit_first_session(&mut self)
        ensures
            !final(self).is_first_session,
            final(self).agent_status == old(self).agent_status,
            final(self).sidebar_visible == old(self).sidebar_visible,
    {
        self.is_first_session = false;
    }

    /// Set first session mode (used when reconstructing from empty session)
    pub fn set_first_session(&mut self, value: bool)
        ensures
            final(self).is_first_session == value,
            final(self).agent_status == old(self).agent_status,
            final(self).sidebar_visible == old(self).sidebar_visible,
    {
        self.is_first_session = value;
    }

    /// Toggle sidebar visibility, starting the slide animation.
    pub fn toggle_sidebar(&mut self)
        ensures
            final(self).sidebar_visible == !old(self).sidebar_visible,
            final(self).sidebar_animation == if old(self).sidebar_visible {
                Some(SidebarAnimation::Hiding { width: SIDEBAR_WIDTH })
            } else {
                Some(SidebarAnimation::Showing { width: 0 })
            },
            final(self).agent_status == old(self).agent_status,
            final(self).active_view == old(self).active_view,
    {
        if self.sidebar_visible {
            self.sidebar_visible = false;
            self.sidebar_animation = Some(SidebarAnimation::Hiding { width: SIDEBAR_WIDTH });
        } else {
            self.sidebar_visible = true;
            self.sidebar_animation = Some(SidebarAnimation::Showing { width: 0 });
        }
    }

    pub fn sidebar_width_override(&self) -> (r: Option<u16>)
        ensures
            r == width_override(self.active_view, self.sidebar_animation, self.sidebar_visible),
    {
        match self.active_view {
            MainView::Inspector => None,
            MainView::Transcript => match self.sidebar_animation {
                Some(SidebarAnimation::Showing { width }) => Some(width),
                Some(SidebarAnimation::Hiding { width }) => Some(width),
                None => {
                    if self.sidebar_visible {
                        Some(SIDEBAR_WIDTH)
                    } else {
                        None
                    }
                },
            },
        }
    }

    pub fn advance_sidebar_animation(&mut self)
        requires
            old(self).sidebar_animation matches Some(SidebarAnimation::Showing { width }) ==> width <= u16::MAX - 4,
        ensures
            final(self).sidebar_animation == animation_step(old(self).sidebar_animation),
            final(self).sidebar_visible == old(self).sidebar_visible,
            final(self).agent_status == old(self).agent_status,
            final(self).active_view == old(self).active_view,
    {
        let next = match self.sidebar_animation {
            Some(SidebarAnimation::Showing { width }) => {
                let grown = width + SIDEBAR_STEP;
                let new_width = if grown < SIDEBAR_WIDTH { grown } else { SIDEBAR_WIDTH };
                if new_width >= SIDEBAR_WIDTH {
                    self.sidebar_animation = None;
                    return;
                }
                Some(SidebarAnimation::Showing { width: new_width })
            },
            Some(SidebarAnimation::Hiding { width }) => {
                let new_width = width.saturating_sub(SIDEBAR_STEP);
                if new_width == 0 {
                    self.sidebar_animation = None;
                    return;
                }
                Some(SidebarAnimation::Hiding { width: new_width })
            },
            None => None,
        };
        self.sidebar_animation = next;
    }

    /// Set the current theme variant
    pub fn set_theme_variant(&mut self, variant: ThemeVariant)
        ensures
            final(self).theme_variant == variant,
            final(self).agent_status == old(self).agent_status,
            final(self).active_view == old(self).active_view,
    {
        self.theme_variant = variant;
    }

    /// Toggle theme variant between Iceberg and Oxocarbon
    pub fn toggle_theme_variant(&mut self)
        ensures
            final(self).theme_variant == match old(self).theme_variant {
                ThemeVariant::Iceberg => ThemeVariant::Oxocarbon,
                ThemeVariant::Oxocarbon => ThemeVariant::Iceberg,
            },
            final(self).agent_status == old(self).agent_status,
            final(self).active_view == old(self).active_view,
    {
        self.theme_variant = match self.theme_variant {
            ThemeVariant::Iceberg => ThemeVariant::Oxocarbon,
            ThemeVariant::Oxocarbon => ThemeVariant::Iceberg,
        };
    }

    /// Start generation
    pub fn start_generation(&mut self)
        ensures
            final(self).agent_status == AgentStatus::Generating,
            final(self).same_but_status(old(self)),
    {
        self.agent_status = AgentStatus::Generating;
    }

    /// Stop generation
    pub fn stop_generation(&mut self)
        ensures
            final(self).agent_status == AgentStatus::Idle,
            final(self).same_but_status(old(self)),
    {
        self.agent_status = AgentStatus::Idle;
    }

    /// Pause generation
    pub fn pause_generation(&mut self)
        ensures
            final(self).agent_status == AgentStatus::Paused,
            final(self).same_but_status(old(self)),
    {
        self.agent_status = AgentStatus::Paused;
    }

    /// Start reconcile ritual
    pub fn start_reconcile(&mut self)
        ensures
            final(self).agent_status == AgentStatus::Reconciling,
            final(self).same_but_status(old(self)),
    {
        self.agent_status = AgentStatus::Reconciling;
    }

    /// Check if currently generating
    pub fn is_generating(&self) -> (b: bool)
        ensures
            b == (self.agent_status == AgentStatus::Generating),
    {
        match self.agent_status {
            AgentStatus::Generating => true,
            _ => false,
        }
    }

    /// Check if currently paused
    pub fn is_paused(&self) -> (b: bool)
        ensures
            b == (self.agent_status == AgentStatus::Paused),
    {
        match self.agent_status {
            AgentStatus::Paused => true,
            _ => false,
        }
    }

    /// Check if in reconcile ritual
    pub fn is_reconciling(&self) -> (b: bool)
        ensures
            b == (self.agent_status == AgentStatus::Reconciling),
    {
        match self.agent_status {
            AgentStatus::Reconciling => true,
            _ => false,
        }
    }

    /// Scroll transcript horizontally
    pub fn scroll_horizontal(&mut self, delta: i16)
        requires
            scroll_in_range(old(self).scroll_horizontal, delta),
        ensures
            final(self).scroll_horizontal == scrolled(old(self).scroll_horizontal, delta),
            final(self).scroll_vertical == old(self).scroll_vertical,
            final(self).same_but_scroll(old(self)),
    {
        self.scroll_horizontal = scroll_offset(self.scroll_horizontal, delta);
    }

    /// Scroll transcript vertically
    pub fn scroll_vertical(&mut self, delta: i16)
        requires
            scroll_in_range(old(self).scroll_vertical, delta),
        ensures
            final(self).scroll_vertical == scrolled(old(self).scroll_vertical, delta),
            final(self).scroll_horizontal == old(self).scroll_horizontal,
            final(self).same_but_scroll(old(self)),
    {
        self.scroll_vertical = scroll_offset(self.scroll_vertical, delta);
    }

    /// Reset scroll to top-left
    pub fn reset_scroll(&mut self)
        ensures
            final(self).scroll_horizontal == 0,
            final(self).scroll_vertical == 0,
            final(self).same_but_scroll(old(self)),
    {
        self.scroll_horizontal = 0;
        self.scroll_vertical = 0;
    }

    /// Toggle Inspector view
    pub fn toggle_inspector(&mut self)
        ensures
            final(self).active_view == match old(self).active_view {
                MainView::Transcript => MainView::Inspector,
                MainView::Inspector => MainView::Transcript,
            },
            final(self).agent_status == old(self).agent_status,
            final(self).sidebar_visible == old(self).sidebar_visible,
    {
        self.active_view = match self.active_view {
            MainView::Transcript => MainView::Inspector,
            MainView::Inspector => MainView::Transcript,
        };
    }
}

impl Default for UIState {
    fn default() -> (s: Self)
        ensures
            s.sidebar_visible,
            s.agent_status == AgentStatus::Idle,
            s.scroll_horizontal == 0,
            s.scroll_vertical == 0,
            s.sidebar_animation.is_none(),
            s.diff_navigation.is_initial(),
            s.is_first_session,
            s.animation_frame == 0,
            s.theme_variant == ThemeVariant::Iceberg,
            s.active_view == MainView::Transcript,
    {
        Self::new()
    }
}

/// Approval UI state
#[derive(Debug, Clone)]
pub struct ApprovalUIState {
    /// Pending approval (if any)
    pub pending_approval: Option<ApprovalState>,
    /// Pending teaching hint (if any)
    pub pending_hint: Option<String>,
}

impl ApprovalUIState {
    pub fn new() -> (s: Self)
        ensures
            s.pending_approval.is_none(),
            s.pending_hint.is_none(),
    {
        ApprovalUIState { pending_approval: None, pending_hint: None }
    }

    /// Show a teaching hint to the user
    ///
    /// This sets a pending hint that will be displayed in a popup until the user
    /// presses any key to dismiss it.
    pub fn show_hint(&mut self, hint: String)
        ensures
            final(self).pending_hint == Some(hint),
            final(self).pending_approval == old(self).pending_approval,
    {
        self.pending_hint = Some(hint);
    }

    /// Dismiss the current teaching hint if one is shown
    pub fn dismiss_hint(&mut self)
        ensures
            final(self).pending_hint.is_none(),
            final(self).pending_approval == old(self).pending_approval,
    {
        self.pending_hint = None;
    }

    /// Check if a teaching hint is currently shown
    pub fn has_pending_hint(&self) -> (b: bool)
        ensures
            b == self.pending_hint.is_some(),
    {
        self.pending_hint.is_some()
    }
}

} // verus!
