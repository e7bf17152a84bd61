//! Snapshot capture for regression testing: when a snapshot is due, what its
//! file is called, and the text written into it. The app writes the files.

use vstd::prelude::*;
use crate::strs::{decimal, usize_to_string, chars_of, string_from_chars};

verus! {

/// Snapshot capture mode
#[derive(Debug, Clone, Copy, PartialEq, Eq, Structural)]
pub enum SnapshotMode {
    /// No snapshots
    Disabled,
    /// Capture snapshots on every state change
    EveryState,
    /// Capture snapshots only on specific trigger events
    Triggered,
}

/// Snapshot metadata; the timestamp is nanoseconds since the Unix epoch.
#[derive(Debug, Clone)]
pub struct SnapshotMetadata {
    pub timestamp: i128,
    pub event_type: String,
    pub description: String,
}

/// Snapshot capture for TUI states, saved under `snapshot_dir`.
#[derive(Debug, Clone)]
pub struct SnapshotCapture {
    pub enabled: bool,
    pub mode: SnapshotMode,
    pub snapshot_dir: String,
    pub snapshot_count: usize,
}

/// `n` in decimal, zero-padded to at least four digits (`{:04}`).
pub open spec fn pad4(n: nat) -> Seq<char> {
    let d = decimal(n);
    if d.len() < 4 { Seq::new((4 - d.len()) as nat, |i: int| '0') + d } else { d }
}

/// File name of snapshot number `n`.
pub open spec fn snapshot_file_name(n: nat, triggered: bool) -> Seq<char> {
    (if triggered { "triggered_snapshot_"@ } else { "snapshot_"@ }) + pad4(n) + ".txt"@
}

fn pad4_exec(n: usize) -> (r: Vec<char>)
    ensures
        r@ == pad4(n as nat),
{
    let digits = chars_of(usize_to_string(n).as_str());
    let mut r: Vec<char> = Vec::new();
    let mut i: usize = digits.len();
    while i < 4
        invariant
            digits.len() <= i <= 4 || (i == digits.len() && i >= 4),
            r@.len() == i - digits.len(),
            forall|j: int| 0 <= j < r@.len() ==> r@[j] == '0',
        decreases 4 - i,
    {
        r.push('0');
        i = i + 1;
    }
    let ghost zeros = r@;
    let ghost dv = digits@;
    let mut d = digits;
    r.append(&mut d);
    proof {
        if dv.len() < 4 {
            assert(zeros =~= Seq::new((4 - decimal(n as nat).len()) as nat, |i: int| '0'));
        } else {
            assert(zeros =~= Seq::<char>::empty());
        }
        assert(r@ =~= pad4(n as nat));
    }
    r
}

fn file_name(n: usize, triggered: bool) -> (s: String)
    ensures
        s@ == snapshot_file_name(n as nat, triggered),
{
    let mut r = if triggered { chars_of("triggered_snapshot_") } else { chars_of("snapshot_") };
    let mut p = pad4_exec(n);
    r.append(&mut p);
    let mut ext = chars_of(".txt");
    r.append(&mut ext);
    string_from_chars(r.as_slice())
}

impl SnapshotCapture {
    pub fn new(enabled: bool, snapshot_dir: String) -> (s: Self)
        ensures
            s.enabled == enabled,
            s.mode == SnapshotMode::Disabled,
            s.snapshot_dir == snapshot_dir,
            s.snapshot_count == 0,
    {
        SnapshotCapture { enabled, mode: SnapshotMode::Disabled, snapshot_dir, snapshot_count: 0 }
    }

    pub fn with_mode(self, mode: SnapshotMode) -> (s: Self)
        ensures
            s.mode == mode,
            s.enabled == self.enabled,
            s.snapshot_dir == self.snapshot_dir,
            s.snapshot_count == self.snapshot_count,
    {
        let mut s = self;
        s.mode = mode;
        s
    }

    /// Enable snapshot capture
    pub fn enable(&mut self)
        ensures
            *final(self) == (SnapshotCapture { enabled: true, ..*old(self) }),
    {
        self.enabled = true;
    }

    /// Disable snapshot capture
    pub fn disable(&mut self)
        ensures
            *final(self) == (SnapshotCapture { enabled: false, ..*old(self) }),
    {
        self.enabled = false;
    }

    /// Set snapshot mode
    pub fn set_mode(&mut self, mode: SnapshotMode)
        ensures
            *final(self) == (SnapshotCapture { mode, ..*old(self) }),
    {
        self.mode = mode;
    }

    /// Check if snapshots are enabled
    pub fn is_enabled(&self) -> (r: bool)
        ensures
            r == self.enabled,
    {
        self.enabled
    }

    /// Get snapshot count
    pub fn snapshot_count(&self) -> (r: usize)
        ensures
            r == self.snapshot_count,
    {
        self.snapshot_count
    }

    /// A snapshot on a state change: taken only when enabled in every-state
    /// mode (disabled mode takes none, triggered mode waits for a trigger);
    /// numbers it and returns the file name to write under the directory.
    pub fn capture(&mut self) -> (file: Option<String>)
        requires
            old(self).snapshot_count < usize::MAX,
        ensures
            old(self).enabled && old(self).mode == SnapshotMode::EveryState ==> {
                &&& final(self).snapshot_count == old(self).snapshot_count + 1
                &&& file matches Some(f) && f@ == snapshot_file_name(final(self).snapshot_count as nat, false)
            },
            !(old(self).enabled && old(self).mode == SnapshotMode::EveryState) ==> {
                &&& final(self).snapshot_count == old(self).snapshot_count
                &&& file is None
            },
            final(self).enabled == old(self).enabled,
            final(self).mode == old(self).mode,
            final(self).snapshot_dir == old(self).snapshot_dir,
    {
        if !self.enabled {
            return None;
        }
        match self.mode {
            SnapshotMode::EveryState => {
                self.snapshot_count = self.snapshot_count + 1;
                Some(file_name(self.snapshot_count, false))
            },
            _ => None,
        }
    }

    /// A snapshot on a trigger event: taken only when enabled in triggered mode.
    pub fn capture_triggered(&mut self) -> (file: Option<String>)
        requires
            old(self).snapshot_count < usize::MAX,
        ensures
            old(self).enabled && old(self).mode == SnapshotMode::Triggered ==> {
                &&& final(self).snapshot_count == old(self).snapshot_count + 1
                &&& file matches Some(f) && f@ == snapshot_file_name(final(self).snapshot_count as nat, true)
            },
            !(old(self).enabled && old(self).mode == SnapshotMode::Triggered) ==> {
                &&& final(self).snapshot_count == old(self).snapshot_count
                &&& file is None
            },
            final(self).enabled == old(self).enabled,
            final(self).mode == old(self).mode,
            final(self).snapshot_dir == old(self).snapshot_dir,
    {
        if !self.enabled {
            return None;
        }
        if let SnapshotMode::Triggered = self.mode {
            self.snapshot_count = self.snapshot_count + 1;
            return Some(file_name(self.snapshot_count, true));
        }
        None
    }
}

/// The text of snapshot number `n`: a header of comment lines, a blank line,
/// then the captured content.
pub open spec fn snapshot_text(
    n: nat,
    triggered: bool,
    timestamp: Seq<char>,
    event_type: Seq<char>,
    description: Seq<char>,
    content: Seq<char>,
) -> Seq<char> {
    (if triggered { "# Triggered Snapshot #"@ } else { "# Snapshot #"@ }) + decimal(n) + "\n# Timestamp: "@ + timestamp
        + "\n# Event: "@ + event_type + "\n# Description: "@ + description + "\n\n"@ + content
}

/// Builds the snapshot file's text; `timestamp` is the capture time as the
/// app renders it.
pub fn snapshot_contents(
    n: usize,
    triggered: bool,
    timestamp: &str,
    event_type: &str,
    description: &str,
    content: &str,
) -> (text: String)
    ensures
        text@ == snapshot_text(n as nat, triggered, timestamp@, event_type@, description@, content@),
{
    let mut r = if triggered { chars_of("# Triggered Snapshot #") } else { chars_of("# Snapshot #") };
    let mut part = chars_of(usize_to_string(n).as_str());
    r.append(&mut part);
    let mut part = chars_of("\n# Timestamp: ");
    r.append(&mut part);
    let mut part = chars_of(timestamp);
    r.append(&mut part);
    let mut part = chars_of("\n# Event: ");
    r.append(&mut part);
    let mut part = chars_of(event_type);
    r.append(&mut part);
    let mut part = chars_of("\n# Description: ");
    r.append(&mut part);
    let mut part = chars_of(description);
    r.append(&mut part);
    let mut part = chars_of("\n\n");
    r.append(&mut part);
    let mut part = chars_of(content);
    r.append(&mut part);
    string_from_chars(r.as_slice())
}

} // verus!
