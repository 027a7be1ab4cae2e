//! The focus watcher's state: the latest focused-window snapshot, the
//! filtering of raw foreground notifications, and latest-value-only
//! subscriptions.
use vstd::prelude::*;
use crate::window::{WindowMetadata, WindowMetadataView};
use vstd::arithmetic::div_mod::{lemma_add_mod_noop, lemma_small_mod, lemma_mod_add_multiples_vanish};

verus! {

/// The foreground-window-change event code.
pub const EVENT_SYSTEM_FOREGROUND: u32 = 3;

/// The object id that designates the window itself.
pub const OBJID_WINDOW: i32 = 0;

/// The window class of the transient alt-tab switcher surface.
pub const OVERLAY_WINDOW_CLASS: &'static str = "XamlExplorerHostIslandWindow";

/// Names what `String::from_utf16_lossy` gives for a sequence of UTF-16
/// code units.
pub uninterp spec fn utf16_lossy(units: Seq<u16>) -> Seq<char>;

/// Relies on `String::from_utf16_lossy`: decodes UTF-16, replacing invalid
/// data with the replacement character; no units give the empty string.
#[verifier::external_body]
fn decode_utf16(units: &[u16]) -> (r: String)
    ensures
        r@ == utf16_lossy(units@),
        units@.len() == 0 ==> r@.len() == 0,
{
    String::from_utf16_lossy(units)
}

pub open spec fn copied_prefix(buf: Seq<u16>, copied: int) -> Seq<u16> {
    if copied < buf.len() {
        buf.take(copied)
    } else {
        buf
    }
}

/// The text of a window query from its buffer and the count the query
/// returned: absent when the count is not positive, else the decoded first
/// `copied` units (all of the buffer if it holds fewer).
pub fn decode_window_text(buf: &[u16], copied: i32) -> (r: Option<String>)
    ensures
        copied <= 0 ==> r is None,
        copied > 0 ==> r is Some && r->0@ == utf16_lossy(copied_prefix(buf@, copied as int)),
{
    if copied <= 0 {
        return None;
    }
    let m: usize = if (copied as usize) < buf.len() {
        copied as usize
    } else {
        buf.len()
    };
    let units = &buf[0..m];
    assert(units@ =~= copied_prefix(buf@, copied as int));
    Some(decode_utf16(units))
}

/// The image path of a process from the query's outcome, its buffer and the
/// size it reported: absent when the query failed.
pub fn decode_image_path(queried: bool, buf: &[u16], size: u32) -> (r: Option<String>)
    ensures
        !queried ==> r is None,
        queried ==> r is Some && r->0@ == utf16_lossy(copied_prefix(buf@, size as int)),
{
    if !queried {
        return None;
    }
    let m: usize = if (size as usize) < buf.len() {
        size as usize
    } else {
        buf.len()
    };
    let units = &buf[0..m];
    assert(units@ =~= copied_prefix(buf@, size as int));
    Some(decode_utf16(units))
}

/// The owning process id of a window, absent when the query gave zero.
pub fn owning_process(pid: u32) -> (r: Option<u32>)
    ensures
        r == (if pid == 0 {
            None
        } else {
            Some(pid)
        }),
{
    if pid == 0 {
        None
    } else {
        Some(pid)
    }
}

fn text_equals(a: &str, b: &str) -> (r: bool)
    ensures
        r == (a@ == b@),
{
    let n = a.unicode_len();
    if n != b.unicode_len() {
        return false;
    }
    let mut i: usize = 0;
    while i < n
        invariant
            n == a@.len() == b@.len(),
            0 <= i <= n,
            forall|k: int| 0 <= k < i ==> a@[k] == b@[k],
        decreases n - i,
    {
        if a.get_char(i) != b.get_char(i) {
            return false;
        }
        i += 1;
    }
    assert(a@ =~= b@);
    true
}

/// The window is the alt-tab switcher surface, which is no focus change.
pub open spec fn is_overlay(window: WindowMetadataView) -> bool {
    window.class == Some(OVERLAY_WINDOW_CLASS@)
}

/// A raw notification is published when it is a foreground change of a
/// window that is not the switcher overlay.
pub open spec fn accepts_event(event: u32, id_object: i32, window: WindowMetadataView) -> bool {
    event == EVENT_SYSTEM_FOREGROUND && id_object == OBJID_WINDOW && !is_overlay(window)
}

/// Mathematical model of the watcher.
pub struct FocusState {
    pub window: WindowMetadataView,
    /// Counts publications, wrapping around.
    pub version: u64,
    /// The producer side has been torn down.
    pub closed: bool,
}

pub open spec fn next_version(v: u64) -> u64 {
    if v == u64::MAX {
        0
    } else {
        (v + 1) as u64
    }
}

/// The state after publishing `window`: the snapshot is replaced wholesale.
pub open spec fn published(s: FocusState, window: WindowMetadataView) -> FocusState {
    FocusState { window, version: next_version(s.version), ..s }
}

/// What a subscriber sees when it polls.
pub enum PollView {
    Changed(WindowMetadataView),
    Pending,
    Closed,
}

/// The result of a poll by a subscriber that last saw version `seen`.
pub open spec fn poll_view(s: FocusState, seen: u64) -> PollView {
    if seen != s.version {
        PollView::Changed(s.window)
    } else if s.closed {
        PollView::Closed
    } else {
        PollView::Pending
    }
}

/// What a poll hands back.
#[derive(Debug, Clone)]
pub enum FocusPoll {
    /// The latest snapshot, published since the subscriber last looked.
    Changed(WindowMetadata),
    /// Nothing new yet.
    Pending,
    /// Nothing new, and nothing will come: the watcher was torn down.
    Closed,
}

impl View for FocusPoll {
    type V = PollView;

    open spec fn view(&self) -> PollView {
        match self {
            FocusPoll::Changed(w) => PollView::Changed(w@),
            FocusPoll::Pending => PollView::Pending,
            FocusPoll::Closed => PollView::Closed,
        }
    }
}

/// A subscriber's position: the version it saw last.
pub struct FocusSubscription {
    seen: u64,
}

impl View for FocusSubscription {
    type V = u64;

    closed spec fn view(&self) -> u64 {
        self.seen
    }
}

/// The latest focused-window snapshot and its publication counter.
pub struct FocusWatcher {
    window: WindowMetadata,
    version: u64,
    closed: bool,
}

impl View for FocusWatcher {
    type V = FocusState;

    closed spec fn view(&self) -> FocusState {
        FocusState { window: self.window@, version: self.version, closed: self.closed }
    }
}

impl FocusWatcher {
    /// A watcher with an empty snapshot and no publication yet.
    pub fn new() -> (r: Self)
        ensures
            r@.window == (WindowMetadataView { title: None, class: None, exe: None }),
            r@.version == 0,
            !r@.closed,
    {
        FocusWatcher {
            window: WindowMetadata { title: None, class: None, exe: None },
            version: 0,
            closed: false,
        }
    }

    /// The current snapshot.
    pub fn get_focused_window(&self) -> (r: WindowMetadata)
        ensures
            r@ == self@.window,
    {
        self.window.copy()
    }

    /// Replaces the snapshot with `window` and counts one publication.
    pub fn publish(&mut self, window: WindowMetadata)
        ensures
            final(self)@ == published(old(self)@, window@),
    {
        self.window = window;
        self.version = if self.version == u64::MAX {
            0
        } else {
            self.version + 1
        };
    }

    /// Handles one raw notification: publishes `window` when the event is a
    /// foreground change of a window other than the switcher overlay, and
    /// says whether it did.
    pub fn on_foreground_event(&mut self, event: u32, id_object: i32, window: WindowMetadata) -> (r:
        bool)
        ensures
            r == accepts_event(event, id_object, window@),
            r ==> final(self)@ == published(old(self)@, window@),
            !r ==> final(self)@ == old(self)@,
    {
        if event != EVENT_SYSTEM_FOREGROUND || id_object != OBJID_WINDOW {
            return false;
        }
        let overlay = match &window.class {
            Some(c) => text_equals(c.as_str(), OVERLAY_WINDOW_CLASS),
            None => false,
        };
        if overlay {
            return false;
        }
        self.publish(window);
        true
    }

    /// Marks the producer side as torn down; subscribers end once they have
    /// seen the last snapshot.
    pub fn close(&mut self)
        ensures
            final(self)@ == (FocusState { closed: true, ..old(self)@ }),
    {
        self.closed = true;
    }

    /// A subscription that starts at the current snapshot, already seen.
    pub fn subscribe(&self) -> (r: FocusSubscription)
        ensures
            r@ == self@.version,
    {
        FocusSubscription { seen: self.version }
    }

    /// Polls for a change: the latest snapshot if one was published since
    /// the subscriber last looked (however many publications there were),
    /// else whether more may come.
    pub fn poll(&self, sub: &mut FocusSubscription) -> (r: FocusPoll)
        ensures
            r@ == poll_view(self@, old(sub)@),
            final(sub)@ == self@.version,
    {
        if sub.seen != self.version {
            sub.seen = self.version;
            FocusPoll::Changed(self.window.copy())
        } else if self.closed {
            FocusPoll::Closed
        } else {
            FocusPoll::Pending
        }
    }
}

/// The state after publishing each window of `ws` in turn.
pub open spec fn published_all(s: FocusState, ws: Seq<WindowMetadataView>) -> FocusState
    decreases ws.len(),
{
    if ws.len() == 0 {
        s
    } else {
        published(published_all(s, ws.drop_last()), ws.last())
    }
}

proof fn lemma_published_all(s: FocusState, ws: Seq<WindowMetadataView>)
    ensures
        published_all(s, ws).window == (if ws.len() == 0 {
            s.window
        } else {
            ws.last()
        }),
        published_all(s, ws).closed == s.closed,
        published_all(s, ws).version as int == (s.version + ws.len()) % 0x1_0000_0000_0000_0000,
    decreases ws.len(),
{
    let m: int = 0x1_0000_0000_0000_0000;
    if ws.len() == 0 {
        lemma_small_mod(s.version as nat, m as nat);
    } else {
        let rest = ws.drop_last();
        lemma_published_all(s, rest);
        let x = s.version + rest.len();
        lemma_add_mod_noop(x, 1, m);
        lemma_small_mod(1, m as nat);
        let p = published_all(s, rest).version;
        if p == u64::MAX {
            assert((p + 1) % m == 0) by {
                lemma_mod_add_multiples_vanish(0, m);
            }
        } else {
            lemma_small_mod((p + 1) as nat, m as nat);
        }
    }
}

/// Publications that come before a subscriber polls are coalesced: however
/// many there were (fewer than the counter's range), one poll hands over the
/// last window alone, and the poll after it finds nothing new.
pub proof fn lemma_burst_coalesces(s: FocusState, seen: u64, ws: Seq<WindowMetadataView>)
    requires
        seen == s.version,
        0 < ws.len() < 0x1_0000_0000_0000_0000,
    ensures
        poll_view(published_all(s, ws), seen) == PollView::Changed(ws.last()),
        poll_view(published_all(s, ws), published_all(s, ws).version) == (if s.closed {
            PollView::Closed
        } else {
            PollView::Pending
        }),
{
    let m: int = 0x1_0000_0000_0000_0000;
    lemma_published_all(s, ws);
    let x = s.version + ws.len();
    if x < m {
        lemma_small_mod(x as nat, m as nat);
    } else {
        lemma_mod_add_multiples_vanish(x - m, m);
        lemma_small_mod((x - m) as nat, m as nat);
    }
}

} // verus!
