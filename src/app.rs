//! Dashboard state and the decisions of the interaction loop.
//!
//! The loop itself (drawing, waiting for a key, fetching) runs outside; each
//! iteration hands the key it read to [`App::step`], which says whether to
//! quit, refresh or wait, and fetched results come back through
//! [`App::refresh`].
use vstd::prelude::*;
use vstd::string::StringExecFns;
use crate::cluster::{DeploymentInfo, PodInfo};

verus! {

/// Milliseconds between two timer-driven refreshes.
pub const POLL_INTERVAL_MS: u64 = 5000;

/// Milliseconds the loop waits for a key before it goes on.
pub const TICK_RATE_MS: u64 = 200;

/// The panel that has focus.
#[derive(Debug, Clone, Copy, PartialEq, Eq, Structural)]
pub enum Panel {
    Pods,
    Deployments,
}

/// A key press, as far as the dashboard tells keys apart.
#[derive(Debug, Clone, Copy, PartialEq, Eq, Structural)]
pub enum Key {
    Char(char),
    Esc,
    Tab,
    Up,
    Down,
    Other,
}

/// What the loop does after one iteration's input.
#[derive(Debug, Clone, Copy, PartialEq, Eq, Structural)]
pub enum Action {
    /// Leave the loop: no further refresh or draw.
    Quit,
    /// Fetch both datasets and hand them to [`App::refresh`].
    Refresh,
    /// Draw again and wait for the next key.
    Wait,
}

pub struct App {
    pub active_panel: Panel,
    pub pods: Vec<PodInfo>,
    pub deployments: Vec<DeploymentInfo>,
    /// Selected row of the pods table.
    pub pods_state: Option<usize>,
    /// Selected row of the deployments table.
    pub deployments_state: Option<usize>,
    pub error: Option<String>,
    pub should_quit: bool,
    /// A refresh was asked for by key and has not run yet.
    pub refresh_requested: bool,
}

/// A cursor is absent or a valid index into a sequence of length `len`.
pub open spec fn cursor_ok(sel: Option<usize>, len: nat) -> bool {
    match sel {
        Some(i) => i < len,
        None => true,
    }
}

pub open spec fn clamp(v: int, lo: int, hi: int) -> int {
    if v < lo { lo } else if v > hi { hi } else { v }
}

/// The cursor after moving it by `delta` in a sequence of length `len`.
pub open spec fn scrolled(sel: Option<usize>, len: nat, delta: int) -> Option<usize> {
    if len == 0 {
        sel
    } else {
        let cur = match sel { Some(i) => i as int, None => 0 };
        Some(clamp(cur + delta, 0, len - 1) as usize)
    }
}

/// The cursor after a sequence of moves, applied first to last.
pub open spec fn scrolled_by_all(sel: Option<usize>, len: nat, moves: Seq<int>) -> Option<usize>
    decreases moves.len(),
{
    if moves.len() == 0 {
        sel
    } else {
        scrolled(scrolled_by_all(sel, len, moves.drop_last()), len, moves.last())
    }
}

/// The cursor kept over a refresh that leaves `len` rows: an index past
/// the end is clamped to the last row, and the focused panel's absent cursor
/// moves to the first row.
pub open spec fn refit(sel: Option<usize>, len: nat, focused: bool) -> Option<usize> {
    match sel {
        Some(i) => if i < len { Some(i) } else if len == 0 { None } else { Some((len - 1) as usize) },
        None => if focused && len > 0 { Some(0) } else { None },
    }
}

/// The cursor of a panel that just received focus.
pub open spec fn focused_cursor(sel: Option<usize>, len: nat) -> Option<usize> {
    if sel.is_none() && len > 0 { Some(0) } else { sel }
}

pub open spec fn is_quit_key(k: Key) -> bool {
    k == Key::Char('q') || k == Key::Esc
}

/// The error text a refresh leaves: the last failed dataset, named, or none
/// when both fetches succeeded.
pub open spec fn refresh_error(
    pods: Result<Vec<PodInfo>, String>,
    deployments: Result<Vec<DeploymentInfo>, String>,
) -> Option<Seq<char>> {
    match deployments {
        Err(e) => Some("deployments: "@ + e@),
        Ok(_) => match pods {
            Err(e) => Some("pods: "@ + e@),
            Ok(_) => None,
        },
    }
}

pub open spec fn error_text(e: Option<String>) -> Option<Seq<char>> {
    match e {
        Some(s) => Some(s@),
        None => None,
    }
}

/// Moves a table cursor by `delta`, clamped to the rows; no move when the
/// table is empty.
pub fn scroll(state: &mut Option<usize>, len: usize, delta: i32)
    ensures
        *final(state) == scrolled(*old(state), len as nat, delta as int),
{
    if len == 0 {
        return;
    }
    let current: i128 = match *state {
        Some(i) => i as i128,
        None => 0,
    };
    let hi: i128 = len as i128 - 1;
    let target: i128 = current + delta as i128;
    let next: i128 = if target < 0 { 0 } else if target > hi { hi } else { target };
    *state = Some(next as usize);
}

fn refit_cursor(sel: Option<usize>, len: usize, focused: bool) -> (r: Option<usize>)
    ensures
        r == refit(sel, len as nat, focused),
{
    match sel {
        Some(i) => if i < len { Some(i) } else if len == 0 { None } else { Some(len - 1) },
        None => if focused && len > 0 { Some(0) } else { None },
    }
}

fn prefixed(prefix: &str, e: String) -> (r: String)
    ensures
        r@ == prefix@ + e@,
{
    let mut out = String::from_str(prefix);
    out.append(e.as_str());
    out
}

impl App {
    /// Every cursor is absent or selects an existing row.
    pub open spec fn wf(&self) -> bool {
        &&& cursor_ok(self.pods_state, self.pods@.len())
        &&& cursor_ok(self.deployments_state, self.deployments@.len())
    }

    pub open spec fn active_len(&self) -> nat {
        match self.active_panel {
            Panel::Pods => self.pods@.len(),
            Panel::Deployments => self.deployments@.len(),
        }
    }

    pub open spec fn active_cursor(&self) -> Option<usize> {
        match self.active_panel {
            Panel::Pods => self.pods_state,
            Panel::Deployments => self.deployments_state,
        }
    }

    /// What a key press leaves of the focus, the two cursors, the quit flag
    /// and the pending refresh request; rows and error are left as they are.
    pub open spec fn key_effect(&self, key: Key) -> (Panel, Option<usize>, Option<usize>, bool, bool) {
        let (panel, ps, ds, q, rr) = (
            self.active_panel,
            self.pods_state,
            self.deployments_state,
            self.should_quit,
            self.refresh_requested,
        );
        let (plen, dlen) = (self.pods@.len(), self.deployments@.len());
        if is_quit_key(key) {
            (panel, ps, ds, true, rr)
        } else if key == Key::Tab {
            match panel {
                Panel::Pods => (Panel::Deployments, ps, focused_cursor(ds, dlen), q, rr),
                Panel::Deployments => (Panel::Pods, focused_cursor(ps, plen), ds, q, rr),
            }
        } else if key == Key::Down || key == Key::Char('j') || key == Key::Up || key == Key::Char('k') {
            let delta: int = if key == Key::Down || key == Key::Char('j') { 1 } else { -1 };
            match panel {
                Panel::Pods => (panel, scrolled(ps, plen, delta), ds, q, rr),
                Panel::Deployments => (panel, ps, scrolled(ds, dlen, delta), q, rr),
            }
        } else if key == Key::Char('r') {
            (panel, ps, ds, q, true)
        } else {
            (panel, ps, ds, q, rr)
        }
    }

    pub open spec fn control(&self) -> (Panel, Option<usize>, Option<usize>, bool, bool) {
        (self.active_panel, self.pods_state, self.deployments_state, self.should_quit, self.refresh_requested)
    }

    /// An empty dashboard: no rows, no selection, no error, pods focused.
    pub fn new() -> (r: Self)
        ensures
            r.wf(),
            r.active_panel == Panel::Pods,
            r.pods@.len() == 0,
            r.deployments@.len() == 0,
            r.pods_state.is_none(),
            r.deployments_state.is_none(),
            r.error.is_none(),
            !r.should_quit,
            !r.refresh_requested,
    {
        App {
            active_panel: Panel::Pods,
            pods: Vec::new(),
            deployments: Vec::new(),
            pods_state: None,
            deployments_state: None,
            error: None,
            should_quit: false,
            refresh_requested: false,
        }
    }

    /// Moves focus to the other panel; a panel that gets focus with rows and
    /// no selection selects its first row.
    pub fn toggle_panel(&mut self)
        ensures
            final(self).active_panel != old(self).active_panel,
            final(self).pods@ == old(self).pods@,
            final(self).deployments@ == old(self).deployments@,
            final(self).error == old(self).error,
            final(self).should_quit == old(self).should_quit,
            final(self).refresh_requested == old(self).refresh_requested,
            old(self).active_panel == Panel::Pods ==> final(self).pods_state == old(self).pods_state
                && final(self).deployments_state == focused_cursor(old(self).deployments_state, old(self).deployments@.len()),
            old(self).active_panel == Panel::Deployments ==> final(self).deployments_state == old(self).deployments_state
                && final(self).pods_state == focused_cursor(old(self).pods_state, old(self).pods@.len()),
            old(self).wf() ==> final(self).wf(),
    {
        match self.active_panel {
            Panel::Pods => {
                self.active_panel = Panel::Deployments;
                if self.deployments_state.is_none() && self.deployments.len() > 0 {
                    self.deployments_state = Some(0);
                }
            },
            Panel::Deployments => {
                self.active_panel = Panel::Pods;
                if self.pods_state.is_none() && self.pods.len() > 0 {
                    self.pods_state = Some(0);
                }
            },
        }
    }

    /// Moves the focused panel's cursor by `delta` rows.
    fn scroll_active(&mut self, delta: i32)
        ensures
            final(self).active_panel == old(self).active_panel,
            final(self).pods@ == old(self).pods@,
            final(self).deployments@ == old(self).deployments@,
            final(self).error == old(self).error,
            final(self).should_quit == old(self).should_quit,
            final(self).refresh_requested == old(self).refresh_requested,
            final(self).active_cursor() == scrolled(old(self).active_cursor(), old(self).active_len(), delta as int),
            old(self).active_panel == Panel::Pods ==> final(self).deployments_state == old(self).deployments_state,
            old(self).active_panel == Panel::Deployments ==> final(self).pods_state == old(self).pods_state,
            old(self).wf() ==> final(self).wf(),
    {
        proof {
            if old(self).wf() {
                lemma_scroll_keeps_cursor_ok(old(self).active_cursor(), old(self).active_len(), delta as int);
            }
        }
        match self.active_panel {
            Panel::Pods => {
                let len = self.pods.len();
                scroll(&mut self.pods_state, len, delta);
            },
            Panel::Deployments => {
                let len = self.deployments.len();
                scroll(&mut self.deployments_state, len, delta);
            },
        }
    }

    /// Moves the focused panel's cursor one row down.
    pub fn scroll_down(&mut self)
        ensures
            final(self).active_panel == old(self).active_panel,
            final(self).pods@ == old(self).pods@,
            final(self).deployments@ == old(self).deployments@,
            final(self).error == old(self).error,
            final(self).should_quit == old(self).should_quit,
            final(self).refresh_requested == old(self).refresh_requested,
            final(self).active_cursor() == scrolled(old(self).active_cursor(), old(self).active_len(), 1),
            old(self).active_panel == Panel::Pods ==> final(self).deployments_state == old(self).deployments_state,
            old(self).active_panel == Panel::Deployments ==> final(self).pods_state == old(self).pods_state,
            old(self).wf() ==> final(self).wf(),
    {
        self.scroll_active(1);
    }

    /// Moves the focused panel's cursor one row up.
    pub fn scroll_up(&mut self)
        ensures
            final(self).active_panel == old(self).active_panel,
            final(self).pods@ == old(self).pods@,
            final(self).deployments@ == old(self).deployments@,
            final(self).error == old(self).error,
            final(self).should_quit == old(self).should_quit,
            final(self).refresh_requested == old(self).refresh_requested,
            final(self).active_cursor() == scrolled(old(self).active_cursor(), old(self).active_len(), -1),
            old(self).active_panel == Panel::Pods ==> final(self).deployments_state == old(self).deployments_state,
            old(self).active_panel == Panel::Deployments ==> final(self).pods_state == old(self).pods_state,
            old(self).wf() ==> final(self).wf(),
    {
        self.scroll_active(-1);
    }

    /// Applies one key press: `q` or Esc asks to quit, Tab switches panel,
    /// Down or `j` and Up or `k` move the focused cursor, `r` asks for a
    /// refresh; other keys do nothing.
    pub fn handle_key(&mut self, key: Key)
        ensures
            final(self).control() == old(self).key_effect(key),
            final(self).pods@ == old(self).pods@,
            final(self).deployments@ == old(self).deployments@,
            final(self).error == old(self).error,
            old(self).wf() ==> final(self).wf(),
    {
        match key {
            Key::Char('q') | Key::Esc => self.should_quit = true,
            Key::Tab => self.toggle_panel(),
            Key::Down | Key::Char('j') => self.scroll_down(),
            Key::Up | Key::Char('k') => self.scroll_up(),
            Key::Char('r') => self.refresh_requested = true,
            _ => {},
        }
    }

    /// One iteration's decision: apply the key read, if any, then quit when
    /// asked to, refresh when `elapsed_ms` since the last refresh reached the
    /// poll interval or a refresh was asked for by key, else wait.
    pub fn step(&mut self, key: Option<Key>, elapsed_ms: u64) -> (r: Action)
        ensures
            ({
                let c = match key {
                    Some(k) => old(self).key_effect(k),
                    None => old(self).control(),
                };
                &&& final(self).active_panel == c.0
                &&& final(self).pods_state == c.1
                &&& final(self).deployments_state == c.2
                &&& final(self).should_quit == c.3
                &&& r == (if c.3 {
                    Action::Quit
                } else if elapsed_ms >= POLL_INTERVAL_MS || c.4 {
                    Action::Refresh
                } else {
                    Action::Wait
                })
                &&& final(self).refresh_requested == (c.4 && r != Action::Refresh)
            }),
            (old(self).should_quit || (key matches Some(k) && is_quit_key(k))) ==> r == Action::Quit,
            final(self).pods@ == old(self).pods@,
            final(self).deployments@ == old(self).deployments@,
            final(self).error == old(self).error,
            old(self).wf() ==> final(self).wf(),
    {
        if let Some(k) = key {
            self.handle_key(k);
        }
        if self.should_quit {
            return Action::Quit;
        }
        if elapsed_ms >= POLL_INTERVAL_MS || self.refresh_requested {
            self.refresh_requested = false;
            return Action::Refresh;
        }
        Action::Wait
    }

    /// Takes the results of one fetch of each dataset. A dataset that was
    /// fetched replaces the old rows; one that failed keeps them and its error
    /// is recorded, named by dataset. Cursors are refitted to the new rows.
    pub fn refresh(&mut self, pods: Result<Vec<PodInfo>, String>, deployments: Result<Vec<DeploymentInfo>, String>)
        ensures
            refreshed(*old(self), pods, deployments, *final(self)),
            final(self).wf(),
    {
        proof {
            reveal_strlit("pods: ");
            reveal_strlit("deployments: ");
        }
        match pods {
            Ok(p) => {
                self.pods = p;
                self.error = None;
            },
            Err(e) => self.error = Some(prefixed("pods: ", e)),
        }
        match deployments {
            Ok(d) => self.deployments = d,
            Err(e) => self.error = Some(prefixed("deployments: ", e)),
        }
        let focus_pods = self.active_panel == Panel::Pods;
        self.pods_state = refit_cursor(self.pods_state, self.pods.len(), focus_pods);
        self.deployments_state = refit_cursor(self.deployments_state, self.deployments.len(), !focus_pods);
    }
}

/// `post` is `pre` after a refresh with the given fetch results: a fetched
/// dataset replaces its rows, a failed one keeps them, the error is the one
/// [`refresh_error`] gives, the cursors are refitted to the new rows, and focus
/// and flags stay.
pub open spec fn refreshed(
    pre: App,
    pods: Result<Vec<PodInfo>, String>,
    deployments: Result<Vec<DeploymentInfo>, String>,
    post: App,
) -> bool {
    &&& post.pods@ == (match pods { Ok(p) => p@, Err(_) => pre.pods@ })
    &&& post.deployments@ == (match deployments { Ok(d) => d@, Err(_) => pre.deployments@ })
    &&& error_text(post.error) == refresh_error(pods, deployments)
    &&& post.pods_state == refit(pre.pods_state, post.pods@.len(), pre.active_panel == Panel::Pods)
    &&& post.deployments_state == refit(pre.deployments_state, post.deployments@.len(),
        pre.active_panel == Panel::Deployments)
    &&& post.active_panel == pre.active_panel
    &&& post.should_quit == pre.should_quit
    &&& post.refresh_requested == pre.refresh_requested
}

/// Moving a cursor keeps it absent or on a row, and never moves the cursor
/// of an empty table.
pub proof fn lemma_scroll_keeps_cursor_ok(sel: Option<usize>, len: nat, delta: int)
    requires
        cursor_ok(sel, len),
    ensures
        cursor_ok(scrolled(sel, len, delta), len),
        len == 0 ==> scrolled(sel, len, delta) == sel,
{
}

/// After any sequence of up and down moves, a cursor that started absent or
/// on a row is still absent or on a row; in an empty table it stays absent.
pub proof fn lemma_cursor_stays_in_range(sel: Option<usize>, len: nat, moves: Seq<int>)
    requires
        cursor_ok(sel, len),
        forall|i: int| 0 <= i < moves.len() ==> #[trigger] moves[i] == 1 || moves[i] == -1,
    ensures
        cursor_ok(scrolled_by_all(sel, len, moves), len),
        len == 0 ==> scrolled_by_all(sel, len, moves).is_none(),
    decreases moves.len(),
{
    if moves.len() > 0 {
        let rest = moves.drop_last();
        assert forall|i: int| 0 <= i < rest.len() implies #[trigger] rest[i] == 1 || rest[i] == -1 by {
            assert(rest[i] == moves[i]);
        }
        lemma_cursor_stays_in_range(sel, len, rest);
        lemma_scroll_keeps_cursor_ok(scrolled_by_all(sel, len, rest), len, moves.last());
    }
}

/// Switching focus to a panel with rows and no selection selects its first
/// row; a panel that already has a selection keeps it, and so does the panel
/// left behind.
pub proof fn lemma_focus_selects_first_row(a: App)
    ensures
        ({
            let c = a.key_effect(Key::Tab);
            &&& a.active_panel == Panel::Pods ==> c.0 == Panel::Deployments && c.1 == a.pods_state
                && (a.deployments_state.is_none() && a.deployments@.len() > 0 ==> c.2 == Some(0usize))
                && (a.deployments_state.is_some() ==> c.2 == a.deployments_state)
            &&& a.active_panel == Panel::Deployments ==> c.0 == Panel::Pods && c.2 == a.deployments_state
                && (a.pods_state.is_none() && a.pods@.len() > 0 ==> c.1 == Some(0usize))
                && (a.pods_state.is_some() ==> c.1 == a.pods_state)
        }),
{
}

/// When one dataset's fetch fails, that dataset keeps its previous rows,
/// the other takes its fetched rows, and the error names only the failed
/// dataset; when both succeed, no error is left.
pub proof fn lemma_failed_fetch_is_isolated(
    pre: App,
    pods: Result<Vec<PodInfo>, String>,
    deployments: Result<Vec<DeploymentInfo>, String>,
    post: App,
)
    requires
        refreshed(pre, pods, deployments, post),
    ensures
        pods is Err ==> post.pods@ == pre.pods@,
        deployments is Err ==> post.deployments@ == pre.deployments@,
        pods is Ok && deployments is Err ==> post.pods@ == pods->Ok_0@
            && error_text(post.error) == Some("deployments: "@ + deployments->Err_0@),
        pods is Err && deployments is Ok ==> post.deployments@ == deployments->Ok_0@
            && error_text(post.error) == Some("pods: "@ + pods->Err_0@),
        pods is Ok && deployments is Ok ==> post.error.is_none(),
        post.active_panel == pre.active_panel,
{
}

} // verus!
