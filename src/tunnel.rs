//! The decisions behind the SSH tunnel: the command line of the forwarding
//! process, the readiness probe's schedule, and the failure message.
use vstd::prelude::*;
use vstd::string::{StrSliceExecFns, StringExecFns};
use crate::config::{expand_home, expanded, opt_view, SshConfig};
use crate::text::{decimal, signed_text};

verus! {

/// Overall time, in milliseconds, the tunnel has to become reachable.
pub const PROBE_DEADLINE_MS: u64 = 15000;

/// Pause, in milliseconds, between two connection attempts.
pub const PROBE_DELAY_MS: u64 = 250;

/// What the readiness probe does after one connection attempt.
#[derive(Debug, Clone, Copy, PartialEq, Eq, Structural)]
pub enum Probe {
    /// The forwarded port accepted a connection.
    Ready,
    /// Wait this many milliseconds and try again.
    Retry(u64),
    /// The deadline passed: the tunnel failed.
    TimedOut,
}

/// The decision after an attempt made `elapsed_ms` after the probe began.
pub open spec fn probe_outcome(connected: bool, elapsed_ms: int) -> Probe {
    if connected {
        Probe::Ready
    } else if elapsed_ms >= PROBE_DEADLINE_MS {
        Probe::TimedOut
    } else if elapsed_ms + PROBE_DELAY_MS <= PROBE_DEADLINE_MS {
        Probe::Retry(PROBE_DELAY_MS)
    } else {
        Probe::Retry((PROBE_DEADLINE_MS - elapsed_ms) as u64)
    }
}

/// Decides the probe's next move: done when connected, failed once the
/// deadline has passed, else a pause that never runs past the deadline.
pub fn probe_next(connected: bool, elapsed_ms: u64) -> (r: Probe)
    ensures
        r == probe_outcome(connected, elapsed_ms as int),
        r matches Probe::Retry(w) ==> 0 < w <= PROBE_DELAY_MS && elapsed_ms + w <= PROBE_DEADLINE_MS,
{
    if connected {
        Probe::Ready
    } else if elapsed_ms >= PROBE_DEADLINE_MS {
        Probe::TimedOut
    } else if elapsed_ms + PROBE_DELAY_MS <= PROBE_DEADLINE_MS {
        Probe::Retry(PROBE_DELAY_MS)
    } else {
        Probe::Retry(PROBE_DEADLINE_MS - elapsed_ms)
    }
}

/// Milliseconds a retry decision waits, 0 for the others.
pub open spec fn wait_of(p: Probe) -> int {
    match p {
        Probe::Retry(w) => w as int,
        _ => 0,
    }
}

/// A run of failed attempts, at the given times, in which each attempt comes
/// no sooner than the pause the previous one chose.
pub open spec fn failed_run(times: Seq<int>) -> bool {
    &&& forall|k: int| 0 <= k < times.len() ==> #[trigger] times[k] >= 0
    &&& forall|k: int| 0 <= k < times.len() - 1 ==>
        #[trigger] times[k + 1] >= times[k] + wait_of(probe_outcome(false, times[k]))
}

proof fn lemma_run_times_grow(times: Seq<int>, k: int)
    requires
        failed_run(times),
        0 <= k < times.len(),
        forall|j: int| 0 <= j < times.len() ==> #[trigger] probe_outcome(false, times[j]) is Retry,
    ensures
        times[k] >= k,
    decreases k,
{
    if k > 0 {
        lemma_run_times_grow(times, k - 1);
        assert(times[(k - 1) + 1] >= times[k - 1] + wait_of(probe_outcome(false, times[k - 1])));
        assert(probe_outcome(false, times[k - 1]) is Retry);
    }
}

/// A probe against a port that never opens gives up by the deadline: every
/// pause it takes ends by the deadline, an attempt at or past the deadline
/// fails the probe, and a run of retries has at most one attempt per
/// millisecond of the deadline.
pub proof fn lemma_probe_gives_up_by_deadline(times: Seq<int>)
    requires
        failed_run(times),
        forall|j: int| 0 <= j < times.len() ==> #[trigger] probe_outcome(false, times[j]) is Retry,
    ensures
        forall|j: int| 0 <= j < times.len() ==>
            #[trigger] times[j] + wait_of(probe_outcome(false, times[j])) <= PROBE_DEADLINE_MS,
        forall|t: int| t >= PROBE_DEADLINE_MS ==> #[trigger] probe_outcome(false, t) == Probe::TimedOut,
        times.len() <= PROBE_DEADLINE_MS,
{
    if times.len() > 0 {
        let last = times.len() - 1;
        lemma_run_times_grow(times, last);
        assert(probe_outcome(false, times[last]) is Retry);
    }
}

/// The `-L` forward: local port to the remote side's own loopback port.
pub open spec fn forward_text(local: u16, remote: u16) -> Seq<char> {
    decimal(local as nat) + ":localhost:"@ + decimal(remote as nat)
}

/// The arguments of the forwarding `ssh` process: no remote command, the
/// forward, the SSH port, host keys accepted when new and refused when
/// changed, a short connect timeout, the key file when one is set, and the
/// target `user@host`.
pub open spec fn ssh_arg_list(ssh: SshConfig, local: u16, remote: u16, home: Option<Seq<char>>) -> Seq<Seq<char>> {
    let head = seq![
        "-N"@,
        "-L"@,
        forward_text(local, remote),
        "-p"@,
        decimal(ssh.port as nat),
        "-o"@,
        "StrictHostKeyChecking=accept-new"@,
        "-o"@,
        "ConnectTimeout=10"@,
    ];
    let key = match ssh.key_path {
        Some(k) => seq!["-i"@, expanded(k@, home)],
        None => seq![],
    };
    head + key + seq![ssh.user@ + seq!['@'] + ssh.host@]
}

pub open spec fn views(v: Seq<String>) -> Seq<Seq<char>> {
    v.map_values(|s: String| s@)
}

fn lit(s: &str) -> (r: String)
    ensures
        r@ == s@,
{
    String::from_str(s)
}

/// The `local:localhost:remote` forward.
pub fn forward_spec(local: u16, remote: u16) -> (r: String)
    ensures
        r@ == forward_text(local, remote),
{
    let mut out = signed_text(local as i64);
    out.append(":localhost:");
    let rest = signed_text(remote as i64);
    out.append(rest.as_str());
    proof { reveal_strlit(":localhost:"); }
    out
}

/// The API server's address at the local end of the tunnel.
pub fn cluster_url(local_port: u16) -> (r: String)
    ensures
        r@ == "https://127.0.0.1:"@ + decimal(local_port as nat),
{
    let mut out = lit("https://127.0.0.1:");
    let port = signed_text(local_port as i64);
    out.append(port.as_str());
    out
}

/// The arguments of the forwarding process, with `home` standing for the
/// user's home directory in the key path.
pub fn ssh_args(ssh: &SshConfig, local_port: u16, remote_port: u16, home: &Option<String>) -> (r: Vec<String>)
    ensures
        views(r@) == ssh_arg_list(*ssh, local_port, remote_port, opt_view(*home)),
{
    proof {
        reveal_strlit("-N");
        reveal_strlit("-L");
        reveal_strlit("-p");
        reveal_strlit("-o");
        reveal_strlit("-i");
        reveal_strlit("@");
        reveal_strlit("StrictHostKeyChecking=accept-new");
        reveal_strlit("ConnectTimeout=10");
    }
    let mut args: Vec<String> = Vec::new();
    args.push(lit("-N"));
    args.push(lit("-L"));
    args.push(forward_spec(local_port, remote_port));
    args.push(lit("-p"));
    args.push(signed_text(ssh.port as i64));
    args.push(lit("-o"));
    args.push(lit("StrictHostKeyChecking=accept-new"));
    args.push(lit("-o"));
    args.push(lit("ConnectTimeout=10"));
    if let Some(k) = &ssh.key_path {
        args.push(lit("-i"));
        args.push(expand_home(k.as_str(), home));
    }
    let mut target = ssh.user.clone();
    target.append("@");
    target.append(ssh.host.as_str());
    args.push(target);
    let ghost want = ssh_arg_list(*ssh, local_port, remote_port, opt_view(*home));
    assert(target@ == ssh.user@ + seq!['@'] + ssh.host@);
    assert(views(args@) =~= want);
    args
}

/// What `str::trim` leaves of a text.
pub uninterp spec fn trimmed(s: Seq<char>) -> Seq<char>;

/// Relies on `str::trim`: the text without leading and trailing white space,
/// which depends on the text alone.
#[verifier::external_body]
fn trim_text(s: &str) -> (r: String)
    ensures
        r@ == trimmed(s@),
{
    s.trim().to_string()
}

/// The generic cause, used when the forwarding process printed nothing.
pub open spec fn timeout_text() -> Seq<char> {
    "SSH tunnel did not become ready within 15s"@
}

/// The cause reported for a failed tunnel: the process's diagnostic output,
/// or the generic cause when there was none.
pub open spec fn failure_detail(stderr: Seq<char>) -> Seq<char> {
    if stderr.len() == 0 { timeout_text() } else { stderr }
}

pub open spec fn failure_text(detail: Seq<char>) -> Seq<char> {
    "SSH tunnel failed: "@ + detail
}

/// The message of a failed tunnel, given its cause already trimmed.
pub fn failure_message(detail: &str) -> (r: String)
    ensures
        r@ == failure_text(detail@),
{
    let mut out = lit("SSH tunnel failed: ");
    out.append(detail);
    out
}

/// The message of a tunnel that did not become ready, from what the
/// forwarding process wrote to its diagnostic stream.
pub fn tunnel_failure(stderr: &str) -> (r: String)
    ensures
        r@ == failure_text(trimmed(failure_detail(stderr@))),
{
    let detail = if stderr.unicode_len() == 0 {
        lit("SSH tunnel did not become ready within 15s")
    } else {
        lit(stderr)
    };
    let t = trim_text(detail.as_str());
    failure_message(t.as_str())
}

/// Where a tunnel stands.
#[derive(Debug)]
pub enum TunnelState {
    /// The forwarding process runs; the port is being probed.
    Starting,
    /// The forwarded port accepts connections.
    Ready,
    /// The tunnel was shut down.
    Closed,
    /// The port never became reachable, for the reason given.
    Failed(String),
}

impl TunnelState {
    /// The probe's decision moves a starting tunnel to ready; other states
    /// and other decisions leave it as it is.
    pub fn on_probe(&mut self, p: Probe)
        ensures
            (*old(self) is Starting && p == Probe::Ready) ==> *final(self) is Ready,
            !(*old(self) is Starting && p == Probe::Ready) ==> *final(self) == *old(self),
    {
        if let TunnelState::Starting = self {
            if let Probe::Ready = p {
                *self = TunnelState::Ready;
            }
        }
    }

    /// A starting tunnel fails, with the message made from what the
    /// forwarding process wrote to its diagnostic stream.
    pub fn fail(&mut self, stderr: &str)
        requires
            *old(self) is Starting,
        ensures
            *final(self) matches TunnelState::Failed(m) && m@ == failure_text(trimmed(failure_detail(stderr@))),
    {
        *self = TunnelState::Failed(tunnel_failure(stderr));
    }

    /// Shuts the tunnel down: says whether the forwarding process is still
    /// to be stopped, which is so only on the first close. Closing again is
    /// no error and does nothing.
    pub fn close(&mut self) -> (stop: bool)
        ensures
            *final(self) is Closed,
            stop == !(*old(self) is Closed),
    {
        let stop = !matches!(self, TunnelState::Closed);
        *self = TunnelState::Closed;
        stop
    }

    pub fn is_ready(&self) -> (r: bool)
        ensures
            r == (*self is Ready),
    {
        matches!(self, TunnelState::Ready)
    }
}

} // verus!
