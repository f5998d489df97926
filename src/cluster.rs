//! Flat summaries of the pods and deployments listed by the cluster API.
//!
//! The API's records are read into [`PodRecord`] and [`DeploymentRecord`],
//! which keep only the fields the dashboard shows, each optional as upstream.
use vstd::prelude::*;
use vstd::string::StringExecFns;
use crate::text::{age_between, age_text, signed_decimal, signed_text};

verus! {

/// Summary of a pod for display.
#[derive(Clone, Debug)]
pub struct PodInfo {
    pub name: String,
    pub namespace: String,
    pub status: String,
    pub restarts: i32,
    pub age: String,
}

/// Summary of a deployment for display.
#[derive(Clone, Debug)]
pub struct DeploymentInfo {
    pub name: String,
    pub namespace: String,
    pub ready: String,
    pub up_to_date: i32,
    pub age: String,
}

/// The fields of a listed pod that its summary is made from.
#[derive(Clone, Debug)]
pub struct PodRecord {
    pub name: Option<String>,
    pub namespace: Option<String>,
    pub phase: Option<String>,
    /// Restart counter of each container, when the pod reports statuses.
    pub restart_counts: Option<Vec<i32>>,
    /// Creation time, in seconds since the Unix epoch.
    pub created: Option<i64>,
}

/// The fields of a listed deployment that its summary is made from.
#[derive(Clone, Debug)]
pub struct DeploymentRecord {
    pub name: Option<String>,
    pub namespace: Option<String>,
    pub ready_replicas: Option<i32>,
    /// Desired replica count from the deployment's spec.
    pub replicas: Option<i32>,
    pub updated_replicas: Option<i32>,
    /// Creation time, in seconds since the Unix epoch.
    pub created: Option<i64>,
}

/// The text of an optional string, or `default` when it is absent.
pub open spec fn text_or(o: Option<String>, default: Seq<char>) -> Seq<char> {
    match o {
        Some(s) => s@,
        None => default,
    }
}

/// Age column: the age text when the creation time is known, else `-`.
pub open spec fn age_or_dash(created: Option<i64>, now: int) -> Seq<char> {
    match created {
        Some(c) => age_text(now - c),
        None => seq!['-'],
    }
}

/// Sum of a sequence of restart counters.
pub open spec fn restart_sum(s: Seq<i32>) -> int
    decreases s.len(),
{
    if s.len() == 0 {
        0
    } else {
        restart_sum(s.drop_last()) + s.last()
    }
}

/// Total restarts of a pod: the sum over its containers, 0 with none reported.
pub open spec fn restart_total(rec: PodRecord) -> int {
    match rec.restart_counts {
        Some(v) => restart_sum(v@),
        None => 0,
    }
}

pub open spec fn fits_i32(n: int) -> bool {
    i32::MIN <= n <= i32::MAX
}

/// `p` is the summary of `rec` at time `now`.
pub open spec fn pod_summarized(rec: PodRecord, now: int, p: PodInfo) -> bool {
    &&& p.name@ == text_or(rec.name, seq![])
    &&& p.namespace@ == text_or(rec.namespace, "default"@)
    &&& p.status@ == text_or(rec.phase, "Unknown"@)
    &&& p.restarts as int == restart_total(rec)
    &&& p.age@ == age_or_dash(rec.created, now)
}

/// `v` summarizes `recs` item by item at time `now`.
pub open spec fn pods_summarized(recs: Seq<PodRecord>, now: int, v: Seq<PodInfo>) -> bool {
    &&& v.len() == recs.len()
    &&& forall|i: int| 0 <= i < recs.len() ==> pod_summarized(recs[i], now, #[trigger] v[i])
}

pub open spec fn all_restarts_fit(recs: Seq<PodRecord>) -> bool {
    forall|i: int| 0 <= i < recs.len() ==> fits_i32(restart_total(#[trigger] recs[i]))
}

pub open spec fn count_or_zero(o: Option<i32>) -> int {
    match o {
        Some(n) => n as int,
        None => 0,
    }
}

/// `v` summarizes `recs` item by item at time `now`.
pub open spec fn deployments_summarized(recs: Seq<DeploymentRecord>, now: int, v: Seq<DeploymentInfo>) -> bool {
    &&& v.len() == recs.len()
    &&& forall|i: int| 0 <= i < recs.len() ==> deployment_summarized(recs[i], now, #[trigger] v[i])
}

/// `d` is the summary of `rec` at time `now`.
pub open spec fn deployment_summarized(rec: DeploymentRecord, now: int, d: DeploymentInfo) -> bool {
    &&& d.name@ == text_or(rec.name, seq![])
    &&& d.namespace@ == text_or(rec.namespace, "default"@)
    &&& d.ready@ == signed_decimal(count_or_zero(rec.ready_replicas)) + seq!['/']
        + signed_decimal(count_or_zero(rec.replicas))
    &&& d.up_to_date as int == count_or_zero(rec.updated_replicas)
    &&& d.age@ == age_or_dash(rec.created, now)
}

fn text_or_else(o: &Option<String>, default: &str) -> (r: String)
    ensures
        r@ == text_or(*o, default@),
{
    match o {
        Some(s) => s.clone(),
        None => String::from_str(default),
    }
}

fn age_column(created: Option<i64>, now: i64) -> (r: String)
    ensures
        r@ == age_or_dash(created, now as int),
{
    match created {
        Some(c) => age_between(now, c),
        None => {
            proof { reveal_strlit("-"); }
            String::from_str("-")
        },
    }
}

/// Sum of the restart counters, exact.
pub fn sum_restarts(counts: &Vec<i32>) -> (r: i128)
    ensures
        r as int == restart_sum(counts@),
{
    let mut acc: i128 = 0;
    let mut i: usize = 0;
    while i < counts.len()
        invariant
            i <= counts@.len(),
            acc as int == restart_sum(counts@.take(i as int)),
            -0x8000_0000 * i <= acc <= 0x7fff_ffff * i,
        decreases counts@.len() - i,
    {
        assert(counts@.take(i as int + 1).drop_last() =~= counts@.take(i as int));
        acc = acc + counts[i] as i128;
        i = i + 1;
    }
    assert(counts@.take(i as int) =~= counts@);
    acc
}

/// The summary of one pod, or `None` when its restart total does not fit
/// an `i32`.
pub fn summarize_pod(rec: &PodRecord, now: i64) -> (r: Option<PodInfo>)
    ensures
        r.is_some() == fits_i32(restart_total(*rec)),
        r matches Some(p) ==> pod_summarized(*rec, now as int, p),
{
    let total: i128 = match &rec.restart_counts {
        Some(v) => sum_restarts(v),
        None => 0,
    };
    if total < i32::MIN as i128 || total > i32::MAX as i128 {
        return None;
    }
    proof {
        reveal_strlit("");
        reveal_strlit("default");
        reveal_strlit("Unknown");
    }
    let name = text_or_else(&rec.name, "");
    let namespace = text_or_else(&rec.namespace, "default");
    let status = text_or_else(&rec.phase, "Unknown");
    assert(name@ =~= text_or(rec.name, seq![]));
    Some(PodInfo { name, namespace, status, restarts: total as i32, age: age_column(rec.created, now) })
}

fn count_of(o: Option<i32>) -> (r: i32)
    ensures
        r as int == count_or_zero(o),
{
    match o {
        Some(n) => n,
        None => 0,
    }
}

/// The summary of one deployment.
pub fn summarize_deployment(rec: &DeploymentRecord, now: i64) -> (r: DeploymentInfo)
    ensures
        deployment_summarized(*rec, now as int, r),
{
    let mut ready = signed_text(count_of(rec.ready_replicas) as i64);
    ready.append("/");
    let desired = signed_text(count_of(rec.replicas) as i64);
    ready.append(desired.as_str());
    proof {
        reveal_strlit("");
        reveal_strlit("/");
        reveal_strlit("default");
    }
    let name = text_or_else(&rec.name, "");
    let namespace = text_or_else(&rec.namespace, "default");
    assert(name@ =~= text_or(rec.name, seq![]));
    assert(ready@ =~= signed_decimal(count_or_zero(rec.ready_replicas)) + seq!['/']
        + signed_decimal(count_or_zero(rec.replicas)));
    DeploymentInfo { name, namespace, ready, up_to_date: count_of(rec.updated_replicas), age: age_column(rec.created, now) }
}

/// Summaries of all pods in listing order, or `None` when some pod's
/// restart total does not fit an `i32`.
pub fn summarize_pods(recs: &Vec<PodRecord>, now: i64) -> (r: Option<Vec<PodInfo>>)
    ensures
        r.is_some() == all_restarts_fit(recs@),
        r matches Some(v) ==> pods_summarized(recs@, now as int, v@),
{
    let mut out: Vec<PodInfo> = Vec::new();
    let mut i: usize = 0;
    while i < recs.len()
        invariant
            i <= recs@.len(),
            out@.len() == i,
            forall|j: int| 0 <= j < i ==> fits_i32(restart_total(#[trigger] recs@[j])),
            forall|j: int| 0 <= j < i ==> pod_summarized(recs@[j], now as int, #[trigger] out@[j]),
        decreases recs@.len() - i,
    {
        match summarize_pod(&recs[i], now) {
            Some(p) => out.push(p),
            None => return None,
        }
        i = i + 1;
    }
    Some(out)
}

/// Summaries of all deployments in listing order.
pub fn summarize_deployments(recs: &Vec<DeploymentRecord>, now: i64) -> (r: Vec<DeploymentInfo>)
    ensures
        deployments_summarized(recs@, now as int, r@),
{
    let mut out: Vec<DeploymentInfo> = Vec::new();
    let mut i: usize = 0;
    while i < recs.len()
        invariant
            i <= recs@.len(),
            out@.len() == i,
            forall|j: int| 0 <= j < i ==> deployment_summarized(recs@[j], now as int, #[trigger] out@[j]),
        decreases recs@.len() - i,
    {
        out.push(summarize_deployment(&recs[i], now));
        i = i + 1;
    }
    out
}

/// Relies on `std::time::SystemTime::now`: the current wall-clock time, as
/// whole seconds since the Unix epoch (0 when the clock reads before it).
#[verifier::external_body]
fn now_epoch_secs() -> (r: i64) {
    std::time::SystemTime::now()
        .duration_since(std::time::SystemTime::UNIX_EPOCH)
        .unwrap_or_default()
        .as_secs() as i64
}

/// Summaries of all pods, aged against the current time.
pub fn summarize_pods_now(recs: &Vec<PodRecord>) -> (r: Option<Vec<PodInfo>>)
    ensures
        r.is_some() == all_restarts_fit(recs@),
        r matches Some(v) ==> exists|now: i64| pods_summarized(recs@, now as int, v@),
{
    let now = now_epoch_secs();
    let r = summarize_pods(recs, now);
    assert(r matches Some(v) ==> pods_summarized(recs@, now as int, v@));
    r
}

/// Summaries of all deployments, aged against the current time.
pub fn summarize_deployments_now(recs: &Vec<DeploymentRecord>) -> (r: Vec<DeploymentInfo>)
    ensures
        exists|now: i64| deployments_summarized(recs@, now as int, r@),
{
    let now = now_epoch_secs();
    let r = summarize_deployments(recs, now);
    assert(deployments_summarized(recs@, now as int, r@));
    r
}

} // verus!
