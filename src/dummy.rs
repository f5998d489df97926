//! Fixed sample data for running the dashboard without a cluster.
use vstd::prelude::*;
use vstd::string::StringExecFns;
use crate::cluster::{DeploymentInfo, PodInfo};

verus! {

/// The displayed columns of a pod row.
pub open spec fn pod_row(p: PodInfo) -> (Seq<char>, Seq<char>, Seq<char>, i32, Seq<char>) {
    (p.name@, p.namespace@, p.status@, p.restarts, p.age@)
}

/// The displayed columns of a deployment row.
pub open spec fn deployment_row(d: DeploymentInfo) -> (Seq<char>, Seq<char>, Seq<char>, i32, Seq<char>) {
    (d.name@, d.namespace@, d.ready@, d.up_to_date, d.age@)
}

pub open spec fn sample_pods() -> Seq<(Seq<char>, Seq<char>, Seq<char>, i32, Seq<char>)> {
    seq![
        ("nginx-7b8d6c5d9-x4k2m"@, "default"@, "Running"@, 0i32, "2d"@),
        ("redis-master-0"@, "default"@, "Running"@, 1i32, "5d"@),
        ("api-gateway-6f7d8c9-q8n3p"@, "backend"@, "Running"@, 0i32, "12h"@),
        ("worker-batch-j7k2x"@, "jobs"@, "Succeeded"@, 0i32, "3h"@),
        ("postgres-0"@, "database"@, "Running"@, 0i32, "14d"@),
        ("cronjob-cleanup-f9z1l"@, "jobs"@, "CrashLoopBackOff"@, 12i32, "1h"@),
        ("monitoring-agent-2v8x4"@, "monitoring"@, "Pending"@, 0i32, "5m"@),
    ]
}

pub open spec fn sample_deployments() -> Seq<(Seq<char>, Seq<char>, Seq<char>, i32, Seq<char>)> {
    seq![
        ("nginx"@, "default"@, "3/3"@, 3i32, "2d"@),
        ("api-gateway"@, "backend"@, "2/2"@, 2i32, "12h"@),
        ("redis"@, "default"@, "1/1"@, 1i32, "5d"@),
        ("postgres"@, "database"@, "1/1"@, 1i32, "14d"@),
        ("monitoring-agent"@, "monitoring"@, "0/1"@, 0i32, "5m"@),
    ]
}

fn pod(name: &str, namespace: &str, status: &str, restarts: i32, age: &str) -> (r: PodInfo)
    ensures
        pod_row(r) == (name@, namespace@, status@, restarts, age@),
{
    PodInfo {
        name: String::from_str(name),
        namespace: String::from_str(namespace),
        status: String::from_str(status),
        restarts,
        age: String::from_str(age),
    }
}

fn deployment(name: &str, namespace: &str, ready: &str, up_to_date: i32, age: &str) -> (r: DeploymentInfo)
    ensures
        deployment_row(r) == (name@, namespace@, ready@, up_to_date, age@),
{
    DeploymentInfo {
        name: String::from_str(name),
        namespace: String::from_str(namespace),
        ready: String::from_str(ready),
        up_to_date,
        age: String::from_str(age),
    }
}

/// The seven sample pods.
pub fn get_pods() -> (r: Vec<PodInfo>)
    ensures
        r@.map_values(|p: PodInfo| pod_row(p)) == sample_pods(),
{
    let mut v: Vec<PodInfo> = Vec::new();
    v.push(pod("nginx-7b8d6c5d9-x4k2m", "default", "Running", 0, "2d"));
    v.push(pod("redis-master-0", "default", "Running", 1, "5d"));
    v.push(pod("api-gateway-6f7d8c9-q8n3p", "backend", "Running", 0, "12h"));
    v.push(pod("worker-batch-j7k2x", "jobs", "Succeeded", 0, "3h"));
    v.push(pod("postgres-0", "database", "Running", 0, "14d"));
    v.push(pod("cronjob-cleanup-f9z1l", "jobs", "CrashLoopBackOff", 12, "1h"));
    v.push(pod("monitoring-agent-2v8x4", "monitoring", "Pending", 0, "5m"));
    assert(v@.map_values(|p: PodInfo| pod_row(p)) =~= sample_pods());
    v
}

/// The five sample deployments.
pub fn get_deployments() -> (r: Vec<DeploymentInfo>)
    ensures
        r@.map_values(|d: DeploymentInfo| deployment_row(d)) == sample_deployments(),
{
    let mut v: Vec<DeploymentInfo> = Vec::new();
    v.push(deployment("nginx", "default", "3/3", 3, "2d"));
    v.push(deployment("api-gateway", "backend", "2/2", 2, "12h"));
    v.push(deployment("redis", "default", "1/1", 1, "5d"));
    v.push(deployment("postgres", "database", "1/1", 1, "14d"));
    v.push(deployment("monitoring-agent", "monitoring", "0/1", 0, "5m"));
    assert(v@.map_values(|d: DeploymentInfo| deployment_row(d)) =~= sample_deployments());
    v
}

} // verus!
