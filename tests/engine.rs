use prism::app::{scroll, Action, App, Key, Panel, POLL_INTERVAL_MS};
use prism::cluster::{
    summarize_deployment, summarize_deployments, summarize_deployments_now, summarize_pod,
    summarize_pods, summarize_pods_now, sum_restarts, DeploymentInfo, DeploymentRecord, PodInfo,
    PodRecord,
};
use prism::config::{
    default_api_port, default_local_port, default_ssh_port, expand_home, resolve_path, Config,
    KubernetesConfig, SshConfig,
};
use prism::dummy::{get_deployments, get_pods};
use prism::text::{age_between, elapsed_text, format_duration, push_decimal, signed_text};
use prism::status::{same_text, status_class, StatusClass};
use prism::tunnel::{
    cluster_url, failure_message, forward_spec, probe_next, ssh_args, tunnel_failure, Probe, TunnelState,
    PROBE_DEADLINE_MS,
};

fn pod_named(name: &str) -> PodInfo {
    PodInfo {
        name: name.to_string(),
        namespace: "default".to_string(),
        status: "Running".to_string(),
        restarts: 0,
        age: "1m".to_string(),
    }
}

fn deployment_named(name: &str) -> DeploymentInfo {
    DeploymentInfo {
        name: name.to_string(),
        namespace: "default".to_string(),
        ready: "1/1".to_string(),
        up_to_date: 1,
        age: "1m".to_string(),
    }
}

fn names_of_pods(app: &App) -> Vec<String> {
    app.pods.iter().map(|p| p.name.clone()).collect()
}

fn names_of_deployments(app: &App) -> Vec<String> {
    app.deployments.iter().map(|d| d.name.clone()).collect()
}

#[test]
fn age_formatting_by_magnitude() {
    assert_eq!(format_duration(0), "0s");
    assert_eq!(format_duration(59), "59s");
    assert_eq!(format_duration(60), "1m");
    assert_eq!(format_duration(3599), "59m");
    assert_eq!(format_duration(3600), "1h");
    assert_eq!(format_duration(86399), "23h");
    assert_eq!(format_duration(86400), "1d");
    assert_eq!(format_duration(172800 + 5), "2d");
    assert_eq!(format_duration(i64::MAX), "106751991167300d");
}

#[test]
fn age_formatting_clamps_negative_to_zero() {
    assert_eq!(format_duration(-1), "0s");
    assert_eq!(format_duration(i64::MIN), "0s");
}

#[test]
fn age_between_two_times() {
    assert_eq!(age_between(1_000_100, 1_000_000), "1m");
    assert_eq!(age_between(1_000_000, 1_000_100), "0s");
    assert_eq!(age_between(i64::MAX, i64::MIN), "213503982334601d");
    assert_eq!(elapsed_text(7200), "2h");
}

#[test]
fn decimal_text() {
    assert_eq!(signed_text(0), "0");
    assert_eq!(signed_text(-42), "-42");
    assert_eq!(signed_text(i64::MIN), "-9223372036854775808");
    let mut s = String::from("n=");
    push_decimal(&mut s, 1907);
    assert_eq!(s, "n=1907");
}

#[test]
fn pod_summary_defaults() {
    let rec = PodRecord { name: None, namespace: None, phase: None, restart_counts: None, created: None };
    let p = summarize_pod(&rec, 1000).unwrap();
    assert_eq!(p.name, "");
    assert_eq!(p.namespace, "default");
    assert_eq!(p.status, "Unknown");
    assert_eq!(p.restarts, 0);
    assert_eq!(p.age, "-");
}

#[test]
fn pod_summary_fields() {
    let rec = PodRecord {
        name: Some("web-1".to_string()),
        namespace: Some("shop".to_string()),
        phase: Some("Pending".to_string()),
        restart_counts: Some(vec![1, 2, 3]),
        created: Some(1000),
    };
    let p = summarize_pod(&rec, 1000 + 7300).unwrap();
    assert_eq!(p.name, "web-1");
    assert_eq!(p.namespace, "shop");
    assert_eq!(p.status, "Pending");
    assert_eq!(p.restarts, 6);
    assert_eq!(p.age, "2h");
}

#[test]
fn pod_restart_total_out_of_range() {
    let rec = PodRecord {
        name: None,
        namespace: None,
        phase: None,
        restart_counts: Some(vec![i32::MAX, 1]),
        created: None,
    };
    assert!(summarize_pod(&rec, 0).is_none());
    assert_eq!(sum_restarts(&vec![i32::MAX, 1]), i32::MAX as i128 + 1);
    assert_eq!(sum_restarts(&vec![]), 0);
    let ok = PodRecord { name: None, namespace: None, phase: None, restart_counts: Some(vec![]), created: None };
    assert!(summarize_pods(&vec![ok, rec], 0).is_none());
}

#[test]
fn pods_summarized_in_order() {
    let a = PodRecord { name: Some("a".to_string()), namespace: None, phase: None, restart_counts: None, created: Some(0) };
    let b = PodRecord { name: Some("b".to_string()), namespace: None, phase: None, restart_counts: None, created: None };
    let v = summarize_pods(&vec![a, b], 30).unwrap();
    assert_eq!(v.len(), 2);
    assert_eq!(v[0].name, "a");
    assert_eq!(v[0].age, "30s");
    assert_eq!(v[1].name, "b");
    assert_eq!(v[1].age, "-");
    assert_eq!(summarize_pods(&vec![], 0).unwrap().len(), 0);
}

#[test]
fn summaries_against_the_clock() {
    let a = PodRecord { name: Some("a".to_string()), namespace: None, phase: None, restart_counts: None, created: None };
    let v = summarize_pods_now(&vec![a]).unwrap();
    assert_eq!(v[0].age, "-");
    let d = DeploymentRecord { name: None, namespace: None, ready_replicas: None, replicas: None, updated_replicas: None, created: Some(i64::MAX) };
    let v = summarize_deployments_now(&vec![d]);
    assert_eq!(v[0].age, "0s");
}

#[test]
fn deployment_summary_fields() {
    let rec = DeploymentRecord {
        name: Some("api".to_string()),
        namespace: None,
        ready_replicas: Some(2),
        replicas: Some(3),
        updated_replicas: Some(1),
        created: Some(0),
    };
    let d = summarize_deployment(&rec, 90000);
    assert_eq!(d.name, "api");
    assert_eq!(d.namespace, "default");
    assert_eq!(d.ready, "2/3");
    assert_eq!(d.up_to_date, 1);
    assert_eq!(d.age, "1d");
}

#[test]
fn deployment_summary_defaults() {
    let rec = DeploymentRecord { name: None, namespace: None, ready_replicas: None, replicas: None, updated_replicas: None, created: None };
    let v = summarize_deployments(&vec![rec], 0);
    assert_eq!(v[0].ready, "0/0");
    assert_eq!(v[0].up_to_date, 0);
    assert_eq!(v[0].age, "-");
}

#[test]
fn new_dashboard_is_empty() {
    let app = App::new();
    assert_eq!(app.active_panel, Panel::Pods);
    assert!(app.pods.is_empty() && app.deployments.is_empty());
    assert_eq!(app.pods_state, None);
    assert_eq!(app.deployments_state, None);
    assert!(app.error.is_none());
    assert!(!app.should_quit);
}

#[test]
fn scroll_clamps_to_rows() {
    let mut s = Some(0);
    scroll(&mut s, 3, -1);
    assert_eq!(s, Some(0));
    scroll(&mut s, 3, 1);
    scroll(&mut s, 3, 1);
    scroll(&mut s, 3, 1);
    assert_eq!(s, Some(2));
    let mut none = None;
    scroll(&mut none, 0, 1);
    assert_eq!(none, None);
    scroll(&mut none, 4, 1);
    assert_eq!(none, Some(1));
}

#[test]
fn cursor_stays_in_range_over_moves() {
    let mut app = App::new();
    app.refresh(Ok(vec![pod_named("a"), pod_named("b")]), Ok(vec![]));
    for k in [Key::Down, Key::Down, Key::Char('j'), Key::Up, Key::Up, Key::Char('k'), Key::Up] {
        app.handle_key(k);
        assert!(app.pods_state.unwrap() < 2);
    }
    app.handle_key(Key::Tab);
    for k in [Key::Down, Key::Up, Key::Down] {
        app.handle_key(k);
        assert_eq!(app.deployments_state, None);
    }
}

#[test]
fn toggle_selects_first_row_only_when_unset() {
    let mut app = App::new();
    app.refresh(Ok(vec![pod_named("a")]), Ok(vec![deployment_named("x"), deployment_named("y")]));
    assert_eq!(app.deployments_state, None);
    app.toggle_panel();
    assert_eq!(app.active_panel, Panel::Deployments);
    assert_eq!(app.deployments_state, Some(0));
    app.scroll_down();
    app.toggle_panel();
    app.toggle_panel();
    assert_eq!(app.deployments_state, Some(1));
}

#[test]
fn failed_pod_fetch_keeps_pods() {
    let mut app = App::new();
    app.refresh(Ok(vec![pod_named("a")]), Ok(vec![]));
    app.refresh(Err("timeout".to_string()), Ok(vec![deployment_named("x")]));
    assert_eq!(names_of_pods(&app), vec!["a"]);
    assert_eq!(names_of_deployments(&app), vec!["x"]);
    assert_eq!(app.error.as_deref(), Some("pods: timeout"));
    app.refresh(Ok(vec![pod_named("b")]), Ok(vec![deployment_named("y")]));
    assert!(app.error.is_none());
}

#[test]
fn deployment_fetch_failure_scenario() {
    let mut app = App::new();
    app.refresh(Ok(vec![pod_named("A"), pod_named("B")]), Ok(vec![deployment_named("X")]));
    app.scroll_down();
    assert_eq!(app.pods_state, Some(1));
    app.refresh(Ok(vec![pod_named("A"), pod_named("B")]), Err("connection refused".to_string()));
    assert_eq!(names_of_pods(&app), vec!["A", "B"]);
    assert_eq!(names_of_deployments(&app), vec!["X"]);
    assert_eq!(app.error.as_deref(), Some("deployments: connection refused"));
    assert_eq!(app.pods_state, Some(1));
    assert_eq!(app.active_panel, Panel::Pods);
}

#[test]
fn refresh_clamps_cursor_when_rows_shrink() {
    let mut app = App::new();
    app.refresh(Ok(vec![pod_named("a"), pod_named("b"), pod_named("c")]), Ok(vec![]));
    app.scroll_down();
    app.scroll_down();
    app.refresh(Ok(vec![pod_named("a")]), Ok(vec![]));
    assert_eq!(app.pods_state, Some(0));
    app.refresh(Ok(vec![]), Ok(vec![]));
    assert_eq!(app.pods_state, None);
}

#[test]
fn demo_data_toggle_twice_keeps_cursor() {
    let pods = get_pods();
    let deployments = get_deployments();
    assert_eq!(pods.len(), 7);
    assert_eq!(deployments.len(), 5);
    assert_eq!(pods[5].name, "cronjob-cleanup-f9z1l");
    assert_eq!(pods[5].restarts, 12);
    assert_eq!(deployments[4].ready, "0/1");
    let mut app = App::new();
    app.refresh(Ok(pods), Ok(deployments));
    app.scroll_down();
    app.scroll_down();
    assert_eq!(app.pods_state, Some(2));
    app.toggle_panel();
    app.toggle_panel();
    assert_eq!(app.active_panel, Panel::Pods);
    assert_eq!(app.pods_state, Some(2));
}

#[test]
fn quit_key_ends_the_loop() {
    let mut app = App::new();
    assert_eq!(app.step(Some(Key::Char('q')), POLL_INTERVAL_MS), Action::Quit);
    assert_eq!(app.step(None, POLL_INTERVAL_MS), Action::Quit);
    let mut app = App::new();
    assert_eq!(app.step(Some(Key::Esc), 0), Action::Quit);
}

#[test]
fn step_refreshes_on_timer_and_on_request() {
    let mut app = App::new();
    assert_eq!(app.step(None, 0), Action::Wait);
    assert_eq!(app.step(None, POLL_INTERVAL_MS - 1), Action::Wait);
    assert_eq!(app.step(None, POLL_INTERVAL_MS), Action::Refresh);
    assert_eq!(app.step(Some(Key::Char('r')), 10), Action::Refresh);
    assert!(!app.refresh_requested);
    assert_eq!(app.step(Some(Key::Other), 10), Action::Wait);
}

#[test]
fn probe_schedule() {
    assert_eq!(probe_next(true, 0), Probe::Ready);
    assert_eq!(probe_next(false, 0), Probe::Retry(250));
    assert_eq!(probe_next(false, 14900), Probe::Retry(100));
    assert_eq!(probe_next(false, PROBE_DEADLINE_MS), Probe::TimedOut);
    assert_eq!(probe_next(false, u64::MAX), Probe::TimedOut);
}

#[test]
fn probe_against_closed_port_times_out() {
    let mut elapsed: u64 = 0;
    let mut attempts = 0;
    loop {
        match probe_next(false, elapsed) {
            Probe::Retry(w) => elapsed += w,
            Probe::TimedOut => break,
            Probe::Ready => unreachable!(),
        }
        attempts += 1;
    }
    assert_eq!(elapsed, PROBE_DEADLINE_MS);
    assert_eq!(attempts, 60);
}

#[test]
fn tunnel_failure_messages() {
    assert_eq!(tunnel_failure(""), "SSH tunnel failed: SSH tunnel did not become ready within 15s");
    assert_eq!(tunnel_failure("  Permission denied (publickey).\n"), "SSH tunnel failed: Permission denied (publickey).");
    assert_eq!(failure_message("x"), "SSH tunnel failed: x");
}

#[test]
fn ssh_command_line() {
    let ssh = SshConfig { host: "10.0.0.5".to_string(), user: "ops".to_string(), port: 2222, key_path: Some("~/.ssh/id".to_string()) };
    let home = Some("/home/ops".to_string());
    let args = ssh_args(&ssh, 16443, 6443, &home);
    assert_eq!(
        args,
        vec![
            "-N", "-L", "16443:localhost:6443", "-p", "2222", "-o", "StrictHostKeyChecking=accept-new",
            "-o", "ConnectTimeout=10", "-i", "/home/ops/.ssh/id", "ops@10.0.0.5",
        ]
    );
    let plain = SshConfig { host: "h".to_string(), user: "u".to_string(), port: 22, key_path: None };
    let args = ssh_args(&plain, 1, 2, &None);
    assert_eq!(args.len(), 10);
    assert_eq!(args[2], "1:localhost:2");
    assert_eq!(args[9], "u@h");
    assert_eq!(forward_spec(65535, 0), "65535:localhost:0");
}

#[test]
fn home_relative_paths() {
    let home = Some("/root".to_string());
    assert_eq!(expand_home("~/.ssh/key", &home), "/root/.ssh/key");
    assert_eq!(expand_home("~/.ssh/key", &None), "~/.ssh/key");
    assert_eq!(expand_home("/etc/key", &home), "/etc/key");
    assert_eq!(resolve_path("~/kube/config", &home, "/base"), "/root/kube/config");
    assert_eq!(resolve_path("/etc/kube", &home, "/base"), "/etc/kube");
    assert_eq!(resolve_path("kube/config", &home, "/base"), "/base/kube/config");
    assert_eq!(resolve_path("~/kube", &None, "/base"), "/base/~/kube");
}

#[test]
fn config_defaults_and_kubeconfig() {
    assert_eq!(default_ssh_port(), 22);
    assert_eq!(default_api_port(), 6443);
    assert_eq!(default_local_port(), 16443);
    let cfg = Config {
        ssh: SshConfig { host: "h".to_string(), user: "u".to_string(), port: 22, key_path: None },
        kubernetes: KubernetesConfig { kubeconfig: "/etc/kube/config".to_string(), api_port: 6443, local_port: 16443 },
    };
    assert_eq!(cfg.kubeconfig_path("/base"), "/etc/kube/config");
    let rel = Config {
        ssh: SshConfig { host: "h".to_string(), user: "u".to_string(), port: 22, key_path: None },
        kubernetes: KubernetesConfig { kubeconfig: "kubeconfig".to_string(), api_port: 6443, local_port: 16443 },
    };
    assert_eq!(rel.kubeconfig_path("/base"), "/base/kubeconfig");
}

#[test]
fn status_classes() {
    assert_eq!(status_class("Running"), StatusClass::Healthy);
    assert_eq!(status_class("Succeeded"), StatusClass::Healthy);
    assert_eq!(status_class("ContainerCreating"), StatusClass::Waiting);
    assert_eq!(status_class("CrashLoopBackOff"), StatusClass::Failing);
    assert_eq!(status_class("ImagePullBackOff"), StatusClass::Failing);
    assert_eq!(status_class("running"), StatusClass::Neutral);
    assert_eq!(status_class(""), StatusClass::Neutral);
    assert!(same_text("Error", "Error"));
    assert!(!same_text("Error", "Errors"));
}

#[test]
fn tunnel_endpoint_url() {
    assert_eq!(cluster_url(16443), "https://127.0.0.1:16443");
}

#[test]
fn keys_that_do_nothing_or_ask_for_refresh() {
    let mut app = App::new();
    app.refresh(Ok(vec![pod_named("a"), pod_named("b")]), Ok(vec![]));
    app.handle_key(Key::Other);
    app.handle_key(Key::Char('x'));
    assert_eq!(app.pods_state, Some(0));
    assert!(!app.should_quit && !app.refresh_requested);
    app.handle_key(Key::Char('r'));
    app.handle_key(Key::Char('r'));
    assert!(app.refresh_requested);
    assert_eq!(app.step(None, 0), Action::Refresh);
    assert_eq!(app.step(None, 0), Action::Wait);
}

#[test]
fn tunnel_lifecycle() {
    let mut t = TunnelState::Starting;
    t.on_probe(Probe::Retry(250));
    assert!(matches!(t, TunnelState::Starting));
    t.on_probe(Probe::Ready);
    assert!(t.is_ready());
    assert!(t.close());
    assert!(!t.close());
    assert!(matches!(t, TunnelState::Closed));
    let mut f = TunnelState::Starting;
    f.on_probe(Probe::TimedOut);
    f.fail("ssh: Could not resolve hostname nowhere\n");
    match &f {
        TunnelState::Failed(m) => assert_eq!(m, "SSH tunnel failed: ssh: Could not resolve hostname nowhere"),
        _ => panic!("expected a failed tunnel"),
    }
    assert!(!f.is_ready());
    assert!(f.close());
}
