use hahaha::actions::{generate, Action, Method};
use hahaha::dispatch::{
    classify, classify_exec, classify_http, plan, DispatchOutcome, HttpReply, TransportRequest,
    TransportResult,
};
use hahaha::metrics::{CounterVec, Labels, Metrics};
use hahaha::pod::{ContainerState, ContainerStatus, OwnerReference, PodSnapshot};
use hahaha::report::{audit_event, record, EventKind};

fn container(name: &str, state: ContainerState) -> ContainerStatus {
    ContainerStatus { name: name.to_string(), state }
}

fn labels(c: &str, j: &str, n: &str) -> Labels {
    Labels { container: c.to_string(), job_name: j.to_string(), namespace: n.to_string() }
}

fn failure(o: &DispatchOutcome) -> String {
    match o {
        DispatchOutcome::TransportFailure(d) => d.clone(),
        other => panic!("not a failure: {:?}", other),
    }
}

#[test]
fn registry_knows_the_four_sidecars() {
    let r = generate();
    match r.get(&"istio-proxy".to_string()) {
        Some(Action::Portforward(m, p, port)) => {
            assert_eq!(*m, Method::Post);
            assert_eq!(p, "/quitquitquit");
            assert_eq!(*port, 15000);
        }
        other => panic!("{:?}", other),
    }
    match r.get(&"cloudsql-proxy".to_string()) {
        Some(Action::Portforward(m, p, port)) => {
            assert_eq!(*m, Method::Post);
            assert_eq!(p, "/quitquitquit");
            assert_eq!(*port, 9091);
        }
        other => panic!("{:?}", other),
    }
    match r.get(&"linkerd-proxy".to_string()) {
        Some(Action::Portforward(m, p, port)) => {
            assert_eq!(*m, Method::Post);
            assert_eq!(p, "/shutdown");
            assert_eq!(*port, 4191);
        }
        other => panic!("{:?}", other),
    }
    match r.get(&"vks-sidecar".to_string()) {
        Some(Action::Exec(cmd)) => assert_eq!(cmd, &vec!["/bin/kill", "-s", "INT", "1"]),
        other => panic!("{:?}", other),
    }
    assert!(r.get(&"unknown-sidecar".to_string()).is_none());
    assert!(r.get(&"".to_string()).is_none());
}

#[test]
fn method_names() {
    assert_eq!(Method::Post.as_str(), "POST");
    assert_eq!(Method::Get.as_str(), "GET");
    assert_eq!(Method::Put.as_str(), "PUT");
    assert_eq!(Method::Delete.as_str(), "DELETE");
}

#[test]
fn sidecars_keep_running_ones_in_order() {
    let pod = PodSnapshot {
        name: "p".to_string(),
        namespace: None,
        owners: vec![],
        containers: vec![
            container("main", ContainerState::Terminated),
            container("b", ContainerState::Running),
            container("w", ContainerState::Waiting),
            container("a", ContainerState::Running),
        ],
    };
    assert_eq!(pod.sidecars(), vec!["b".to_string(), "a".to_string()]);
    let empty = PodSnapshot { name: "p".to_string(), namespace: None, owners: vec![], containers: vec![] };
    assert!(empty.sidecars().is_empty());
}

#[test]
fn namespace_defaults() {
    let mut pod = PodSnapshot { name: "p".to_string(), namespace: None, owners: vec![], containers: vec![] };
    assert_eq!(pod.namespace(), "default");
    pod.namespace = Some("team".to_string());
    assert_eq!(pod.namespace(), "team");
}

#[test]
fn job_name_is_first_job_owner() {
    let mut pod = PodSnapshot {
        name: "p".to_string(),
        namespace: None,
        owners: vec![
            OwnerReference { kind: "ReplicaSet".to_string(), name: "rs".to_string() },
            OwnerReference { kind: "Job".to_string(), name: "job-7".to_string() },
            OwnerReference { kind: "Job".to_string(), name: "job-8".to_string() },
        ],
        containers: vec![],
    };
    assert_eq!(pod.job_name(), Some("job-7".to_string()));
    pod.owners.remove(1);
    assert_eq!(pod.job_name(), Some("job-8".to_string()));
    pod.owners.remove(1);
    assert_eq!(pod.job_name(), None);
}

#[test]
fn plan_exec_request() {
    let a = Action::Exec(vec!["/bin/kill".to_string(), "-s".to_string(), "INT".to_string(), "1".to_string()]);
    match plan(&a, &"pod".to_string(), &"vks-sidecar".to_string()) {
        TransportRequest::Exec { pod, container, command, stdout, tty } => {
            assert_eq!(pod, "pod");
            assert_eq!(container, "vks-sidecar");
            assert_eq!(command, vec!["/bin/kill", "-s", "INT", "1"]);
            assert!(!stdout);
            assert!(!tty);
        }
        other => panic!("{:?}", other),
    }
}

#[test]
fn plan_http_request() {
    let a = Action::Portforward(Method::Post, "/quitquitquit".to_string(), 15000);
    match plan(&a, &"pod".to_string(), &"istio-proxy".to_string()) {
        TransportRequest::Portforward { pod, container, port, request } => {
            assert_eq!(pod, "pod");
            assert_eq!(container, "istio-proxy");
            assert_eq!(port, 15000);
            assert_eq!(request.method, Method::Post);
            assert_eq!(request.path, "/quitquitquit");
            assert_eq!(
                request.headers,
                vec![
                    ("Connection".to_string(), "close".to_string()),
                    ("Host".to_string(), "127.0.0.1".to_string())
                ]
            );
            assert_eq!(request.body, "");
        }
        other => panic!("{:?}", other),
    }
}

#[test]
fn exec_outcomes() {
    assert!(matches!(classify_exec(Ok(())), DispatchOutcome::Success));
    let o = classify_exec(Err("connection refused".to_string()));
    assert_eq!(failure(&o), "connection refused");
}

#[test]
fn http_outcomes() {
    let ok = classify_http(Ok(HttpReply { status: 200, body: "bye".to_string() }));
    assert!(matches!(ok, DispatchOutcome::Success));
    let o = classify_http(Ok(HttpReply { status: 503, body: "busy".to_string() }));
    assert_eq!(failure(&o), "HTTP request failed: code 503: busy");
    let o = classify_http(Ok(HttpReply { status: 0, body: String::new() }));
    assert_eq!(failure(&o), "HTTP request failed: code 0: ");
    let o = classify_http(Ok(HttpReply { status: 65535, body: "x".to_string() }));
    assert_eq!(failure(&o), "HTTP request failed: code 65535: x");
    let o = classify_http(Ok(HttpReply { status: 201, body: String::new() }));
    assert_eq!(failure(&o), "HTTP request failed: code 201: ");
    let o = classify_http(Err("tunnel closed".to_string()));
    assert_eq!(failure(&o), "tunnel closed");
}

#[test]
fn classify_by_transport() {
    assert!(matches!(classify(TransportResult::Exec(Ok(()))), DispatchOutcome::Success));
    let o = classify(TransportResult::Http(Ok(HttpReply { status: 404, body: "no".to_string() })));
    assert_eq!(failure(&o), "HTTP request failed: code 404: no");
}

#[test]
fn audit_event_texts() {
    let c = "istio-proxy".to_string();
    let e = audit_event(&DispatchOutcome::Success, &c).unwrap();
    assert_eq!(e.kind, EventKind::Info);
    assert_eq!(e.message, "Shut down container istio-proxy");
    let e = audit_event(&DispatchOutcome::TransportFailure("boom".to_string()), &c).unwrap();
    assert_eq!(e.kind, EventKind::Warning);
    assert_eq!(e.message, "Unsuccessfully shut down container istio-proxy: boom");
    assert!(audit_event(&DispatchOutcome::UnrecognizedSidecar, &c).is_none());
}

#[test]
fn counters_are_kept_per_labels() {
    let mut c = CounterVec::new();
    let a = labels("a", "j", "ns");
    let b = labels("a", "j", "other");
    assert_eq!(c.value(&a), 0);
    c.inc(&a);
    c.inc(&a);
    c.inc(&b);
    assert_eq!(c.value(&a), 2);
    assert_eq!(c.value(&b), 1);
    assert_eq!(c.value(&labels("b", "j", "ns")), 0);
    assert_eq!(c.samples().len(), 2);
}

#[test]
fn record_counts_each_outcome() {
    let mut m = Metrics::new();
    let l = labels("c", "j", "ns");
    record(&mut m, &DispatchOutcome::Success, &l, true);
    assert_eq!(m.sidecar_shutdowns.value(&l), 1);
    assert_eq!(m.total_unsuccessful_event_posts, 0);
    record(&mut m, &DispatchOutcome::Success, &l, false);
    assert_eq!(m.sidecar_shutdowns.value(&l), 2);
    assert_eq!(m.total_unsuccessful_event_posts, 1);
    record(&mut m, &DispatchOutcome::TransportFailure("x".to_string()), &l, false);
    assert_eq!(m.failed_sidecar_shutdowns.value(&l), 1);
    assert_eq!(m.total_unsuccessful_event_posts, 2);
    record(&mut m, &DispatchOutcome::UnrecognizedSidecar, &l, false);
    assert_eq!(m.unsupported_sidecars.value(&l), 1);
    assert_eq!(m.total_unsuccessful_event_posts, 2);
    assert_eq!(m.sidecar_shutdowns.value(&l), 2);
    assert_eq!(m.failed_sidecar_shutdowns.value(&l), 1);
}
