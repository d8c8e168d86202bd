use std::collections::HashMap;

use zookeeper_operator::finalizer::finalizer_token;
use zookeeper_operator::reconcile::{Action, ReconcileMachine};
use zookeeper_operator::store::{Metrics, State};
use zookeeper_operator::types::{
    ObjectMeta, Pod, ZooKeeperCluster, ZooKeeperClusterSpec, ZooKeeperVersion,
};
use zookeeper_operator::{
    error_policy, Error, REQUEUE_ERROR_SECS, REQUEUE_SUCCESS_SECS,
};

fn snapshot(
    replicas: i32,
    deletion_timestamp: Option<i64>,
    finalizers: Option<Vec<String>>,
) -> ZooKeeperCluster {
    ZooKeeperCluster {
        metadata: ObjectMeta {
            name: Some("zk1".to_string()),
            namespace: Some("ns".to_string()),
            uid: Some("uid-1".to_string()),
            deletion_timestamp,
            finalizers,
        },
        spec: ZooKeeperClusterSpec { version: ZooKeeperVersion::v3_6_2, replicas },
        status: None,
    }
}

#[derive(Debug, Clone, PartialEq)]
enum Performed {
    PatchFinalizers(Vec<String>),
    PatchStatus(bool),
    ApplyPod(Pod),
}

struct Outcome {
    performed: Vec<Performed>,
    directive: Option<u64>,
    record: bool,
    failed: bool,
}

enum Step {
    Do(Performed),
    Apply(Pod),
    Finish(Option<u64>, bool),
}

/// Drives one reconcile pass the way the controller loop does: perform the
/// action, advance on success, stop on the first failure. `fail_at_apply`
/// simulates the backend rejecting the apply with that index.
fn drive(zk: ZooKeeperCluster, fail_at_apply: Option<usize>) -> Outcome {
    let mut machine = ReconcileMachine::new(zk).expect("snapshot is plannable");
    let mut performed: Vec<Performed> = Vec::new();
    let mut applies: usize = 0;
    loop {
        let step = match machine.next_action() {
            Action::PatchFinalizers { finalizers } => {
                Step::Do(Performed::PatchFinalizers(finalizers.clone()))
            }
            Action::PatchStatus { status } => Step::Do(Performed::PatchStatus(status.is_bad)),
            Action::ApplyPod { pod } => Step::Apply(pod.clone()),
            Action::Finish { directive, record } => {
                Step::Finish(directive.requeue_after, record)
            }
        };
        match step {
            Step::Finish(directive, record) => {
                return Outcome { performed, directive, record, failed: false };
            }
            Step::Apply(pod) => {
                if fail_at_apply == Some(applies) {
                    return Outcome { performed, directive: None, record: false, failed: true };
                }
                performed.push(Performed::ApplyPod(pod));
                applies += 1;
                machine.advance();
            }
            Step::Do(p) => {
                performed.push(p);
                machine.advance();
            }
        }
    }
}

fn applied_names(outcome: &Outcome) -> Vec<String> {
    outcome
        .performed
        .iter()
        .filter_map(|p| match p {
            Performed::ApplyPod(pod) => Some(pod.name.clone()),
            _ => None,
        })
        .collect()
}

#[test]
fn fresh_active_resource_full_pass() {
    let outcome = drive(snapshot(3, None, None), None);
    assert!(!outcome.failed);

    // One finalizer addition, one status patch, three applies, in order.
    assert_eq!(outcome.performed.len(), 5);
    assert_eq!(
        outcome.performed[0],
        Performed::PatchFinalizers(vec![finalizer_token()])
    );
    assert_eq!(outcome.performed[1], Performed::PatchStatus(false));
    assert_eq!(applied_names(&outcome), vec!["zk1-0", "zk1-1", "zk1-2"]);
    for p in &outcome.performed[2..] {
        if let Performed::ApplyPod(pod) = p {
            assert_eq!(pod.owner_references[0].name, "zk1");
            assert_eq!(pod.owner_references[0].controller, Some(true));
        }
    }

    // Success directive and one counted event.
    assert_eq!(outcome.directive, Some(REQUEUE_SUCCESS_SECS));
    assert!(outcome.record);
    let mut metrics = Metrics::new();
    if outcome.record {
        metrics.inc_handled_events();
    }
    assert_eq!(metrics.handled_events, 1);
}

#[test]
fn deleting_resource_removes_finalizer_and_stops() {
    let outcome = drive(snapshot(3, Some(1234), Some(vec![finalizer_token()])), None);
    assert!(!outcome.failed);
    assert_eq!(outcome.performed, vec![Performed::PatchFinalizers(Vec::new())]);
    assert_eq!(outcome.directive, None);
    assert!(!outcome.record);
}

#[test]
fn deleting_resource_without_token_issues_no_write() {
    let outcome = drive(snapshot(3, Some(1234), None), None);
    assert!(!outcome.failed);
    assert!(outcome.performed.is_empty());
    assert_eq!(outcome.directive, None);
    assert!(!outcome.record);
}

#[test]
fn failed_apply_stops_the_pass_and_a_retry_completes_it() {
    // The backend rejects the second of three applies.
    let first = drive(
        snapshot(3, None, Some(vec![finalizer_token()])),
        Some(1),
    );
    assert!(first.failed);
    assert_eq!(applied_names(&first), vec!["zk1-0"]);
    assert_eq!(error_policy(&Error::PodPatchFailed).requeue_after, Some(REQUEUE_ERROR_SECS));

    let mut backend: HashMap<String, Pod> = HashMap::new();
    for p in &first.performed {
        if let Performed::ApplyPod(pod) = p {
            backend.insert(pod.name.clone(), pod.clone());
        }
    }
    assert_eq!(backend.len(), 1);

    // The retry pass re-applies child 0 idempotently and completes the rest.
    let second = drive(snapshot(3, None, Some(vec![finalizer_token()])), None);
    assert!(!second.failed);
    assert_eq!(applied_names(&second), vec!["zk1-0", "zk1-1", "zk1-2"]);
    let before_retry_child0 = backend.get("zk1-0").cloned();
    for p in &second.performed {
        if let Performed::ApplyPod(pod) = p {
            backend.insert(pod.name.clone(), pod.clone());
        }
    }
    assert_eq!(backend.len(), 3);
    assert_eq!(backend.get("zk1-0").cloned(), before_retry_child0);
    assert_eq!(second.directive, Some(REQUEUE_SUCCESS_SECS));
}

#[test]
fn every_error_maps_to_the_fixed_backoff() {
    let errors = vec![
        Error::ZooKeeperClusterIsBad { info: "bad".to_string() },
        Error::ZooKeeperClusterPatchFailed,
        Error::SerializationFailed,
        Error::PodPatchFailed,
        Error::MissingObjectKey { name: ".metadata.name".to_string() },
    ];
    for e in &errors {
        assert_eq!(error_policy(e).requeue_after, Some(REQUEUE_ERROR_SECS));
        assert_eq!(error_policy(e).requeue_after, Some(360));
    }
    assert_eq!(REQUEUE_SUCCESS_SECS, 1800);
}

#[test]
fn planning_fails_without_a_uid_when_children_are_needed() {
    let mut zk = snapshot(2, None, None);
    zk.metadata.uid = None;
    assert!(matches!(
        ReconcileMachine::new(zk),
        Err(Error::MissingObjectKey { name }) if name == ".metadata.backtrace"
    ));
}

#[test]
fn observable_state_records_events() {
    let mut state = State::new();
    let t = state.record_event();
    assert_eq!(state.last_event, t);

    let mut metrics = Metrics::new();
    assert_eq!(metrics.handled_events, 0);
    metrics.inc_handled_events();
    metrics.inc_handled_events();
    assert_eq!(metrics.handled_events, 2);
}
