use zookeeper_operator::finalizer::{finalizer_step, finalizer_token, FinalizerAction};
use zookeeper_operator::types::ObjectMeta;

fn meta(deletion_timestamp: Option<i64>, finalizers: Option<Vec<String>>) -> ObjectMeta {
    ObjectMeta {
        name: Some("zk1".to_string()),
        namespace: Some("ns".to_string()),
        uid: Some("uid-1".to_string()),
        deletion_timestamp,
        finalizers,
    }
}

#[test]
fn token_is_the_fixed_constant() {
    assert_eq!(finalizer_token(), "zookeeper.stackable.de/check-stuff");
}

#[test]
fn active_without_token_adds_it_exactly_once() {
    let d = finalizer_step(&meta(None, None));
    assert!(!d.handled);
    let written = match d.action {
        FinalizerAction::AddToken { finalizers } => finalizers,
        _ => panic!("expected a token addition"),
    };
    assert_eq!(written, vec![finalizer_token()]);

    // A second pass on the written-back metadata performs no write.
    let d2 = finalizer_step(&meta(None, Some(written)));
    assert!(!d2.handled);
    assert!(matches!(d2.action, FinalizerAction::NoWrite));
}

#[test]
fn addition_keeps_foreign_tokens() {
    let d = finalizer_step(&meta(None, Some(vec!["other.example/token".to_string()])));
    let written = match d.action {
        FinalizerAction::AddToken { finalizers } => finalizers,
        _ => panic!("expected a token addition"),
    };
    assert_eq!(written, vec!["other.example/token".to_string(), finalizer_token()]);
}

#[test]
fn deleting_with_token_removes_it_and_handles_deletion() {
    let d = finalizer_step(&meta(Some(1234), Some(vec![finalizer_token()])));
    assert!(d.handled);
    let written = match d.action {
        FinalizerAction::RemoveToken { finalizers } => finalizers,
        _ => panic!("expected a token removal"),
    };
    assert!(written.is_empty());
}

#[test]
fn deleting_removal_keeps_foreign_tokens() {
    let d = finalizer_step(&meta(
        Some(1234),
        Some(vec![finalizer_token(), "other.example/token".to_string()]),
    ));
    assert!(d.handled);
    let written = match d.action {
        FinalizerAction::RemoveToken { finalizers } => finalizers,
        _ => panic!("expected a token removal"),
    };
    assert_eq!(written, vec!["other.example/token".to_string()]);
}

#[test]
fn deleting_without_token_is_handled_with_no_write() {
    let d = finalizer_step(&meta(Some(1234), None));
    assert!(d.handled);
    assert!(matches!(d.action, FinalizerAction::NoWrite));

    let d2 = finalizer_step(&meta(Some(1234), Some(vec!["other.example/token".to_string()])));
    assert!(d2.handled);
    assert!(matches!(d2.action, FinalizerAction::NoWrite));
}
