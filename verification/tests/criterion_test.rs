use choco_solver::{Call, Criterion, CriterionKind, Handle};

#[test]
fn test_criterion_all_methods() {
    let criterion = Criterion::new()
        .with_node_limit(1000)
        .with_fail_limit(500)
        .with_restart_limit(100)
        .with_backtrack_limit(200);

    assert_eq!(criterion.node_limit, Some(1000));
    assert_eq!(criterion.fail_limit, Some(500));
    assert_eq!(criterion.restart_limit, Some(100));
    assert_eq!(criterion.backtrack_limit, Some(200));
}

#[test]
fn criterion_default_has_no_limits() {
    let criterion = Criterion::default();
    assert_eq!(criterion.node_limit, None);
    assert_eq!(criterion.fail_limit, None);
    assert_eq!(criterion.restart_limit, None);
    assert_eq!(criterion.backtrack_limit, None);
    assert!(criterion.counter_calls(Handle::new(8)).is_empty());
}

#[test]
fn criterion_builder_keeps_other_limits() {
    let criterion = Criterion::new().with_fail_limit(7).with_node_limit(3).with_fail_limit(9);
    assert_eq!(criterion.node_limit, Some(3));
    assert_eq!(criterion.fail_limit, Some(9));
    assert_eq!(criterion.restart_limit, None);
    assert_eq!(criterion.backtrack_limit, None);
}

#[test]
fn criterion_counters_in_fixed_order() {
    let model = Handle::new(16);
    let criterion = Criterion::new().with_backtrack_limit(0).with_node_limit(1);
    let calls = criterion.counter_calls(model);
    assert_eq!(
        calls,
        vec![
            Call::CriterionCounter { kind: CriterionKind::Node, model, limit: 1 },
            Call::CriterionCounter { kind: CriterionKind::Backtrack, model, limit: 0 },
        ]
    );
}

#[test]
fn criterion_all_counters() {
    let model = Handle::new(16);
    let criterion = Criterion::new()
        .with_node_limit(1000)
        .with_fail_limit(500)
        .with_restart_limit(100)
        .with_backtrack_limit(200);
    let calls = criterion.counter_calls(model);
    assert_eq!(
        calls,
        vec![
            Call::CriterionCounter { kind: CriterionKind::Node, model, limit: 1000 },
            Call::CriterionCounter { kind: CriterionKind::Fail, model, limit: 500 },
            Call::CriterionCounter { kind: CriterionKind::Restart, model, limit: 100 },
            Call::CriterionCounter { kind: CriterionKind::Backtrack, model, limit: 200 },
        ]
    );
}

#[test]
fn restrictive_limits_counter_calls() {
    let model = Handle::new(8);
    let criterion = Criterion::new()
        .with_node_limit(1)
        .with_fail_limit(0)
        .with_restart_limit(0)
        .with_backtrack_limit(0);
    assert_eq!(
        criterion.counter_calls(model),
        vec![
            Call::CriterionCounter { kind: CriterionKind::Node, model, limit: 1 },
            Call::CriterionCounter { kind: CriterionKind::Fail, model, limit: 0 },
            Call::CriterionCounter { kind: CriterionKind::Restart, model, limit: 0 },
            Call::CriterionCounter { kind: CriterionKind::Backtrack, model, limit: 0 },
        ]
    );
}
