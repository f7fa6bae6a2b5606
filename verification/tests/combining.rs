use policy_engine::model::{CONFIDENCE_FULL, CONFIDENCE_NONE};
use policy_engine::{PolicyEngine, PolicyResult};

fn key(x: f64) -> i64 {
    let bits = x.to_bits() as i64;
    if bits < 0 {
        bits ^ i64::MAX
    } else {
        bits
    }
}

fn res(decision: &str, reason: &str, confidence: f64) -> PolicyResult {
    PolicyResult::new(decision.to_string(), reason.to_string(), key(confidence))
}

fn same(a: &PolicyResult, b: &PolicyResult) -> bool {
    a.decision == b.decision
        && a.reason == b.reason
        && a.confidence == b.confidence
        && a.obligations == b.obligations
        && a.advice == b.advice
}

#[test]
fn keys_order_as_numbers() {
    assert_eq!(key(0.0), CONFIDENCE_NONE);
    assert_eq!(key(1.0), CONFIDENCE_FULL);
    assert_eq!(key(5.0), policy_engine::model::RISK_LOW_BELOW);
    assert_eq!(key(7.0), policy_engine::model::RISK_HIGH_ABOVE);
    assert_eq!(key(3.5), policy_engine::samples::SAMPLE_RISK_SCORE);
    assert!(key(0.4) < key(0.9));
    assert!(key(-1.0) < key(-0.5));
    assert!(key(-0.5) < key(0.0));
    assert!(key(4.999999) < key(5.0));
    assert!(key(7.0) < key(7.000001));
}

#[test]
fn new_result_has_empty_lists() {
    let r = PolicyResult::new("PERMIT".to_string(), "because".to_string(), key(0.25));
    assert_eq!(r.decision, "PERMIT");
    assert_eq!(r.reason, "because");
    assert_eq!(r.confidence, key(0.25));
    assert_eq!(r.obligations, "[]");
    assert_eq!(r.advice, "[]");
}

#[test]
fn setters_replace_one_list_each() {
    let mut r = res("DENY", "why", 1.0);
    r.set_obligations("[\"a\"]".to_string());
    assert_eq!(r.obligations, "[\"a\"]");
    assert_eq!(r.advice, "[]");
    r.set_advice("[\"b\"]".to_string());
    assert_eq!(r.obligations, "[\"a\"]");
    assert_eq!(r.advice, "[\"b\"]");
    assert_eq!(r.decision, "DENY");
    assert_eq!(r.reason, "why");
    assert_eq!(r.confidence, CONFIDENCE_FULL);
}

#[test]
fn clone_keeps_every_field() {
    let mut r = res("PERMIT", "p", 0.5);
    r.set_obligations("[\"x\"]".to_string());
    r.set_advice("[\"y\"]".to_string());
    let c = r.clone();
    assert!(same(&r, &c));
}

#[test]
fn permit_overrides_picks_most_confident_permit() {
    let e = PolicyEngine::new();
    let rs = vec![res("PERMIT", "low", 0.4), res("PERMIT", "high", 0.9), res("DENY", "no", 1.0)];
    let r = e.permit_overrides(rs);
    assert_eq!(r.decision, "PERMIT");
    assert_eq!(r.reason, "high");
    assert_eq!(r.confidence, key(0.9));
}

#[test]
fn deny_overrides_picks_the_deny() {
    let e = PolicyEngine::new();
    let rs = vec![res("PERMIT", "low", 0.4), res("PERMIT", "high", 0.9), res("DENY", "no", 1.0)];
    let r = e.deny_overrides(rs);
    assert_eq!(r.decision, "DENY");
    assert_eq!(r.reason, "no");
    assert_eq!(r.confidence, key(1.0));
}

#[test]
fn overrides_fall_back_through_the_buckets() {
    let e = PolicyEngine::new();
    let r = e.permit_overrides(vec![res("DENY", "d", 0.3), res("INDETERMINATE", "i", 0.8)]);
    assert_eq!(r.reason, "d");
    let r = e.deny_overrides(vec![res("INDETERMINATE", "i", 0.8), res("PERMIT", "p", 0.1)]);
    assert_eq!(r.reason, "p");
    let r = e.permit_overrides(vec![
        res("NOTAPPLICABLE", "n", 0.9),
        res("INDETERMINATE", "i1", 0.2),
        res("INDETERMINATE", "i2", 0.7),
    ]);
    assert_eq!(r.reason, "i2");
    let r = e.deny_overrides(vec![res("INDETERMINATE", "i1", 0.6), res("INDETERMINATE", "i2", 0.1)]);
    assert_eq!(r.reason, "i1");
}

#[test]
fn overrides_default_when_nothing_applies() {
    let e = PolicyEngine::new();
    for r in [
        e.permit_overrides(vec![]),
        e.deny_overrides(vec![]),
        e.permit_overrides(vec![res("NOTAPPLICABLE", "n", 1.0)]),
        e.deny_overrides(vec![res("NOTAPPLICABLE", "n", 1.0), res("OTHER", "o", 1.0)]),
        e.first_applicable(vec![]),
        e.first_applicable(vec![res("NOTAPPLICABLE", "n", 1.0)]),
    ] {
        assert_eq!(r.decision, "INDETERMINATE");
        assert_eq!(r.reason, "No applicable rules");
        assert_eq!(r.confidence, key(0.0));
        assert_eq!(r.obligations, "[]");
        assert_eq!(r.advice, "[]");
    }
}

#[test]
fn equally_confident_results_give_the_last() {
    let e = PolicyEngine::new();
    let rs = vec![
        res("PERMIT", "first", 0.7),
        res("PERMIT", "second", 0.7),
        res("PERMIT", "weak", 0.1),
    ];
    assert_eq!(e.permit_overrides(rs).reason, "second");
    let rs = vec![res("DENY", "a", 1.0), res("PERMIT", "p", 1.0), res("DENY", "b", 1.0)];
    assert_eq!(e.deny_overrides(rs).reason, "b");
}

#[test]
fn decisions_are_case_sensitive() {
    let e = PolicyEngine::new();
    let r = e.permit_overrides(vec![res("permit", "lower", 1.0), res("DENY", "d", 0.1)]);
    assert_eq!(r.reason, "d");
}

#[test]
fn first_applicable_skips_not_applicable() {
    let e = PolicyEngine::new();
    let rs = vec![
        res("NOTAPPLICABLE", "n1", 0.0),
        res("NOTAPPLICABLE", "n2", 0.0),
        res("PERMIT", "p", 0.3),
        res("DENY", "d", 1.0),
    ];
    let r = e.first_applicable(rs);
    assert_eq!(r.decision, "PERMIT");
    assert_eq!(r.reason, "p");
    assert_eq!(r.confidence, key(0.3));
}

#[test]
fn first_applicable_returns_indeterminate_and_unknown_decisions_unchanged() {
    let e = PolicyEngine::new();
    let r = e.first_applicable(vec![res("NOTAPPLICABLE", "n", 0.0), res("INDETERMINATE", "i", 0.2)]);
    assert_eq!(r.decision, "INDETERMINATE");
    assert_eq!(r.reason, "i");
    let mut odd = res("MAYBE", "m", 0.5);
    odd.set_obligations("[\"o\"]".to_string());
    let r = e.first_applicable(vec![odd, res("DENY", "d", 1.0)]);
    assert_eq!(r.decision, "MAYBE");
    assert_eq!(r.obligations, "[\"o\"]");
}

#[test]
fn permit_unless_deny_returns_first_deny() {
    let e = PolicyEngine::new();
    let rs = vec![res("PERMIT", "p1", 1.0), res("DENY", "d", 0.2), res("PERMIT", "p2", 1.0)];
    let r = e.permit_unless_deny(rs);
    assert_eq!(r.decision, "DENY");
    assert_eq!(r.reason, "d");
    assert_eq!(r.confidence, key(0.2));
    let rs = vec![res("DENY", "weak", 0.1), res("DENY", "strong", 1.0)];
    assert_eq!(e.permit_unless_deny(rs).reason, "weak");
}

#[test]
fn permit_unless_deny_without_deny_is_fresh_permit() {
    let e = PolicyEngine::new();
    let r = e.permit_unless_deny(vec![res("PERMIT", "p1", 0.3), res("PERMIT", "p2", 0.4)]);
    assert_eq!(r.decision, "PERMIT");
    assert_eq!(r.reason, "Permit unless deny");
    assert_eq!(r.confidence, key(1.0));
    assert_eq!(r.obligations, "[]");
    assert_eq!(r.advice, "[]");
    let r = e.permit_unless_deny(vec![]);
    assert_eq!(r.reason, "Permit unless deny");
}

#[test]
fn deny_unless_permit_returns_first_permit() {
    let e = PolicyEngine::new();
    let rs = vec![res("DENY", "d1", 1.0), res("PERMIT", "p", 0.2), res("DENY", "d2", 1.0)];
    let r = e.deny_unless_permit(rs);
    assert_eq!(r.decision, "PERMIT");
    assert_eq!(r.reason, "p");
    assert_eq!(r.confidence, key(0.2));
}

#[test]
fn deny_unless_permit_without_permit_is_fresh_deny() {
    let e = PolicyEngine::new();
    let r = e.deny_unless_permit(vec![res("DENY", "d1", 0.3), res("DENY", "d2", 0.4)]);
    assert_eq!(r.decision, "DENY");
    assert_eq!(r.reason, "Deny unless permit");
    assert_eq!(r.confidence, key(1.0));
    assert_eq!(r.obligations, "[]");
    assert_eq!(r.advice, "[]");
}

fn mixed() -> Vec<PolicyResult> {
    vec![
        res("NOTAPPLICABLE", "n", 0.0),
        res("PERMIT", "p1", 0.6),
        res("DENY", "d1", 0.5),
        res("INDETERMINATE", "i", 0.9),
        res("DENY", "d2", 0.8),
        res("PERMIT", "p2", 0.7),
    ]
}

#[test]
fn named_algorithms_route_to_their_functions() {
    let e = PolicyEngine::new();
    assert!(same(&e.combine_rule_results("permit-overrides", mixed()), &e.permit_overrides(mixed())));
    assert!(same(&e.combine_rule_results("deny-overrides", mixed()), &e.deny_overrides(mixed())));
    assert!(same(&e.combine_rule_results("first-applicable", mixed()), &e.first_applicable(mixed())));
    assert!(same(
        &e.combine_rule_results("permit-unless-deny", mixed()),
        &e.permit_unless_deny(mixed())
    ));
    assert!(same(
        &e.combine_rule_results("deny-unless-permit", mixed()),
        &e.deny_unless_permit(mixed())
    ));
    assert_eq!(e.combine_rule_results("permit-overrides", mixed()).reason, "p2");
    assert_eq!(e.combine_rule_results("deny-overrides", mixed()).reason, "d2");
    assert_eq!(e.combine_rule_results("first-applicable", mixed()).reason, "p1");
    assert_eq!(e.combine_rule_results("permit-unless-deny", mixed()).reason, "d1");
    assert_eq!(e.combine_rule_results("deny-unless-permit", mixed()).reason, "p1");
}

#[test]
fn unknown_algorithm_is_deny_overrides() {
    let e = PolicyEngine::new();
    for name in ["", "Deny-Overrides", "deny-overrides ", "ordered-permit", "permit_overrides"] {
        let got = e.combine_rule_results(name, mixed());
        let want = e.deny_overrides(mixed());
        assert!(same(&got, &want));
        assert_eq!(got.reason, "d2");
    }
    let got = e.combine_rule_results("nonsense", vec![]);
    assert!(same(&got, &e.deny_overrides(vec![])));
}

#[test]
fn policy_results_merge_by_deny_overrides() {
    let e = PolicyEngine::new();
    assert!(same(&e.combine_policy_results(mixed()), &e.deny_overrides(mixed())));
    assert_eq!(e.combine_policy_results(mixed()).decision, "DENY");
}

#[test]
fn known_algorithms_are_the_five_names() {
    let e = PolicyEngine::new();
    for name in [
        "permit-overrides",
        "deny-overrides",
        "first-applicable",
        "permit-unless-deny",
        "deny-unless-permit",
    ] {
        assert!(e.is_known_algorithm(name));
    }
    for name in ["", "Deny-Overrides", "deny-overrides ", "permit_overrides", "only-one-applicable"] {
        assert!(!e.is_known_algorithm(name));
    }
}
