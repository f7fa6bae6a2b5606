//! A literal example policy and a literal example request, for trying an
//! integration out.

use vstd::prelude::*;
use crate::model::{Policy, PolicyContext, PolicyRule};
use crate::text::texts;

verus! {

/// The key of 3.5, the risk score of the example request.
pub const SAMPLE_RISK_SCORE: i64 = 0x400C_0000_0000_0000;

/// A list that holds one string.
fn one_text(item: &str) -> (list: Vec<String>)
    ensures
        texts(list@) == seq![item@],
{
    let mut list: Vec<String> = Vec::new();
    list.push(item.to_owned());
    proof {
        assert(texts(list@) =~= seq![item@]);
    }
    list
}

/// The example policy: it applies to every request and merges two rules by
/// deny-overrides. The first permits where the condition on classified data
/// and verified MFA holds; the second denies a risk score above 7.0.
pub fn create_sample_policy() -> (policy: Policy)
    ensures
        policy.id@ == "sample-policy-001"@,
        policy.name@ == "Sample Access Policy"@,
        policy.version@ == "1.0.0"@,
        policy.description@ == "A sample policy for demonstration"@,
        policy.target@ == "true"@,
        policy.combining_algorithm@ == "deny-overrides"@,
        policy.obligations@.len() == 0,
        policy.advice@.len() == 0,
        policy.rules@.len() == 2,
        policy.rules[0].id@ == "rule-001"@,
        policy.rules[0].name@ == "Require MFA for classified data"@,
        policy.rules[0].description@
            == "Multi-factor authentication is required for accessing classified data"@,
        policy.rules[0].priority == 100,
        policy.rules[0].condition@ == "classification == 'classified' && mfa.verified == true"@,
        policy.rules[0].effect@ == "PERMIT"@,
        texts(policy.rules[0].obligations@) == seq!["log_access"@],
        texts(policy.rules[0].advice@) == seq!["remind_classification"@],
        policy.rules[1].id@ == "rule-002"@,
        policy.rules[1].name@ == "Deny high-risk access"@,
        policy.rules[1].description@ == "Deny access when risk score is too high"@,
        policy.rules[1].priority == 200,
        policy.rules[1].condition@ == "risk_score > 7.0"@,
        policy.rules[1].effect@ == "DENY"@,
        texts(policy.rules[1].obligations@) == seq!["alert_security"@],
        policy.rules[1].advice@.len() == 0,
{
    let mut rules: Vec<PolicyRule> = Vec::new();
    rules.push(
        PolicyRule {
            id: "rule-001".to_owned(),
            name: "Require MFA for classified data".to_owned(),
            description: "Multi-factor authentication is required for accessing classified data".to_owned(),
            priority: 100,
            condition: "classification == 'classified' && mfa.verified == true".to_owned(),
            effect: "PERMIT".to_owned(),
            obligations: one_text("log_access"),
            advice: one_text("remind_classification"),
        },
    );
    rules.push(
        PolicyRule {
            id: "rule-002".to_owned(),
            name: "Deny high-risk access".to_owned(),
            description: "Deny access when risk score is too high".to_owned(),
            priority: 200,
            condition: "risk_score > 7.0".to_owned(),
            effect: "DENY".to_owned(),
            obligations: one_text("alert_security"),
            advice: Vec::new(),
        },
    );
    Policy {
        id: "sample-policy-001".to_owned(),
        name: "Sample Access Policy".to_owned(),
        version: "1.0.0".to_owned(),
        description: "A sample policy for demonstration".to_owned(),
        target: "true".to_owned(),
        rules,
        combining_algorithm: "deny-overrides".to_owned(),
        obligations: Vec::new(),
        advice: Vec::new(),
    }
}

/// The example request, made at `timestamp_millis`: an analyst on a trusted,
/// attested laptop inside the network, MFA verified, in business hours, at a
/// risk score of 3.5, reading an internal data capsule.
pub fn create_sample_context(timestamp_millis: i64) -> (context: PolicyContext)
    ensures
        context.request_id@ == "req-12345"@,
        context.timestamp_millis == timestamp_millis,
        context.operation@ == "read"@,
        context.user_id@ == "user-123"@,
        texts(context.user_roles@) == seq!["analyst"@],
        texts(context.user_groups@) == seq!["research"@],
        context.user_attributes@.len() == 0,
        context.device_id@ == "device-456"@,
        context.device_type@ == "laptop"@,
        context.device_trust@ == "trusted"@,
        context.device_attested,
        context.ip_address@ == "192.168.1.100"@,
        context.ip_country@ == "US"@,
        context.ip_city@ == "Seattle"@,
        context.network_zone@ == "internal"@,
        !context.vpn_detected,
        context.session_id@ == "session-789"@,
        context.session_age_seconds == 7200,
        context.auth_method@ == "certificate"@,
        context.mfa_verified,
        context.time_of_day@ == "afternoon"@,
        context.day_of_week@ == "Tuesday"@,
        context.business_hours,
        context.risk_score == SAMPLE_RISK_SCORE,
        context.threat_level@ == "low"@,
        context.resource_type@ == "data_capsule"@,
        context.resource_id@ == "capsule-001"@,
        context.resource_classification@ == "internal"@,
        context.resource_owner@ == "user-456"@,
        context.resource_attributes@.len() == 0,
        context.intent_purpose is Some && context.intent_purpose->Some_0@ == "research analysis"@,
        context.intent_justification is Some && context.intent_justification->Some_0@
            == "Required for project XYZ"@,
        context.intent_duration_seconds == Some(14400i64),
        context.constraints@.len() == 0,
        context.metadata@.len() == 0,
        context.well_formed(),
{
    PolicyContext {
        request_id: "req-12345".to_owned(),
        timestamp_millis,
        operation: "read".to_owned(),
        user_id: "user-123".to_owned(),
        user_roles: one_text("analyst"),
        user_groups: one_text("research"),
        user_attributes: Vec::new(),
        device_id: "device-456".to_owned(),
        device_type: "laptop".to_owned(),
        device_trust: "trusted".to_owned(),
        device_attested: true,
        ip_address: "192.168.1.100".to_owned(),
        ip_country: "US".to_owned(),
        ip_city: "Seattle".to_owned(),
        network_zone: "internal".to_owned(),
        vpn_detected: false,
        session_id: "session-789".to_owned(),
        session_age_seconds: 7200,
        auth_method: "certificate".to_owned(),
        mfa_verified: true,
        time_of_day: "afternoon".to_owned(),
        day_of_week: "Tuesday".to_owned(),
        business_hours: true,
        risk_score: SAMPLE_RISK_SCORE,
        threat_level: "low".to_owned(),
        resource_type: "data_capsule".to_owned(),
        resource_id: "capsule-001".to_owned(),
        resource_classification: "internal".to_owned(),
        resource_owner: "user-456".to_owned(),
        resource_attributes: Vec::new(),
        intent_purpose: Some("research analysis".to_owned()),
        intent_justification: Some("Required for project XYZ".to_owned()),
        intent_duration_seconds: Some(14400),
        constraints: Vec::new(),
        metadata: Vec::new(),
    }
}

} // verus!
