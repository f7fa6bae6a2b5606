//! The data that an evaluation reads and produces.
//!
//! Real-valued quantities (a confidence, a risk score) are held as ordered
//! keys: the bit pattern of the IEEE-754 double read as a signed integer, with
//! the low 63 bits inverted when the sign bit is set. Keys compare as the
//! numbers they stand for do, so the library works on integers alone. Negative
//! zero has a key of its own, just below that of zero. A NaN stands for no
//! number and has no place in the order: callers keep it out.

use vstd::prelude::*;
use crate::text::same_text;

verus! {

/// The key of 0.0: the confidence of a result that decides nothing.
pub const CONFIDENCE_NONE: i64 = 0;

/// The key of 1.0: the confidence of a rule that matched.
pub const CONFIDENCE_FULL: i64 = 0x3FF0_0000_0000_0000;

/// The key of 5.0: a risk score below it is low.
pub const RISK_LOW_BELOW: i64 = 0x4014_0000_0000_0000;

/// The key of 7.0: a risk score above it is high.
pub const RISK_HIGH_ABOVE: i64 = 0x401C_0000_0000_0000;

/// What a `PolicyResult` is, as mathematical values.
pub struct PolicyResultView {
    pub decision: Seq<char>,
    pub reason: Seq<char>,
    pub confidence: int,
    pub obligations: Seq<char>,
    pub advice: Seq<char>,
}

/// The outcome of evaluating a rule, a policy or a whole request.
#[derive(Debug)]
pub struct PolicyResult {
    /// `PERMIT`, `DENY`, `INDETERMINATE` or `NOTAPPLICABLE`.
    pub decision: String,
    pub reason: String,
    /// Ordered key of a number between 0.0 and 1.0.
    pub confidence: i64,
    /// A JSON array of obligation identifiers.
    pub obligations: String,
    /// A JSON array of advice identifiers.
    pub advice: String,
}

impl View for PolicyResult {
    type V = PolicyResultView;

    open spec fn view(&self) -> PolicyResultView {
        PolicyResultView {
            decision: self.decision@,
            reason: self.reason@,
            confidence: self.confidence as int,
            obligations: self.obligations@,
            advice: self.advice@,
        }
    }
}

impl Clone for PolicyResult {
    fn clone(&self) -> (copy: Self)
        ensures
            copy@ == self@,
    {
        PolicyResult {
            decision: self.decision.clone(),
            reason: self.reason.clone(),
            confidence: self.confidence,
            obligations: self.obligations.clone(),
            advice: self.advice.clone(),
        }
    }
}

impl PolicyResult {
    /// A result with no obligations and no advice.
    pub fn new(decision: String, reason: String, confidence: i64) -> (result: PolicyResult)
        ensures
            result@ == (PolicyResultView {
                decision: decision@,
                reason: reason@,
                confidence: confidence as int,
                obligations: "[]"@,
                advice: "[]"@,
            }),
    {
        PolicyResult {
            decision,
            reason,
            confidence,
            obligations: "[]".to_owned(),
            advice: "[]".to_owned(),
        }
    }

    /// Replaces the obligation list and nothing else.
    pub fn set_obligations(&mut self, obligations: String)
        ensures
            final(self)@ == (PolicyResultView { obligations: obligations@, ..old(self)@ }),
    {
        self.obligations = obligations;
    }

    /// Replaces the advice list and nothing else.
    pub fn set_advice(&mut self, advice: String)
        ensures
            final(self)@ == (PolicyResultView { advice: advice@, ..old(self)@ }),
    {
        self.advice = advice;
    }
}

/// The views of a sequence of results, one for one.
pub open spec fn views(results: Seq<PolicyResult>) -> Seq<PolicyResultView> {
    Seq::new(results.len(), |i: int| results[i]@)
}

/// The request that is judged: who asks, from where, for what, at what risk.
#[derive(Debug, Clone)]
pub struct PolicyContext {
    pub request_id: String,
    /// Milliseconds since the Unix epoch, UTC.
    pub timestamp_millis: i64,
    pub operation: String,
    pub user_id: String,
    pub user_roles: Vec<String>,
    pub user_groups: Vec<String>,
    /// Attribute name, then its value as JSON text; each name once.
    pub user_attributes: Vec<(String, String)>,
    pub device_id: String,
    pub device_type: String,
    pub device_trust: String,
    pub device_attested: bool,
    pub ip_address: String,
    pub ip_country: String,
    pub ip_city: String,
    pub network_zone: String,
    pub vpn_detected: bool,
    pub session_id: String,
    pub session_age_seconds: i64,
    pub auth_method: String,
    pub mfa_verified: bool,
    pub time_of_day: String,
    pub day_of_week: String,
    pub business_hours: bool,
    /// Ordered key of the risk score.
    pub risk_score: i64,
    pub threat_level: String,
    pub resource_type: String,
    pub resource_id: String,
    pub resource_classification: String,
    pub resource_owner: String,
    pub resource_attributes: Vec<(String, String)>,
    pub intent_purpose: Option<String>,
    pub intent_justification: Option<String>,
    pub intent_duration_seconds: Option<i64>,
    pub constraints: Vec<(String, String)>,
    pub metadata: Vec<(String, String)>,
}

/// Whether no name stands twice in a list of named values: the list is a map.
pub open spec fn distinct_names(entries: Seq<(String, String)>) -> bool {
    forall|i: int, j: int|
        0 <= i < j < entries.len() ==> (#[trigger] entries[i]).0@ != (#[trigger] entries[j]).0@
}

/// Whether no name stands twice in a list of named values.
pub fn has_distinct_names(entries: &Vec<(String, String)>) -> (distinct: bool)
    ensures
        distinct == distinct_names(entries@),
{
    let mut j: usize = 0;
    while j < entries.len()
        invariant
            j <= entries.len(),
            forall|a: int, b: int|
                0 <= a < b < j ==> (#[trigger] entries[a]).0@ != (#[trigger] entries[b]).0@,
        decreases entries.len() - j,
    {
        let mut i: usize = 0;
        while i < j
            invariant
                i <= j < entries.len(),
                forall|a: int| 0 <= a < i ==> (#[trigger] entries[a]).0@ != entries[j as int].0@,
            decreases j - i,
        {
            if same_text(entries[i].0.as_str(), entries[j].0.as_str()) {
                assert(entries@[i as int].0@ == entries@[j as int].0@);
                return false;
            }
            i += 1;
        }
        j += 1;
    }
    true
}

impl PolicyContext {
    /// Whether each of the four attribute lists names every attribute once.
    pub open spec fn well_formed(&self) -> bool {
        &&& distinct_names(self.user_attributes@)
        &&& distinct_names(self.resource_attributes@)
        &&& distinct_names(self.constraints@)
        &&& distinct_names(self.metadata@)
    }

    /// Whether each of the four attribute lists names every attribute once.
    pub fn is_well_formed(&self) -> (well_formed: bool)
        ensures
            well_formed == self.well_formed(),
    {
        has_distinct_names(&self.user_attributes) && has_distinct_names(&self.resource_attributes)
            && has_distinct_names(&self.constraints) && has_distinct_names(&self.metadata)
    }
}

/// One guarded effect of a policy.
#[derive(Debug, Clone)]
pub struct PolicyRule {
    pub id: String,
    pub name: String,
    pub description: String,
    /// Carried along; evaluation goes by the order of declaration.
    pub priority: i32,
    pub condition: String,
    pub effect: String,
    pub obligations: Vec<String>,
    pub advice: Vec<String>,
}

/// A named, versioned list of rules with the algorithm that merges them.
#[derive(Debug, Clone)]
pub struct Policy {
    pub id: String,
    pub name: String,
    pub version: String,
    pub description: String,
    /// Empty when the policy applies to every request.
    pub target: String,
    pub rules: Vec<PolicyRule>,
    pub combining_algorithm: String,
    pub obligations: Vec<String>,
    pub advice: Vec<String>,
}

/// A policy, a batch of policies or a context could not be decoded.
#[derive(Debug)]
pub struct DecodeError {
    pub message: String,
}

} // verus!
