//! The engine: a policy set, and the evaluation of a request against it.

use vstd::prelude::*;
use crate::combine::{combined, deny_overrides_of, lemma_overriding_prefers_first};
use crate::expression::expression_holds;
use crate::json::{json_of_strings, strings_to_json};
use crate::model::{
    views, DecodeError, Policy, PolicyContext, PolicyResult, PolicyResultView, PolicyRule,
    CONFIDENCE_FULL, CONFIDENCE_NONE,
};
use crate::text::{join3, texts};

verus! {

/// Whether a policy applies to a request: its target is empty or holds.
pub open spec fn applicable(policy: Policy, context: PolicyContext) -> bool {
    policy.target@.len() == 0 || expression_holds(policy.target@, context)
}

/// A list of identifiers as it is attached to a result: the empty list is
/// left as the result was made, any other is written as JSON.
pub open spec fn attached(items: Seq<String>) -> Seq<char> {
    if items.len() == 0 {
        "[]"@
    } else {
        json_of_strings(texts(items))
    }
}

/// The result of one rule for a request.
pub open spec fn rule_result(rule: PolicyRule, context: PolicyContext) -> PolicyResultView {
    if expression_holds(rule.condition@, context) {
        PolicyResultView {
            decision: rule.effect@,
            reason: "Rule '"@ + rule.name@ + "' matched"@,
            confidence: CONFIDENCE_FULL as int,
            obligations: attached(rule.obligations@),
            advice: attached(rule.advice@),
        }
    } else {
        PolicyResultView {
            decision: "NOTAPPLICABLE"@,
            reason: "Rule '"@ + rule.name@ + "' condition not met"@,
            confidence: CONFIDENCE_NONE as int,
            obligations: "[]"@,
            advice: "[]"@,
        }
    }
}

/// The results of the rules of a policy, in the order of declaration.
pub open spec fn rule_results(rules: Seq<PolicyRule>, context: PolicyContext) -> Seq<
    PolicyResultView,
> {
    Seq::new(rules.len(), |i: int| rule_result(rules[i], context))
}

/// The result of one policy: its rules' results, merged by its own algorithm.
pub open spec fn policy_result(policy: Policy, context: PolicyContext) -> PolicyResultView {
    combined(policy.combining_algorithm@, rule_results(policy.rules@, context))
}

/// The results of the applicable ones among the first `upto` policies, in the
/// order of the policy set.
pub open spec fn applicable_results(
    policies: Seq<Policy>,
    context: PolicyContext,
    upto: int,
) -> Seq<PolicyResultView>
    decreases upto,
{
    if upto <= 0 {
        Seq::empty()
    } else {
        let before = applicable_results(policies, context, upto - 1);
        if applicable(policies[upto - 1], context) {
            before.push(policy_result(policies[upto - 1], context))
        } else {
            before
        }
    }
}

/// What the engine answers when no policy applies.
pub open spec fn no_applicable_policies() -> PolicyResultView {
    PolicyResultView {
        decision: "INDETERMINATE"@,
        reason: "No applicable policies found"@,
        confidence: CONFIDENCE_NONE as int,
        obligations: "[]"@,
        advice: "[]"@,
    }
}

/// The answer of a policy set to a request: the results of the applicable
/// policies merged by deny-overrides, or the fixed answer where none applies.
pub open spec fn decision_of(policies: Seq<Policy>, context: PolicyContext) -> PolicyResultView {
    let results = applicable_results(policies, context, policies.len() as int);
    if results.len() == 0 {
        no_applicable_policies()
    } else {
        deny_overrides_of(results)
    }
}

/// A policy whose target is empty applies to every request.
pub proof fn lemma_empty_target_applies(policy: Policy, context: PolicyContext)
    requires
        policy.target@.len() == 0,
    ensures
        applicable(policy, context),
{
}

/// Among the first `upto` policies, as many results as policies that apply:
/// none, exactly when none of them applies.
pub proof fn lemma_results_empty_iff_none_applies(
    policies: Seq<Policy>,
    context: PolicyContext,
    upto: int,
)
    requires
        0 <= upto <= policies.len(),
    ensures
        applicable_results(policies, context, upto).len() == 0 <==> forall|i: int|
            0 <= i < upto ==> !applicable(#[trigger] policies[i], context),
    decreases upto,
{
    if upto > 0 {
        lemma_results_empty_iff_none_applies(policies, context, upto - 1);
    }
}

/// A policy set of which no policy applies to the request, an empty set among
/// them, answers `INDETERMINATE` with the reason "No applicable policies
/// found" and no confidence.
pub proof fn lemma_nothing_applicable(policies: Seq<Policy>, context: PolicyContext)
    requires
        forall|i: int| 0 <= i < policies.len() ==> !applicable(#[trigger] policies[i], context),
    ensures
        decision_of(policies, context) == no_applicable_policies(),
{
    lemma_results_empty_iff_none_applies(policies, context, policies.len() as int);
}

/// The result of every applicable policy among the first `upto` is among the
/// results that are merged.
pub proof fn lemma_applicable_policy_is_heard(
    policies: Seq<Policy>,
    context: PolicyContext,
    upto: int,
    at: int,
)
    requires
        0 <= at < upto <= policies.len(),
        applicable(policies[at], context),
    ensures
        applicable_results(policies, context, upto).contains(policy_result(policies[at], context)),
    decreases upto,
{
    let before = applicable_results(policies, context, upto - 1);
    let all = applicable_results(policies, context, upto);
    if at == upto - 1 {
        assert(all[before.len() as int] == policy_result(policies[at], context));
    } else {
        lemma_applicable_policy_is_heard(policies, context, upto - 1, at);
        let k = choose|k: int|
            0 <= k < before.len() && before[k] == policy_result(policies[at], context);
        assert(all[k] == policy_result(policies[at], context));
    }
}

/// Deny prevails: where an applicable policy says `DENY`, so does the engine,
/// whatever the other policies say and whatever algorithm they name.
pub proof fn lemma_deny_prevails(policies: Seq<Policy>, context: PolicyContext, at: int)
    requires
        0 <= at < policies.len(),
        applicable(policies[at], context),
        policy_result(policies[at], context).decision == "DENY"@,
    ensures
        decision_of(policies, context).decision == "DENY"@,
{
    let results = applicable_results(policies, context, policies.len() as int);
    lemma_applicable_policy_is_heard(policies, context, policies.len() as int, at);
    let k = choose|k: int|
        0 <= k < results.len() && results[k] == policy_result(policies[at], context);
    lemma_overriding_prefers_first(results, "DENY"@, "PERMIT"@, k);
}

/// The policies in force, in the order in which they were loaded, and a flag
/// for verbose diagnostics.
pub struct PolicyEngine {
    policies: Vec<Policy>,
    debug_mode: bool,
}

impl PolicyEngine {
    /// The policies in force, oldest first.
    pub closed spec fn policies(&self) -> Seq<Policy> {
        self.policies@
    }

    /// Whether verbose diagnostics are asked for.
    pub closed spec fn debug_mode(&self) -> bool {
        self.debug_mode
    }

    /// An engine with no policies and diagnostics off.
    pub fn new() -> (engine: PolicyEngine)
        ensures
            engine.policies() == Seq::<Policy>::empty(),
            !engine.debug_mode(),
    {
        PolicyEngine { policies: Vec::new(), debug_mode: false }
    }

    /// Whether verbose diagnostics are asked for.
    pub fn is_debug_mode(&self) -> (debug: bool)
        ensures
            debug == self.debug_mode(),
    {
        self.debug_mode
    }

    /// Turns verbose diagnostics on or off. The policy set stays as it is, and
    /// no decision depends on the flag.
    pub fn set_debug_mode(&mut self, debug: bool)
        ensures
            final(self).debug_mode() == debug,
            final(self).policies() == old(self).policies(),
    {
        self.debug_mode = debug;
    }

    /// Appends a decoded policy. Where decoding failed, the engine stays as it
    /// is and the decoder's message comes back behind "Failed to parse
    /// policy: ".
    pub fn load_policy(&mut self, decoded: Result<Policy, String>) -> (outcome: Result<
        (),
        DecodeError,
    >)
        ensures
            final(self).debug_mode() == old(self).debug_mode(),
            match decoded {
                Ok(policy) => outcome is Ok && final(self).policies() == old(self).policies().push(
                    policy,
                ),
                Err(message) => outcome is Err && outcome->Err_0.message@
                    == "Failed to parse policy: "@ + message@ && final(self).policies() == old(
                    self,
                ).policies(),
            },
    {
        match decoded {
            Ok(policy) => {
                self.policies.push(policy);
                Ok(())
            },
            Err(message) => Err(
                DecodeError {
                    message: "Failed to parse policy: ".to_owned().concat(message.as_str()),
                },
            ),
        }
    }

    /// Appends a decoded batch of policies, in its order. Where decoding
    /// failed, none is added and the decoder's message comes back behind
    /// "Failed to parse policies: ".
    pub fn load_policies(&mut self, decoded: Result<Vec<Policy>, String>) -> (outcome: Result<
        (),
        DecodeError,
    >)
        ensures
            final(self).debug_mode() == old(self).debug_mode(),
            match decoded {
                Ok(batch) => outcome is Ok && final(self).policies() == old(self).policies()
                    + batch@,
                Err(message) => outcome is Err && outcome->Err_0.message@
                    == "Failed to parse policies: "@ + message@ && final(self).policies() == old(
                    self,
                ).policies(),
            },
    {
        match decoded {
            Ok(batch) => {
                let mut batch = batch;
                self.policies.append(&mut batch);
                Ok(())
            },
            Err(message) => Err(
                DecodeError {
                    message: "Failed to parse policies: ".to_owned().concat(message.as_str()),
                },
            ),
        }
    }

    /// Judges a decoded request. Where decoding failed, the decoder's message
    /// comes back behind "Failed to parse context: ".
    pub fn evaluate(&self, decoded: Result<PolicyContext, String>) -> (outcome: Result<
        PolicyResult,
        DecodeError,
    >)
        ensures
            match decoded {
                Ok(context) => outcome is Ok && outcome->Ok_0@ == decision_of(
                    self.policies(),
                    context,
                ),
                Err(message) => outcome is Err && outcome->Err_0.message@
                    == "Failed to parse context: "@ + message@,
            },
    {
        match decoded {
            Ok(context) => Ok(self.decide(&context)),
            Err(message) => Err(
                DecodeError {
                    message: "Failed to parse context: ".to_owned().concat(message.as_str()),
                },
            ),
        }
    }

    /// Judges a request: evaluates each applicable policy, in the order of the
    /// policy set, and merges the results by deny-overrides.
    pub fn decide(&self, context: &PolicyContext) -> (result: PolicyResult)
        ensures
            result@ == decision_of(self.policies(), *context),
    {
        let mut policy_results: Vec<PolicyResult> = Vec::new();
        let mut i: usize = 0;
        while i < self.policies.len()
            invariant
                i <= self.policies.len(),
                views(policy_results@) == applicable_results(self.policies@, *context, i as int),
            decreases self.policies.len() - i,
        {
            let policy = &self.policies[i];
            if self.is_policy_applicable(policy, context) {
                let result = self.evaluate_policy(policy, context);
                proof {
                    assert(views(policy_results@.push(result)) =~= views(policy_results@).push(
                        result@,
                    ));
                }
                policy_results.push(result);
            }
            i += 1;
        }
        if policy_results.len() == 0 {
            return PolicyResult::new(
                "INDETERMINATE".to_owned(),
                "No applicable policies found".to_owned(),
                CONFIDENCE_NONE,
            );
        }
        self.combine_policy_results(policy_results)
    }

    /// Empties the policy set.
    pub fn clear_policies(&mut self)
        ensures
            final(self).policies() == Seq::<Policy>::empty(),
            final(self).debug_mode() == old(self).debug_mode(),
    {
        self.policies.clear();
    }

    /// The policies in force, oldest first, for reading.
    pub fn loaded_policies(&self) -> (policies: &Vec<Policy>)
        ensures
            policies@ == self.policies(),
    {
        &self.policies
    }

    /// How many policies are in force.
    pub fn get_policy_count(&self) -> (count: usize)
        ensures
            count == self.policies().len(),
    {
        self.policies.len()
    }

    /// Whether a policy applies to a request: its target is empty or holds.
    pub fn is_policy_applicable(&self, policy: &Policy, context: &PolicyContext) -> (applies: bool)
        ensures
            applies == applicable(*policy, *context),
            policy.target@.len() == 0 ==> applies,
    {
        if policy.target.as_str().is_empty() {
            return true;
        }
        self.evaluate_expression(policy.target.as_str(), context)
    }

    /// Evaluates every rule of a policy, in the order of declaration, and
    /// merges the results by the policy's own algorithm.
    pub fn evaluate_policy(&self, policy: &Policy, context: &PolicyContext) -> (result:
        PolicyResult)
        ensures
            result@ == policy_result(*policy, *context),
    {
        let mut results: Vec<PolicyResult> = Vec::new();
        let mut i: usize = 0;
        while i < policy.rules.len()
            invariant
                i <= policy.rules.len(),
                results.len() == i,
                forall|j: int| 0 <= j < i ==> (#[trigger] results[j])@ == rule_result(
                    policy.rules[j],
                    *context,
                ),
            decreases policy.rules.len() - i,
        {
            let result = self.evaluate_rule(&policy.rules[i], context);
            results.push(result);
            i += 1;
        }
        proof {
            assert(views(results@) =~= rule_results(policy.rules@, *context));
        }
        self.combine_rule_results(policy.combining_algorithm.as_str(), results)
    }

    /// Evaluates one rule. A rule whose condition holds gives its effect with
    /// full confidence, and its obligations and advice where it has any; one
    /// whose condition does not hold is `NOTAPPLICABLE`.
    pub fn evaluate_rule(&self, rule: &PolicyRule, context: &PolicyContext) -> (result:
        PolicyResult)
        ensures
            result@ == rule_result(*rule, *context),
    {
        if self.evaluate_expression(rule.condition.as_str(), context) {
            let mut result = PolicyResult::new(
                rule.effect.clone(),
                join3("Rule '", rule.name.as_str(), "' matched"),
                CONFIDENCE_FULL,
            );
            if rule.obligations.len() != 0 {
                result.set_obligations(strings_to_json(&rule.obligations));
            }
            if rule.advice.len() != 0 {
                result.set_advice(strings_to_json(&rule.advice));
            }
            result
        } else {
            PolicyResult::new(
                "NOTAPPLICABLE".to_owned(),
                join3("Rule '", rule.name.as_str(), "' condition not met"),
                CONFIDENCE_NONE,
            )
        }
    }
}

} // verus!
