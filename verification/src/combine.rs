//! The combining algorithms: how a sequence of results becomes one result.
//!
//! The overriding algorithms pick, among the results of one decision, the one
//! of greatest confidence; of several equally confident ones, the last in the
//! sequence. The other algorithms go by position alone.

use vstd::prelude::*;
use crate::engine::PolicyEngine;
use crate::model::{views, PolicyResult, PolicyResultView, CONFIDENCE_FULL, CONFIDENCE_NONE};
use crate::text::same_text;

verus! {

/// Among the first `upto` results, the position of the most confident one
/// whose decision is `decision`; of equally confident ones, the last.
pub open spec fn strongest_upto(
    results: Seq<PolicyResultView>,
    decision: Seq<char>,
    upto: int,
) -> Option<int>
    decreases upto,
{
    if upto <= 0 {
        None
    } else {
        let before = strongest_upto(results, decision, upto - 1);
        let here = results[upto - 1];
        if here.decision == decision && (before is None || results[before.unwrap()].confidence
            <= here.confidence) {
            Some(upto - 1)
        } else {
            before
        }
    }
}

/// The most confident result whose decision is `decision`, if there is one.
pub open spec fn strongest(results: Seq<PolicyResultView>, decision: Seq<char>) -> Option<
    PolicyResultView,
> {
    match strongest_upto(results, decision, results.len() as int) {
        Some(at) => Some(results[at]),
        None => None,
    }
}

/// From position `from` on, the first position whose decision is `decision`
/// (where `wanted`) or is not (where `!wanted`); the length, if there is none.
pub open spec fn first_from(
    results: Seq<PolicyResultView>,
    decision: Seq<char>,
    wanted: bool,
    from: int,
) -> int
    decreases results.len() - from,
{
    if from < 0 || from >= results.len() {
        results.len() as int
    } else if (results[from].decision == decision) == wanted {
        from
    } else {
        first_from(results, decision, wanted, from + 1)
    }
}

/// What the overriding algorithms return when nothing is left to choose from.
pub open spec fn no_applicable_rules() -> PolicyResultView {
    PolicyResultView {
        decision: "INDETERMINATE"@,
        reason: "No applicable rules"@,
        confidence: CONFIDENCE_NONE as int,
        obligations: "[]"@,
        advice: "[]"@,
    }
}

/// A fresh result of full confidence.
pub open spec fn fresh(decision: Seq<char>, reason: Seq<char>) -> PolicyResultView {
    PolicyResultView {
        decision,
        reason,
        confidence: CONFIDENCE_FULL as int,
        obligations: "[]"@,
        advice: "[]"@,
    }
}

/// The strongest result of decision `first`; failing that, of `second`;
/// failing that, of `INDETERMINATE`; failing that, the default.
pub open spec fn overriding(
    results: Seq<PolicyResultView>,
    first: Seq<char>,
    second: Seq<char>,
) -> PolicyResultView {
    if strongest(results, first) is Some {
        strongest(results, first).unwrap()
    } else if strongest(results, second) is Some {
        strongest(results, second).unwrap()
    } else if strongest(results, "INDETERMINATE"@) is Some {
        strongest(results, "INDETERMINATE"@).unwrap()
    } else {
        no_applicable_rules()
    }
}

/// Permit-overrides: `PERMIT` before `DENY` before `INDETERMINATE`.
pub open spec fn permit_overrides_of(results: Seq<PolicyResultView>) -> PolicyResultView {
    overriding(results, "PERMIT"@, "DENY"@)
}

/// Deny-overrides: `DENY` before `PERMIT` before `INDETERMINATE`.
pub open spec fn deny_overrides_of(results: Seq<PolicyResultView>) -> PolicyResultView {
    overriding(results, "DENY"@, "PERMIT"@)
}

/// The first result that is not `NOTAPPLICABLE`, else the default.
pub open spec fn first_applicable_of(results: Seq<PolicyResultView>) -> PolicyResultView {
    let at = first_from(results, "NOTAPPLICABLE"@, false, 0);
    if at < results.len() {
        results[at]
    } else {
        no_applicable_rules()
    }
}

/// The first `DENY`, else a fresh `PERMIT`.
pub open spec fn permit_unless_deny_of(results: Seq<PolicyResultView>) -> PolicyResultView {
    let at = first_from(results, "DENY"@, true, 0);
    if at < results.len() {
        results[at]
    } else {
        fresh("PERMIT"@, "Permit unless deny"@)
    }
}

/// The first `PERMIT`, else a fresh `DENY`.
pub open spec fn deny_unless_permit_of(results: Seq<PolicyResultView>) -> PolicyResultView {
    let at = first_from(results, "PERMIT"@, true, 0);
    if at < results.len() {
        results[at]
    } else {
        fresh("DENY"@, "Deny unless permit"@)
    }
}

/// Whether `algorithm` is one of the five names that the engine knows.
pub open spec fn known_algorithm(algorithm: Seq<char>) -> bool {
    ||| algorithm == "permit-overrides"@
    ||| algorithm == "deny-overrides"@
    ||| algorithm == "first-applicable"@
    ||| algorithm == "permit-unless-deny"@
    ||| algorithm == "deny-unless-permit"@
}

/// The result of the algorithm named `algorithm` on `results`. A name that the
/// engine does not know stands for deny-overrides.
pub open spec fn combined(algorithm: Seq<char>, results: Seq<PolicyResultView>) -> PolicyResultView {
    if algorithm == "permit-overrides"@ {
        permit_overrides_of(results)
    } else if algorithm == "deny-overrides"@ {
        deny_overrides_of(results)
    } else if algorithm == "first-applicable"@ {
        first_applicable_of(results)
    } else if algorithm == "permit-unless-deny"@ {
        permit_unless_deny_of(results)
    } else if algorithm == "deny-unless-permit"@ {
        deny_unless_permit_of(results)
    } else {
        deny_overrides_of(results)
    }
}

/// The position that `strongest_upto` gives holds a result of the decision
/// asked for; no result of that decision among the first `upto` is more
/// confident, and none after it is as confident. It gives no position exactly
/// when no result among the first `upto` has that decision.
pub proof fn lemma_strongest_is_last_maximum(
    results: Seq<PolicyResultView>,
    decision: Seq<char>,
    upto: int,
)
    requires
        0 <= upto <= results.len(),
    ensures
        match strongest_upto(results, decision, upto) {
            Some(at) => {
                &&& 0 <= at < upto
                &&& results[at].decision == decision
                &&& forall|j: int|
                    0 <= j < upto && (#[trigger] results[j]).decision == decision
                        ==> results[j].confidence <= results[at].confidence
                &&& forall|j: int|
                    at < j < upto && (#[trigger] results[j]).decision == decision
                        ==> results[j].confidence < results[at].confidence
            },
            None => forall|j: int| 0 <= j < upto ==> (#[trigger] results[j]).decision != decision,
        },
    decreases upto,
{
    if upto > 0 {
        lemma_strongest_is_last_maximum(results, decision, upto - 1);
    }
}

/// The position that `first_from` gives is the first one at or after `from`
/// that fits; it gives the length exactly when none fits.
pub proof fn lemma_first_from_is_first(
    results: Seq<PolicyResultView>,
    decision: Seq<char>,
    wanted: bool,
    from: int,
)
    requires
        0 <= from <= results.len(),
    ensures
        from <= first_from(results, decision, wanted, from) <= results.len(),
        forall|j: int|
            from <= j < first_from(results, decision, wanted, from) ==> ((
            #[trigger] results[j]).decision == decision) != wanted,
        first_from(results, decision, wanted, from) < results.len() ==> (results[first_from(
            results,
            decision,
            wanted,
            from,
        )].decision == decision) == wanted,
    decreases results.len() - from,
{
    if from < results.len() && (results[from].decision == decision) != wanted {
        lemma_first_from_is_first(results, decision, wanted, from + 1);
    }
}

/// Where some result has the decision that an overriding algorithm puts
/// first, the algorithm returns a result of that decision.
pub proof fn lemma_overriding_prefers_first(
    results: Seq<PolicyResultView>,
    first: Seq<char>,
    second: Seq<char>,
    at: int,
)
    requires
        0 <= at < results.len(),
        results[at].decision == first,
    ensures
        overriding(results, first, second).decision == first,
        overriding(results, first, second).confidence >= results[at].confidence,
{
    lemma_strongest_is_last_maximum(results, first, results.len() as int);
}

/// An overriding algorithm returns one of the results that it was given, or
/// the default where none of them is of the three decisions that it looks for.
pub proof fn lemma_overriding_invents_nothing(
    results: Seq<PolicyResultView>,
    first: Seq<char>,
    second: Seq<char>,
)
    ensures
        results.contains(overriding(results, first, second)) || (overriding(
            results,
            first,
            second,
        ) == no_applicable_rules() && forall|j: int|
            0 <= j < results.len() ==> {
                &&& (#[trigger] results[j]).decision != first
                &&& results[j].decision != second
                &&& results[j].decision != "INDETERMINATE"@
            }),
{
    lemma_strongest_is_last_maximum(results, first, results.len() as int);
    lemma_strongest_is_last_maximum(results, second, results.len() as int);
    lemma_strongest_is_last_maximum(results, "INDETERMINATE"@, results.len() as int);
}

/// Deny-unless-permit mirrors permit-unless-deny. Take two sequences of equal
/// length, the one `PERMIT` exactly where the other is `DENY`: from any
/// position on, the first `PERMIT` of the one stands where the first `DENY` of
/// the other does, and the one has none exactly when the other has none.
pub proof fn lemma_unless_algorithms_mirror(
    results: Seq<PolicyResultView>,
    mirrored: Seq<PolicyResultView>,
    from: int,
)
    requires
        results.len() == mirrored.len(),
        0 <= from <= results.len(),
        forall|i: int|
            0 <= i < results.len() ==> ((#[trigger] mirrored[i]).decision == "PERMIT"@) == (
            results[i].decision == "DENY"@),
    ensures
        first_from(mirrored, "PERMIT"@, true, from) == first_from(results, "DENY"@, true, from),
    decreases results.len() - from,
{
    if from < results.len() {
        assert((mirrored[from].decision == "PERMIT"@) == (results[from].decision == "DENY"@));
        if results[from].decision != "DENY"@ {
            lemma_unless_algorithms_mirror(results, mirrored, from + 1);
        }
    }
}

/// A name that is none of the five known ones gives what deny-overrides gives
/// on the same results.
pub proof fn lemma_unknown_algorithm_denies(algorithm: Seq<char>, results: Seq<PolicyResultView>)
    requires
        !known_algorithm(algorithm),
    ensures
        combined(algorithm, results) == deny_overrides_of(results),
{
}

/// The position of the strongest result of one decision.
fn strongest_position(results: &Vec<PolicyResult>, decision: &str) -> (best: Option<usize>)
    ensures
        match best {
            Some(at) => at < results.len() && strongest_upto(
                views(results@),
                decision@,
                results.len() as int,
            ) == Some(at as int),
            None => strongest_upto(views(results@), decision@, results.len() as int) is None,
        },
{
    let mut best: Option<usize> = None;
    let mut i: usize = 0;
    while i < results.len()
        invariant
            i <= results.len(),
            match best {
                Some(at) => at < i && strongest_upto(views(results@), decision@, i as int)
                    == Some(at as int),
                None => strongest_upto(views(results@), decision@, i as int) is None,
            },
        decreases results.len() - i,
    {
        if same_text(results[i].decision.as_str(), decision) {
            best = match best {
                Some(at) if results[at].confidence > results[i].confidence => Some(at),
                _ => Some(i),
            };
        }
        i += 1;
    }
    best
}

/// The first position whose decision is `decision` (where `wanted`) or is not
/// (where `!wanted`).
fn first_position(results: &Vec<PolicyResult>, decision: &str, wanted: bool) -> (at: usize)
    ensures
        at as int == first_from(views(results@), decision@, wanted, 0),
        at <= results.len(),
{
    let mut i: usize = 0;
    while i < results.len()
        invariant
            i <= results.len(),
            first_from(views(results@), decision@, wanted, 0) == first_from(
                views(results@),
                decision@,
                wanted,
                i as int,
            ),
        decreases results.len() - i,
    {
        if same_text(results[i].decision.as_str(), decision) == wanted {
            return i;
        }
        i += 1;
    }
    i
}

/// The default of the overriding algorithms and of first-applicable.
fn default_result() -> (result: PolicyResult)
    ensures
        result@ == no_applicable_rules(),
{
    PolicyResult::new("INDETERMINATE".to_owned(), "No applicable rules".to_owned(), CONFIDENCE_NONE)
}

/// The strongest of `first`, else of `second`, else of `INDETERMINATE`, else
/// the default.
fn override_with(results: &Vec<PolicyResult>, first: &str, second: &str) -> (result: PolicyResult)
    ensures
        result@ == overriding(views(results@), first@, second@),
{
    if let Some(at) = strongest_position(results, first) {
        results[at].clone()
    } else if let Some(at) = strongest_position(results, second) {
        results[at].clone()
    } else if let Some(at) = strongest_position(results, "INDETERMINATE") {
        results[at].clone()
    } else {
        default_result()
    }
}

impl PolicyEngine {
    /// Whether `algorithm` is one of the five names that the engine knows; for
    /// another, which is taken as deny-overrides, the host may want a
    /// diagnostic.
    pub fn is_known_algorithm(&self, algorithm: &str) -> (known: bool)
        ensures
            known == known_algorithm(algorithm@),
    {
        same_text(algorithm, "permit-overrides") || same_text(algorithm, "deny-overrides")
            || same_text(algorithm, "first-applicable") || same_text(
            algorithm,
            "permit-unless-deny",
        ) || same_text(algorithm, "deny-unless-permit")
    }

    /// Merges rule results by the algorithm that `algorithm` names; a name that
    /// is not known stands for deny-overrides.
    pub fn combine_rule_results(&self, algorithm: &str, results: Vec<PolicyResult>) -> (result:
        PolicyResult)
        ensures
            result@ == combined(algorithm@, views(results@)),
    {
        if same_text(algorithm, "permit-overrides") {
            self.permit_overrides(results)
        } else if same_text(algorithm, "deny-overrides") {
            self.deny_overrides(results)
        } else if same_text(algorithm, "first-applicable") {
            self.first_applicable(results)
        } else if same_text(algorithm, "permit-unless-deny") {
            self.permit_unless_deny(results)
        } else if same_text(algorithm, "deny-unless-permit") {
            self.deny_unless_permit(results)
        } else {
            self.deny_overrides(results)
        }
    }

    /// The most confident `PERMIT`; failing that, `DENY`; failing that,
    /// `INDETERMINATE`; failing that, the default.
    pub fn permit_overrides(&self, results: Vec<PolicyResult>) -> (result: PolicyResult)
        ensures
            result@ == permit_overrides_of(views(results@)),
    {
        override_with(&results, "PERMIT", "DENY")
    }

    /// The most confident `DENY`; failing that, `PERMIT`; failing that,
    /// `INDETERMINATE`; failing that, the default.
    pub fn deny_overrides(&self, results: Vec<PolicyResult>) -> (result: PolicyResult)
        ensures
            result@ == deny_overrides_of(views(results@)),
    {
        override_with(&results, "DENY", "PERMIT")
    }

    /// The first result that is not `NOTAPPLICABLE`, as it stands; the default
    /// where there is none.
    pub fn first_applicable(&self, results: Vec<PolicyResult>) -> (result: PolicyResult)
        ensures
            result@ == first_applicable_of(views(results@)),
    {
        let at = first_position(&results, "NOTAPPLICABLE", false);
        if at < results.len() {
            results[at].clone()
        } else {
            default_result()
        }
    }

    /// The first `DENY`, as it stands; a fresh `PERMIT` where there is none.
    pub fn permit_unless_deny(&self, results: Vec<PolicyResult>) -> (result: PolicyResult)
        ensures
            result@ == permit_unless_deny_of(views(results@)),
    {
        let at = first_position(&results, "DENY", true);
        if at < results.len() {
            results[at].clone()
        } else {
            PolicyResult::new("PERMIT".to_owned(), "Permit unless deny".to_owned(), CONFIDENCE_FULL)
        }
    }

    /// The first `PERMIT`, as it stands; a fresh `DENY` where there is none.
    pub fn deny_unless_permit(&self, results: Vec<PolicyResult>) -> (result: PolicyResult)
        ensures
            result@ == deny_unless_permit_of(views(results@)),
    {
        let at = first_position(&results, "PERMIT", true);
        if at < results.len() {
            results[at].clone()
        } else {
            PolicyResult::new("DENY".to_owned(), "Deny unless permit".to_owned(), CONFIDENCE_FULL)
        }
    }

    /// Merges the results of the applicable policies: always by deny-overrides,
    /// whatever algorithm each policy names for its own rules.
    pub fn combine_policy_results(&self, results: Vec<PolicyResult>) -> (result: PolicyResult)
        ensures
            result@ == deny_overrides_of(views(results@)),
    {
        self.deny_overrides(results)
    }
}

} // verus!
