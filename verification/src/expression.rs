//! The condition language: a fixed, ordered list of recognised clause shapes.
//!
//! An expression is not parsed. It is searched for marker texts, and the first
//! shape whose markers are all present decides; a text that fits no shape is
//! false.

use vstd::prelude::*;
use crate::engine::PolicyEngine;
use crate::model::{PolicyContext, RISK_HIGH_ABOVE, RISK_LOW_BELOW};
use crate::text::{contains_text, holds_text, includes_text, occurs, same_text};

verus! {

/// What the risk clause decides, where the expression names one of its two
/// comparisons. An expression that names the risk score and neither
/// comparison is false: it is not handed on to the classification clause.
pub open spec fn risk_clause(expression: Seq<char>, context: PolicyContext) -> Option<bool> {
    if !occurs(expression, "risk_score"@) {
        None
    } else if occurs(expression, "< 5.0"@) {
        Some(context.risk_score < RISK_LOW_BELOW)
    } else if occurs(expression, "> 7.0"@) {
        Some(context.risk_score > RISK_HIGH_ABOVE)
    } else {
        None
    }
}

/// What the classification clause decides, where the expression names a test.
pub open spec fn classification_clause(expression: Seq<char>, context: PolicyContext) -> Option<
    bool,
> {
    if !occurs(expression, "classification"@) {
        None
    } else if occurs(expression, "classified"@) && occurs(expression, "!="@) {
        Some(context.resource_classification@ != "classified"@)
    } else if occurs(expression, "public"@) && occurs(expression, "=="@) {
        Some(context.resource_classification@ == "public"@)
    } else {
        None
    }
}

/// The truth of an expression in a context: the first shape that fits decides.
pub open spec fn expression_holds(expression: Seq<char>, context: PolicyContext) -> bool {
    if expression.len() == 0 {
        true
    } else if expression == "true"@ {
        true
    } else if expression == "false"@ {
        false
    } else if occurs(expression, "user.roles"@) && occurs(expression, "admin"@) {
        holds_text(context.user_roles@, "admin"@)
    } else if occurs(expression, "device.attested"@) && occurs(expression, "true"@) {
        context.device_attested
    } else if occurs(expression, "mfa.verified"@) && occurs(expression, "true"@) {
        context.mfa_verified
    } else if occurs(expression, "business_hours"@) && occurs(expression, "true"@) {
        context.business_hours
    } else if occurs(expression, "risk_score"@) {
        risk_clause(expression, context) == Some(true)
    } else {
        classification_clause(expression, context) == Some(true)
    }
}

/// Whether an expression fits one of the recognised shapes. One that fits
/// none is false in every context, and worth a diagnostic.
pub open spec fn recognised(expression: Seq<char>) -> bool {
    if expression.len() == 0 || expression == "true"@ || expression == "false"@ {
        true
    } else if occurs(expression, "user.roles"@) && occurs(expression, "admin"@) {
        true
    } else if occurs(expression, "device.attested"@) && occurs(expression, "true"@) {
        true
    } else if occurs(expression, "mfa.verified"@) && occurs(expression, "true"@) {
        true
    } else if occurs(expression, "business_hours"@) && occurs(expression, "true"@) {
        true
    } else if occurs(expression, "risk_score"@) {
        occurs(expression, "< 5.0"@) || occurs(expression, "> 7.0"@)
    } else if occurs(expression, "classification"@) {
        (occurs(expression, "classified"@) && occurs(expression, "!="@)) || (occurs(
            expression,
            "public"@,
        ) && occurs(expression, "=="@))
    } else {
        false
    }
}

/// An expression that fits no recognised shape holds in no context.
pub proof fn lemma_unrecognised_is_false(expression: Seq<char>, context: PolicyContext)
    requires
        !recognised(expression),
    ensures
        !expression_holds(expression, context),
{
}

/// An expression that names the risk score without one of the two known
/// comparisons is false, whatever else it says and whatever the context.
pub proof fn lemma_risk_without_comparison_is_false(expression: Seq<char>, context: PolicyContext)
    requires
        occurs(expression, "risk_score"@),
        !occurs(expression, "< 5.0"@),
        !occurs(expression, "> 7.0"@),
        !(occurs(expression, "user.roles"@) && occurs(expression, "admin"@)),
        !occurs(expression, "true"@),
    ensures
        !expression_holds(expression, context),
{
    reveal_strlit("risk_score");
    reveal_strlit("true");
    reveal_strlit("false");
    lemma_occurs_length(expression, "risk_score"@);
    assert("risk_score"@.len() == 10);
    assert("true"@.len() == 4);
    assert("false"@.len() == 5);
}

/// The empty expression and the literal `true` hold in every context; the
/// literal `false` holds in none.
pub proof fn lemma_literals(context: PolicyContext)
    ensures
        expression_holds(""@, context),
        expression_holds("true"@, context),
        !expression_holds("false"@, context),
{
    reveal_strlit("");
    reveal_strlit("true");
    reveal_strlit("false");
    assert("false"@.len() == 5);
    assert("true"@.len() == 4);
}

/// A text in which `pattern` occurs is at least as long as `pattern`.
pub proof fn lemma_occurs_length(text: Seq<char>, pattern: Seq<char>)
    requires
        occurs(text, pattern),
    ensures
        pattern.len() <= text.len(),
{
}

/// An expression in which both `user.roles` and `admin` occur, whatever else
/// stands around them, holds exactly when the user has the role `admin`.
pub proof fn lemma_admin_role(expression: Seq<char>, context: PolicyContext)
    requires
        occurs(expression, "user.roles"@),
        occurs(expression, "admin"@),
    ensures
        expression_holds(expression, context) == holds_text(context.user_roles@, "admin"@),
{
    reveal_strlit("user.roles");
    reveal_strlit("true");
    reveal_strlit("false");
    lemma_occurs_length(expression, "user.roles"@);
    assert("user.roles"@.len() == 10);
    assert("true"@.len() == 4);
    assert("false"@.len() == 5);
}

impl PolicyEngine {
    /// Decides the risk clause, if the expression names one of its comparisons.
    fn evaluate_risk(&self, expression: &str, context: &PolicyContext) -> (clause: Option<bool>)
        ensures
            clause == risk_clause(expression@, *context),
    {
        if !contains_text(expression, "risk_score") {
            None
        } else if contains_text(expression, "< 5.0") {
            Some(context.risk_score < RISK_LOW_BELOW)
        } else if contains_text(expression, "> 7.0") {
            Some(context.risk_score > RISK_HIGH_ABOVE)
        } else {
            None
        }
    }

    /// Decides the classification clause, if the expression names one of its
    /// tests.
    fn evaluate_classification(&self, expression: &str, context: &PolicyContext) -> (clause:
        Option<bool>)
        ensures
            clause == classification_clause(expression@, *context),
    {
        if !contains_text(expression, "classification") {
            None
        } else if contains_text(expression, "classified") && contains_text(expression, "!=") {
            Some(!same_text(context.resource_classification.as_str(), "classified"))
        } else if contains_text(expression, "public") && contains_text(expression, "==") {
            Some(same_text(context.resource_classification.as_str(), "public"))
        } else {
            None
        }
    }

    /// Evaluates a condition or target expression against a context.
    ///
    /// Never fails: a text that fits no recognised shape is false.
    pub fn evaluate_expression(&self, expression: &str, context: &PolicyContext) -> (holds: bool)
        ensures
            holds == expression_holds(expression@, *context),
    {
        if expression.is_empty() {
            return true;
        }
        if same_text(expression, "true") {
            return true;
        }
        if same_text(expression, "false") {
            return false;
        }
        if contains_text(expression, "user.roles") && contains_text(expression, "admin") {
            return includes_text(&context.user_roles, "admin");
        }
        if contains_text(expression, "device.attested") && contains_text(expression, "true") {
            return context.device_attested;
        }
        if contains_text(expression, "mfa.verified") && contains_text(expression, "true") {
            return context.mfa_verified;
        }
        if contains_text(expression, "business_hours") && contains_text(expression, "true") {
            return context.business_hours;
        }
        if contains_text(expression, "risk_score") {
            return match self.evaluate_risk(expression, context) {
                Some(answer) => answer,
                None => false,
            };
        }
        match self.evaluate_classification(expression, context) {
            Some(answer) => answer,
            None => false,
        }
    }

    /// Whether an expression fits one of the recognised shapes; for one that
    /// fits none, the host may want a diagnostic.
    pub fn is_recognised_expression(&self, expression: &str) -> (fits: bool)
        ensures
            fits == recognised(expression@),
    {
        if expression.is_empty() || same_text(expression, "true") || same_text(
            expression,
            "false",
        ) {
            return true;
        }
        if contains_text(expression, "user.roles") && contains_text(expression, "admin") {
            return true;
        }
        if contains_text(expression, "device.attested") && contains_text(expression, "true") {
            return true;
        }
        if contains_text(expression, "mfa.verified") && contains_text(expression, "true") {
            return true;
        }
        if contains_text(expression, "business_hours") && contains_text(expression, "true") {
            return true;
        }
        if contains_text(expression, "risk_score") {
            return contains_text(expression, "< 5.0") || contains_text(expression, "> 7.0");
        }
        if contains_text(expression, "classification") {
            return (contains_text(expression, "classified") && contains_text(expression, "!="))
                || (contains_text(expression, "public") && contains_text(expression, "=="));
        }
        false
    }
}

} // verus!
