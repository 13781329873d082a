//! Security baselines: rules made of audit checks, and the compliance status they give.
use vstd::prelude::*;

pub mod check;

use crate::baseline::check::{Check as _, CheckError, CheckOutcome, FileExists, PathProbe, file_exists_outcome, outcome_of};

verus! {

/// An audit check of a rule.
#[derive(Debug)]
pub enum Check {
    FileExists(FileExists),
}

/// What a check of a rule decides from what the file system shows of its path.
pub open spec fn audit_outcome(c: Check, probe: PathProbe) -> CheckOutcome {
    match c {
        Check::FileExists(f) => file_exists_outcome(f.pattern, probe),
    }
}

impl Check {
    /// Decides this check from what the file system shows of its path.
    pub fn check(&self, probe: &PathProbe) -> (r: Result<bool, CheckError>)
        ensures
            outcome_of(r) == audit_outcome(*self, *probe),
    {
        match self {
            Check::FileExists(file_exists) => file_exists.check(probe),
        }
    }
}

/// A rule of a baseline: a list of audit checks.
#[derive(Debug)]
pub struct Rule {
    pub name: String,
    pub description: Option<String>,
    pub manufacturer: Option<String>,
    pub audit: Vec<Check>,
}

/// A security baseline: a list of rules.
#[derive(Debug)]
pub struct Baseline {
    pub name: String,
    pub description: Option<String>,
    pub manufacturer: Option<String>,
    pub content: Vec<Rule>,
}

/// The compliance status of a baseline.
#[derive(Debug, PartialEq, Eq, Structural)]
pub enum Status {
    Compliant,
    NonCompliant,
}

/// The status that the checks of one rule decide, from the `i`-th on, where one decides it:
/// a failed check makes the baseline non-compliant, and a check that cannot decide stops the
/// audit with its error. `None` where every check from the `i`-th on passes.
pub open spec fn audit_decision(checks: Seq<Check>, probes: Seq<PathProbe>, i: int) -> Option<CheckOutcome>
    decreases checks.len() - i,
{
    if i < 0 || i >= checks.len() {
        None
    } else {
        match audit_outcome(checks[i], probes[i]) {
            CheckOutcome::Passed => audit_decision(checks, probes, i + 1),
            other => Some(other),
        }
    }
}

/// The status that the rules decide, from the `i`-th rule on; `None` where every check passes.
pub open spec fn rules_decision(rules: Seq<Rule>, probes: Seq<Vec<PathProbe>>, i: int) -> Option<CheckOutcome>
    decreases rules.len() - i,
{
    if i < 0 || i >= rules.len() {
        None
    } else {
        match audit_decision(rules[i].audit@, probes[i]@, 0) {
            None => rules_decision(rules, probes, i + 1),
            Some(o) => Some(o),
        }
    }
}

/// The probes line up with the checks: one list per rule, one probe per check.
pub open spec fn probes_fit(rules: Seq<Rule>, probes: Seq<Vec<PathProbe>>) -> bool {
    &&& probes.len() == rules.len()
    &&& forall|i: int| 0 <= i < rules.len() ==> (#[trigger] probes[i])@.len() == rules[i].audit@.len()
}

/// The result of a baseline audit that the decision stands for.
pub open spec fn status_outcome(r: Result<Status, CheckError>) -> Option<CheckOutcome> {
    match r {
        Ok(Status::Compliant) => None,
        Ok(Status::NonCompliant) => Some(CheckOutcome::Failed),
        Err(CheckError::Io(e)) => Some(CheckOutcome::Io(e)),
        Err(CheckError::Pattern(_)) => Some(CheckOutcome::InvalidPattern),
    }
}

impl Baseline {
    /// Audits the baseline, rule by rule and check by check in order: the first failed check
    /// makes it non-compliant; if every check passes it is compliant. A check that cannot
    /// decide stops the audit with its error.
    pub fn check_status(&self, probes: &Vec<Vec<PathProbe>>) -> (r: Result<Status, CheckError>)
        requires
            probes_fit(self.content@, probes@),
        ensures
            status_outcome(r) == rules_decision(self.content@, probes@, 0),
    {
        let mut i: usize = 0;
        while i < self.content.len()
            invariant
                i <= self.content@.len(),
                probes_fit(self.content@, probes@),
                rules_decision(self.content@, probes@, 0) == rules_decision(self.content@, probes@, i as int),
            decreases self.content@.len() - i,
        {
            let rule = &self.content[i];
            let rule_probes = &probes[i];
            let mut j: usize = 0;
            while j < rule.audit.len()
                invariant
                    i < self.content@.len(),
                    probes_fit(self.content@, probes@),
                    rules_decision(self.content@, probes@, 0) == rules_decision(self.content@, probes@, i as int),
                    *rule == self.content@[i as int],
                    *rule_probes == probes@[i as int],
                    j <= rule.audit@.len(),
                    rule_probes@.len() == rule.audit@.len(),
                    audit_decision(rule.audit@, rule_probes@, 0) == audit_decision(rule.audit@, rule_probes@, j as int),
                decreases rule.audit@.len() - j,
            {
                let outcome = rule.audit[j].check(&rule_probes[j]);
                match outcome {
                    Ok(true) => {},
                    Ok(false) => {
                        assert(rules_decision(self.content@, probes@, i as int) == Some(CheckOutcome::Failed));
                        return Ok(Status::NonCompliant);
                    },
                    Err(e) => {
                        assert(rules_decision(self.content@, probes@, i as int) == status_outcome(Err(e)));
                        return Err(e);
                    },
                }
                j = j + 1;
            }
            assert(rules_decision(self.content@, probes@, i as int) == rules_decision(self.content@, probes@, i + 1));
            i = i + 1;
        }
        Ok(Status::Compliant)
    }
}

/// A baseline whose probes fit is compliant exactly when every one of its checks passes.
pub proof fn law_compliant_iff_all_pass(rules: Seq<Rule>, probes: Seq<Vec<PathProbe>>)
    requires
        probes_fit(rules, probes),
    ensures
        rules_decision(rules, probes, 0) is None <==> forall|i: int, j: int|
            0 <= i < rules.len() && 0 <= j < rules[i].audit@.len() ==> audit_outcome(
                #[trigger] rules[i].audit@[j],
                probes[i]@[j],
            ) == CheckOutcome::Passed,
{
    lemma_rules_decision(rules, probes, 0);
}

proof fn lemma_audit_decision(checks: Seq<Check>, probes: Seq<PathProbe>, i: int)
    requires
        0 <= i <= checks.len(),
    ensures
        audit_decision(checks, probes, i) is None <==> forall|j: int|
            i <= j < checks.len() ==> audit_outcome(#[trigger] checks[j], probes[j]) == CheckOutcome::Passed,
    decreases checks.len() - i,
{
    if i < checks.len() {
        lemma_audit_decision(checks, probes, i + 1);
    }
}

proof fn lemma_rules_decision(rules: Seq<Rule>, probes: Seq<Vec<PathProbe>>, i: int)
    requires
        probes_fit(rules, probes),
        0 <= i <= rules.len(),
    ensures
        rules_decision(rules, probes, i) is None <==> forall|k: int, j: int|
            i <= k < rules.len() && 0 <= j < rules[k].audit@.len() ==> audit_outcome(
                #[trigger] rules[k].audit@[j],
                probes[k]@[j],
            ) == CheckOutcome::Passed,
    decreases rules.len() - i,
{
    if i < rules.len() {
        lemma_rules_decision(rules, probes, i + 1);
        lemma_audit_decision(rules[i].audit@, probes[i]@, 0);
        assert(probes[i]@.len() == rules[i].audit@.len());
    }
}

} // verus!
