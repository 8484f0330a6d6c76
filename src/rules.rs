use vstd::prelude::*;
use crate::error::TradeError;
use crate::money::Money;

verus! {

/// The limit a rule sets.
#[derive(Clone, Copy, Debug, PartialEq, Eq)]
pub enum RuleLevel {
    /// The risk of one trade may not exceed this amount.
    MaxRiskPerTrade(Money),
    /// The risk of this trade plus the risk already open may not exceed this amount.
    MaxOpenRisk(Money),
}

/// An account's risk constraint. Rules are deactivated, never deleted;
/// a lower priority value is evaluated first.
#[derive(Clone, Debug)]
pub struct Rule {
    pub name: String,
    pub description: String,
    pub priority: u32,
    pub level: RuleLevel,
    pub active: bool,
}

impl Rule {
    /// Deactivates the rule; it is kept, and no longer evaluated.
    pub fn make_inactive(&mut self)
        ensures
            final(self).active == false,
            final(self).name == old(self).name,
            final(self).description == old(self).description,
            final(self).priority == old(self).priority,
            final(self).level == old(self).level,
    {
        self.active = false;
    }
}

/// Whether an active rule forbids a trade of risk `risk` while `open_risk`
/// is already open.
pub open spec fn violates(rule: Rule, risk: int, open_risk: int) -> bool {
    rule.active && match rule.level {
        RuleLevel::MaxRiskPerTrade(cap) => risk > cap@,
        RuleLevel::MaxOpenRisk(cap) => open_risk + risk > cap@,
    }
}

/// Among the first `n` rules, the violated one evaluated first: lowest
/// priority value, earliest in the list among equals.
pub open spec fn first_violation_in(rules: Seq<Rule>, n: int, risk: int, open_risk: int) -> Option<int>
    decreases n,
{
    if n <= 0 {
        None
    } else {
        let best = first_violation_in(rules, n - 1, risk, open_risk);
        if violates(rules[n - 1], risk, open_risk) && (best matches Some(b) ==> rules[n
            - 1].priority < rules[b].priority) {
            Some(n - 1)
        } else {
            best
        }
    }
}

pub open spec fn first_violation(rules: Seq<Rule>, risk: int, open_risk: int) -> Option<int> {
    first_violation_in(rules, rules.len() as int, risk, open_risk)
}

/// The rule that `first_violation` picks is violated, no violated rule has a
/// lower priority value, and none of equal priority comes before it; when it
/// picks none, no rule is violated.
pub proof fn lemma_first_violation(rules: Seq<Rule>, n: int, risk: int, open_risk: int)
    requires
        0 <= n <= rules.len(),
    ensures
        first_violation_in(rules, n, risk, open_risk) is None ==> forall|j: int|
            0 <= j < n ==> !violates(#[trigger] rules[j], risk, open_risk),
        first_violation_in(rules, n, risk, open_risk) matches Some(i) ==> 0 <= i < n && violates(
            rules[i],
            risk,
            open_risk,
        ) && forall|j: int|
            0 <= j < n && violates(#[trigger] rules[j], risk, open_risk) ==> rules[i].priority
                <= rules[j].priority && (rules[j].priority == rules[i].priority ==> i <= j),
    decreases n,
{
    if n > 0 {
        lemma_first_violation(rules, n - 1, risk, open_risk);
    }
}

fn violates_exec(rule: &Rule, risk: &Money, open_risk: &Money) -> (r: bool)
    ensures
        r == violates(*rule, risk@, open_risk@),
{
    if !rule.active {
        return false;
    }
    let r = risk.units();
    match rule.level {
        RuleLevel::MaxRiskPerTrade(cap) => r > cap.units(),
        RuleLevel::MaxOpenRisk(cap) => open_risk.units() + r > cap.units(),
    }
}

/// Checks a trade of risk `risk`, with `open_risk` already open, against the
/// rules. Fails naming the violated rule evaluated first: active rules are
/// evaluated in ascending priority value, equal values in list order.
pub fn check_rules(rules: &Vec<Rule>, risk: &Money, open_risk: &Money) -> (r: Result<(), TradeError>)
    ensures
        match first_violation(rules@, risk@, open_risk@) {
            None => r is Ok,
            Some(i) => r == Err::<(), TradeError>(TradeError::RuleViolation { rule_name: rules@[i].name }),
        },
{
    let mut best: Option<usize> = None;
    let mut i: usize = 0;
    while i < rules.len()
        invariant
            i <= rules@.len(),
            best == match first_violation_in(rules@, i as int, risk@, open_risk@) {
                Some(b) => Some(b as usize),
                None => None::<usize>,
            },
            first_violation_in(rules@, i as int, risk@, open_risk@) matches Some(b) ==> 0 <= b < i,
        decreases rules@.len() - i,
    {
        proof {
            lemma_first_violation(rules@, i as int, risk@, open_risk@);
        }
        if violates_exec(&rules[i], risk, open_risk) {
            match best {
                None => {
                    best = Some(i);
                },
                Some(b) => {
                    if rules[i].priority < rules[b].priority {
                        best = Some(i);
                    }
                },
            }
        }
        i = i + 1;
    }
    match best {
        None => Ok(()),
        Some(b) => Err(TradeError::RuleViolation { rule_name: rules[b].name.clone() }),
    }
}

} // verus!
