//! Rule evaluator: decides whether a platform-conditional library applies
//! on the host operating system.
//!
//! Rules are evaluated in order. A rule constrained to the host OS
//! returns its action immediately; an unconstrained rule records a
//! running default without stopping; if no OS-specific rule matched, the
//! last recorded default decides, or the library applies when no
//! unconstrained rule existed either.

use vstd::prelude::*;
use crate::platform::Os;

verus! {

/// What a matched rule decides.
#[derive(Clone, Copy, PartialEq, Eq, Structural, Debug)]
pub enum RuleAction {
    Allow,
    Deny,
}

/// One platform-conditional rule: an action, optionally constrained to a
/// single operating system.
#[derive(Clone, Copy, Debug)]
pub struct Rule {
    pub action: RuleAction,
    pub os: Option<Os>,
}

/// Evaluates `rules` left to right with `dflt` as the decision recorded
/// so far by unconstrained rules.
pub open spec fn eval_rules_from(rules: Seq<Rule>, host: Os, dflt: bool) -> bool
    decreases rules.len(),
{
    if rules.len() == 0 {
        dflt
    } else {
        let r0 = rules[0];
        match r0.os {
            Some(o) => if o == host {
                r0.action == RuleAction::Allow
            } else {
                eval_rules_from(rules.skip(1), host, dflt)
            },
            None => eval_rules_from(rules.skip(1), host, r0.action == RuleAction::Allow),
        }
    }
}

/// Whether a rule list allows the host OS; the implicit default, used
/// when no rule decides, is to allow.
pub open spec fn rules_allow(rules: Seq<Rule>, host: Os) -> bool {
    eval_rules_from(rules, host, true)
}

/// Decides whether a library applies on `host`. A library with no rule
/// list always applies.
pub fn library_applies(rules: &Option<Vec<Rule>>, host: Os) -> (r: bool)
    ensures
        r == match *rules {
            Some(v) => rules_allow(v@, host),
            None => true,
        },
{
    match rules {
        None => true,
        Some(v) => {
            let mut dflt = true;
            let mut i: usize = 0;
            proof {
                assert(v@.skip(0) =~= v@);
            }
            while i < v.len()
                invariant
                    i <= v.len(),
                    (*rules) matches Some(w) && w@ == v@,
                    rules_allow(v@, host) == eval_rules_from(v@.skip(i as int), host, dflt),
                decreases v.len() - i,
            {
                let ghost tail = v@.skip(i as int);
                proof {
                    reveal_with_fuel(eval_rules_from, 2);
                    assert(tail[0] == v@[i as int]);
                    assert(tail.skip(1) =~= v@.skip(i as int + 1));
                }
                let rule = &v[i];
                match rule.os {
                    Some(o) => {
                        if o == host {
                            proof {
                                reveal_with_fuel(eval_rules_from, 2);
                                assert(eval_rules_from(tail, host, dflt) == (tail[0].action
                                    == RuleAction::Allow));
                            }
                            return rule.action == RuleAction::Allow;
                        }
                    },
                    None => {
                        dflt = rule.action == RuleAction::Allow;
                    },
                }
                i += 1;
            }
            proof {
                assert(v@.skip(v.len() as int) =~= Seq::<Rule>::empty());
            }
            dflt
        },
    }
}

/// Law: a rule list holding one allow rule constrained to an OS other
/// than the host decides nothing, so the implicit default applies and
/// the result is `true`.
pub proof fn lemma_unmatched_os_rule_defaults_to_allow(constrained: Os, host: Os)
    requires
        constrained != host,
    ensures
        rules_allow(seq![Rule { action: RuleAction::Allow, os: Some(constrained) }], host),
{
    let rules = seq![Rule { action: RuleAction::Allow, os: Some(constrained) }];
    reveal_with_fuel(eval_rules_from, 3);
    assert(rules.skip(1) =~= Seq::<Rule>::empty());
}

/// Law: a rule constrained to the host OS short-circuits over an earlier
/// unconstrained default, so `[deny-unconstrained, allow-host]` allows.
pub proof fn lemma_os_rule_short_circuits(host: Os)
    ensures
        rules_allow(
            seq![
                Rule { action: RuleAction::Deny, os: None },
                Rule { action: RuleAction::Allow, os: Some(host) },
            ],
            host,
        ),
{
    let rules = seq![
        Rule { action: RuleAction::Deny, os: None },
        Rule { action: RuleAction::Allow, os: Some(host) },
    ];
    reveal_with_fuel(eval_rules_from, 3);
    assert(rules.skip(1) =~= seq![Rule { action: RuleAction::Allow, os: Some(host) }]);
}

/// Law: a single unconstrained deny rule denies on every host OS.
pub proof fn lemma_unconstrained_deny_denies(host: Os)
    ensures
        !rules_allow(seq![Rule { action: RuleAction::Deny, os: None }], host),
{
    let rules = seq![Rule { action: RuleAction::Deny, os: None }];
    reveal_with_fuel(eval_rules_from, 3);
    assert(rules.skip(1) =~= Seq::<Rule>::empty());
}

} // verus!
