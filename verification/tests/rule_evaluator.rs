use hegemonia_launcher::platform::Os;
use hegemonia_launcher::rules::{Rule, RuleAction, library_applies};

#[test]
fn no_rules_always_applies() {
    assert!(library_applies(&None, Os::Linux));
    assert!(library_applies(&None, Os::Windows));
    assert!(library_applies(&None, Os::MacOs));
}

#[test]
fn empty_rule_list_applies() {
    assert!(library_applies(&Some(Vec::new()), Os::Linux));
}

#[test]
fn allow_rule_for_other_os_defaults_to_applies() {
    let rules = vec![Rule { action: RuleAction::Allow, os: Some(Os::Windows) }];
    assert!(library_applies(&Some(rules), Os::Linux));
}

#[test]
fn os_specific_rule_short_circuits_over_default() {
    let rules = vec![
        Rule { action: RuleAction::Deny, os: None },
        Rule { action: RuleAction::Allow, os: Some(Os::MacOs) },
    ];
    assert!(library_applies(&Some(rules), Os::MacOs));
}

#[test]
fn unconstrained_deny_denies_everywhere() {
    for os in [Os::Windows, Os::MacOs, Os::Linux] {
        let rules = vec![Rule { action: RuleAction::Deny, os: None }];
        assert!(!library_applies(&Some(rules), os));
    }
}

#[test]
fn matching_allow_rule_applies() {
    let rules = vec![Rule { action: RuleAction::Allow, os: Some(Os::Linux) }];
    assert!(library_applies(&Some(rules), Os::Linux));
}

#[test]
fn matching_deny_rule_blocks() {
    let rules = vec![
        Rule { action: RuleAction::Allow, os: None },
        Rule { action: RuleAction::Deny, os: Some(Os::MacOs) },
    ];
    assert!(!library_applies(&Some(rules.clone()), Os::MacOs));
    assert!(library_applies(&Some(rules), Os::Linux));
}
