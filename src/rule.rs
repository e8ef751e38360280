use std::collections::HashMap;
use vstd::prelude::*;

verus! {

/// A check on the response of a rule: a message and an optional pattern
/// that the response must match.
#[derive(Clone, Debug)]
pub struct RuleValidation {
    pub message: String,
    pub pattern: Option<String>,
}

/// A named execution context, optionally backed by a config map.
#[derive(Clone, Debug)]
pub struct Context {
    pub name: String,
    pub config_map: Option<ConfigMap>,
}

/// A reference to a config map by name.
#[derive(Clone, Debug)]
pub struct ConfigMap {
    pub name: String,
}

/// The kind of connectivity check a rule performs.
#[derive(Clone, Copy, Debug, PartialEq, Eq, Structural)]
pub enum RuleType {
    Http,
    Dns,
}

/// The outcome a rule expects from its check.
#[derive(Clone, Copy, Debug, PartialEq, Eq, Structural)]
pub enum ExpectedResult {
    Pass,
    Fail,
}

/// One connectivity check of a network assertion.
#[derive(Clone, Debug)]
pub struct NetworkAssertionRule {
    pub name: String,
    pub rule_type: RuleType,
    pub url: Option<String>,
    pub server: Option<String>,
    pub host: Option<String>,
    pub expected: Option<ExpectedResult>,
    pub headers: Option<HashMap<String, String>>,
    pub validate: Option<RuleValidation>,
}

/// A reason why an assertion's rules cannot be run as written.
#[derive(Clone, Copy, Debug, PartialEq, Eq, Structural)]
pub enum Violation {
    /// The assertion declares no rule at all.
    NoRules,
    /// The http rule at this position has no url.
    MissingUrl(usize),
    /// The dns rule at this position has no host to resolve.
    MissingHost(usize),
}

/// What is wrong with a single rule standing at position `index`, if anything:
/// an http rule needs a url, a dns rule needs a host.
pub open spec fn rule_violation(rule: NetworkAssertionRule, index: usize) -> Option<Violation> {
    match rule.rule_type {
        RuleType::Http => if rule.url is None {
            Some(Violation::MissingUrl(index))
        } else {
            None
        },
        RuleType::Dns => if rule.host is None {
            Some(Violation::MissingHost(index))
        } else {
            None
        },
    }
}

/// The violations of the first `n` rules, in rule order.
pub open spec fn rules_violations(rules: Seq<NetworkAssertionRule>, n: int) -> Seq<Violation>
    decreases n,
{
    if n <= 0 {
        Seq::empty()
    } else {
        let before = rules_violations(rules, n - 1);
        match rule_violation(rules[n - 1], (n - 1) as usize) {
            Some(v) => before.push(v),
            None => before,
        }
    }
}

impl NetworkAssertionRule {
    /// An http rule that expects `url` to be reachable.
    pub fn http(name: String, url: String) -> (r: Self)
        ensures
            r.name == name,
            r.rule_type == RuleType::Http,
            r.url == Some(url),
            r.server is None,
            r.host is None,
            r.expected == Some(ExpectedResult::Pass),
            r.headers is None,
            r.validate is None,
    {
        NetworkAssertionRule {
            name,
            rule_type: RuleType::Http,
            url: Some(url),
            server: None,
            host: None,
            expected: Some(ExpectedResult::Pass),
            headers: None,
            validate: None,
        }
    }

    /// A dns rule that expects `host` to resolve.
    pub fn dns(name: String, host: String) -> (r: Self)
        ensures
            r.name == name,
            r.rule_type == RuleType::Dns,
            r.url is None,
            r.server is None,
            r.host == Some(host),
            r.expected == Some(ExpectedResult::Pass),
            r.headers is None,
            r.validate is None,
    {
        NetworkAssertionRule {
            name,
            rule_type: RuleType::Dns,
            url: None,
            server: None,
            host: Some(host),
            expected: Some(ExpectedResult::Pass),
            headers: None,
            validate: None,
        }
    }

    /// What is wrong with this rule when it stands at position `index`.
    pub fn violation(&self, index: usize) -> (r: Option<Violation>)
        ensures
            r == rule_violation(*self, index),
    {
        match self.rule_type {
            RuleType::Http => if self.url.is_none() {
                Some(Violation::MissingUrl(index))
            } else {
                None
            },
            RuleType::Dns => if self.host.is_none() {
                Some(Violation::MissingHost(index))
            } else {
                None
            },
        }
    }
}

impl Default for RuleValidation {
    fn default() -> (r: Self)
        ensures
            r.message@ == Seq::<char>::empty(),
            r.pattern is None,
    {
        RuleValidation { message: String::new(), pattern: None }
    }
}

impl Default for Context {
    fn default() -> (r: Self)
        ensures
            r.name@ == Seq::<char>::empty(),
            r.config_map is None,
    {
        Context { name: String::new(), config_map: None }
    }
}

impl Default for ConfigMap {
    fn default() -> (r: Self)
        ensures
            r.name@ == Seq::<char>::empty(),
    {
        ConfigMap { name: String::new() }
    }
}

} // verus!
