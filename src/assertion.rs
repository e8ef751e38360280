use crate::rule::{rule_violation, rules_violations, Context, NetworkAssertionRule, Violation};
use vstd::prelude::*;

verus! {

/// The desired state of a `NetworkAssertion` resource: an optional schedule,
/// an optional redaction switch, optional execution contexts, and the rules
/// to check.
#[derive(Clone, Debug)]
pub struct NetworkAssertionSpec {
    pub schedule: Option<String>,
    pub disable_redaction: Option<bool>,
    pub context: Option<Vec<Context>>,
    pub rules: Vec<NetworkAssertionRule>,
}

/// The identity of the job most recently launched for an assertion.
#[derive(Clone, Debug)]
pub struct NetworkAssertionStatusCreation {
    pub job_name: String,
    pub job_uid: String,
}

/// The status subresource of a `NetworkAssertion`.
#[derive(Clone, Debug)]
pub struct NetworkAssertionStatus {
    pub creation: NetworkAssertionStatusCreation,
}

/// Every violation of an assertion: `NoRules` first where it has no rule, then
/// those of its rules in rule order.
pub open spec fn spec_violations(s: NetworkAssertionSpec) -> Seq<Violation> {
    let head = if s.rules@.len() == 0 {
        seq![Violation::NoRules]
    } else {
        Seq::empty()
    };
    head + rules_violations(s.rules@, s.rules@.len() as int)
}

/// An assertion whose rules can all be run: it has at least one rule, and
/// each rule carries what its type needs.
pub open spec fn spec_is_runnable(s: NetworkAssertionSpec) -> bool {
    &&& s.rules@.len() > 0
    &&& forall|i: int|
        0 <= i < s.rules@.len() ==> (#[trigger] rule_violation(s.rules@[i], i as usize)) is None
}

/// The violations of the first `n` rules are empty exactly when none of those
/// rules has a violation.
proof fn lemma_rules_violations_empty(rules: Seq<NetworkAssertionRule>, n: int)
    requires
        0 <= n <= rules.len(),
    ensures
        rules_violations(rules, n).len() == 0 <==> forall|i: int|
            0 <= i < n ==> (#[trigger] rule_violation(rules[i], i as usize)) is None,
    decreases n,
{
    if n > 0 {
        lemma_rules_violations_empty(rules, n - 1);
        lemma_rules_violations_len(rules, n - 1);
        if rules_violations(rules, n).len() == 0 {
            assert forall|i: int| 0 <= i < n implies (#[trigger] rule_violation(
                rules[i],
                i as usize,
            )) is None by {
                if i < n - 1 {
                } else {
                    assert(i == n - 1);
                }
            }
        }
    }
}

/// The violations of a prefix never shrink as the prefix grows.
proof fn lemma_rules_violations_len(rules: Seq<NetworkAssertionRule>, n: int)
    ensures
        rules_violations(rules, n).len() <= rules_violations(rules, n + 1).len(),
{
}

/// An assertion has no violation exactly when it is runnable.
pub proof fn no_violation_iff_runnable(s: NetworkAssertionSpec)
    ensures
        spec_violations(s).len() == 0 <==> spec_is_runnable(s),
{
    lemma_rules_violations_empty(s.rules@, s.rules@.len() as int);
}

impl NetworkAssertionSpec {
    /// An assertion with the given rules and nothing else set.
    pub fn with_rules(rules: Vec<NetworkAssertionRule>) -> (r: Self)
        ensures
            r.schedule is None,
            r.disable_redaction is None,
            r.context is None,
            r.rules@ == rules@,
    {
        NetworkAssertionSpec { schedule: None, disable_redaction: None, context: None, rules }
    }

    /// Every reason why this assertion's rules cannot be run as written.
    pub fn validate(&self) -> (r: Vec<Violation>)
        ensures
            r@ == spec_violations(*self),
    {
        let mut out: Vec<Violation> = Vec::new();
        if self.rules.len() == 0 {
            out.push(Violation::NoRules);
        }
        let ghost head = out@;
        let mut i: usize = 0;
        while i < self.rules.len()
            invariant
                i <= self.rules@.len(),
                head == (if self.rules@.len() == 0 {
                    seq![Violation::NoRules]
                } else {
                    Seq::<Violation>::empty()
                }),
                out@ == head + rules_violations(self.rules@, i as int),
            decreases self.rules@.len() - i,
        {
            match self.rules[i].violation(i) {
                Some(v) => {
                    out.push(v);
                },
                None => {},
            }
            i += 1;
            assert(out@ =~= head + rules_violations(self.rules@, i as int));
        }
        out
    }

    /// Whether every rule of this assertion can be run as written.
    pub fn is_runnable(&self) -> (r: bool)
        ensures
            r == spec_is_runnable(*self),
    {
        let v = self.validate();
        proof {
            no_violation_iff_runnable(*self);
        }
        v.len() == 0
    }
}

/// An extra column that cluster tools print for each assertion: its title,
/// the JSON path of the value it shows, and that value's type.
#[derive(Clone, Debug)]
pub struct PrinterColumn {
    pub name: String,
    pub json_path: String,
    pub column_type: String,
}

/// The JSON paths of the spec's scalar fields, the values a printer column
/// can show.
pub open spec fn scalar_field_paths() -> Seq<Seq<char>> {
    seq![".spec.schedule"@, ".spec.disable_redaction"@]
}

/// The printer columns declared for `NetworkAssertion`.
pub fn printer_columns() -> (r: Vec<PrinterColumn>)
    ensures
        r@.len() == 1,
        r@[0].name@ == "Team"@,
        r@[0].json_path@ == ".spec.metadata.team"@,
        r@[0].column_type@ == "string"@,
{
    let mut r: Vec<PrinterColumn> = Vec::new();
    r.push(
        PrinterColumn {
            name: String::from_str("Team"),
            json_path: String::from_str(".spec.metadata.team"),
            column_type: String::from_str("string"),
        },
    );
    r
}

impl PrinterColumn {
    /// Whether this column's path names a scalar field of the spec.
    pub fn resolves(&self) -> (r: bool)
        ensures
            r == scalar_field_paths().contains(self.json_path@),
    {
        let mut paths: Vec<String> = Vec::new();
        paths.push(String::from_str(".spec.schedule"));
        paths.push(String::from_str(".spec.disable_redaction"));
        let ghost want = paths@.map_values(|p: String| p@);
        assert(want =~= scalar_field_paths());
        let mut i: usize = 0;
        while i < paths.len()
            invariant
                i <= paths@.len(),
                want == paths@.map_values(|p: String| p@),
                want == scalar_field_paths(),
                forall|j: int| 0 <= j < i ==> want[j] != self.json_path@,
            decreases paths@.len() - i,
        {
            if paths[i] == self.json_path {
                assert(want[i as int] == self.json_path@);
                assert(want.contains(self.json_path@));
                return true;
            }
            i += 1;
        }
        assert(!want.contains(self.json_path@));
        false
    }
}

impl NetworkAssertionStatus {
    /// The status that records the launch of the job `job_name` / `job_uid`.
    pub fn for_job(job_name: String, job_uid: String) -> (r: Self)
        ensures
            r.creation.job_name == job_name,
            r.creation.job_uid == job_uid,
    {
        NetworkAssertionStatus { creation: NetworkAssertionStatusCreation { job_name, job_uid } }
    }
}

impl Default for NetworkAssertionStatusCreation {
    fn default() -> (r: Self)
        ensures
            r.job_name@ == Seq::<char>::empty(),
            r.job_uid@ == Seq::<char>::empty(),
    {
        NetworkAssertionStatusCreation { job_name: String::new(), job_uid: String::new() }
    }
}

impl Default for NetworkAssertionStatus {
    fn default() -> (r: Self)
        ensures
            r.creation.job_name@ == Seq::<char>::empty(),
            r.creation.job_uid@ == Seq::<char>::empty(),
    {
        NetworkAssertionStatus { creation: NetworkAssertionStatusCreation::default() }
    }
}

} // verus!
