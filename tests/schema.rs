use netchecks_api::{
    printer_columns, ConfigMap, Context, ExpectedResult, NetworkAssertionRule,
    NetworkAssertionSpec, NetworkAssertionStatus, NetworkAssertionStatusCreation, PrinterColumn,
    RuleType, RuleValidation, Violation,
};

fn http_rule(name: &str, url: &str) -> NetworkAssertionRule {
    NetworkAssertionRule::http(String::from(name), String::from(url))
}

#[test]
fn http_rule_builder() {
    let r = http_rule("web", "https://example.com");
    assert_eq!(r.name, "web");
    assert_eq!(r.rule_type, RuleType::Http);
    assert_eq!(r.url.as_deref(), Some("https://example.com"));
    assert_eq!(r.expected, Some(ExpectedResult::Pass));
    assert!(r.host.is_none() && r.server.is_none() && r.headers.is_none());
    assert!(r.validate.is_none());
}

#[test]
fn dns_rule_builder() {
    let r = NetworkAssertionRule::dns(String::from("lookup"), String::from("github.com"));
    assert_eq!(r.rule_type, RuleType::Dns);
    assert_eq!(r.host.as_deref(), Some("github.com"));
    assert!(r.url.is_none());
}

#[test]
fn spec_without_rules_is_flagged() {
    let spec = NetworkAssertionSpec::with_rules(Vec::new());
    assert_eq!(spec.validate(), vec![Violation::NoRules]);
    assert!(!spec.is_runnable());
}

#[test]
fn complete_rules_are_runnable() {
    let spec = NetworkAssertionSpec::with_rules(vec![
        http_rule("web", "https://example.com"),
        NetworkAssertionRule::dns(String::from("lookup"), String::from("github.com")),
    ]);
    assert_eq!(spec.validate(), Vec::<Violation>::new());
    assert!(spec.is_runnable());
}

#[test]
fn rules_missing_targets_are_flagged_in_order() {
    let mut web = http_rule("web", "https://example.com");
    web.url = None;
    let mut lookup = NetworkAssertionRule::dns(String::from("lookup"), String::from("x"));
    lookup.host = None;
    lookup.server = Some(String::from("1.1.1.1"));
    let ok = http_rule("ok", "https://example.org");
    let spec = NetworkAssertionSpec::with_rules(vec![ok, web, lookup]);
    assert_eq!(
        spec.validate(),
        vec![Violation::MissingUrl(1), Violation::MissingHost(2)]
    );
    assert!(!spec.is_runnable());
}

#[test]
fn rule_violation_by_position() {
    let mut r = http_rule("web", "https://example.com");
    assert_eq!(r.violation(3), None);
    r.url = None;
    assert_eq!(r.violation(3), Some(Violation::MissingUrl(3)));
}

#[test]
fn spec_builder_leaves_options_unset() {
    let spec = NetworkAssertionSpec::with_rules(vec![http_rule("web", "https://example.com")]);
    assert!(spec.schedule.is_none());
    assert!(spec.disable_redaction.is_none());
    assert!(spec.context.is_none());
    assert_eq!(spec.rules.len(), 1);
}

#[test]
fn declared_team_column_names_no_spec_field() {
    let cols = printer_columns();
    assert_eq!(cols.len(), 1);
    assert_eq!(cols[0].name, "Team");
    assert_eq!(cols[0].json_path, ".spec.metadata.team");
    assert_eq!(cols[0].column_type, "string");
    assert!(!cols[0].resolves());
}

#[test]
fn column_over_a_scalar_field_resolves() {
    let col = PrinterColumn {
        name: String::from("Schedule"),
        json_path: String::from(".spec.schedule"),
        column_type: String::from("string"),
    };
    assert!(col.resolves());
    let rules = PrinterColumn {
        name: String::from("Rules"),
        json_path: String::from(".spec.rules"),
        column_type: String::from("string"),
    };
    assert!(!rules.resolves());
}

#[test]
fn status_records_job() {
    let s = NetworkAssertionStatus::for_job(String::from("job-1"), String::from("uid-1"));
    assert_eq!(s.creation.job_name, "job-1");
    assert_eq!(s.creation.job_uid, "uid-1");
}

#[test]
fn defaults_are_empty() {
    let s = NetworkAssertionStatus::default();
    assert!(s.creation.job_name.is_empty() && s.creation.job_uid.is_empty());
    let c = NetworkAssertionStatusCreation::default();
    assert!(c.job_name.is_empty());
    let v = RuleValidation::default();
    assert!(v.message.is_empty() && v.pattern.is_none());
    let ctx = Context::default();
    assert!(ctx.name.is_empty() && ctx.config_map.is_none());
    assert!(ConfigMap::default().name.is_empty());
}
