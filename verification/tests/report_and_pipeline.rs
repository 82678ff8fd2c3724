use ares::graph::ErrorKind;
use ares::pipeline::{enriched_document, inferred_delta, run_pipeline, strict_rejects};
use ares::validator::{report_from_results, violation_from_result, Report, ValidationResult, Violation};

fn result(focus: &str, message: Option<&str>) -> ValidationResult {
    ValidationResult {
        focus_node: focus.to_string(),
        severity: "Violation".to_string(),
        message: message.map(String::from),
        component: "MinCount".to_string(),
    }
}

#[test]
fn empty_report_is_empty() {
    let report = Report { conforms: true, violations: vec![] };
    assert!(report.is_empty());
}

#[test]
fn report_keeps_every_result_in_order() {
    let report = report_from_results(false, vec![result("ex:a", Some("too few")), result("ex:b", None)]);
    assert!(!report.conforms);
    assert!(!report.is_empty());
    assert_eq!(report.violations.len(), 2);
    assert_eq!(report.violations[0].focus_node, "ex:a");
    assert_eq!(report.violations[0].message, "too few");
    assert_eq!(report.violations[1].focus_node, "ex:b");
    assert_eq!(report.violations[1].message, "");
    assert_eq!(report.violations[1].component, "MinCount");
    assert_eq!(report.violations[1].severity, "Violation");
}

#[test]
fn violation_without_message_reads_empty() {
    let v: Violation = violation_from_result(result("ex:c", None));
    assert_eq!(v.message, "");
    assert_eq!(v.focus_node, "ex:c");
}

#[test]
fn delta_is_closure_minus_base() {
    assert_eq!(inferred_delta(10, 25), 15);
    assert_eq!(inferred_delta(25, 10), -15);
    assert_eq!(inferred_delta(0, 0), 0);
}

#[test]
fn enriched_document_joins_with_newlines() {
    assert_eq!(enriched_document("D", "S", "C .\n"), "D\nS\nC .\n");
}

const SCHEMA: &str = r#"
@prefix ex:   <http://example.org/agent#> .
@prefix rdfs: <http://www.w3.org/2000/01/rdf-schema#> .
ex:ResearchAgent rdfs:subClassOf ex:Agent .
"#;

const DATA: &str = r#"
@prefix ex: <http://example.org/agent#> .
ex:Ares a ex:ResearchAgent .
ex:obs_0001 a ex:Observation .
"#;

const CLOSURE: &str = "<http://example.org/agent#ResearchAgent> <http://www.w3.org/2000/01/rdf-schema#subClassOf> <http://example.org/agent#Agent> .
<http://example.org/agent#Ares> <http://www.w3.org/1999/02/22-rdf-syntax-ns#type> <http://example.org/agent#ResearchAgent> .
<http://example.org/agent#Ares> <http://www.w3.org/1999/02/22-rdf-syntax-ns#type> <http://example.org/agent#Agent> .
<http://example.org/agent#obs_0001> <http://www.w3.org/1999/02/22-rdf-syntax-ns#type> <http://example.org/agent#ConfidentObservation> .
";

#[test]
fn pipeline_counts_and_queries() {
    let shacl = Report { conforms: true, violations: vec![] };
    let report = run_pipeline("schema.ttl", SCHEMA.as_bytes(), "data.ttl", DATA.as_bytes(), CLOSURE, shacl).unwrap();
    assert_eq!(report.base_triples, 3);
    assert_eq!(report.closure_triples, 4);
    assert_eq!(report.inferred_delta, 1);
    assert!(report.shacl.conforms);
    assert_eq!(report.sample_queries.len(), 2);
    assert_eq!(report.sample_queries[0].name, "agents-by-role");
    assert_eq!(report.sample_queries[0].rows.len(), 2);
    assert_eq!(report.sample_queries[1].name, "confident-observations");
    assert_eq!(
        report.sample_queries[1].rows,
        vec![vec![("obs".to_string(), "<http://example.org/agent#obs_0001>".to_string())]]
    );
}

#[test]
fn pipeline_fails_on_broken_schema() {
    let shacl = Report { conforms: true, violations: vec![] };
    let r = run_pipeline("schema.ttl", b"this is not turtle", "data.ttl", DATA.as_bytes(), CLOSURE, shacl);
    assert_eq!(r.err().unwrap().kind, ErrorKind::Load);
}

#[test]
fn pipeline_errors_name_the_failing_step() {
    let shacl = Report { conforms: true, violations: vec![] };
    let r = run_pipeline("schema.ttl", SCHEMA.as_bytes(), "data.ttl", b"ex:a", CLOSURE, shacl);
    assert_eq!(r.err().unwrap().message(), "parsing Turtle file data.ttl");
    let shacl = Report { conforms: true, violations: vec![] };
    let r = run_pipeline("s.ttl", b"not turtle", "d.ttl", DATA.as_bytes(), CLOSURE, shacl);
    assert_eq!(r.err().unwrap().message(), "parsing Turtle file s.ttl");
    let shacl = Report { conforms: true, violations: vec![] };
    let r = run_pipeline("schema.ttl", SCHEMA.as_bytes(), "data.ttl", DATA.as_bytes(), "<a> <b>", shacl);
    let e = r.err().unwrap();
    assert_eq!(e.kind, ErrorKind::Load);
    assert_eq!(e.message(), "loading closure into ex:inferred");
}

#[test]
fn pipeline_twice_gives_the_same_counts() {
    let a = run_pipeline("schema.ttl", SCHEMA.as_bytes(), "data.ttl", DATA.as_bytes(), CLOSURE,
        Report { conforms: true, violations: vec![] }).unwrap();
    let b = run_pipeline("schema.ttl", SCHEMA.as_bytes(), "data.ttl", DATA.as_bytes(), CLOSURE,
        Report { conforms: true, violations: vec![] }).unwrap();
    assert_eq!(a.base_triples, b.base_triples);
    assert_eq!(a.closure_triples, b.closure_triples);
    assert_eq!(a.inferred_delta, b.inferred_delta);
}

#[test]
fn pipeline_wants_strict_ntriples_for_the_closure() {
    let turtle_closure = "@prefix ex: <http://example.org/agent#> .\nex:Ares a ex:Agent .\n";
    let shacl = Report { conforms: true, violations: vec![] };
    let r = run_pipeline("schema.ttl", SCHEMA.as_bytes(), "data.ttl", DATA.as_bytes(), turtle_closure, shacl);
    assert_eq!(r.err().unwrap().message(), "loading closure into ex:inferred");
}

#[test]
fn strict_rejects_only_nonconforming_reports() {
    let bad = Report { conforms: false, violations: vec![] };
    let report = run_pipeline("schema.ttl", SCHEMA.as_bytes(), "data.ttl", DATA.as_bytes(), CLOSURE, bad).unwrap();
    assert!(strict_rejects(true, &report));
    assert!(!strict_rejects(false, &report));
    let good = Report { conforms: true, violations: vec![] };
    let report = run_pipeline("schema.ttl", SCHEMA.as_bytes(), "data.ttl", DATA.as_bytes(), CLOSURE, good).unwrap();
    assert!(!strict_rejects(true, &report));
}
