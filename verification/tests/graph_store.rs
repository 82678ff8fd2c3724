use ares::graph::{
    ask, ask_from_answer, count_all, count_quads, dump_nquads, execute_update,
    load_ntriples_into_named_graph, load_turtle_into_named_graph, load_turtle_reader, new_store,
    promise_update, record_promise, rows_from_answer, select_rows, store_len, load_turtle_file, load_ntriples, ErrorKind,
    GraphSelector, PatternNode, QueryAnswer, QuadPattern, EX,
};

const DATA: &str = r#"
@prefix ex:   <http://example.org/agent#> .
@prefix rdfs: <http://www.w3.org/2000/01/rdf-schema#> .

ex:obs_0001 a ex:Observation ;
    ex:assertedBy ex:Ares ;
    ex:hasSubject ex:paper1 ;
    ex:confidence 0.92 .
ex:paper1 rdfs:label "Agent memory as graphs" .
"#;

const CALLIOPE: &str = r#"
@prefix ex: <http://example.org/agent#> .
ex:obs_0002 ex:assertedBy ex:Calliope ;
    ex:confidence 0.81 .
"#;

fn loaded() -> oxigraph::store::Store {
    let mut store = new_store().unwrap();
    load_turtle_reader(&mut store, DATA.as_bytes()).unwrap();
    store
}

fn pattern(
    s: Option<&str>,
    p: Option<&str>,
    o: Option<&str>,
    g: Option<GraphSelector>,
) -> QuadPattern {
    QuadPattern {
        subject: s.map(|x| PatternNode::Iri(x.to_string())),
        predicate: p.map(String::from),
        object: o.map(|x| PatternNode::Iri(x.to_string())),
        graph: g,
    }
}

#[test]
fn new_store_is_empty() {
    let store = new_store().unwrap();
    assert_eq!(store_len(&store).unwrap(), 0);
    assert_eq!(count_all(&store).unwrap(), 0);
}

#[test]
fn turtle_goes_into_the_default_graph() {
    let store = loaded();
    assert_eq!(store_len(&store).unwrap(), 5);
    assert_eq!(count_all(&store).unwrap(), 5);
}

#[test]
fn named_graph_load_keeps_default_graph() {
    let mut store = loaded();
    let g = format!("{}observations/Calliope", EX);
    load_turtle_into_named_graph(&mut store, "observations-calliope.ttl", CALLIOPE.as_bytes(), &g).unwrap();
    assert_eq!(count_all(&store).unwrap(), 5);
    assert_eq!(store_len(&store).unwrap(), 7);
    let in_graph = pattern(None, None, None, Some(GraphSelector::Named(g.clone())));
    assert_eq!(count_quads(&store, &in_graph).unwrap(), 2);
}

#[test]
fn invalid_graph_iri_is_refused_and_store_unchanged() {
    let mut store = loaded();
    let r = load_turtle_into_named_graph(&mut store, "observations-calliope.ttl", CALLIOPE.as_bytes(), "not an iri");
    assert_eq!(r.unwrap_err().kind, ErrorKind::InvalidIri);
    assert_eq!(store_len(&store).unwrap(), 5);
}

#[test]
fn broken_turtle_fails_and_changes_nothing() {
    let mut store = loaded();
    let bad = "@prefix ex: <http://example.org/agent#> .\nex:a ex:b ex:c .\nex:d ex:e";
    let r = load_turtle_reader(&mut store, bad.as_bytes());
    assert_eq!(r.unwrap_err().kind, ErrorKind::Load);
    assert_eq!(store_len(&store).unwrap(), 5);
}

#[test]
fn ntriples_into_named_graph() {
    let mut store = new_store().unwrap();
    let nt = "<http://example.org/agent#a> <http://example.org/agent#p> <http://example.org/agent#b> .\n";
    let g = format!("{}inferred", EX);
    load_ntriples_into_named_graph(&mut store, nt, &g).unwrap();
    assert_eq!(store_len(&store).unwrap(), 1);
    assert_eq!(count_all(&store).unwrap(), 0);
}

#[test]
fn count_quads_with_pattern() {
    let store = loaded();
    let p = pattern(
        None,
        Some("http://example.org/agent#assertedBy"),
        Some("http://example.org/agent#Ares"),
        Some(GraphSelector::Default),
    );
    assert_eq!(count_quads(&store, &p).unwrap(), 1);
    let all = pattern(None, None, None, None);
    assert_eq!(count_quads(&store, &all).unwrap(), 5);
    let bad = pattern(Some("no iri"), None, None, None);
    assert_eq!(count_quads(&store, &bad).unwrap_err().kind, ErrorKind::InvalidIri);
}

#[test]
fn select_rows_pairs_variables_with_values() {
    let store = loaded();
    let q = r#"
        PREFIX ex:   <http://example.org/agent#>
        PREFIX rdfs: <http://www.w3.org/2000/01/rdf-schema#>
        SELECT ?paper ?title ?missing
        WHERE {
            ?obs ex:assertedBy ex:Ares ; ex:hasSubject ?paper .
            ?paper rdfs:label ?title .
            OPTIONAL { ?paper ex:nothing ?missing }
        }
    "#;
    let rows = select_rows(&store, q).unwrap();
    assert_eq!(
        rows,
        vec![vec![
            ("paper".to_string(), "<http://example.org/agent#paper1>".to_string()),
            ("title".to_string(), "\"Agent memory as graphs\"".to_string()),
            ("missing".to_string(), "UNBOUND".to_string()),
        ]]
    );
}

#[test]
fn select_rows_reports_syntax_errors() {
    let store = loaded();
    assert_eq!(select_rows(&store, "SELEKT nothing").unwrap_err().kind, ErrorKind::Syntax);
}

#[test]
fn select_rows_of_ask_is_empty() {
    let store = loaded();
    let rows = select_rows(&store, "ASK { ?s ?p ?o }").unwrap();
    assert!(rows.is_empty());
}

#[test]
fn ask_answers_and_refuses_select() {
    let store = loaded();
    let yes = "PREFIX ex: <http://example.org/agent#> ASK { ex:obs_0001 a ex:Observation }";
    let no = "PREFIX ex: <http://example.org/agent#> ASK { ex:obs_0001 a ex:ConfidentObservation }";
    assert_eq!(ask(&store, yes).unwrap(), true);
    assert_eq!(ask(&store, no).unwrap(), false);
    assert_eq!(ask(&store, "SELECT * WHERE { ?s ?p ?o }").unwrap_err().kind, ErrorKind::NotAsk);
    assert_eq!(ask(&store, "ASK {").unwrap_err().kind, ErrorKind::Syntax);
}

#[test]
fn rows_from_answer_fills_unbound() {
    let answer = QueryAnswer::Solutions {
        variables: vec!["a".to_string(), "b".to_string()],
        rows: vec![vec![Some("<x>".to_string()), None], vec![Some("\"y\"".to_string())]],
    };
    assert_eq!(
        rows_from_answer(&answer),
        vec![
            vec![("a".to_string(), "<x>".to_string()), ("b".to_string(), "UNBOUND".to_string())],
            vec![("a".to_string(), "\"y\"".to_string()), ("b".to_string(), "UNBOUND".to_string())],
        ]
    );
    assert!(rows_from_answer(&QueryAnswer::Boolean(true)).is_empty());
    assert!(rows_from_answer(&QueryAnswer::Graph).is_empty());
}

#[test]
fn ask_from_answer_only_takes_booleans() {
    assert_eq!(ask_from_answer(&QueryAnswer::Boolean(false)).unwrap(), false);
    assert_eq!(ask_from_answer(&QueryAnswer::Graph).unwrap_err().kind, ErrorKind::NotAsk);
}

#[test]
fn dump_nquads_lists_every_quad() {
    let store = loaded();
    let nq = dump_nquads(&store).unwrap();
    assert_eq!(nq.lines().count(), 5);
    assert!(nq.contains(
        "<http://example.org/agent#obs_0001> <http://example.org/agent#assertedBy> <http://example.org/agent#Ares> ."
    ));
}

#[test]
fn promise_update_text_is_exact() {
    let text = promise_update("Ares", "Hermes", "Summarize", "2025-01-15T12:00:00Z");
    let expected = r#"
        PREFIX ex:  <http://example.org/agent#>
        PREFIX xsd: <http://www.w3.org/2001/XMLSchema#>
        INSERT DATA {
            GRAPH ex:promises {
                ex:promise_Summarize a ex:Promise ;
                    ex:promisedBy    ex:Ares ;
                    ex:promisedTo    ex:Hermes ;
                    ex:promiseContent "Summarize" ;
                    ex:promisedAt    "2025-01-15T12:00:00Z"^^xsd:dateTime .
            }
        }
        "#;
    assert_eq!(text, expected);
}

#[test]
fn record_promise_then_retract_it() {
    let mut store = new_store().unwrap();
    record_promise(&mut store, "Ares", "Hermes", "SummarizeArxiv2401", "2025-01-15T12:00:00Z")
        .unwrap();
    let promises = format!("{}promises", EX);
    let in_promises = pattern(None, None, None, Some(GraphSelector::Named(promises)));
    assert_eq!(count_quads(&store, &in_promises).unwrap(), 5);
    assert_eq!(count_all(&store).unwrap(), 0);
    let qp = r#"
        PREFIX ex: <http://example.org/agent#>
        SELECT ?to ?task
        WHERE { GRAPH ex:promises { ?p ex:promisedBy ex:Ares ; ex:promisedTo ?to ; ex:promiseContent ?task . } }
    "#;
    let rows = select_rows(&store, qp).unwrap();
    assert_eq!(rows.len(), 1);
    assert_eq!(rows[0][0].1, "<http://example.org/agent#Hermes>");
    assert_eq!(rows[0][1].1, "\"SummarizeArxiv2401\"");

    let delete = r#"
        PREFIX ex: <http://example.org/agent#>
        DELETE WHERE {
            GRAPH ex:promises {
                ?p ex:promisedBy ex:Ares ;
                   ex:promiseContent "SummarizeArxiv2401" ;
                   ?k ?v .
            }
        }
    "#;
    execute_update(&mut store, delete, "DELETE WHERE").unwrap();
    assert!(select_rows(&store, qp).unwrap().is_empty());
    assert_eq!(store_len(&store).unwrap(), 0);
}

#[test]
fn record_promise_with_broken_names_is_a_syntax_error() {
    let mut store = new_store().unwrap();
    let r = record_promise(&mut store, "Ares", "Her mes }", "x", "now");
    assert_eq!(r.unwrap_err().kind, ErrorKind::Syntax);
    assert_eq!(store_len(&store).unwrap(), 0);
}

#[test]
fn update_syntax_error() {
    let mut store = loaded();
    assert_eq!(execute_update(&mut store, "INSERT NOTHING", "INSERT NOTHING").unwrap_err().kind, ErrorKind::Syntax);
    assert_eq!(store_len(&store).unwrap(), 5);
}

#[test]
fn ntriples_blob_goes_through_the_turtle_parser() {
    let mut store = new_store().unwrap();
    let blob = "@prefix e: <http://e/> .\ne:a e:b e:c .\n";
    load_ntriples_into_named_graph(&mut store, blob, "http://e/g").unwrap();
    assert_eq!(store_len(&store).unwrap(), 1);
    assert_eq!(dump_nquads(&store).unwrap(), "<http://e/a> <http://e/b> <http://e/c> <http://e/g> .\n");
}

#[test]
fn reloading_a_document_without_blank_nodes_changes_nothing() {
    let mut store = loaded();
    load_turtle_reader(&mut store, DATA.as_bytes()).unwrap();
    assert_eq!(store_len(&store).unwrap(), 5);
    let g = format!("{}g", EX);
    load_turtle_into_named_graph(&mut store, "observations-calliope.ttl", CALLIOPE.as_bytes(), &g).unwrap();
    load_turtle_into_named_graph(&mut store, "observations-calliope.ttl", CALLIOPE.as_bytes(), &g).unwrap();
    assert_eq!(store_len(&store).unwrap(), 7);
}

#[test]
fn promise_adds_exactly_five_quads_once() {
    let mut store = loaded();
    record_promise(&mut store, "Ares", "Hermes", "SummarizeArxiv2401", "2025-01-15T12:00:00Z")
        .unwrap();
    assert_eq!(store_len(&store).unwrap(), 10);
    assert_eq!(count_all(&store).unwrap(), 5);
    let dump = dump_nquads(&store).unwrap();
    let g = "<http://example.org/agent#promises>";
    let p = "<http://example.org/agent#promise_SummarizeArxiv2401>";
    for line in [
        format!("{p} <http://www.w3.org/1999/02/22-rdf-syntax-ns#type> <http://example.org/agent#Promise> {g} ."),
        format!("{p} <http://example.org/agent#promisedBy> <http://example.org/agent#Ares> {g} ."),
        format!("{p} <http://example.org/agent#promisedTo> <http://example.org/agent#Hermes> {g} ."),
        format!("{p} <http://example.org/agent#promiseContent> \"SummarizeArxiv2401\" {g} ."),
        format!("{p} <http://example.org/agent#promisedAt> \"2025-01-15T12:00:00Z\"^^<http://www.w3.org/2001/XMLSchema#dateTime> {g} ."),
    ] {
        assert!(dump.lines().any(|l| l == line), "{line}");
    }
    record_promise(&mut store, "Ares", "Hermes", "SummarizeArxiv2401", "2025-01-15T12:00:00Z")
        .unwrap();
    assert_eq!(store_len(&store).unwrap(), 10);
}

#[test]
fn dump_lines_are_the_quads() {
    let mut store = new_store().unwrap();
    let g = format!("{}g", EX);
    load_turtle_into_named_graph(&mut store, "observations-calliope.ttl", CALLIOPE.as_bytes(), &g).unwrap();
    let dump = dump_nquads(&store).unwrap();
    let mut lines: Vec<&str> = dump.lines().collect();
    lines.sort();
    assert_eq!(
        lines,
        vec![
            "<http://example.org/agent#obs_0002> <http://example.org/agent#assertedBy> <http://example.org/agent#Calliope> <http://example.org/agent#g> .",
            "<http://example.org/agent#obs_0002> <http://example.org/agent#confidence> \"0.81\"^^<http://www.w3.org/2001/XMLSchema#decimal> <http://example.org/agent#g> .",
        ]
    );
}

#[test]
fn select_rows_rows_carry_the_select_variables() {
    let store = loaded();
    let rows = select_rows(&store, "SELECT ?s ?p WHERE { ?s ?p ?o }").unwrap();
    assert_eq!(rows.len(), 5);
    for row in rows {
        assert_eq!(row.iter().map(|(v, _)| v.as_str()).collect::<Vec<_>>(), vec!["s", "p"]);
    }
    let constructed = select_rows(&store, "CONSTRUCT { ?s ?p ?o } WHERE { ?s ?p ?o }").unwrap();
    assert!(constructed.is_empty());
}

#[test]
fn error_messages_name_what_was_being_done() {
    let mut store = new_store().unwrap();
    let e = select_rows(&store, "SELEC ?x WHERE {}").unwrap_err();
    assert_eq!(e.kind, ErrorKind::Syntax);
    assert_eq!(e.message(), "parsing SPARQL query:\nSELEC ?x WHERE {}");
    assert!(e.cause.is_some());
    assert_eq!(store_len(&store).unwrap(), 0);

    let e = ask(&store, "SELECT * WHERE {}").unwrap_err();
    assert_eq!(e.message(), "query was not an ASK");
    assert!(e.cause.is_none());
    let e = ask(&store, "ASK {").unwrap_err();
    assert_eq!(e.message(), "parsing ASK query:\nASK {");

    let e = load_turtle_into_named_graph(&mut store, "t.ttl", CALLIOPE.as_bytes(), "not an iri")
        .unwrap_err();
    assert_eq!(e.kind, ErrorKind::InvalidIri);
    assert_eq!(e.message(), "invalid graph IRI not an iri");
    let e = load_turtle_into_named_graph(&mut store, "t.ttl", b"ex:a ex:b", "http://e/g").unwrap_err();
    assert_eq!(e.kind, ErrorKind::Load);
    assert_eq!(e.message(), "loading t.ttl into graph http://e/g");

    let e = load_ntriples_into_named_graph(&mut store, "<a> <b>", "http://e/g").unwrap_err();
    assert_eq!(e.message(), "loading N-Triples into http://e/g");
    let e = load_ntriples_into_named_graph(&mut store, "", "no iri").unwrap_err();
    assert_eq!(e.message(), "invalid graph IRI no iri");

    let e = load_turtle_reader(&mut store, b"ex:a").unwrap_err();
    assert_eq!(e.message(), "parsing Turtle from reader");
    let e = load_turtle_file(&mut store, "data.ttl", b"ex:a").unwrap_err();
    assert_eq!(e.message(), "parsing Turtle file data.ttl");

    let bad = pattern(None, Some("no iri"), None, None);
    assert_eq!(count_quads(&store, &bad).unwrap_err().message(), "invalid term in quad pattern");

    let e = record_promise(&mut store, "A B", "Hermes", "T", "2025-01-15T12:00:00Z").unwrap_err();
    assert_eq!(e.kind, ErrorKind::Syntax);
    assert_eq!(e.message(), "parsing INSERT DATA for promise");
    let e = execute_update(&mut store, "DELETE WHERE {", "DELETE WHERE").unwrap_err();
    assert_eq!(e.message(), "parsing DELETE WHERE");
    assert_eq!(store_len(&store).unwrap(), 0);
}

#[test]
fn fresh_store_counts_nothing_and_dumps_nothing() {
    let store = new_store().unwrap();
    let all = pattern(None, None, None, None);
    assert_eq!(count_quads(&store, &all).unwrap(), 0);
    assert_eq!(dump_nquads(&store).unwrap(), "");
}

#[test]
fn turtle_file_into_named_graph_counts() {
    let mut store = new_store().unwrap();
    load_turtle_into_named_graph(
        &mut store,
        "/tmp/t.ttl",
        b"<http://e/a> <http://e/b> <http://e/c> .",
        "http://e/g",
    )
    .unwrap();
    let named = pattern(None, None, None, Some(GraphSelector::Named("http://e/g".to_string())));
    assert_eq!(count_quads(&store, &named).unwrap(), 1);
    let default = pattern(None, None, None, Some(GraphSelector::Default));
    assert_eq!(count_quads(&store, &default).unwrap(), 0);
    assert_eq!(
        dump_nquads(&store).unwrap(),
        "<http://e/a> <http://e/b> <http://e/c> <http://e/g> .\n"
    );
}

#[test]
fn reader_load_counts_in_the_default_graph() {
    let mut store = new_store().unwrap();
    load_turtle_reader(&mut store, b"<http://e/a> <http://e/b> <http://e/c> .").unwrap();
    let all = pattern(None, None, None, None);
    assert_eq!(count_quads(&store, &all).unwrap(), 1);
    let default = pattern(None, None, None, Some(GraphSelector::Default));
    assert_eq!(count_quads(&store, &default).unwrap(), 1);
    let named = pattern(None, None, None, Some(GraphSelector::Named("http://e/g".to_string())));
    assert_eq!(count_quads(&store, &named).unwrap(), 0);
}

#[test]
fn count_quads_by_blank_node() {
    let mut store = new_store().unwrap();
    load_turtle_reader(&mut store, b"_:x <http://e/p> <http://e/o> . <http://e/s> <http://e/p> _:x .").unwrap();
    let rows = select_rows(&store, "SELECT ?b WHERE { ?b <http://e/p> <http://e/o> }").unwrap();
    let term = rows[0][0].1.clone();
    assert!(term.starts_with("_:"));
    let id = term[2..].to_string();
    let as_subject = QuadPattern {
        subject: Some(PatternNode::Blank(id.clone())),
        predicate: None,
        object: None,
        graph: None,
    };
    assert_eq!(count_quads(&store, &as_subject).unwrap(), 1);
    let as_object = QuadPattern {
        subject: None,
        predicate: None,
        object: Some(PatternNode::Blank(id)),
        graph: None,
    };
    assert_eq!(count_quads(&store, &as_object).unwrap(), 1);
    let bad = QuadPattern {
        subject: Some(PatternNode::Blank("not a blank id".to_string())),
        predicate: None,
        object: None,
        graph: None,
    };
    assert_eq!(count_quads(&store, &bad).unwrap_err().kind, ErrorKind::InvalidIri);
    let unknown = QuadPattern {
        subject: Some(PatternNode::Blank("b1".to_string())),
        predicate: None,
        object: None,
        graph: None,
    };
    assert_eq!(count_quads(&store, &unknown).unwrap(), 0);
}

#[test]
fn finer_patterns_count_less() {
    let store = loaded();
    let coarse = pattern(None, Some("http://example.org/agent#assertedBy"), None, None);
    let fine = pattern(
        Some("http://example.org/agent#obs_0001"),
        Some("http://example.org/agent#assertedBy"),
        None,
        Some(GraphSelector::Default),
    );
    assert!(count_quads(&store, &fine).unwrap() <= count_quads(&store, &coarse).unwrap());
}

#[test]
fn strict_ntriples_load() {
    let mut store = new_store().unwrap();
    load_ntriples(&mut store, "<http://e/a> <http://e/b> <http://e/c> .\n").unwrap();
    assert_eq!(count_all(&store).unwrap(), 1);
    let e = load_ntriples(&mut store, "@prefix e: <http://e/> .\ne:a e:b e:c .\n").unwrap_err();
    assert_eq!(e.kind, ErrorKind::Load);
    assert_eq!(e.message(), "parsing N-Triples");
    assert_eq!(store_len(&store).unwrap(), 1);
}

#[test]
fn delete_data_removes_exactly_its_quads() {
    let mut store = loaded();
    let before = store_len(&store).unwrap();
    execute_update(
        &mut store,
        "DELETE DATA { <http://example.org/agent#obs_0001> <http://example.org/agent#assertedBy> <http://example.org/agent#Ares> . <http://e/x> <http://e/y> <http://e/z> }",
        "DELETE DATA",
    )
    .unwrap();
    assert_eq!(store_len(&store).unwrap(), before - 1);
    execute_update(&mut store, "DELETE WHERE { ?s ?p ?o }", "DELETE WHERE").unwrap();
    assert_eq!(store_len(&store).unwrap(), 0);
}

#[test]
fn dump_has_one_line_per_quad() {
    let store = loaded();
    let text = dump_nquads(&store).unwrap();
    assert_eq!(ares::reasoner::count_lines(&text), store_len(&store).unwrap());
}
