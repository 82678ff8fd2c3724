use ares::reasoner::{closure_as_ntriples, count_lines, ntriples_document};
use reasonable::reasoner::Reasoner;

fn t(s: &str, p: &str, o: &str) -> (String, String, String) {
    (s.to_string(), p.to_string(), o.to_string())
}

#[test]
fn count_lines_skips_blank_lines() {
    assert_eq!(count_lines(""), 0);
    assert_eq!(count_lines("one"), 1);
    assert_eq!(count_lines("one\n"), 1);
    assert_eq!(count_lines("a\n\n   \nb\r\n"), 2);
    assert_eq!(count_lines("\t\u{3000}\n\u{A0}"), 0);
    assert_eq!(count_lines("\n\nx y .\n  z\n"), 2);
}

#[test]
fn count_lines_agrees_with_str_lines() {
    for text in ["", "\n", "a", "a\r\n b \n\n\tc", " \u{2003}\nq\n\n", "x\n\r\n"] {
        let expected = text.lines().filter(|l| !l.trim().is_empty()).count();
        assert_eq!(count_lines(text), expected, "{text:?}");
    }
}

#[test]
fn ntriples_document_one_line_per_triple() {
    let triples = vec![
        t("<http://e/a>", "<http://e/p>", "<http://e/b>"),
        t("_:x", "<http://e/q>", "\"lit\"^^<http://www.w3.org/2001/XMLSchema#string>"),
    ];
    let doc = ntriples_document(&triples);
    assert_eq!(
        doc,
        "<http://e/a> <http://e/p> <http://e/b> .\n_:x <http://e/q> \"lit\"^^<http://www.w3.org/2001/XMLSchema#string> .\n"
    );
    assert_eq!(count_lines(&doc), triples.len());
    assert_eq!(ntriples_document(&vec![]), "");
}

#[test]
fn closure_contains_inferred_triples() {
    let mut r = Reasoner::new();
    r.load_triples_str(vec![
        (
            "http://example.org/agent#ResearchAgent",
            "http://www.w3.org/2000/01/rdf-schema#subClassOf",
            "http://example.org/agent#Agent",
        ),
        (
            "http://example.org/agent#Ares",
            "http://www.w3.org/1999/02/22-rdf-syntax-ns#type",
            "http://example.org/agent#ResearchAgent",
        ),
    ]);
    let closure = closure_as_ntriples(&mut r);
    assert!(closure.contains(
        "<http://example.org/agent#Ares> <http://www.w3.org/1999/02/22-rdf-syntax-ns#type> <http://example.org/agent#Agent> .\n"
    ));
    assert!(closure.contains(
        "<http://example.org/agent#ResearchAgent> <http://www.w3.org/2000/01/rdf-schema#subClassOf> <http://example.org/agent#Agent> .\n"
    ));
    assert!(closure.contains(
        "<http://example.org/agent#Ares> <http://www.w3.org/1999/02/22-rdf-syntax-ns#type> <http://example.org/agent#ResearchAgent> .\n"
    ));
    assert!(closure.lines().all(|l| l.ends_with(" .")));
    assert_eq!(count_lines(&closure), closure.lines().count());
    assert!(count_lines(&closure) >= 3);
}

#[test]
fn joining_with_a_newline_adds_line_counts() {
    let cases = [("", ""), ("a", "b"), ("a\n", "b"), ("a\n\n", "  \nb\nc"), ("x", "")];
    for (a, b) in cases {
        assert_eq!(count_lines(&format!("{a}\n{b}")), count_lines(a) + count_lines(b));
    }
}
