//! The full pipeline: base store, reasoning closure in `ex:inferred`,
//! SHACL report and a few sample queries, gathered into one report.
use vstd::prelude::*;
use vstd::string::*;
use crate::graph::{
    failed_as, fails_with, file_load_message, ground_of, has_blank_of, invalid_graph_message,
    is_ground, is_sparql_query, is_valid_iri, joined, load_effect, load_error, load_graph,
    load_turtle_file, new_store, parsed_graph, parses_as, query_form, quads_in, rows_fit,
    select_message, select_rows, evaluation_reported, store_len, store_quads, ErrorKind, GraphError, QuadTerms,
    RdfSyntax, EX, admissible_rows, store_graphs, iri_term, matching, default_graph_quad,
    lemma_named_load_keeps_other_graphs, GraphSelector, QuadPattern,
};
use crate::reasoner::{count_lines, nonblank_lines};
use crate::validator::Report;

verus! {

/// Sample query: every agent of the inferred graph with its roles.
pub const AGENTS_BY_ROLE_QUERY: &'static str = "
            PREFIX rdf:  <http://www.w3.org/1999/02/22-rdf-syntax-ns#>
            PREFIX rdfs: <http://www.w3.org/2000/01/rdf-schema#>
            PREFIX ex:   <http://example.org/agent#>
            SELECT ?agent ?role
            WHERE {
                GRAPH ex:inferred {
                    ?agent rdf:type ?role .
                    ?role rdfs:subClassOf* ex:Agent .
                }
            }
            ORDER BY ?agent
            ";

/// Sample query: the observations typed as confident by reasoning.
pub const CONFIDENT_OBSERVATIONS_QUERY: &'static str = "
            PREFIX ex: <http://example.org/agent#>
            SELECT ?obs
            WHERE {
                GRAPH ex:inferred { ?obs a ex:ConfidentObservation . }
            }
            ";

/// The rows one named sample query gave.
pub struct QueryResult {
    pub name: String,
    pub rows: Vec<Vec<(String, String)>>,
}

/// Everything the pipeline measured and found.
pub struct PipelineReport {
    pub base_triples: usize,
    pub closure_triples: usize,
    pub inferred_delta: i64,
    pub shacl: Report,
    pub sample_queries: Vec<QueryResult>,
}

/// How many triples reasoning added: `closure - base`, as a signed number.
pub fn inferred_delta(base_triples: usize, closure_triples: usize) -> (d: i64)
    ensures
        base_triples <= i64::MAX && closure_triples <= i64::MAX ==> d == closure_triples
            - base_triples,
{
    let closure = closure_triples as i64;
    let base = base_triples as i64;
    closure.wrapping_sub(base)
}

/// The document SHACL validates: the data, the schema and the N-Triples
/// closure, each followed by a newline but the last. N-Triples is a subset
/// of Turtle, so the three parts concatenate into one Turtle document.
pub fn enriched_document(data: &str, schema: &str, closure: &str) -> (doc: String)
    ensures
        doc@ == data@ + seq!['\n'] + schema@ + seq!['\n'] + closure@,
{
    let mut doc = String::from_str(data);
    doc.append("\n");
    doc.append(schema);
    doc.append("\n");
    doc.append(closure);
    proof {
        reveal_strlit("\n");
        assert("\n"@ =~= seq!['\n']);
    }
    doc
}

/// What the base store holds after loading the schema and then the data into
/// the default graph of an empty store: only default-graph quads, every
/// blank-node-free triple of both documents, no other blank-node-free quad,
/// and, when neither document holds a blank node, exactly the triples of the
/// two documents.
pub open spec fn base_store(s: Set<QuadTerms>, schema: Seq<u8>, data: Seq<u8>) -> bool {
    let ps = parsed_graph(RdfSyntax::Turtle, schema);
    let pd = parsed_graph(RdfSyntax::Turtle, data);
    let both = quads_in(ground_of(ps), None).union(quads_in(ground_of(pd), None));
    &&& s.finite()
    &&& forall|q: QuadTerms| #[trigger] s.contains(q) ==> q.graph is None
    &&& both.subset_of(s)
    &&& forall|q: QuadTerms| #[trigger] s.contains(q) && is_ground(q) ==> both.contains(q)
    &&& !has_blank_of(ps) && !has_blank_of(pd) ==> s == both
}

/// Two successful loads into the default graph of an empty store give a base
/// store.
proof fn lemma_two_loads_give_base(
    s1: Set<QuadTerms>,
    s2: Set<QuadTerms>,
    schema: Seq<u8>,
    data: Seq<u8>,
)
    requires
        load_effect(
            Set::empty(),
            s1,
            None,
            parsed_graph(RdfSyntax::Turtle, schema),
            true,
        ),
        load_effect(s1, s2, None, parsed_graph(RdfSyntax::Turtle, data), true),
    ensures
        base_store(s2, schema, data),
{
    let ps = parsed_graph(RdfSyntax::Turtle, schema);
    let pd = parsed_graph(RdfSyntax::Turtle, data);
    let a = quads_in(ground_of(ps), None);
    let b = quads_in(ground_of(pd), None);
    assert forall|q: QuadTerms| #[trigger] s2.contains(q) implies q.graph is None by {
        if !s1.contains(q) {
        } else {
            assert(!Set::<QuadTerms>::empty().contains(q));
        }
    }
    assert forall|q: QuadTerms| #[trigger] s2.contains(q) && is_ground(q) implies a.union(b).contains(
        q,
    ) by {
        if !s1.contains(q) {
            assert(ground_of(pd).contains((q.subject, q.predicate, q.object)));
        } else {
            assert(!Set::<QuadTerms>::empty().contains(q));
            assert(ground_of(ps).contains((q.subject, q.predicate, q.object)));
        }
    }
    if !has_blank_of(ps) && !has_blank_of(pd) {
        assert(s1 == Set::<QuadTerms>::empty().union(a));
        assert(s2 =~= a.union(b));
    }
}

/// Two runs of the pipeline over the same schema and data documents, when
/// neither holds a blank node, build the same base store, so they report
/// the same base count.
pub proof fn lemma_base_store_is_determined(
    s1: Set<QuadTerms>,
    s2: Set<QuadTerms>,
    schema: Seq<u8>,
    data: Seq<u8>,
)
    requires
        base_store(s1, schema, data),
        base_store(s2, schema, data),
        !has_blank_of(parsed_graph(RdfSyntax::Turtle, schema)),
        !has_blank_of(parsed_graph(RdfSyntax::Turtle, data)),
    ensures
        s1 == s2,
        s1.len() == s2.len(),
{
}

/// What the pipeline's store held: `base` after loading the schema and the
/// data (its size is the base count), then `queried` once the closure was
/// loaded into `ex:inferred` on top of it, with named graphs `graphs`; the
/// two sample queries were answered over that dataset.
pub open spec fn pipeline_stores(
    base: Set<QuadTerms>,
    queried: Set<QuadTerms>,
    graphs: Set<Seq<char>>,
    schema: Seq<u8>,
    data: Seq<u8>,
    closure: Seq<u8>,
    base_triples: nat,
    agents: Seq<Seq<(Seq<char>, Seq<char>)>>,
    confident: Seq<Seq<(Seq<char>, Seq<char>)>>,
) -> bool {
    &&& base_store(base, schema, data)
    &&& base_triples == base.len()
    &&& load_effect(
        base,
        queried,
        Some(inferred_iri()),
        parsed_graph(RdfSyntax::NTriples, closure),
        true,
    )
    &&& admissible_rows(queried, graphs, AGENTS_BY_ROLE_QUERY@, agents)
    &&& admissible_rows(queried, graphs, CONFIDENT_OBSERVATIONS_QUERY@, confident)
}

/// The closure lands in `ex:inferred`: every triple of it without blank
/// nodes is there, every quad that loading it added lies in that graph,
/// nothing of the base store is lost, and the default graph is exactly the
/// base store's.
pub proof fn lemma_closure_lands_in_inferred(
    base: Set<QuadTerms>,
    queried: Set<QuadTerms>,
    closure: Seq<u8>,
)
    requires
        load_effect(
            base,
            queried,
            Some(inferred_iri()),
            parsed_graph(RdfSyntax::NTriples, closure),
            true,
        ),
    ensures
        quads_in(
            ground_of(parsed_graph(RdfSyntax::NTriples, closure)),
            Some(iri_term(inferred_iri())),
        ).subset_of(queried),
        base.subset_of(queried),
        forall|q: QuadTerms|
            #[trigger] queried.contains(q) && !base.contains(q) ==> q.graph == Some(
                iri_term(inferred_iri()),
            ),
        matching(queried, default_graph_quad()) == matching(base, default_graph_quad()),
{
    lemma_named_load_keeps_other_graphs(
        base,
        queried,
        inferred_iri(),
        parsed_graph(RdfSyntax::NTriples, closure),
        true,
        default_graph_quad(),
    );
}

/// The message of a closure that does not load into `ex:inferred`.
pub open spec fn closure_load_message() -> Seq<char> {
    "loading closure into ex:inferred"@
}

/// The name of the graph that holds the closure.
pub open spec fn inferred_iri() -> Seq<char> {
    EX@ + "inferred"@
}

/// The schema, the data and the closure all parse, the closure's graph name
/// is an IRI, and both sample queries are SPARQL queries: nothing in the
/// inputs stops the pipeline.
pub open spec fn inputs_usable(schema_ttl: Seq<u8>, data_ttl: Seq<u8>, closure: Seq<u8>) -> bool {
    &&& parses_as(RdfSyntax::Turtle, schema_ttl)
    &&& parses_as(RdfSyntax::Turtle, data_ttl)
    &&& parses_as(RdfSyntax::NTriples, closure)
    &&& is_valid_iri(inferred_iri())
    &&& is_sparql_query(AGENTS_BY_ROLE_QUERY@)
    &&& is_sparql_query(CONFIDENT_OBSERVATIONS_QUERY@)
}

/// Build the pipeline report from the schema and data documents (Turtle,
/// read from `schema_path` and `data_path`), the reasoner's closure
/// (N-Triples) and the SHACL report of the enriched document.
///
/// Schema and data go into the default graph of a fresh store, whose size
/// is the base count; the closure goes into the named graph `ex:inferred`,
/// and its number of lines is the closure count. Two sample queries then
/// run over the inferred graph. The steps run in that order and the first
/// that fails gives the error: "parsing Turtle file <path>" for a document
/// that does not parse, "loading closure into ex:inferred" for a closure
/// that does not, then the errors of `select_rows`.
pub fn run_pipeline(
    schema_path: &str,
    schema_ttl: &[u8],
    data_path: &str,
    data_ttl: &[u8],
    closure: &str,
    shacl: Report,
) -> (r: Result<PipelineReport, GraphError>)
    ensures
        r matches Ok(rep) ==> {
            &&& rep.closure_triples == nonblank_lines(closure@)
            &&& rep.base_triples <= i64::MAX && rep.closure_triples <= i64::MAX
                ==> rep.inferred_delta == rep.closure_triples - rep.base_triples
            &&& rep.shacl == shacl
            &&& rep.sample_queries.len() == 2
            &&& rep.sample_queries[0].name@ == "agents-by-role"@
            &&& rep.sample_queries[1].name@ == "confident-observations"@
            &&& exists|base: Set<QuadTerms>, queried: Set<QuadTerms>, graphs: Set<Seq<char>>|
                #[trigger] pipeline_stores(
                    base,
                    queried,
                    graphs,
                    schema_ttl@,
                    data_ttl@,
                    closure.spec_bytes(),
                    rep.base_triples as nat,
                    rep.sample_queries[0].rows.deep_view(),
                    rep.sample_queries[1].rows.deep_view(),
                )
            &&& rows_fit(rep.sample_queries[0].rows.deep_view(), query_form(AGENTS_BY_ROLE_QUERY@))
            &&& rows_fit(
                rep.sample_queries[1].rows.deep_view(),
                query_form(CONFIDENT_OBSERVATIONS_QUERY@),
            )
        },
        !parses_as(RdfSyntax::Turtle, schema_ttl@) ==> fails_with(
            r,
            ErrorKind::Load,
            file_load_message(schema_path@),
        ),
        parses_as(RdfSyntax::Turtle, schema_ttl@) && !parses_as(RdfSyntax::Turtle, data_ttl@)
            ==> fails_with(r, ErrorKind::Load, file_load_message(data_path@)),
        parses_as(RdfSyntax::Turtle, schema_ttl@) && parses_as(RdfSyntax::Turtle, data_ttl@)
            && !is_valid_iri(inferred_iri()) ==> fails_with(
            r,
            ErrorKind::InvalidIri,
            invalid_graph_message(inferred_iri()),
        ),
        parses_as(RdfSyntax::Turtle, schema_ttl@) && parses_as(RdfSyntax::Turtle, data_ttl@)
            && is_valid_iri(inferred_iri()) && !parses_as(RdfSyntax::NTriples, closure.spec_bytes())
            ==> fails_with(r, ErrorKind::Load, closure_load_message()),
        r matches Err(e) ==> e.kind == ErrorKind::Load || e.kind == ErrorKind::InvalidIri
            || e.kind == ErrorKind::Syntax || e.kind == ErrorKind::QueryEvaluation || e.kind
            == ErrorKind::Row,
        failed_as(r, ErrorKind::Syntax) ==> !is_sparql_query(AGENTS_BY_ROLE_QUERY@)
            || !is_sparql_query(CONFIDENT_OBSERVATIONS_QUERY@),
        r matches Err(e) ==> (e.kind == ErrorKind::Syntax || e.kind == ErrorKind::QueryEvaluation
            || e.kind == ErrorKind::Row ==> e.context@ == select_message(
            e.kind,
            AGENTS_BY_ROLE_QUERY@,
        ) || e.context@ == select_message(e.kind, CONFIDENT_OBSERVATIONS_QUERY@)),
        inputs_usable(schema_ttl@, data_ttl@, closure.spec_bytes()) ==> r is Ok || failed_as(
            r,
            ErrorKind::QueryEvaluation,
        ) || failed_as(r, ErrorKind::Row),
        failed_as(r, ErrorKind::InvalidIri) ==> !is_valid_iri(inferred_iri()),
        failed_as(r, ErrorKind::Load) ==> !parses_as(RdfSyntax::Turtle, schema_ttl@) || !parses_as(
            RdfSyntax::Turtle,
            data_ttl@,
        ) || !parses_as(RdfSyntax::NTriples, closure.spec_bytes()),
        evaluation_reported(r),
{
    let mut store = new_store()?;
    load_turtle_file(&mut store, schema_path, schema_ttl)?;
    let ghost s1 = store_quads(store);
    load_turtle_file(&mut store, data_path, data_ttl)?;
    let base_triples = store_len(&store)?;
    let ghost base = store_quads(store);
    proof {
        lemma_two_loads_give_base(s1, base, schema_ttl@, data_ttl@);
    }
    let closure_triples = count_lines(closure);

    let inferred_graph = joined(EX, "inferred");
    let loaded = load_graph(
        &mut store,
        RdfSyntax::NTriples,
        closure.as_bytes(),
        Some(inferred_graph.as_str()),
    );
    if let Err(f) = loaded {
        return Err(
            load_error(
                f,
                joined("invalid graph IRI ", inferred_graph.as_str()),
                String::from_str("loading closure into ex:inferred"),
            ),
        );
    }
    let ghost queried = store_quads(store);
    let ghost graphs = store_graphs(store);
    let mut sample_queries: Vec<QueryResult> = Vec::new();
    let agents = select_rows(&store, AGENTS_BY_ROLE_QUERY)?;
    sample_queries.push(QueryResult { name: String::from_str("agents-by-role"), rows: agents });
    let confident = select_rows(&store, CONFIDENT_OBSERVATIONS_QUERY)?;
    sample_queries.push(
        QueryResult { name: String::from_str("confident-observations"), rows: confident },
    );

    let rep = PipelineReport {
        base_triples,
        closure_triples,
        inferred_delta: inferred_delta(base_triples, closure_triples),
        shacl,
        sample_queries,
    };
    assert(pipeline_stores(
        base,
        queried,
        graphs,
        schema_ttl@,
        data_ttl@,
        closure.spec_bytes(),
        rep.base_triples as nat,
        rep.sample_queries[0].rows.deep_view(),
        rep.sample_queries[1].rows.deep_view(),
    ));
    Ok(rep)
}

/// Whether a strict run fails on this report: only with `strict`, and
/// only when the SHACL validation did not conform. The report itself does
/// not depend on `strict`.
pub fn strict_rejects(strict: bool, report: &PipelineReport) -> (r: bool)
    ensures
        r == (strict && !report.shacl.conforms),
{
    strict && !report.shacl.conforms
}

} // verus!
