//! A quad store over `oxigraph`: loading Turtle and N-Triples, SPARQL
//! queries and updates, counting quads and dumping the dataset.
//!
//! The store's contents are modelled as a set of quads whose terms are
//! written the way N-Triples prints them (`<iri>`, `_:id`, `"lit"^^<dt>`).
//! Every operation that changes the store takes it by `&mut`.
use vstd::prelude::*;
use vstd::string::*;
use oxigraph::io::{RdfFormat, RdfParser};
use oxigraph::model::{
    BlankNode, BlankNodeRef, GraphNameRef, IriParseError, NamedNode, NamedNodeRef, NamedOrBlankNode,
};
use oxigraph::sparql::{
    QueryEvaluationError, QueryResults, SparqlEvaluator, SparqlSyntaxError, UpdateEvaluationError,
};
use oxigraph::store::{LoaderError, SerializerError, StorageError, Store};
use crate::reasoner::{is_blank, lemma_nonblank_lines_concat, lemma_one_line, nonblank_lines};

verus! {

/// The canonical namespace used in every example.
pub const EX: &'static str = "http://example.org/agent#";

// ---------------------------------------------------------------------
// Outside types, carried through opaque
// ---------------------------------------------------------------------

#[verifier::external_type_specification]
#[verifier::external_body]
pub struct ExStore(Store);

#[verifier::external_type_specification]
#[verifier::external_body]
pub struct ExStorageError(StorageError);

#[verifier::external_type_specification]
#[verifier::external_body]
pub struct ExLoaderError(LoaderError);

#[verifier::external_type_specification]
#[verifier::external_body]
pub struct ExSerializerError(SerializerError);

#[verifier::external_type_specification]
#[verifier::external_body]
pub struct ExIriParseError(IriParseError);

#[verifier::external_type_specification]
#[verifier::external_body]
pub struct ExSparqlSyntaxError(SparqlSyntaxError);

#[verifier::external_type_specification]
#[verifier::external_body]
pub struct ExQueryEvaluationError(QueryEvaluationError);

#[verifier::external_type_specification]
#[verifier::external_body]
pub struct ExUpdateEvaluationError(UpdateEvaluationError);

// ---------------------------------------------------------------------
// The model
// ---------------------------------------------------------------------

/// A quad with its terms as N-Triples text; `graph` is `None` for the
/// default graph.
pub struct QuadTerms {
    pub subject: Seq<char>,
    pub predicate: Seq<char>,
    pub object: Seq<char>,
    pub graph: Option<Seq<char>>,
}

/// The quads that a store holds. Verified code changes a store only
/// through `&mut`, so the value of a store it holds is its contents.
pub uninterp spec fn store_quads(store: Store) -> Set<QuadTerms>;

/// The named graphs that a store knows, each name as N-Triples prints it.
/// SPARQL's `GRAPH ?g` ranges over them; a graph stays known after its last
/// quad is removed.
pub uninterp spec fn store_graphs(store: Store) -> Set<Seq<char>>;

/// Whether `iri` is an absolute IRI that a named node accepts.
pub uninterp spec fn is_valid_iri(iri: Seq<char>) -> bool;

/// Whether `id` is a blank node identifier that a blank node accepts.
pub uninterp spec fn is_valid_blank_id(id: Seq<char>) -> bool;

/// A triple with its terms as N-Triples text.
pub type TripleTerms = (Seq<char>, Seq<char>, Seq<char>);

/// What a graph document parses to: `None` when it does not parse as a
/// whole; otherwise its triples that hold no blank node (terms as N-Triples
/// prints them once stored), and whether any of its triples holds one.
pub uninterp spec fn parsed_graph(syntax: RdfSyntax, data: Seq<u8>) -> Option<(Set<TripleTerms>, bool)>;

/// The blank-node-free triples of a parsed document.
pub open spec fn ground_of(parsed: Option<(Set<TripleTerms>, bool)>) -> Set<TripleTerms> {
    match parsed {
        Some((ground, _)) => ground,
        None => Set::empty(),
    }
}

/// Whether a parsed document holds a triple with a blank node.
pub open spec fn has_blank_of(parsed: Option<(Set<TripleTerms>, bool)>) -> bool {
    match parsed {
        Some((_, blank)) => blank,
        None => false,
    }
}

/// Whether `data` parses as a whole document of the given graph syntax.
pub open spec fn parses_as(syntax: RdfSyntax, data: Seq<u8>) -> bool {
    parsed_graph(syntax, data) is Some
}

/// The kind of a SPARQL query, and for a `SELECT` its result variables.
pub enum QueryForm {
    /// The variables of the solutions, in order.
    Select(Seq<Seq<char>>),
    Ask,
    /// `CONSTRUCT` or `DESCRIBE`.
    Graph,
}

/// The form of a SPARQL 1.1 query; `None` when `text` is not a query.
pub uninterp spec fn query_form(text: Seq<char>) -> Option<QueryForm>;

/// Whether `text` is a SPARQL 1.1 query.
pub open spec fn is_sparql_query(text: Seq<char>) -> bool {
    query_form(text) is Some
}

/// The kind of a SPARQL update.
pub enum UpdateForm {
    /// A single `INSERT DATA` without blank nodes; the quads it inserts, each
    /// term as N-Triples prints it once stored.
    InsertData(Set<QuadTerms>),
    /// A single `DELETE DATA`; the quads it removes, each term as N-Triples
    /// prints it.
    DeleteData(Set<QuadTerms>),
    /// Any other update whose every operation only deletes: `DELETE DATA`,
    /// `DELETE WHERE`, or `DELETE` without an `INSERT` template.
    DeletesOnly,
    Other,
}

/// The form of a SPARQL 1.1 update; `None` when `text` is not an update.
pub uninterp spec fn update_form(text: Seq<char>) -> Option<UpdateForm>;

/// Whether `text` is a SPARQL 1.1 update.
pub open spec fn is_sparql_update(text: Seq<char>) -> bool {
    update_form(text) is Some
}

/// Whether a term is a blank node.
pub open spec fn is_blank_term(t: Seq<char>) -> bool {
    t.len() >= 2 && t[0] == '_' && t[1] == ':'
}

/// A quad that holds no blank node.
pub open spec fn is_ground(q: QuadTerms) -> bool {
    &&& !is_blank_term(q.subject)
    &&& !is_blank_term(q.object)
    &&& match q.graph {
        Some(g) => !is_blank_term(g),
        None => true,
    }
}

/// The quad that puts triple `t` into graph `g`.
pub open spec fn quad_in(t: TripleTerms, g: Option<Seq<char>>) -> QuadTerms {
    QuadTerms { subject: t.0, predicate: t.1, object: t.2, graph: g }
}

/// The quads that put each triple of `triples` into graph `g`.
pub open spec fn quads_in(triples: Set<TripleTerms>, g: Option<Seq<char>>) -> Set<QuadTerms> {
    Set::new(|q: QuadTerms| q.graph == g && triples.contains((q.subject, q.predicate, q.object)))
}

/// How N-Triples prints the named node with this IRI.
pub open spec fn iri_term(iri: Seq<char>) -> Seq<char> {
    seq!['<'] + iri + seq!['>']
}

/// The syntaxes that a single graph can be loaded from.
#[derive(Clone, Copy, PartialEq, Eq, Structural)]
pub enum RdfSyntax {
    Turtle,
    NTriples,
}

/// A node that a pattern asks for: a named node by its IRI, or a blank
/// node by its identifier.
pub enum PatternNode {
    Iri(String),
    Blank(String),
}

/// Which graph of the dataset a pattern looks at.
pub enum GraphSelector {
    Default,
    Named(String),
}

/// A quad pattern; `None` is a wildcard, `Some(..)` asks for that node.
pub struct QuadPattern {
    pub subject: Option<PatternNode>,
    pub predicate: Option<String>,
    pub object: Option<PatternNode>,
    pub graph: Option<GraphSelector>,
}

/// How N-Triples prints the blank node with this identifier.
pub open spec fn blank_term(id: Seq<char>) -> Seq<char> {
    "_:"@ + id
}

/// How N-Triples prints a pattern node.
pub open spec fn node_term(n: PatternNode) -> Seq<char> {
    match n {
        PatternNode::Iri(x) => iri_term(x@),
        PatternNode::Blank(x) => blank_term(x@),
    }
}

pub open spec fn node_matches(term: Seq<char>, node: Option<PatternNode>) -> bool {
    match node {
        None => true,
        Some(n) => term == node_term(n),
    }
}

pub open spec fn term_matches(term: Seq<char>, iri: Option<String>) -> bool {
    match iri {
        None => true,
        Some(x) => term == iri_term(x@),
    }
}

pub open spec fn graph_matches(graph: Option<Seq<char>>, sel: Option<GraphSelector>) -> bool {
    match sel {
        None => true,
        Some(GraphSelector::Default) => graph is None,
        Some(GraphSelector::Named(x)) => graph == Some(iri_term(x@)),
    }
}

pub open spec fn quad_matches(q: QuadTerms, p: QuadPattern) -> bool {
    &&& node_matches(q.subject, p.subject)
    &&& term_matches(q.predicate, p.predicate)
    &&& node_matches(q.object, p.object)
    &&& graph_matches(q.graph, p.graph)
}

/// The quads of `quads` that match `p`.
pub open spec fn matching(quads: Set<QuadTerms>, p: QuadPattern) -> Set<QuadTerms> {
    quads.filter(|q: QuadTerms| quad_matches(q, p))
}

pub open spec fn opt_iri_valid(iri: Option<String>) -> bool {
    match iri {
        None => true,
        Some(x) => is_valid_iri(x@),
    }
}

pub open spec fn opt_node_valid(node: Option<PatternNode>) -> bool {
    match node {
        None => true,
        Some(PatternNode::Iri(x)) => is_valid_iri(x@),
        Some(PatternNode::Blank(x)) => is_valid_blank_id(x@),
    }
}

/// Every IRI and blank node identifier that the pattern names is valid.
pub open spec fn pattern_terms_valid(p: QuadPattern) -> bool {
    &&& opt_node_valid(p.subject)
    &&& opt_iri_valid(p.predicate)
    &&& opt_node_valid(p.object)
    &&& match p.graph {
        Some(GraphSelector::Named(x)) => is_valid_iri(x@),
        _ => true,
    }
}

/// The graph that a load writes into: the default graph, or the named one.
pub open spec fn target_graph(graph: Option<Seq<char>>) -> Option<Seq<char>> {
    match graph {
        None => None,
        Some(g) => Some(iri_term(g)),
    }
}

/// What a load of a document that parses to `parsed` into `graph` does to
/// the quads of a store. It succeeds exactly when the document parses. On
/// success it keeps every quad, adds every blank-node-free triple of the
/// document to the target graph, and adds nothing else but quads of the
/// target graph that hold a blank node; for a document without blank nodes
/// the store becomes exactly the old one plus the document's triples. On
/// failure nothing changes.
pub open spec fn load_effect(
    before: Set<QuadTerms>,
    after: Set<QuadTerms>,
    graph: Option<Seq<char>>,
    parsed: Option<(Set<TripleTerms>, bool)>,
    succeeded: bool,
) -> bool {
    &&& after.finite()
    &&& succeeded <==> parsed is Some
    &&& !succeeded ==> after == before
    &&& succeeded ==> {
        let ground = ground_of(parsed);
        let target = target_graph(graph);
        &&& before.subset_of(after)
        &&& quads_in(ground, target).subset_of(after)
        &&& forall|q: QuadTerms|
            #![trigger after.contains(q)]
            after.contains(q) && !before.contains(q) ==> q.graph == target && (is_ground(q)
                ==> ground.contains((q.subject, q.predicate, q.object)))
        &&& !has_blank_of(parsed) ==> after == before.union(quads_in(ground, target))
    }
}

/// What went wrong in a store operation.
#[derive(Clone, Copy, PartialEq, Eq, Structural, Debug)]
pub enum ErrorKind {
    /// The storage itself failed.
    Storage,
    /// A graph name or a pattern term is not a valid IRI.
    InvalidIri,
    /// A document did not parse.
    Load,
    /// A query or an update did not parse.
    Syntax,
    /// A query failed while it was evaluated.
    QueryEvaluation,
    /// A solution of a `SELECT` query could not be read.
    Row,
    /// An update failed while it ran.
    Update,
    /// The store could not be written out.
    Serialize,
    /// The query given to `ask` was not an `ASK` query.
    NotAsk,
    /// The dump of the store was not UTF-8.
    NotUtf8,
}

/// The error that the SPARQL engine itself reported.
#[derive(Debug)]
pub enum EngineError {
    Query(QueryEvaluationError),
    Update(UpdateEvaluationError),
}

/// An error of a store operation: its kind, the message that says what
/// was being done (`context`), the underlying error's own text when there
/// is one, and, when the SPARQL engine failed, the engine's error itself.
#[derive(Debug)]
pub struct GraphError {
    pub kind: ErrorKind,
    pub context: String,
    pub cause: Option<String>,
    pub engine: Option<EngineError>,
}

impl GraphError {
    /// The error's message: what was being done when it failed.
    pub fn message(&self) -> (s: String)
        ensures
            s@ == self.context@,
    {
        self.context.clone()
    }
}

/// `r` failed with an error of this kind.
pub open spec fn failed_as<T>(r: Result<T, GraphError>, kind: ErrorKind) -> bool {
    r matches Err(e) && e.kind == kind
}

/// `r` failed with an error of this kind and this message.
pub open spec fn fails_with<T>(r: Result<T, GraphError>, kind: ErrorKind, context: Seq<char>) -> bool {
    r matches Err(e) && e.kind == kind && e.context@ == context
}

/// An error with a message and the text of the underlying error.
fn error_with_cause(kind: ErrorKind, context: String, cause: String) -> (e: GraphError)
    ensures
        e.kind == kind,
        e.context@ == context@,
{
    GraphError { kind, context, cause: Some(cause), engine: None }
}

/// An error that the SPARQL engine reported, kept with its text.
fn engine_failure(kind: ErrorKind, context: String, cause: String, engine: EngineError) -> (e:
    GraphError)
    ensures
        e.kind == kind,
        e.context@ == context@,
        e.engine == Some(engine),
{
    GraphError { kind, context, cause: Some(cause), engine: Some(engine) }
}

/// An error of a query that the engine failed to evaluate, or whose
/// solutions it failed to hand over, carries the engine's own error.
pub open spec fn evaluation_reported<T>(r: Result<T, GraphError>) -> bool {
    r matches Err(e) ==> (e.kind == ErrorKind::QueryEvaluation || e.kind == ErrorKind::Row
        ==> e.engine matches Some(EngineError::Query(_)))
}

/// An update that failed while it ran carries the engine's own error.
pub open spec fn update_reported<T>(r: Result<T, GraphError>) -> bool {
    r matches Err(e) ==> (e.kind == ErrorKind::Update ==> e.engine matches Some(
        EngineError::Update(_),
    ))
}

/// `prefix` followed by `text`.
pub(crate) fn joined(prefix: &str, text: &str) -> (s: String)
    ensures
        s@ == prefix@ + text@,
{
    let mut s = String::from_str(prefix);
    s.append(text);
    s
}

/// `prefix`, then `middle`, then `suffix`.
fn joined3(prefix: &str, middle: &str, suffix: &str) -> (s: String)
    ensures
        s@ == prefix@ + middle@ + suffix@,
{
    let mut s = joined(prefix, middle);
    s.append(suffix);
    s
}

/// Why a SPARQL query failed inside oxigraph.
enum QueryFailure {
    Syntax(SparqlSyntaxError),
    Evaluation(QueryEvaluationError),
    Row(QueryEvaluationError),
}

/// Why a SPARQL update failed inside oxigraph.
enum UpdateFailure {
    Syntax(SparqlSyntaxError),
    Evaluation(UpdateEvaluationError),
}

/// An answer has the kind that the query's form asks for, and a `SELECT`
/// answer has the query's variables, in order.
pub open spec fn answer_fits(answer: QueryAnswer, form: Option<QueryForm>) -> bool {
    match form {
        Some(QueryForm::Select(vars)) => match answer {
            QueryAnswer::Solutions { variables, rows } => variables.deep_view() == vars,
            _ => false,
        },
        Some(QueryForm::Ask) => answer is Boolean,
        Some(QueryForm::Graph) => answer is Graph,
        None => true,
    }
}

/// Rows fit a query of this form: for a `SELECT`, every row has one pair per
/// result variable, the variables in order; for any other query, no rows.
pub open spec fn rows_fit(rows: Seq<Seq<(Seq<char>, Seq<char>)>>, form: Option<QueryForm>) -> bool {
    match form {
        Some(QueryForm::Select(vars)) => forall|i: int|
            0 <= i < rows.len() ==> (#[trigger] rows[i]).len() == vars.len() && forall|j: int|
                0 <= j < vars.len() ==> (#[trigger] rows[i][j]).0 == vars[j],
        Some(_) => rows.len() == 0,
        None => true,
    }
}

/// One N-Quads line: the terms, the graph name unless it is the default
/// graph, then ` .` and a newline.
pub open spec fn nquads_line(q: QuadTerms) -> Seq<char> {
    let graph = match q.graph {
        Some(g) => seq![' '] + g,
        None => Seq::empty(),
    };
    q.subject + seq![' '] + q.predicate + seq![' '] + q.object + graph + seq![' ', '.', '\n']
}

/// The N-Quads document listing these quads, one line each, in order.
pub open spec fn nquads_text(quads: Seq<QuadTerms>) -> Seq<char>
    decreases quads.len(),
{
    if quads.len() == 0 {
        Seq::empty()
    } else {
        nquads_text(quads.drop_last()) + nquads_line(quads.last())
    }
}

/// `quads` lists every quad of `set` exactly once.
pub open spec fn lists_exactly(quads: Seq<QuadTerms>, set: Set<QuadTerms>) -> bool {
    quads.no_duplicates() && quads.to_set() == set
}

// ---------------------------------------------------------------------
// Trusted calls into oxigraph
// ---------------------------------------------------------------------

/// Calls `Store::new`, which builds an in-memory store. Its source always
/// returns `Ok`, with an empty store.
#[verifier::external_body]
fn store_new() -> (r: Result<Store, StorageError>)
    ensures
        r is Ok,
        r matches Ok(s) ==> store_quads(s) == Set::<QuadTerms>::empty(),
{
    Store::new()
}

/// Calls `NamedNodeRef::new`, which accepts exactly the valid IRIs.
#[verifier::external_body]
fn check_iri(iri: &str) -> (r: Result<(), IriParseError>)
    ensures
        r is Ok <==> is_valid_iri(iri@),
{
    match NamedNodeRef::new(iri) {
        Ok(_) => Ok(()),
        Err(e) => Err(e),
    }
}

/// Calls `BlankNodeRef::new`, which accepts exactly the valid blank node
/// identifiers.
#[verifier::external_body]
fn check_blank_id(id: &str) -> (r: bool)
    ensures
        r == is_valid_blank_id(id@),
{
    BlankNodeRef::new(id).is_ok()
}

/// Calls `Store::load_from_slice` with a Turtle or N-Triples parser whose
/// default graph is `graph` (the store's default graph when `None`). The
/// load runs in one transaction that is committed only when every quad
/// parsed, and a graph syntax puts every quad into that default graph.
/// With the in-memory storage (the only one built here) starting and
/// committing a transaction cannot fail, so the load fails exactly when the
/// document does not parse. Every parsed triple goes into the target graph;
/// the triples without blank nodes land as they were parsed, the others get
/// fresh blank node names on each load.
#[verifier::external_body]
fn load_slice(store: &mut Store, syntax: RdfSyntax, data: &[u8], graph: Option<&str>) -> (r:
    Result<(), LoaderError>)
    requires
        graph matches Some(g) ==> is_valid_iri(g@),
    ensures
        load_effect(
            store_quads(*old(store)),
            store_quads(*final(store)),
            match graph {
                None => None,
                Some(g) => Some(g@),
            },
            parsed_graph(syntax, data@),
            r is Ok,
        ),
{
    let format = match syntax {
        RdfSyntax::Turtle => RdfFormat::Turtle,
        RdfSyntax::NTriples => RdfFormat::NTriples,
    };
    let parser = RdfParser::from_format(format).without_named_graphs();
    match graph {
        None => store.load_from_slice(parser, data),
        Some(g) => store.load_from_slice(parser.with_default_graph(NamedNodeRef::new_unchecked(g)), data),
    }
}

/// Calls `Store::quads_for_pattern` and counts the items of the iterator,
/// which yields each matching quad once. On the in-memory storage (the only
/// one built here) no item is an error: the storage iterator wraps every
/// quad in `Ok`, and decoding a stored quad fails only when the storage is
/// corrupt. A blank node is looked up by its identifier, as it prints.
#[verifier::external_body]
fn count_pattern(store: &Store, p: &QuadPattern) -> (n: usize)
    requires
        pattern_terms_valid(*p),
    ensures
        n == matching(store_quads(*store), *p).len(),
{
    let node = |n: &PatternNode| -> NamedOrBlankNode {
        match n {
            PatternNode::Iri(x) => NamedNode::new_unchecked(x).into(),
            PatternNode::Blank(x) => BlankNode::new_unchecked(x).into(),
        }
    };
    let g = match &p.graph {
        None => None,
        Some(GraphSelector::Default) => Some(GraphNameRef::DefaultGraph),
        Some(GraphSelector::Named(x)) => Some(NamedNodeRef::new_unchecked(x).into()),
    };
    let pr = p.predicate.as_deref().map(NamedNodeRef::new_unchecked);
    let o = p.object.as_ref().map(node);
    store.quads_for_pattern(p.subject.as_ref().map(node).as_ref().map(NamedOrBlankNode::as_ref), pr, o.as_ref().map(|x| x.as_ref().into()), g).count()
}

/// Calls `Store::dump_to_writer` with the N-Quads serializer into a byte
/// buffer. The dump walks the store once and writes each quad as its terms
/// and a ` .` line, in UTF-8; the order of the lines is not stated. It
/// cannot fail here: writing into a `Vec` never fails, N-Quads holds every
/// graph, and the in-memory storage yields no errors.
#[verifier::external_body]
fn dump_nquads_bytes(store: &Store) -> (r: Result<Vec<u8>, SerializerError>)
    ensures
        r is Ok,
        r matches Ok(bytes) ==> exists|quads: Seq<QuadTerms>|
            lists_exactly(quads, store_quads(*store)) && bytes@ == vstd::utf8::encode_utf8(
                #[trigger] nquads_text(quads),
            ),
{
    store.dump_to_writer(RdfFormat::NQuads, Vec::new())
}

/// Calls `String::from_utf8`, which succeeds exactly on valid UTF-8.
#[verifier::external_body]
fn utf8_string(bytes: Vec<u8>) -> (r: Option<String>)
    ensures
        r is Some <==> vstd::utf8::valid_utf8(bytes@),
        r matches Some(s) ==> s@ == vstd::utf8::decode_utf8(bytes@),
{
    String::from_utf8(bytes).ok()
}

/// Calls `SparqlEvaluator::parse_query` on `text` (no base IRI, no
/// prefixes), then `on_store(store).execute()`, and reads the whole result:
/// for solutions, the variable names and each solution's values as
/// N-Triples text. Parsing fails exactly when `text` is not a SPARQL query.
/// The query is evaluated over the store's dataset (its quads and its named
/// graphs), so the answer is one that SPARQL allows there.
/// The kind of answer follows the kind of query, a `SELECT` reports its own
/// variables in order, and only reading the solutions of a `SELECT` can
/// fail with a row error. Which solutions or which boolean come back is not
/// stated: that depends on the store and on SPARQL's semantics.
#[verifier::external_body]
fn run_sparql_query(store: &Store, text: &str) -> (r: Result<QueryAnswer, QueryFailure>)
    ensures
        r matches Err(QueryFailure::Syntax(_)) <==> query_form(text@) is None,
        r matches Err(QueryFailure::Row(_)) ==> query_form(text@) matches Some(
            QueryForm::Select(_),
        ),
        r matches Ok(a) ==> answer_fits(a, query_form(text@)),
        r matches Ok(a) ==> admissible_answer(
            store_quads(*store),
            store_graphs(*store),
            text@,
            answer_value(a),
        ),
{
    let query = SparqlEvaluator::new().parse_query(text).map_err(QueryFailure::Syntax)?;
    Ok(match query.on_store(store).execute().map_err(QueryFailure::Evaluation)? {
        QueryResults::Solutions(solutions) => {
            let variables = solutions.variables().iter().map(|v| v.as_str().to_owned()).collect();
            let rows = solutions.map(|s| s.map(|s| s.values().iter().map(|t| t.as_ref().map(ToString::to_string)).collect()));
            QueryAnswer::Solutions { variables, rows: rows.collect::<Result<_, _>>().map_err(QueryFailure::Row)? }
        },
        QueryResults::Boolean(b) => QueryAnswer::Boolean(b),
        QueryResults::Graph(_) => QueryAnswer::Graph,
    })
}

/// Calls `SparqlEvaluator::parse_update` on `text` (no base IRI, no
/// prefixes), then `on_store(store).execute()`. Parsing fails exactly when
/// `text` is not a SPARQL update. The update runs in one transaction,
/// committed only when every operation succeeded, so a failure changes
/// nothing. An `INSERT DATA` never fails on the in-memory storage and adds
/// exactly its quads; a `DELETE DATA` never fails and removes exactly its
/// quads; an update that only deletes (`DELETE WHERE` among them) removes
/// the quads its patterns match and adds none, so the store can only
/// shrink. Which quads a `DELETE WHERE` matches, and what other updates do,
/// is not stated.
#[verifier::external_body]
fn run_sparql_update(store: &mut Store, text: &str) -> (r: Result<(), UpdateFailure>)
    ensures
        store_quads(*final(store)).finite(),
        r matches Err(UpdateFailure::Syntax(_)) <==> update_form(text@) is None,
        r is Err ==> store_quads(*final(store)) == store_quads(*old(store)),
        update_form(text@) matches Some(UpdateForm::InsertData(quads)) ==> r is Ok
            && store_quads(*final(store)) == store_quads(*old(store)).union(quads),
        update_form(text@) matches Some(UpdateForm::DeleteData(quads)) ==> r is Ok
            && store_quads(*final(store)) == store_quads(*old(store)).difference(quads),
        update_form(text@) == Some(UpdateForm::DeletesOnly) ==> store_quads(
            *final(store),
        ).subset_of(store_quads(*old(store))),
{
    let update = SparqlEvaluator::new().parse_update(text).map_err(UpdateFailure::Syntax)?;
    update.on_store(store).execute().map_err(UpdateFailure::Evaluation)
}

// ---------------------------------------------------------------------
// Query answers
// ---------------------------------------------------------------------

/// What a SPARQL query evaluated to, as plain values.
#[derive(Debug)]
pub enum QueryAnswer {
    /// `SELECT`: the variables, and for each solution its values in the
    /// same order (`None` where a variable is unbound).
    Solutions { variables: Vec<String>, rows: Vec<Vec<Option<String>>> },
    /// `ASK`.
    Boolean(bool),
    /// `CONSTRUCT` or `DESCRIBE`.
    Graph,
}

/// An answer as a mathematical value.
pub enum AnswerValue {
    Solutions { variables: Seq<Seq<char>>, rows: Seq<Seq<Option<Seq<char>>>> },
    Boolean(bool),
    Graph,
}

/// The value of an answer.
pub open spec fn answer_value(a: QueryAnswer) -> AnswerValue {
    match a {
        QueryAnswer::Solutions { variables, rows } => AnswerValue::Solutions {
            variables: variables.deep_view(),
            rows: rows.deep_view(),
        },
        QueryAnswer::Boolean(b) => AnswerValue::Boolean(b),
        QueryAnswer::Graph => AnswerValue::Graph,
    }
}

/// Whether SPARQL 1.1 allows `answer` for `query` over the dataset with
/// these quads and these named graphs. Which answers that is (the
/// solutions, their order where the query leaves it open, fresh blank
/// nodes, the value of `RAND()` or `NOW()`) is not spelled out here.
pub uninterp spec fn admissible_answer(
    quads: Set<QuadTerms>,
    graphs: Set<Seq<char>>,
    query: Seq<char>,
    answer: AnswerValue,
) -> bool;

/// The text of a cell: the value when bound, `UNBOUND` otherwise.
pub open spec fn cell_text(row: Seq<Option<Seq<char>>>, i: int) -> Seq<char> {
    if 0 <= i < row.len() {
        match row[i] {
            Some(v) => v,
            None => "UNBOUND"@,
        }
    } else {
        "UNBOUND"@
    }
}

/// One row per solution, each holding one `(variable, value)` pair per
/// variable, in the order of the variables.
pub open spec fn solution_rows(
    variables: Seq<Seq<char>>,
    table: Seq<Seq<Option<Seq<char>>>>,
) -> Seq<Seq<(Seq<char>, Seq<char>)>> {
    Seq::new(
        table.len(),
        |r: int| Seq::new(variables.len(), |i: int| (variables[i], cell_text(table[r], i))),
    )
}

/// The rows that `select_rows` makes of an answer: the solutions of a
/// `SELECT`, nothing for the other kinds of query.
pub open spec fn answer_rows(answer: QueryAnswer) -> Seq<Seq<(Seq<char>, Seq<char>)>> {
    match answer {
        QueryAnswer::Solutions { variables, rows } => solution_rows(
            variables.deep_view(),
            rows.deep_view(),
        ),
        _ => Seq::empty(),
    }
}

/// `rows` are the rows of an answer that `query` may give over the dataset
/// with these quads and named graphs.
pub open spec fn admissible_rows(
    quads: Set<QuadTerms>,
    graphs: Set<Seq<char>>,
    query: Seq<char>,
    rows: Seq<Seq<(Seq<char>, Seq<char>)>>,
) -> bool {
    exists|a: QueryAnswer|
        answer_fits(a, query_form(query)) && admissible_answer(quads, graphs, query, answer_value(a))
            && rows == #[trigger] answer_rows(a)
}

/// Cell `i` of row `r` pairs variable `i` with the value that solution `r`
/// binds it to, or with `UNBOUND` when solution `r` leaves it unbound.
pub open spec fn solution_cell(
    variables: Seq<Seq<char>>,
    table: Seq<Seq<Option<Seq<char>>>>,
    r: int,
    i: int,
    cell: (Seq<char>, Seq<char>),
) -> bool {
    &&& cell.0 == variables[i]
    &&& i < table[r].len() && table[r][i] is Some ==> cell.1 == table[r][i]->0
    &&& !(i < table[r].len() && table[r][i] is Some) ==> cell.1 == "UNBOUND"@
}

/// Row `r` comes from solution `r`, in the engine's order: each of its cells
/// pairs a variable with solution `r`'s value for it.
pub proof fn lemma_rows_come_from_solutions(
    variables: Seq<Seq<char>>,
    table: Seq<Seq<Option<Seq<char>>>>,
    r: int,
    i: int,
)
    requires
        0 <= r < table.len(),
        0 <= i < variables.len(),
    ensures
        solution_rows(variables, table).len() == table.len(),
        solution_rows(variables, table)[r].len() == variables.len(),
        solution_cell(variables, table, r, i, solution_rows(variables, table)[r][i]),
{
}

/// Turn an answer into rows of `(variable, value)` pairs: each solution
/// gives one row with every variable in order, an unbound variable getting
/// the value `UNBOUND`; a non-`SELECT` answer gives no rows.
pub fn rows_from_answer(answer: &QueryAnswer) -> (out: Vec<Vec<(String, String)>>)
    ensures
        out.deep_view() == answer_rows(*answer),
        match *answer {
            QueryAnswer::Solutions { variables, rows } => {
                &&& out.len() == rows.len()
                &&& forall|r: int, i: int|
                    0 <= r < rows.len() && 0 <= i < variables.len() ==> solution_cell(
                        variables.deep_view(),
                        rows.deep_view(),
                        r,
                        i,
                        #[trigger] out.deep_view()[r][i],
                    )
            },
            _ => out.len() == 0,
        },
{
    let mut out: Vec<Vec<(String, String)>> = Vec::new();
    match answer {
        QueryAnswer::Solutions { variables, rows } => {
            let ghost vars = variables.deep_view();
            let ghost table = rows.deep_view();
            for r in 0..rows.len()
                invariant
                    vars == variables.deep_view(),
                    table == rows.deep_view(),
                    out.len() == r,
                    forall|k: int|
                        0 <= k < r ==> (#[trigger] out.deep_view()[k]) == solution_rows(
                            vars,
                            table,
                        )[k],
            {
                let solution = &rows[r];
                let mut row: Vec<(String, String)> = Vec::new();
                for i in 0..variables.len()
                    invariant
                        vars == variables.deep_view(),
                        table == rows.deep_view(),
                        0 <= r < rows.len(),
                        solution == rows[r as int],
                        row.len() == i,
                        forall|k: int|
                            0 <= k < i ==> (#[trigger] row.deep_view()[k]) == (
                                vars[k],
                                cell_text(table[r as int], k),
                            ),
                {
                    let value = if i < solution.len() {
                        match &solution[i] {
                            Some(v) => v.clone(),
                            None => String::from_str("UNBOUND"),
                        }
                    } else {
                        String::from_str("UNBOUND")
                    };
                    proof {
                        assert(table[r as int] == solution.deep_view());
                        if i < solution.len() {
                            assert(table[r as int][i as int] == solution[i as int].deep_view());
                        }
                    }
                    assert(value@ == cell_text(table[r as int], i as int));
                    let name = variables[i].clone();
                    assert(name@ == vars[i as int]);
                    let ghost prev_row = row.deep_view();
                    row.push((name, value));
                    proof {
                        assert(row.deep_view()[i as int] == (name@, value@));
                        assert forall|k: int| 0 <= k < i + 1 implies (#[trigger] row.deep_view()[k])
                            == (vars[k], cell_text(table[r as int], k)) by {
                            if k < i {
                                assert(row.deep_view()[k] == prev_row[k]);
                            }
                        }
                    }
                }
                let ghost prev = out.deep_view();
                out.push(row);
                proof {
                    assert(row.deep_view() =~= solution_rows(vars, table)[r as int]);
                    assert forall|k: int| 0 <= k < r + 1 implies (#[trigger] out.deep_view()[k])
                        == solution_rows(vars, table)[k] by {
                        if k < r {
                            assert(out.deep_view()[k] == prev[k]);
                        }
                    }
                }
            }
            assert(out.deep_view() =~= answer_rows(*answer));
            proof {
                assert forall|r: int, i: int|
                    0 <= r < rows.len() && 0 <= i < variables.len() implies solution_cell(
                        vars,
                        table,
                        r,
                        i,
                        #[trigger] out.deep_view()[r][i],
                    ) by {
                    lemma_rows_come_from_solutions(vars, table, r, i);
                }
            }
        },
        _ => {
            assert(out.deep_view() =~= answer_rows(*answer));
        },
    }
    out
}

/// The message of the error `ask` gives for a query of another kind.
pub open spec fn not_ask_message() -> Seq<char> {
    "query was not an ASK"@
}

/// The error for an answer that is not a boolean.
fn not_ask_error() -> (e: GraphError)
    ensures
        e.kind == ErrorKind::NotAsk,
        e.context@ == not_ask_message(),
{
    GraphError { kind: ErrorKind::NotAsk, context: String::from_str("query was not an ASK"), cause: None, engine: None }
}

/// Answer of an `ASK` query: its boolean; any other kind of answer is the
/// error `NotAsk`, "query was not an ASK".
pub fn ask_from_answer(answer: &QueryAnswer) -> (r: Result<bool, GraphError>)
    ensures
        match *answer {
            QueryAnswer::Boolean(b) => r == Ok::<bool, GraphError>(b),
            _ => fails_with(r, ErrorKind::NotAsk, not_ask_message()),
        },
{
    match answer {
        QueryAnswer::Boolean(b) => Ok(*b),
        _ => Err(not_ask_error()),
    }
}

// ---------------------------------------------------------------------
// The store operations
// ---------------------------------------------------------------------

/// Build a new, empty, in-memory store.
pub fn new_store() -> (r: Result<Store, GraphError>)
    ensures
        r matches Ok(s) && store_quads(s) == Set::<QuadTerms>::empty(),
{
    match store_new() {
        Ok(s) => Ok(s),
        Err(e) => Err(
            error_with_cause(
                ErrorKind::Storage,
                String::from_str("failed to create in-memory oxigraph store"),
                e.to_string(),
            ),
        ),
    }
}

/// Why a load failed, before the caller says what it was loading.
pub(crate) enum LoadFailure {
    InvalidIri(String),
    Parse(String),
}

/// Load a graph document into `graph` (the default graph when `None`).
pub(crate) fn load_graph(store: &mut Store, syntax: RdfSyntax, data: &[u8], graph: Option<&str>) -> (r:
    Result<(), LoadFailure>)
    ensures
        match graph {
            Some(g) if !is_valid_iri(g@) => {
                &&& r matches Err(LoadFailure::InvalidIri(_))
                &&& *final(store) == *old(store)
            },
            _ => {
                &&& load_effect(
                    store_quads(*old(store)),
                    store_quads(*final(store)),
                    match graph {
                        None => None,
                        Some(g) => Some(g@),
                    },
                    parsed_graph(syntax, data@),
                    r is Ok,
                )
                &&& r is Err ==> (r matches Err(LoadFailure::Parse(_)))
                &&& (r is Ok <==> parses_as(syntax, data@))
            },
        },
{
    if let Some(g) = graph {
        if let Err(e) = check_iri(g) {
            return Err(LoadFailure::InvalidIri(e.to_string()));
        }
    }
    match load_slice(store, syntax, data, graph) {
        Ok(()) => Ok(()),
        Err(e) => Err(LoadFailure::Parse(e.to_string())),
    }
}

/// Attach a message to a load failure: `invalid` for a bad graph name,
/// `parse` for a document that does not parse.
pub(crate) fn load_error(failure: LoadFailure, invalid: String, parse: String) -> (e: GraphError)
    ensures
        failure is InvalidIri ==> e.kind == ErrorKind::InvalidIri && e.context@ == invalid@,
        failure is Parse ==> e.kind == ErrorKind::Load && e.context@ == parse@,
{
    match failure {
        LoadFailure::InvalidIri(cause) => error_with_cause(ErrorKind::InvalidIri, invalid, cause),
        LoadFailure::Parse(cause) => error_with_cause(ErrorKind::Load, parse, cause),
    }
}

/// The message of a failed load from a reader.
pub open spec fn reader_load_message() -> Seq<char> {
    "parsing Turtle from reader"@
}

/// Load a Turtle document into the store's default graph. The load is
/// atomic: it adds the document's triples, or changes nothing and fails
/// with "parsing Turtle from reader".
pub fn load_turtle_reader(store: &mut Store, turtle: &[u8]) -> (r: Result<(), GraphError>)
    ensures
        load_effect(
            store_quads(*old(store)),
            store_quads(*final(store)),
            None,
            parsed_graph(RdfSyntax::Turtle, turtle@),
            r is Ok,
        ),
        r is Ok <==> parses_as(RdfSyntax::Turtle, turtle@),
        r is Err ==> fails_with(r, ErrorKind::Load, reader_load_message()),
{
    match load_graph(store, RdfSyntax::Turtle, turtle, None) {
        Ok(()) => Ok(()),
        Err(f) => Err(
            load_error(f, String::new(), String::from_str("parsing Turtle from reader")),
        ),
    }
}

/// The message of a failed load of the Turtle file at `path`.
pub open spec fn file_load_message(path: Seq<char>) -> Seq<char> {
    "parsing Turtle file "@ + path
}

/// Load the Turtle file read from `path` into the store's default graph.
/// The load is atomic: it adds the document's triples, or changes nothing
/// and fails with "parsing Turtle file <path>".
pub fn load_turtle_file(store: &mut Store, path: &str, turtle: &[u8]) -> (r: Result<(), GraphError>)
    ensures
        load_effect(
            store_quads(*old(store)),
            store_quads(*final(store)),
            None,
            parsed_graph(RdfSyntax::Turtle, turtle@),
            r is Ok,
        ),
        r is Ok <==> parses_as(RdfSyntax::Turtle, turtle@),
        r is Err ==> fails_with(r, ErrorKind::Load, file_load_message(path@)),
{
    match load_graph(store, RdfSyntax::Turtle, turtle, None) {
        Ok(()) => Ok(()),
        Err(f) => Err(load_error(f, String::new(), joined("parsing Turtle file ", path))),
    }
}

/// The message of a graph name that is not an IRI.
pub open spec fn invalid_graph_message(iri: Seq<char>) -> Seq<char> {
    "invalid graph IRI "@ + iri
}

/// The message of a failed load of the file at `path` into a named graph.
pub open spec fn named_load_message(path: Seq<char>, iri: Seq<char>) -> Seq<char> {
    "loading "@ + path + " into graph "@ + iri
}

/// Load the Turtle file read from `path` into the named graph `graph_iri`.
/// The document must hold only default-graph triples; the caller decides
/// the graph. A name that is not an IRI fails with "invalid graph IRI
/// <name>" and changes nothing; otherwise the load is atomic and fails
/// with "loading <path> into graph <name>".
pub fn load_turtle_into_named_graph(
    store: &mut Store,
    path: &str,
    turtle: &[u8],
    graph_iri: &str,
) -> (r: Result<(), GraphError>)
    ensures
        !is_valid_iri(graph_iri@) ==> fails_with(
            r,
            ErrorKind::InvalidIri,
            invalid_graph_message(graph_iri@),
        ),
        !is_valid_iri(graph_iri@) ==> *final(store) == *old(store),
        is_valid_iri(graph_iri@) ==> load_effect(
            store_quads(*old(store)),
            store_quads(*final(store)),
            Some(graph_iri@),
            parsed_graph(RdfSyntax::Turtle, turtle@),
            r is Ok,
        ),
        is_valid_iri(graph_iri@) ==> (r is Ok <==> parses_as(RdfSyntax::Turtle, turtle@)),
        is_valid_iri(graph_iri@) && r is Err ==> fails_with(
            r,
            ErrorKind::Load,
            named_load_message(path@, graph_iri@),
        ),
{
    match load_graph(store, RdfSyntax::Turtle, turtle, Some(graph_iri)) {
        Ok(()) => Ok(()),
        Err(f) => Err(
            load_error(
                f,
                joined("invalid graph IRI ", graph_iri),
                joined3(joined("loading ", path).as_str(), " into graph ", graph_iri),
            ),
        ),
    }
}

/// The message of a failed N-Triples load into a named graph.
pub open spec fn ntriples_load_message(iri: Seq<char>) -> Seq<char> {
    "loading N-Triples into "@ + iri
}

/// Load an N-Triples blob into the named graph `graph_iri` by routing every
/// triple through a Turtle parser (N-Triples is a subset of Turtle). A name
/// that is not an IRI fails with "invalid graph IRI <name>" and changes
/// nothing; otherwise the load is atomic and fails with "loading N-Triples
/// into <name>".
pub fn load_ntriples_into_named_graph(store: &mut Store, ntriples: &str, graph_iri: &str) -> (r:
    Result<(), GraphError>)
    ensures
        !is_valid_iri(graph_iri@) ==> fails_with(
            r,
            ErrorKind::InvalidIri,
            invalid_graph_message(graph_iri@),
        ),
        !is_valid_iri(graph_iri@) ==> *final(store) == *old(store),
        is_valid_iri(graph_iri@) ==> load_effect(
            store_quads(*old(store)),
            store_quads(*final(store)),
            Some(graph_iri@),
            parsed_graph(RdfSyntax::Turtle, ntriples.spec_bytes()),
            r is Ok,
        ),
        is_valid_iri(graph_iri@) ==> (r is Ok <==> parses_as(
            RdfSyntax::Turtle,
            ntriples.spec_bytes(),
        )),
        is_valid_iri(graph_iri@) && r is Err ==> fails_with(
            r,
            ErrorKind::Load,
            ntriples_load_message(graph_iri@),
        ),
{
    match load_graph(store, RdfSyntax::Turtle, ntriples.as_bytes(), Some(graph_iri)) {
        Ok(()) => Ok(()),
        Err(f) => Err(
            load_error(
                f,
                joined("invalid graph IRI ", graph_iri),
                joined("loading N-Triples into ", graph_iri),
            ),
        ),
    }
}

/// The message of a failed N-Triples load into the default graph.
pub open spec fn ntriples_message() -> Seq<char> {
    "parsing N-Triples"@
}

/// Load a strict N-Triples document into the store's default graph. The
/// load is atomic: it adds the document's triples, or changes nothing and
/// fails with "parsing N-Triples".
pub fn load_ntriples(store: &mut Store, ntriples: &str) -> (r: Result<(), GraphError>)
    ensures
        load_effect(
            store_quads(*old(store)),
            store_quads(*final(store)),
            None,
            parsed_graph(RdfSyntax::NTriples, ntriples.spec_bytes()),
            r is Ok,
        ),
        r is Ok <==> parses_as(RdfSyntax::NTriples, ntriples.spec_bytes()),
        r is Err ==> fails_with(r, ErrorKind::Load, ntriples_message()),
{
    match load_graph(store, RdfSyntax::NTriples, ntriples.as_bytes(), None) {
        Ok(()) => Ok(()),
        Err(f) => Err(load_error(f, String::new(), String::from_str("parsing N-Triples"))),
    }
}

/// The message of a quad pattern that names an invalid term.
pub open spec fn pattern_term_message() -> Seq<char> {
    "invalid term in quad pattern"@
}

/// Check one optional IRI of a pattern.
fn check_opt_iri(iri: &Option<String>) -> (r: bool)
    ensures
        r <==> opt_iri_valid(*iri),
{
    match iri {
        None => true,
        Some(x) => check_iri(x.as_str()).is_ok(),
    }
}

/// Check one optional node of a pattern.
fn check_opt_node(node: &Option<PatternNode>) -> (r: bool)
    ensures
        r <==> opt_node_valid(*node),
{
    match node {
        None => true,
        Some(PatternNode::Iri(x)) => check_iri(x.as_str()).is_ok(),
        Some(PatternNode::Blank(x)) => check_blank_id(x.as_str()),
    }
}

/// Count quads matching a subject-predicate-object-graph pattern; any of
/// the four may be `None` for a wildcard. A pattern that names an invalid
/// IRI or blank node identifier fails with "invalid term in quad pattern".
pub fn count_quads(store: &Store, pattern: &QuadPattern) -> (r: Result<usize, GraphError>)
    ensures
        pattern_terms_valid(*pattern) ==> (r matches Ok(n) && n == matching(
            store_quads(*store),
            *pattern,
        ).len()),
        !pattern_terms_valid(*pattern) ==> fails_with(
            r,
            ErrorKind::InvalidIri,
            pattern_term_message(),
        ),
{
    let graph_ok = match &pattern.graph {
        Some(GraphSelector::Named(g)) => check_iri(g.as_str()).is_ok(),
        _ => true,
    };
    if !(check_opt_node(&pattern.subject) && check_opt_iri(&pattern.predicate) && check_opt_node(
        &pattern.object,
    ) && graph_ok) {
        return Err(
            GraphError {
                kind: ErrorKind::InvalidIri,
                context: String::from_str("invalid term in quad pattern"),
                cause: None,
                engine: None,
            },
        );
    }
    Ok(count_pattern(store, pattern))
}

/// The pattern that matches every quad.
pub open spec fn any_quad() -> QuadPattern {
    QuadPattern { subject: None, predicate: None, object: None, graph: None }
}

/// The pattern that matches every quad of the default graph.
pub open spec fn default_graph_quad() -> QuadPattern {
    QuadPattern {
        subject: None,
        predicate: None,
        object: None,
        graph: Some(GraphSelector::Default),
    }
}

/// Number of quads in the store, over all graphs.
pub fn store_len(store: &Store) -> (r: Result<usize, GraphError>)
    ensures
        r matches Ok(n) && n == store_quads(*store).len(),
{
    let pattern = QuadPattern { subject: None, predicate: None, object: None, graph: None };
    let r = count_quads(store, &pattern);
    assert(matching(store_quads(*store), pattern) =~= store_quads(*store));
    r
}

/// Number of quads in the store's default graph.
pub fn count_all(store: &Store) -> (r: Result<usize, GraphError>)
    ensures
        r matches Ok(n) && n == matching(store_quads(*store), default_graph_quad()).len(),
{
    let pattern = QuadPattern {
        subject: None,
        predicate: None,
        object: None,
        graph: Some(GraphSelector::Default),
    };
    count_quads(store, &pattern)
}

/// Serialize the entire dataset as N-Quads into an owned `String`: one
/// line per quad, each quad once, in an order that is not stated.
pub fn dump_nquads(store: &Store) -> (r: Result<String, GraphError>)
    ensures
        r is Ok,
        r matches Ok(s) ==> exists|quads: Seq<QuadTerms>|
            lists_exactly(quads, store_quads(*store)) && s@ == #[trigger] nquads_text(quads),
{
    match dump_nquads_bytes(store) {
        Err(e) => Err(
            error_with_cause(
                ErrorKind::Serialize,
                String::from_str("dumping store as NQuads"),
                e.to_string(),
            ),
        ),
        Ok(bytes) => {
            let ghost quads = choose|quads: Seq<QuadTerms>|
                lists_exactly(quads, store_quads(*store)) && bytes@ == vstd::utf8::encode_utf8(
                    #[trigger] nquads_text(quads),
                );
            proof {
                vstd::utf8::encode_utf8_valid_utf8(nquads_text(quads));
                vstd::utf8::encode_utf8_decode_utf8(nquads_text(quads));
            }
            match utf8_string(bytes) {
                Some(s) => {
                    assert(s@ == nquads_text(quads));
                    Ok(s)
                },
                None => Err(
                    GraphError {
                        kind: ErrorKind::NotUtf8,
                        context: String::from_str("NQuads output was not UTF-8"),
                        cause: None,
                        engine: None,
                    },
                ),
            }
        },
    }
}

/// The message `select_rows` gives for an error of this kind.
pub open spec fn select_message(kind: ErrorKind, query: Seq<char>) -> Seq<char> {
    match kind {
        ErrorKind::Syntax => "parsing SPARQL query:\n"@ + query,
        ErrorKind::QueryEvaluation => "executing SPARQL query:\n"@ + query,
        _ => "reading SPARQL solution row"@,
    }
}

/// Run a SPARQL `SELECT` query and return its solutions as rows of
/// `(variable, N-Triples value)` pairs; unbound variables read `UNBOUND`.
/// Other kinds of query give no rows. A query that does not parse fails
/// with "parsing SPARQL query:" and the query; a failed evaluation with
/// "executing SPARQL query:" and the query; a solution that cannot be read
/// with "reading SPARQL solution row".
pub fn select_rows(store: &Store, query: &str) -> (r: Result<Vec<Vec<(String, String)>>, GraphError>)
    ensures
        failed_as(r, ErrorKind::Syntax) <==> !is_sparql_query(query@),
        failed_as(r, ErrorKind::Row) ==> query_form(query@) matches Some(QueryForm::Select(_)),
        r matches Err(e) ==> (e.kind == ErrorKind::Syntax || e.kind == ErrorKind::QueryEvaluation
            || e.kind == ErrorKind::Row) && e.context@ == select_message(e.kind, query@),
        r matches Ok(rows) ==> admissible_rows(
            store_quads(*store),
            store_graphs(*store),
            query@,
            rows.deep_view(),
        ),
        r matches Ok(rows) ==> rows_fit(rows.deep_view(), query_form(query@)),
        evaluation_reported(r),
{
    let answer = match run_sparql_query(store, query) {
        Ok(a) => a,
        Err(QueryFailure::Syntax(e)) => {
            return Err(
                error_with_cause(
                    ErrorKind::Syntax,
                    joined("parsing SPARQL query:\n", query),
                    e.to_string(),
                ),
            );
        },
        Err(QueryFailure::Evaluation(e)) => {
            let cause = e.to_string();
            return Err(
                engine_failure(
                    ErrorKind::QueryEvaluation,
                    joined("executing SPARQL query:\n", query),
                    cause,
                    EngineError::Query(e),
                ),
            );
        },
        Err(QueryFailure::Row(e)) => {
            let cause = e.to_string();
            return Err(
                engine_failure(
                    ErrorKind::Row,
                    String::from_str("reading SPARQL solution row"),
                    cause,
                    EngineError::Query(e),
                ),
            );
        },
    };
    let rows = rows_from_answer(&answer);
    proof {
        let form = query_form(query@);
        let d = rows.deep_view();
        if let Some(QueryForm::Select(vars)) = form {
            if let QueryAnswer::Solutions { variables, rows: table } = answer {
                assert forall|i: int| 0 <= i < d.len() implies (#[trigger] d[i]).len() == vars.len()
                    && forall|j: int| 0 <= j < vars.len() ==> (#[trigger] d[i][j]).0 == vars[j] by {
                    lemma_rows_follow_variables(variables.deep_view(), table.deep_view(), i);
                }
            }
        }
    }
    Ok(rows)
}

/// The message `ask` gives for an error of this kind.
pub open spec fn ask_message(kind: ErrorKind, query: Seq<char>) -> Seq<char> {
    match kind {
        ErrorKind::Syntax => "parsing ASK query:\n"@ + query,
        ErrorKind::QueryEvaluation => "executing ASK query:\n"@ + query,
        _ => not_ask_message(),
    }
}

/// Run a SPARQL `ASK` query and return its boolean. A query that does not
/// parse fails with "parsing ASK query:" and the query; a failed evaluation
/// with "executing ASK query:" and the query; a query of another kind with
/// "query was not an ASK".
pub fn ask(store: &Store, query: &str) -> (r: Result<bool, GraphError>)
    ensures
        failed_as(r, ErrorKind::Syntax) <==> !is_sparql_query(query@),
        failed_as(r, ErrorKind::NotAsk) <==> (query_form(query@) matches Some(f) && !(f is Ask)
            && !failed_as(r, ErrorKind::QueryEvaluation)),
        r is Ok ==> query_form(query@) == Some(QueryForm::Ask),
        r matches Ok(b) ==> admissible_answer(
            store_quads(*store),
            store_graphs(*store),
            query@,
            AnswerValue::Boolean(b),
        ),
        r matches Err(e) ==> (e.kind == ErrorKind::Syntax || e.kind == ErrorKind::QueryEvaluation
            || e.kind == ErrorKind::NotAsk) && e.context@ == ask_message(e.kind, query@),
        evaluation_reported(r),
{
    match run_sparql_query(store, query) {
        Ok(answer) => ask_from_answer(&answer),
        Err(QueryFailure::Syntax(e)) => Err(
            error_with_cause(ErrorKind::Syntax, joined("parsing ASK query:\n", query), e.to_string()),
        ),
        Err(QueryFailure::Evaluation(e)) => {
            let cause = e.to_string();
            Err(
                engine_failure(
                    ErrorKind::QueryEvaluation,
                    joined("executing ASK query:\n", query),
                    cause,
                    EngineError::Query(e),
                ),
            )
        },
        Err(QueryFailure::Row(_)) => Err(not_ask_error()),
    }
}

/// The message `execute_update` gives for an error of this kind: "parsing"
/// or "executing", then what the update is.
pub open spec fn update_message(kind: ErrorKind, what: Seq<char>) -> Seq<char> {
    match kind {
        ErrorKind::Syntax => "parsing "@ + what,
        _ => "executing "@ + what,
    }
}

/// Parse and run a SPARQL update; `what` names it in the error message
/// ("parsing <what>" or "executing <what>"). It is atomic: on failure the
/// store is left as it was. An `INSERT DATA` always succeeds and adds
/// exactly its quads, a `DELETE DATA` always succeeds and removes exactly
/// its quads, and an update that only deletes never adds a quad.
pub fn execute_update(store: &mut Store, update: &str, what: &str) -> (r: Result<(), GraphError>)
    ensures
        failed_as(r, ErrorKind::Syntax) <==> !is_sparql_update(update@),
        r is Err ==> store_quads(*final(store)) == store_quads(*old(store)),
        r matches Err(e) ==> (e.kind == ErrorKind::Syntax || e.kind == ErrorKind::Update)
            && e.context@ == update_message(e.kind, what@),
        store_quads(*final(store)).finite(),
        update_form(update@) matches Some(UpdateForm::InsertData(quads)) ==> r is Ok
            && store_quads(*final(store)) == store_quads(*old(store)).union(quads),
        update_form(update@) matches Some(UpdateForm::DeleteData(quads)) ==> r is Ok
            && store_quads(*final(store)) == store_quads(*old(store)).difference(quads),
        update_form(update@) == Some(UpdateForm::DeletesOnly) ==> store_quads(
            *final(store),
        ).subset_of(store_quads(*old(store))),
        update_reported(r),
{
    match run_sparql_update(store, update) {
        Ok(()) => Ok(()),
        Err(UpdateFailure::Syntax(e)) => Err(
            error_with_cause(ErrorKind::Syntax, joined("parsing ", what), e.to_string()),
        ),
        Err(UpdateFailure::Evaluation(e)) => {
            let cause = e.to_string();
            Err(engine_failure(ErrorKind::Update, joined("executing ", what), cause, EngineError::Update(e)))
        },
    }
}

/// The SPARQL update that records a promise in the graph `ex:promises`:
/// `ex:promise_<task>` is a `ex:Promise` made by `ex:<from>` to `ex:<to>`,
/// with content `"<task>"` and the `xsd:dateTime` `"<when>"`.
pub open spec fn promise_text(
    from: Seq<char>,
    to: Seq<char>,
    task: Seq<char>,
    when: Seq<char>,
) -> Seq<char> {
    "\n        PREFIX ex:  <http://example.org/agent#>\n        PREFIX xsd: <http://www.w3.org/2001/XMLSchema#>\n        INSERT DATA {\n            GRAPH ex:promises {\n                ex:promise_"@
        + task + " a ex:Promise ;\n                    ex:promisedBy    ex:"@ + from
        + " ;\n                    ex:promisedTo    ex:"@ + to
        + " ;\n                    ex:promiseContent \""@ + task
        + "\" ;\n                    ex:promisedAt    \""@ + when
        + "\"^^xsd:dateTime .\n            }\n        }\n        "@
}

/// Build the update that records a promise; the four arguments are the
/// local names of the two agents, the task's local name, and the ISO-8601
/// time at which the promise was made. They are spliced in as given.
pub fn promise_update(from: &str, to: &str, task: &str, when: &str) -> (text: String)
    ensures
        text@ == promise_text(from@, to@, task@, when@),
{
    let mut text = String::from_str(
        "\n        PREFIX ex:  <http://example.org/agent#>\n        PREFIX xsd: <http://www.w3.org/2001/XMLSchema#>\n        INSERT DATA {\n            GRAPH ex:promises {\n                ex:promise_",
    );
    text.append(task);
    text.append(" a ex:Promise ;\n                    ex:promisedBy    ex:");
    text.append(from);
    text.append(" ;\n                    ex:promisedTo    ex:");
    text.append(to);
    text.append(" ;\n                    ex:promiseContent \"");
    text.append(task);
    text.append("\" ;\n                    ex:promisedAt    \"");
    text.append(when);
    text.append("\"^^xsd:dateTime .\n            }\n        }\n        ");
    text
}

/// The namespace of the examples, as text.
pub open spec fn ex_iri(local: Seq<char>) -> Seq<char> {
    iri_term("http://example.org/agent#"@ + local)
}

/// A quad of the graph `ex:promises`.
pub open spec fn promise_quad(s: Seq<char>, p: Seq<char>, o: Seq<char>) -> QuadTerms {
    QuadTerms { subject: s, predicate: p, object: o, graph: Some(ex_iri("promises"@)) }
}

/// The five quads that recording a promise adds to `ex:promises`: the
/// promise `ex:promise_<task>` is an `ex:Promise`, made by `ex:<from>` to
/// `ex:<to>`, with content `"<task>"` and the `xsd:dateTime` `"<when>"`.
pub open spec fn promise_quads(
    from: Seq<char>,
    to: Seq<char>,
    task: Seq<char>,
    when: Seq<char>,
) -> Set<QuadTerms> {
    let promise = ex_iri("promise_"@ + task);
    set![
        promise_quad(promise, iri_term("http://www.w3.org/1999/02/22-rdf-syntax-ns#type"@), ex_iri("Promise"@)),
        promise_quad(promise, ex_iri("promisedBy"@), ex_iri(from)),
        promise_quad(promise, ex_iri("promisedTo"@), ex_iri(to)),
        promise_quad(promise, ex_iri("promiseContent"@), seq!['"'] + task + seq!['"']),
        promise_quad(
            promise,
            ex_iri("promisedAt"@),
            seq!['"'] + when + "\"^^<http://www.w3.org/2001/XMLSchema#dateTime>"@,
        ),
    ]
}

/// Write a promise into `ex:promises`, in one transaction: on failure the
/// store is left as it was. When the update text reads as the `INSERT DATA`
/// of the five promise quads (names that fit prefixed names, a task
/// without quotes or backslashes, a well-formed time), the store becomes
/// exactly the old one plus those quads.
pub fn record_promise(store: &mut Store, from: &str, to: &str, task: &str, when: &str) -> (r:
    Result<(), GraphError>)
    ensures
        failed_as(r, ErrorKind::Syntax) <==> !is_sparql_update(
            promise_text(from@, to@, task@, when@),
        ),
        r is Err ==> store_quads(*final(store)) == store_quads(*old(store)),
        r matches Err(e) ==> (e.kind == ErrorKind::Syntax || e.kind == ErrorKind::Update)
            && e.context@ == update_message(e.kind, "INSERT DATA for promise"@),
        update_form(promise_text(from@, to@, task@, when@)) matches Some(
            UpdateForm::InsertData(quads),
        ) ==> r is Ok && store_quads(*final(store)) == store_quads(*old(store)).union(quads),
        update_form(promise_text(from@, to@, task@, when@)) == Some(
            UpdateForm::InsertData(promise_quads(from@, to@, task@, when@)),
        ) ==> r is Ok && store_quads(*final(store)) == store_quads(*old(store)).union(
            promise_quads(from@, to@, task@, when@),
        ),
        update_reported(r),
{
    let update = promise_update(from, to, task, when);
    execute_update(store, update.as_str(), "INSERT DATA for promise")
}

/// The promise update names the promise `ex:promise_<task>`, `from` as the
/// agent who made it and `to` as the agent it was made to, `task` as its
/// content and `when` as its time, in that order, whatever the arguments.
pub proof fn lemma_promise_text_names_giver_and_receiver(
    from: Seq<char>,
    to: Seq<char>,
    task: Seq<char>,
    when: Seq<char>,
)
    ensures
        exists|before: Seq<char>, after: Seq<char>|
            promise_text(from, to, task, when) == before + "ex:promise_"@ + task
                + " a ex:Promise ;\n                    "@ + "ex:promisedBy    ex:"@ + from
                + " ;\n                    ex:promisedTo    ex:"@ + to
                + " ;\n                    ex:promiseContent \""@ + task
                + "\" ;\n                    ex:promisedAt    \""@ + when + after,
{
    let head = "\n        PREFIX ex:  <http://example.org/agent#>\n        PREFIX xsd: <http://www.w3.org/2001/XMLSchema#>\n        INSERT DATA {\n            GRAPH ex:promises {\n                ex:promise_"@;
    let prefix = "\n        PREFIX ex:  <http://example.org/agent#>\n        PREFIX xsd: <http://www.w3.org/2001/XMLSchema#>\n        INSERT DATA {\n            GRAPH ex:promises {\n                "@;
    let name = "ex:promise_"@;
    let by = " a ex:Promise ;\n                    ex:promisedBy    ex:"@;
    let lead = " a ex:Promise ;\n                    "@;
    let label = "ex:promisedBy    ex:"@;
    let mid = " ;\n                    ex:promisedTo    ex:"@;
    let content = " ;\n                    ex:promiseContent \""@;
    let at = "\" ;\n                    ex:promisedAt    \""@;
    let tail = "\"^^xsd:dateTime .\n            }\n        }\n        "@;
    assert(head =~= prefix + name) by {
        reveal_strlit("\n        PREFIX ex:  <http://example.org/agent#>\n        PREFIX xsd: <http://www.w3.org/2001/XMLSchema#>\n        INSERT DATA {\n            GRAPH ex:promises {\n                ex:promise_");
        reveal_strlit("\n        PREFIX ex:  <http://example.org/agent#>\n        PREFIX xsd: <http://www.w3.org/2001/XMLSchema#>\n        INSERT DATA {\n            GRAPH ex:promises {\n                ");
        reveal_strlit("ex:promise_");
    }
    assert(by =~= lead + label) by {
        reveal_strlit(" a ex:Promise ;\n                    ex:promisedBy    ex:");
        reveal_strlit(" a ex:Promise ;\n                    ");
        reveal_strlit("ex:promisedBy    ex:");
    }
    assert(promise_text(from, to, task, when) =~= prefix + name + task + lead + label + from + mid
        + to + content + task + at + when + tail);
}

/// Recording the same promise again changes nothing.
pub proof fn lemma_promise_twice_changes_nothing(
    s0: Set<QuadTerms>,
    s1: Set<QuadTerms>,
    s2: Set<QuadTerms>,
    quads: Set<QuadTerms>,
)
    requires
        s1 == s0.union(quads),
        s2 == s1.union(quads),
    ensures
        s2 == s1,
{
    assert(s2 =~= s1);
}

/// Recording a promise leaves the default graph and every graph but
/// `ex:promises` as they were.
pub proof fn lemma_promise_keeps_other_graphs(
    before: Set<QuadTerms>,
    from: Seq<char>,
    to: Seq<char>,
    task: Seq<char>,
    when: Seq<char>,
    p: QuadPattern,
)
    requires
        p.graph matches Some(sel) && match sel {
            GraphSelector::Default => true,
            GraphSelector::Named(x) => x@ != "http://example.org/agent#promises"@,
        },
    ensures
        matching(before.union(promise_quads(from, to, task, when)), p) == matching(before, p),
{
    let added = promise_quads(from, to, task, when);
    assert forall|q: QuadTerms| #[trigger] matching(before.union(added), p).contains(q) implies matching(
        before,
        p,
    ).contains(q) by {
        if !before.contains(q) {
            assert(added.contains(q));
            assert(q.graph == Some(ex_iri("promises"@)));
            if let Some(GraphSelector::Named(x)) = p.graph {
                let a = iri_term(x@);
                let b = ex_iri("promises"@);
                assert(a == b);
                assert(a.subrange(1, a.len() - 1) =~= x@);
                assert(b.subrange(1, b.len() - 1) =~= "http://example.org/agent#promises"@) by {
                    assert("http://example.org/agent#"@ + "promises"@ =~= "http://example.org/agent#promises"@) by {
                        reveal_strlit("http://example.org/agent#");
                        reveal_strlit("promises");
                        reveal_strlit("http://example.org/agent#promises");
                    }
                }
            }
        }
    }
    assert(matching(before.union(added), p) =~= matching(before, p));
}


// ---------------------------------------------------------------------
// Laws
// ---------------------------------------------------------------------

/// A successful load never makes the store smaller.
pub proof fn lemma_load_never_shrinks(
    before: Set<QuadTerms>,
    after: Set<QuadTerms>,
    graph: Option<Seq<char>>,
    parsed: Option<(Set<TripleTerms>, bool)>,
    succeeded: bool,
)
    requires
        load_effect(before, after, graph, parsed, succeeded),
    ensures
        before.len() <= after.len(),
{
    if succeeded {
        vstd::set_lib::lemma_len_subset(before, after);
    }
}

/// Loading into a named graph leaves every other graph as it was: a
/// pattern that looks at the default graph, or at another named graph,
/// matches the same quads before and after.
pub proof fn lemma_named_load_keeps_other_graphs(
    before: Set<QuadTerms>,
    after: Set<QuadTerms>,
    graph: Seq<char>,
    parsed: Option<(Set<TripleTerms>, bool)>,
    succeeded: bool,
    p: QuadPattern,
)
    requires
        load_effect(before, after, Some(graph), parsed, succeeded),
        p.graph matches Some(sel) && match sel {
            GraphSelector::Default => true,
            GraphSelector::Named(x) => x@ != graph,
        },
    ensures
        matching(after, p) == matching(before, p),
{
    if succeeded {
        assert forall|q: QuadTerms| #[trigger] matching(after, p).contains(q) implies matching(
            before,
            p,
        ).contains(q) by {
            if !before.contains(q) {
                assert(after.contains(q));
                assert(q.graph == Some(iri_term(graph)));
                if let Some(GraphSelector::Named(x)) = p.graph {
                    assert(iri_term(x@) == iri_term(graph));
                    assert(iri_term(x@).subrange(1, iri_term(x@).len() - 1) =~= x@);
                    assert(iri_term(graph).subrange(1, iri_term(graph).len() - 1) =~= graph);
                }
            }
        }
        assert(matching(after, p) =~= matching(before, p));
    }
}

/// Loading a document without blank nodes a second time changes nothing.
pub proof fn lemma_reload_changes_nothing(
    s0: Set<QuadTerms>,
    s1: Set<QuadTerms>,
    s2: Set<QuadTerms>,
    graph: Option<Seq<char>>,
    parsed: Option<(Set<TripleTerms>, bool)>,
)
    requires
        load_effect(s0, s1, graph, parsed, true),
        load_effect(s1, s2, graph, parsed, true),
        !has_blank_of(parsed),
    ensures
        s2 == s1,
{
    assert(s2 =~= s1);
}

/// The all-wildcard pattern matches every quad, so counting with it is
/// the store's size.
pub proof fn lemma_wildcard_matches_all(quads: Set<QuadTerms>)
    ensures
        matching(quads, any_quad()) == quads,
{
    assert(matching(quads, any_quad()) =~= quads);
}

/// A pattern never counts more quads than the store holds; in particular
/// the default graph is never larger than the whole store.
pub proof fn lemma_pattern_within_store(quads: Set<QuadTerms>, p: QuadPattern)
    requires
        quads.finite(),
    ensures
        matching(quads, p).len() <= quads.len(),
{
    vstd::set_lib::lemma_len_subset(matching(quads, p), quads);
}

/// Every row that `select_rows` gives has one pair per variable, the
/// variables in order.
pub proof fn lemma_rows_follow_variables(
    variables: Seq<Seq<char>>,
    table: Seq<Seq<Option<Seq<char>>>>,
    r: int,
)
    requires
        0 <= r < table.len(),
    ensures
        solution_rows(variables, table).len() == table.len(),
        solution_rows(variables, table)[r].len() == variables.len(),
        forall|i: int|
            0 <= i < variables.len() ==> (#[trigger] solution_rows(variables, table)[r][i]).0
                == variables[i],
{
}

/// `p2` fixes every position that `p1` fixes, to the same term, and maybe
/// more.
pub open spec fn refines(p2: QuadPattern, p1: QuadPattern) -> bool {
    &&& p1.subject is Some ==> p2.subject == p1.subject
    &&& p1.predicate is Some ==> p2.predicate == p1.predicate
    &&& p1.object is Some ==> p2.object == p1.object
    &&& p1.graph is Some ==> p2.graph == p1.graph
}

/// Fixing more positions of a pattern never raises the count: every quad
/// that the finer pattern matches, the coarser one matches too.
pub proof fn lemma_finer_pattern_counts_less(quads: Set<QuadTerms>, p1: QuadPattern, p2: QuadPattern)
    requires
        quads.finite(),
        refines(p2, p1),
    ensures
        matching(quads, p2).subset_of(matching(quads, p1)),
        matching(quads, p2).len() <= matching(quads, p1).len(),
{
    vstd::set_lib::lemma_len_subset(matching(quads, p2), matching(quads, p1));
}

/// Two stores that held the same quads, given the same document without
/// blank nodes, end with the same quads: a load's outcome depends only on
/// the store and the document (whichever function reads it).
pub proof fn lemma_load_is_determined(
    before: Set<QuadTerms>,
    s1: Set<QuadTerms>,
    s2: Set<QuadTerms>,
    graph: Option<Seq<char>>,
    parsed: Option<(Set<TripleTerms>, bool)>,
    ok1: bool,
    ok2: bool,
)
    requires
        load_effect(before, s1, graph, parsed, ok1),
        load_effect(before, s2, graph, parsed, ok2),
        !has_blank_of(parsed),
    ensures
        ok1 == ok2,
        s1 == s2,
{
}

/// No term of the quad spans several lines.
pub open spec fn single_line_quad(q: QuadTerms) -> bool {
    &&& forall|j: int| 0 <= j < q.subject.len() ==> q.subject[j] != '\n'
    &&& forall|j: int| 0 <= j < q.predicate.len() ==> q.predicate[j] != '\n'
    &&& forall|j: int| 0 <= j < q.object.len() ==> q.object[j] != '\n'
    &&& q.graph matches Some(g) ==> forall|j: int| 0 <= j < g.len() ==> g[j] != '\n'
}

/// An N-Quads document is empty or ends with a newline.
proof fn lemma_nquads_text_ends_line(quads: Seq<QuadTerms>)
    ensures
        nquads_text(quads).len() == 0 || nquads_text(quads).last() == '\n',
{
    if quads.len() > 0 {
        let line = nquads_line(quads.last());
        assert(line.last() == '\n');
        assert(nquads_text(quads).last() == line.last());
    }
}

/// A dump has one line per quad, as long as no term spans several lines:
/// counting its lines gives back the number of quads it lists.
pub proof fn lemma_dump_lines_count_quads(quads: Seq<QuadTerms>)
    requires
        forall|i: int| 0 <= i < quads.len() ==> single_line_quad(#[trigger] quads[i]),
    ensures
        nonblank_lines(nquads_text(quads)) == quads.len(),
    decreases quads.len(),
{
    if quads.len() == 0 {
        assert(nonblank_lines(Seq::<char>::empty()) == 0);
    } else {
        let rest = quads.drop_last();
        let q = quads.last();
        assert(single_line_quad(quads[quads.len() - 1]));
        assert forall|i: int| 0 <= i < rest.len() implies single_line_quad(#[trigger] rest[i]) by {
            assert(rest[i] == quads[i]);
        }
        lemma_dump_lines_count_quads(rest);
        lemma_nquads_text_ends_line(rest);
        let graph = match q.graph {
            Some(g) => seq![' '] + g,
            None => Seq::<char>::empty(),
        };
        let head = q.subject + seq![' '] + q.predicate + seq![' '] + q.object;
        let body = head + graph + seq![' ', '.'];
        assert(nquads_line(q) =~= body.push('\n'));
        assert forall|j: int| 0 <= j < head.len() implies head[j] != '\n' by {
            let a = q.subject.len();
            let b = q.predicate.len();
            if j < a {
                assert(head[j] == q.subject[j]);
            } else if j == a {
            } else if j < a + 1 + b {
                assert(head[j] == q.predicate[j - a - 1]);
            } else if j == a + 1 + b {
            } else {
                assert(head[j] == q.object[j - a - 2 - b]);
            }
        }
        assert forall|j: int| 0 <= j < graph.len() implies graph[j] != '\n' by {
            if let Some(g) = q.graph {
                if j > 0 {
                    assert(graph[j] == g[j - 1]);
                }
            }
        }
        assert forall|j: int| 0 <= j < body.len() implies body[j] != '\n' by {
            if j < head.len() {
                assert(body[j] == head[j]);
            } else if j < head.len() + graph.len() {
                assert(body[j] == graph[j - head.len()]);
            }
        }
        assert(body[body.len() - 1] == '.');
        assert(!is_blank(body));
        lemma_one_line(body);
        lemma_nonblank_lines_concat(nquads_text(rest), nquads_line(q));
    }
}

/// A dump of a store whose terms are single-line has exactly as many lines
/// as the store has quads.
pub proof fn lemma_dump_lines_count_store(quads: Seq<QuadTerms>, store: Set<QuadTerms>)
    requires
        lists_exactly(quads, store),
        forall|q: QuadTerms| #[trigger] store.contains(q) ==> single_line_quad(q),
    ensures
        nonblank_lines(nquads_text(quads)) == store.len(),
{
    assert forall|i: int| 0 <= i < quads.len() implies single_line_quad(#[trigger] quads[i]) by {
        assert(quads.to_set().contains(quads[i]));
    }
    lemma_dump_lines_count_quads(quads);
    quads.unique_seq_to_set();
}

} // verus!
