//! Forward-chaining closure as N-Triples, and counting its lines.
use vstd::prelude::*;
use vstd::string::*;
use reasonable::reasoner::Reasoner;

verus! {

/// The OWL 2 RL reasoner of the `reasonable` crate, carried through opaque.
#[verifier::external_type_specification]
#[verifier::external_body]
pub struct ExReasoner(Reasoner);

/// The triples loaded into a reasoner as its base (including the two it
/// starts with), each term as N-Triples prints it.
pub uninterp spec fn reasoner_base(reasoner: Reasoner) -> Set<(Seq<char>, Seq<char>, Seq<char>)>;

/// The triples of the reasoner's last closure, in the order it lists them,
/// each term as N-Triples prints it; empty before any reasoning.
pub uninterp spec fn reasoner_closure(reasoner: Reasoner) -> Seq<(Seq<char>, Seq<char>, Seq<char>)>;

/// Whether a triple names the node `<urn:_>`, which the reasoner reserves
/// for itself and leaves out of every closure.
pub open spec fn names_reserved_node(t: (Seq<char>, Seq<char>, Seq<char>)) -> bool {
    t.0 == "<urn:_>"@ || t.1 == "<urn:_>"@ || t.2 == "<urn:_>"@
}

/// Calls `Reasoner::reason`, which runs OWL 2 RL forward chaining over the
/// triples loaded so far and keeps the closure inside the reasoner. The
/// base stays as it was, and the closure holds every base triple (the
/// facts that go in are facts that come out), except those naming the
/// reserved node. Which triples it infers is not stated.
#[verifier::external_body]
fn run_reasoning(reasoner: &mut Reasoner)
    ensures
        reasoner_base(*final(reasoner)) == reasoner_base(*old(reasoner)),
        forall|t: (Seq<char>, Seq<char>, Seq<char>)|
            #![trigger reasoner_base(*old(reasoner)).contains(t)]
            reasoner_base(*old(reasoner)).contains(t) && !names_reserved_node(t)
                ==> reasoner_closure(*final(reasoner)).contains(t),
{
    reasoner.reason()
}

/// Calls `Reasoner::get_triples_string`, which lists the triples of the last
/// closure, each term printed in N-Triples syntax, and changes nothing.
#[verifier::external_body]
fn closure_triples(reasoner: &mut Reasoner) -> (triples: Vec<(String, String, String)>)
    ensures
        triples.deep_view() == reasoner_closure(*old(reasoner)),
        reasoner_closure(*final(reasoner)) == reasoner_closure(*old(reasoner)),
        reasoner_base(*final(reasoner)) == reasoner_base(*old(reasoner)),
{
    reasoner.get_triples_string()
}

/// Unicode `White_Space`, the set that `char::is_whitespace` and
/// `str::trim` use.
pub open spec fn is_ws(c: char) -> bool {
    ||| c == '\t' || c == '\n' || c == '\u{0B}' || c == '\u{0C}' || c == '\r'
    ||| c == ' ' || c == '\u{85}' || c == '\u{A0}' || c == '\u{1680}'
    ||| ('\u{2000}' <= c && c <= '\u{200A}')
    ||| c == '\u{2028}' || c == '\u{2029}' || c == '\u{202F}' || c == '\u{205F}'
    ||| c == '\u{3000}'
}

/// A line is blank when trimming it leaves nothing.
pub open spec fn is_blank(line: Seq<char>) -> bool {
    forall|i: int| 0 <= i < line.len() ==> is_ws(#[trigger] line[i])
}

/// Index of the first `'\n'` in `s`, or `s.len()` when there is none.
pub open spec fn newline_pos(s: Seq<char>) -> int
    decreases s.len(),
{
    if s.len() == 0 {
        0
    } else if s[0] == '\n' {
        0
    } else {
        1 + newline_pos(s.drop_first())
    }
}

/// Number of lines of `s` (split at `'\n'`) that are not blank.
pub open spec fn nonblank_lines(s: Seq<char>) -> nat
    decreases s.len(),
{
    let k = newline_pos(s);
    if s.len() == 0 {
        0
    } else {
        let here: nat = if is_blank(s.take(k)) { 0 } else { 1 };
        if k < s.len() {
            proof { lemma_newline_pos(s); }
            here + nonblank_lines(s.skip(k + 1))
        } else {
            here
        }
    }
}

/// Where the first newline sits, and that none comes before it.
pub proof fn lemma_newline_pos(s: Seq<char>)
    ensures
        0 <= newline_pos(s) <= s.len(),
        forall|j: int| 0 <= j < newline_pos(s) ==> s[j] != '\n',
        newline_pos(s) < s.len() ==> s[newline_pos(s)] == '\n',
    decreases s.len(),
{
    if s.len() > 0 && s[0] != '\n' {
        lemma_newline_pos(s.drop_first());
        assert forall|j: int| 0 <= j < newline_pos(s) implies s[j] != '\n' by {
            if j > 0 {
                assert(s[j] == s.drop_first()[j - 1]);
            }
        }
    }
}

/// `newline_pos` only looks at the chars up to the first newline.
proof fn lemma_newline_pos_append(s: Seq<char>, t: Seq<char>)
    requires
        newline_pos(s) < s.len(),
    ensures
        newline_pos(s + t) == newline_pos(s),
    decreases s.len(),
{
    if s[0] != '\n' {
        assert((s + t).drop_first() =~= s.drop_first() + t);
        lemma_newline_pos_append(s.drop_first(), t);
    }
}

/// A sequence without any newline is a single line.
proof fn lemma_single_line(s: Seq<char>)
    requires
        forall|j: int| 0 <= j < s.len() ==> s[j] != '\n',
    ensures
        newline_pos(s) == s.len(),
        nonblank_lines(s) == (if is_blank(s) { 0nat } else { 1nat }),
    decreases s.len(),
{
    lemma_newline_pos(s);
    if s.len() > 0 {
        assert(s.take(s.len() as int) =~= s);
    }
}

/// Two documents glued at a line boundary (the first is empty or ends with
/// a newline) have as many non-blank lines as the two have together.
pub proof fn lemma_nonblank_lines_concat(a: Seq<char>, c: Seq<char>)
    requires
        a.len() == 0 || a.last() == '\n',
    ensures
        nonblank_lines(a + c) == nonblank_lines(a) + nonblank_lines(c),
    decreases a.len(),
{
    if a.len() == 0 {
        assert(a + c =~= c);
    } else {
        lemma_newline_pos(a);
        let k = newline_pos(a);
        if k == a.len() {
            assert(a[a.len() - 1] == '\n');
        }
        assert(k < a.len());
        lemma_newline_pos_append(a, c);
        assert((a + c).take(k) =~= a.take(k));
        assert((a + c).skip(k + 1) =~= a.skip(k + 1) + c);
        let rest = a.skip(k + 1);
        if rest.len() > 0 {
            assert(rest.last() == a.last());
        }
        lemma_nonblank_lines_concat(rest, c);
    }
}

/// A final newline adds no line to the count.
proof fn lemma_trailing_newline(a: Seq<char>)
    ensures
        nonblank_lines(a.push('\n')) == nonblank_lines(a),
    decreases a.len(),
{
    lemma_newline_pos(a);
    let k = newline_pos(a);
    if k == a.len() {
        lemma_single_line(a);
        lemma_one_line(a);
    } else {
        let line = a.take(k);
        let rest = a.skip(k + 1);
        assert forall|j: int| 0 <= j < line.len() implies line[j] != '\n' by {
            assert(line[j] == a[j]);
        }
        lemma_one_line(line);
        assert(a =~= line.push('\n') + rest);
        assert(a.push('\n') =~= line.push('\n') + rest.push('\n'));
        lemma_nonblank_lines_concat(line.push('\n'), rest);
        lemma_nonblank_lines_concat(line.push('\n'), rest.push('\n'));
        lemma_trailing_newline(rest);
    }
}

/// Joining two documents with a newline between them adds their line
/// counts: the lines of `a`, then those of `b`.
pub proof fn lemma_count_lines_join(a: Seq<char>, b: Seq<char>)
    ensures
        nonblank_lines(a + seq!['\n'] + b) == nonblank_lines(a) + nonblank_lines(b),
{
    assert(a + seq!['\n'] + b =~= a.push('\n') + b);
    lemma_nonblank_lines_concat(a.push('\n'), b);
    lemma_trailing_newline(a);
}

/// A newline-free prefix shifts the first newline by its length.
proof fn lemma_newline_pos_after(line: Seq<char>, t: Seq<char>)
    requires
        forall|j: int| 0 <= j < line.len() ==> line[j] != '\n',
    ensures
        newline_pos(line + t) == line.len() + newline_pos(t),
    decreases line.len(),
{
    if line.len() > 0 {
        assert((line + t)[0] == line[0]);
        assert((line + t).drop_first() =~= line.drop_first() + t);
        lemma_newline_pos_after(line.drop_first(), t);
    } else {
        assert(line + t =~= t);
    }
}

/// A line followed by its newline counts as one line when not blank.
pub proof fn lemma_one_line(line: Seq<char>)
    requires
        forall|j: int| 0 <= j < line.len() ==> line[j] != '\n',
    ensures
        nonblank_lines(line.push('\n')) == (if is_blank(line) { 0nat } else { 1nat }),
{
    let s = line.push('\n');
    let nl: Seq<char> = seq!['\n'];
    assert(nl[0] == '\n');
    assert(newline_pos(nl) == 0);
    assert(nonblank_lines(Seq::<char>::empty()) == 0);
    assert(s =~= line + nl);
    lemma_newline_pos_after(line, nl);
    assert(newline_pos(s) == line.len());
    assert(s.take(line.len() as int) =~= line);
    assert(s.skip(line.len() + 1int) =~= Seq::<char>::empty());
}

/// The UTF-8 encoding has at least one byte per char.
proof fn lemma_encode_utf8_len(chars: Seq<char>)
    ensures
        vstd::utf8::encode_utf8(chars).len() >= chars.len(),
    decreases chars.len(),
{
    if chars.len() > 0 {
        lemma_encode_utf8_len(chars.drop_first());
    }
}

/// Whitespace test of `char::is_whitespace`.
fn char_is_ws(c: char) -> (b: bool)
    ensures
        b == is_ws(c),
{
    c == '\t' || c == '\n' || c == '\u{0B}' || c == '\u{0C}' || c == '\r' || c == ' '
        || c == '\u{85}' || c == '\u{A0}' || c == '\u{1680}' || ('\u{2000}' <= c && c
        <= '\u{200A}') || c == '\u{2028}' || c == '\u{2029}' || c == '\u{202F}' || c
        == '\u{205F}' || c == '\u{3000}'
}

/// Count how many lines the text contains, not counting blank ones.
///
/// A line is what `str::lines` yields; a blank line is one that is empty
/// once trimmed. Splitting at `'\n'` alone gives the same count: the `'\r'`
/// that `lines` strips is whitespace, and the empty piece after a final
/// newline is blank.
pub fn count_lines(ntriples: &str) -> (n: usize)
    ensures
        n == nonblank_lines(ntriples@),
{
    let ghost s = ntriples@;
    let bytes = ntriples.as_bytes();
    let _byte_len = bytes.len();
    proof {
        lemma_encode_utf8_len(s);
    }
    let mut count: usize = 0;
    let mut has_content = false;
    let ghost mut start: int = 0;
    let mut chars = ntriples.chars();
    for c in it: chars
        invariant
            s == ntriples@,
            s.len() <= usize::MAX,
            it.seq() == s,
            0 <= start <= it.index() <= s.len(),
            start == 0 || s[start - 1] == '\n',
            forall|j: int| start <= j < it.index() ==> s[j] != '\n',
            has_content == !is_blank(s.subrange(start, it.index() as int)),
            count == nonblank_lines(s.take(start)),
            count <= start,
    {
        let ghost i = it.index() as int;
        assert(c == s[i]);
        let ghost line = s.subrange(start, i);
        if c == '\n' {
            proof {
                lemma_one_line(line);
                lemma_nonblank_lines_concat(s.take(start), line.push('\n'));
                assert(s.take(start) + line.push('\n') =~= s.take(i + 1));
            }
            if has_content {
                count = count + 1;
            }
            has_content = false;
            proof {
                start = i + 1;
                assert(s.subrange(start, i + 1) =~= Seq::<char>::empty());
            }
        } else {
            let ws = char_is_ws(c);
            if !ws {
                has_content = true;
            }
            assert(s.subrange(start, i + 1) =~= line.push(c));
            assert(is_blank(line.push(c)) == (is_blank(line) && is_ws(c))) by {
                if is_blank(line) && is_ws(c) {
                    assert forall|j: int| 0 <= j < line.push(c).len() implies is_ws(
                        #[trigger] line.push(c)[j],
                    ) by {
                        if j < line.len() {
                            assert(line.push(c)[j] == line[j]);
                        }
                    }
                }
                if is_blank(line.push(c)) {
                    assert(line.push(c)[line.len() as int] == c);
                    assert forall|j: int| 0 <= j < line.len() implies is_ws(#[trigger] line[j]) by {
                        assert(line.push(c)[j] == line[j]);
                    }
                }
            }
        }
    }
    let ghost last = s.subrange(start, s.len() as int);
    proof {
        lemma_single_line(last);
        lemma_nonblank_lines_concat(s.take(start), last);
        assert(s.take(start) + last =~= s);
    }
    if has_content {
        count + 1
    } else {
        count
    }
}

/// One N-Triples line: the three terms separated by spaces, then ` .` and
/// a newline.
pub open spec fn triple_line(t: (Seq<char>, Seq<char>, Seq<char>)) -> Seq<char> {
    t.0 + seq![' '] + t.1 + seq![' '] + t.2 + seq![' ', '.', '\n']
}

/// The N-Triples document made of one line per triple, in order.
pub open spec fn ntriples_text(triples: Seq<(Seq<char>, Seq<char>, Seq<char>)>) -> Seq<char>
    decreases triples.len(),
{
    if triples.len() == 0 {
        Seq::empty()
    } else {
        ntriples_text(triples.drop_last()) + triple_line(triples.last())
    }
}

/// None of the three terms holds a newline.
pub open spec fn single_line_terms(t: (Seq<char>, Seq<char>, Seq<char>)) -> bool {
    &&& forall|j: int| 0 <= j < t.0.len() ==> t.0[j] != '\n'
    &&& forall|j: int| 0 <= j < t.1.len() ==> t.1[j] != '\n'
    &&& forall|j: int| 0 <= j < t.2.len() ==> t.2[j] != '\n'
}

/// A document is empty or ends with a newline.
proof fn lemma_ntriples_text_ends_line(triples: Seq<(Seq<char>, Seq<char>, Seq<char>)>)
    ensures
        ntriples_text(triples).len() == 0 || ntriples_text(triples).last() == '\n',
{
    if triples.len() > 0 {
        let l = triple_line(triples.last());
        assert(l.last() == '\n');
        assert(ntriples_text(triples).last() == l.last());
    }
}

/// Counting the lines of a closure document gives back its number of
/// triples, as long as no term spans several lines.
pub proof fn lemma_count_lines_of_ntriples(triples: Seq<(Seq<char>, Seq<char>, Seq<char>)>)
    requires
        forall|i: int| 0 <= i < triples.len() ==> single_line_terms(#[trigger] triples[i]),
    ensures
        nonblank_lines(ntriples_text(triples)) == triples.len(),
    decreases triples.len(),
{
    if triples.len() == 0 {
        assert(nonblank_lines(Seq::<char>::empty()) == 0);
    } else {
        let rest = triples.drop_last();
        let t = triples.last();
        assert(single_line_terms(triples[triples.len() - 1]));
        assert forall|i: int| 0 <= i < rest.len() implies single_line_terms(#[trigger] rest[i]) by {
            assert(rest[i] == triples[i]);
        }
        lemma_count_lines_of_ntriples(rest);
        lemma_ntriples_text_ends_line(rest);
        let body = t.0 + seq![' '] + t.1 + seq![' '] + t.2 + seq![' ', '.'];
        assert(triple_line(t) =~= body.push('\n'));
        assert forall|j: int| 0 <= j < body.len() implies body[j] != '\n' by {
            if j < t.0.len() {
                assert(body[j] == t.0[j]);
            } else if j == t.0.len() {
            } else if j < t.0.len() + 1 + t.1.len() {
                assert(body[j] == t.1[j - t.0.len() - 1]);
            } else if j == t.0.len() + 1 + t.1.len() {
            } else if j < t.0.len() + 2 + t.1.len() + t.2.len() {
                assert(body[j] == t.2[j - t.0.len() - 2 - t.1.len()]);
            }
        }
        assert(body[body.len() - 1] == '.');
        assert(!is_blank(body));
        lemma_one_line(body);
        lemma_nonblank_lines_concat(ntriples_text(rest), triple_line(t));
    }
}

/// Glue `(subject, predicate, object)` triples into an N-Triples document:
/// one triple per line, each terminated with ` .\n`.
pub fn ntriples_document(triples: &Vec<(String, String, String)>) -> (out: String)
    ensures
        out@ == ntriples_text(triples.deep_view()),
{
    let mut out = String::new();
    let ghost d = triples.deep_view();
    for i in 0..triples.len()
        invariant
            d == triples.deep_view(),
            d.len() == triples.len(),
            out@ == ntriples_text(d.take(i as int)),
    {
        let t = &triples[i];
        let ghost before = out@;
        out.append(t.0.as_str());
        out.append(" ");
        out.append(t.1.as_str());
        out.append(" ");
        out.append(t.2.as_str());
        out.append(" .\n");
        proof {
            assert(d.take(i + 1).drop_last() =~= d.take(i as int));
            assert(d.take(i + 1).last() == d[i as int]);
            assert(d[i as int] == (t.0@, t.1@, t.2@));
            reveal_strlit(" ");
            reveal_strlit(" .\n");
            assert(" "@ =~= seq![' ']);
            assert(" .\n"@ =~= seq![' ', '.', '\n']);
            assert(out@ =~= before + t.0@ + seq![' '] + t.1@ + seq![' '] + t.2@ + seq![' ', '.', '\n']);
            assert(out@ =~= ntriples_text(d.take(i as int)) + triple_line(d[i as int]));
        }
    }
    proof {
        assert(d.take(triples.len() as int) =~= d);
    }
    out
}

/// Run OWL 2 RL forward chaining over everything loaded into `reasoner` and
/// return the full closure as an N-Triples document, one triple per line
/// terminated with ` .\n`. The closure includes both the base triples and
/// the newly inferred ones.
pub fn closure_as_ntriples(reasoner: &mut Reasoner) -> (out: String)
    ensures
        out@ == ntriples_text(reasoner_closure(*final(reasoner))),
        reasoner_base(*final(reasoner)) == reasoner_base(*old(reasoner)),
        forall|t: (Seq<char>, Seq<char>, Seq<char>)|
            #![trigger reasoner_base(*old(reasoner)).contains(t)]
            reasoner_base(*old(reasoner)).contains(t) && !names_reserved_node(t)
                ==> reasoner_closure(*final(reasoner)).contains(t),
{
    run_reasoning(reasoner);
    let triples = closure_triples(reasoner);
    ntriples_document(&triples)
}

} // verus!
