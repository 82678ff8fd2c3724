//! SHACL validation reports, flattened to the fields the examples use.
use vstd::prelude::*;
use vstd::string::*;

verus! {

/// One line of a SHACL validation report.
#[derive(Debug, Clone)]
pub struct Violation {
    pub focus_node: String,
    pub severity: String,
    pub message: String,
    pub component: String,
}

/// The full result of a SHACL validation run.
#[derive(Debug, Clone)]
pub struct Report {
    pub conforms: bool,
    pub violations: Vec<Violation>,
}

/// One result as the SHACL engine hands it over: the focus node and the
/// constraint component as text, the severity's name, and the message if
/// the shape gave one.
pub struct ValidationResult {
    pub focus_node: String,
    pub severity: String,
    pub message: Option<String>,
    pub component: String,
}

/// The violation a result becomes: the same fields, an absent message
/// read as the empty string.
pub open spec fn violation_of(r: ValidationResult, v: Violation) -> bool {
    &&& v.focus_node@ == r.focus_node@
    &&& v.severity@ == r.severity@
    &&& v.message@ == match r.message {
        Some(m) => m@,
        None => Seq::<char>::empty(),
    }
    &&& v.component@ == r.component@
}

impl Report {
    /// Whether the report lists no violation at all.
    pub fn is_empty(&self) -> (b: bool)
        ensures
            b == (self.violations.len() == 0),
    {
        self.violations.len() == 0
    }
}

/// Flatten one engine result into a violation.
pub fn violation_from_result(result: ValidationResult) -> (v: Violation)
    ensures
        violation_of(result, v),
        v.focus_node@ == result.focus_node@,
        v.severity@ == result.severity@,
        v.component@ == result.component@,
        result.message matches Some(m) ==> v.message@ == m@,
        result.message is None ==> v.message@.len() == 0,
{
    let message = match result.message {
        Some(m) => m,
        None => String::new(),
    };
    Violation {
        focus_node: result.focus_node,
        severity: result.severity,
        message,
        component: result.component,
    }
}

/// Build the report of a run: whether the data conforms, and one violation
/// per engine result, in the engine's order.
pub fn report_from_results(conforms: bool, results: Vec<ValidationResult>) -> (report: Report)
    ensures
        report.conforms == conforms,
        report.violations.len() == results.len(),
        forall|i: int|
            0 <= i < results.len() ==> violation_of(results[i], #[trigger] report.violations[i]),
        forall|i: int|
            0 <= i < results.len() ==> {
                let v = #[trigger] report.violations[i];
                &&& v.focus_node@ == results[i].focus_node@
                &&& v.severity@ == results[i].severity@
                &&& v.component@ == results[i].component@
                &&& results[i].message matches Some(m) ==> v.message@ == m@
                &&& results[i].message is None ==> v.message@.len() == 0
            },
{
    let mut violations: Vec<Violation> = Vec::new();
    let mut rest = results;
    let ghost all = rest@;
    let total: usize = rest.len();
    let mut k: usize = 0;
    while rest.len() > 0
        invariant
            k + rest.len() == all.len(),
            all.len() == total,
            rest@ == all.skip(k as int),
            violations.len() == k,
            forall|i: int| 0 <= i < k ==> violation_of(all[i], #[trigger] violations[i]),
        decreases rest.len(),
    {
        let result = rest.remove(0);
        assert(result == all[k as int]);
        violations.push(violation_from_result(result));
        k = k + 1;
        assert(rest@ =~= all.skip(k as int));
    }
    proof {
        assert forall|i: int| 0 <= i < all.len() implies {
            let v = #[trigger] violations@[i];
            &&& v.focus_node@ == all[i].focus_node@
            &&& v.severity@ == all[i].severity@
            &&& v.component@ == all[i].component@
            &&& all[i].message matches Some(m) ==> v.message@ == m@
            &&& all[i].message is None ==> v.message@.len() == 0
        } by {
            lemma_violation_keeps_fields(all[i], violations@[i]);
        }
    }
    Report { conforms, violations }
}

/// A violation made from an engine result reports that result: its focus
/// node, its severity (a warning stays a warning) and its component, and
/// the result's message when it has one.
pub proof fn lemma_violation_keeps_fields(r: ValidationResult, v: Violation)
    requires
        violation_of(r, v),
    ensures
        v.focus_node@ == r.focus_node@,
        v.severity@ == r.severity@,
        v.component@ == r.component@,
        r.message matches Some(m) ==> v.message@ == m@,
        r.message is None ==> v.message@.len() == 0,
{
}

} // verus!
