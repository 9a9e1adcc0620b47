//! The term model for tabular query results, the wire-format response shape,
//! and the dataset handle.

use crate::text::str_eq;
use vstd::prelude::*;

verus! {

/// A handle to a named, remote-side container of graph data. The local value
/// carries identity only; the remote counterpart is created, populated,
/// queried and deleted through the lifecycle operations.
#[derive(Debug)]
pub struct Dataset {
    name: String,
}

impl View for Dataset {
    type V = Seq<char>;

    closed spec fn view(&self) -> Seq<char> {
        self.name@
    }
}

impl Dataset {
    /// Wraps a dataset name into a handle.
    pub fn new(name: String) -> (d: Dataset)
        ensures
            d@ == name@,
    {
        Dataset { name }
    }

    /// The name under which the remote side addresses this dataset.
    pub fn name(&self) -> (n: &str)
        ensures
            n@ == self@,
    {
        self.name.as_str()
    }
}

/// A resource, as in a linked-data graph, identified by IRI.
#[derive(Hash, PartialEq, Eq, Debug)]
pub struct Resource(pub String);

impl View for Resource {
    type V = Seq<char>;

    open spec fn view(&self) -> Seq<char> {
        self.0@
    }
}

impl Clone for Resource {
    /// Clones a resource; the clone names the same IRI.
    fn clone(&self) -> (r: Self)
        ensures
            r@ == self@,
    {
        Resource(self.0.clone())
    }
}

impl From<String> for Resource {
    /// Wraps an IRI string into a resource.
    fn from(s: String) -> (r: Self) {
        Resource(s)
    }
}

impl vstd::std_specs::convert::FromSpecImpl<String> for Resource {
    open spec fn obeys_from_spec() -> bool {
        true
    }

    open spec fn from_spec(s: String) -> Self {
        Resource(s)
    }
}

impl<'a> From<&'a str> for Resource {
    /// Wraps an IRI string slice into a resource.
    fn from(s: &'a str) -> (r: Self)
        ensures
            r@ == s@,
    {
        Resource(String::from_str(s))
    }
}

impl<'a> vstd::std_specs::convert::FromSpecImpl<&'a str> for Resource {
    open spec fn obeys_from_spec() -> bool {
        false
    }

    open spec fn from_spec(s: &'a str) -> Self {
        arbitrary()
    }
}

/// An opaque serialized-graph payload, as returned by a graph-shaped query.
#[derive(Debug)]
pub struct Graph {
    jsonld_representation: String,
}

impl View for Graph {
    type V = Seq<char>;

    closed spec fn view(&self) -> Seq<char> {
        self.jsonld_representation@
    }
}

impl Graph {
    /// Wraps a serialized-graph document.
    pub fn new(jsonld_representation: String) -> (g: Graph)
        ensures
            g@ == jsonld_representation@,
    {
        Graph { jsonld_representation }
    }

    /// The serialized-graph document this payload carries.
    pub fn document(&self) -> (d: &str)
        ensures
            d@ == self@,
    {
        self.jsonld_representation.as_str()
    }
}

/// Raw serialized graph data tagged with its format, ready for import.
#[derive(Debug)]
pub enum DataFile {
    Turtle(Vec<u8>),
    RdfXml(Vec<u8>),
}

/// A decoded graph value: a URI reference, or a literal with optional
/// datatype and language tag.
#[derive(Debug)]
pub enum Term {
    Uri { uri: String },
    Literal { value: String, datatype: Option<String>, language: Option<String> },
}

/// The mathematical shape of a [`Term`].
pub enum TermView {
    Uri { uri: Seq<char> },
    Literal { value: Seq<char>, datatype: Option<Seq<char>>, language: Option<Seq<char>> },
}

impl View for Term {
    type V = TermView;

    open spec fn view(&self) -> TermView {
        match self {
            Term::Uri { uri } => TermView::Uri { uri: uri@ },
            Term::Literal { value, datatype, language } => TermView::Literal {
                value: value@,
                datatype: datatype.deep_view(),
                language: language.deep_view(),
            },
        }
    }
}

impl DeepView for Term {
    type V = TermView;

    open spec fn deep_view(&self) -> TermView {
        self@
    }
}

impl Clone for Term {
    /// Clones a term; the clone has the same shape and content.
    fn clone(&self) -> (r: Term)
        ensures
            r@ == self@,
    {
        match self {
            Term::Uri { uri } => Term::Uri { uri: uri.clone() },
            Term::Literal { value, datatype, language } => Term::Literal {
                value: value.clone(),
                datatype: match datatype {
                    Some(d) => Some(d.clone()),
                    None => None,
                },
                language: match language {
                    Some(l) => Some(l.clone()),
                    None => None,
                },
            },
        }
    }
}

/// One row of a tabular query result: variable names bound to terms. An
/// absent name means the variable was unbound in that row; a well-formed row
/// binds each name at most once.
#[derive(Debug)]
pub struct BindingRow {
    pub bindings: Vec<(String, Term)>,
}

impl View for BindingRow {
    type V = Seq<(Seq<char>, TermView)>;

    open spec fn view(&self) -> Seq<(Seq<char>, TermView)> {
        self.bindings.deep_view()
    }
}

impl DeepView for BindingRow {
    type V = Seq<(Seq<char>, TermView)>;

    open spec fn deep_view(&self) -> Seq<(Seq<char>, TermView)> {
        self@
    }
}

/// The mathematical shape of a [`BindingRow`]: name–term pairs in wire order.
pub type RowView = Seq<(Seq<char>, TermView)>;

/// The first term bound to `name` in a row, if any.
pub open spec fn spec_lookup(row: Seq<(Seq<char>, TermView)>, name: Seq<char>) -> Option<TermView>
    decreases row.len(),
{
    if row.len() == 0 {
        None
    } else if row[0].0 == name {
        Some(row[0].1)
    } else {
        spec_lookup(row.drop_first(), name)
    }
}

/// Skipping bindings that do not match `name` leaves the lookup unchanged.
proof fn lemma_lookup_skip(row: Seq<(Seq<char>, TermView)>, name: Seq<char>, i: int)
    requires
        0 <= i <= row.len(),
        forall|j: int| 0 <= j < i ==> row[j].0 != name,
    ensures
        spec_lookup(row, name) == spec_lookup(row.skip(i), name),
    decreases i,
{
    if i == 0 {
        assert(row.skip(0) =~= row);
    } else {
        assert(row[0].0 != name);
        assert(spec_lookup(row, name) == spec_lookup(row.drop_first(), name));
        assert(row.drop_first() =~= row.skip(1));
        lemma_lookup_skip(row.skip(1), name, i - 1);
        assert(row.skip(1).skip(i - 1) =~= row.skip(i));
    }
}

impl BindingRow {
    /// The term bound to `name`, if this row binds it.
    pub fn get(&self, name: &str) -> (t: Option<&Term>)
        ensures
            match t {
                Some(term) => spec_lookup(self@, name@) == Some(term@),
                None => spec_lookup(self@, name@) is None,
            },
    {
        let n = self.bindings.len();
        let mut i: usize = 0;
        while i < n
            invariant
                n == self.bindings.len(),
                i <= n,
                forall|j: int| 0 <= j < i ==> self@[j].0 != name@,
            decreases n - i,
        {
            let pair = &self.bindings[i];
            if str_eq(pair.0.as_str(), name) {
                proof {
                    lemma_lookup_skip(self@, name@, i as int);
                    assert(self@.skip(i as int)[0] == self@[i as int]);
                }
                return Some(&pair.1);
            }
            i = i + 1;
        }
        proof {
            lemma_lookup_skip(self@, name@, n as int);
            assert(self@.skip(n as int) =~= Seq::<(Seq<char>, TermView)>::empty());
        }
        None
    }
}

/// The mathematical shape of a [`QueryResult`].
pub struct QueryResultView {
    pub vars: Seq<Seq<char>>,
    pub rows: Seq<Seq<(Seq<char>, TermView)>>,
}

/// A tabular query result: the declared projection, in order, and one
/// binding row per match.
#[derive(Debug)]
pub struct QueryResult {
    pub vars: Vec<String>,
    pub bindings: Vec<BindingRow>,
}

impl View for QueryResult {
    type V = QueryResultView;

    open spec fn view(&self) -> QueryResultView {
        QueryResultView { vars: self.vars.deep_view(), rows: self.bindings.deep_view() }
    }
}

/// A row binds each name at most once.
pub open spec fn spec_row_keys_unique(row: Seq<(Seq<char>, TermView)>) -> bool {
    forall|i: int, j: int| 0 <= i < j < row.len() ==> row[i].0 != row[j].0
}

/// A row is well-formed against a projection when its keys are unique and
/// each is one of the declared variable names.
pub open spec fn spec_row_wf(row: Seq<(Seq<char>, TermView)>, vars: Seq<Seq<char>>) -> bool {
    &&& spec_row_keys_unique(row)
    &&& forall|i: int| 0 <= i < row.len() ==> vars.contains(#[trigger] row[i].0)
}

impl QueryResult {
    /// The result invariant: every binding row is well-formed against the
    /// declared projection.
    pub open spec fn wf(&self) -> bool {
        forall|i: int| 0 <= i < self@.rows.len() ==> spec_row_wf(#[trigger] self@.rows[i], self@.vars)
    }
}

/// The mathematical shape of an [`IoError`].
pub enum IoErrorView {
    Transport { detail: Seq<char> },
    UnexpectedStatus { status: u16 },
}

/// A transport-level failure: the remote side unreachable or refusing, or
/// an answer with a status outside the success range. Carries the raw
/// detail; it is fatal and never recovered from locally.
#[derive(Debug)]
pub enum IoError {
    Transport { detail: String },
    UnexpectedStatus { status: u16 },
}

impl View for IoError {
    type V = IoErrorView;

    open spec fn view(&self) -> IoErrorView {
        match self {
            IoError::Transport { detail } => IoErrorView::Transport { detail: detail@ },
            IoError::UnexpectedStatus { status } => IoErrorView::UnexpectedStatus {
                status: *status,
            },
        }
    }
}

/// The success range of a transport status.
pub open spec fn spec_status_success(status: u16) -> bool {
    200 <= status < 300
}

/// Decides whether a transport status means success.
pub fn status_success(status: u16) -> (b: bool)
    ensures
        b == spec_status_success(status),
{
    200 <= status && status < 300
}

/// The mathematical shape of a [`QueryResponseValue`].
pub enum QueryResponseValueView {
    Uri { value: Seq<char> },
    Literal { value: Seq<char> },
}

/// One bound value of a wire-format response: the remote service tags each
/// value as a URI reference or a literal.
#[derive(Debug)]
pub enum QueryResponseValue {
    Uri { value: String },
    Literal { value: String },
}

impl View for QueryResponseValue {
    type V = QueryResponseValueView;

    open spec fn view(&self) -> QueryResponseValueView {
        match self {
            QueryResponseValue::Uri { value } => QueryResponseValueView::Uri { value: value@ },
            QueryResponseValue::Literal { value } => QueryResponseValueView::Literal {
                value: value@,
            },
        }
    }
}

impl DeepView for QueryResponseValue {
    type V = QueryResponseValueView;

    open spec fn deep_view(&self) -> QueryResponseValueView {
        self@
    }
}

/// The term a wire value denotes: a plain literal carries no datatype and
/// no language tag.
pub open spec fn spec_term_of_value(v: QueryResponseValueView) -> TermView {
    match v {
        QueryResponseValueView::Uri { value } => TermView::Uri { uri: value },
        QueryResponseValueView::Literal { value } => TermView::Literal {
            value,
            datatype: None,
            language: None,
        },
    }
}

impl QueryResponseValue {
    /// Converts a wire value into the term it denotes.
    pub fn to_term(&self) -> (t: Term)
        ensures
            t@ == spec_term_of_value(self@),
    {
        match self {
            QueryResponseValue::Uri { value } => Term::Uri { uri: value.clone() },
            QueryResponseValue::Literal { value } => Term::Literal {
                value: value.clone(),
                datatype: None,
                language: None,
            },
        }
    }
}

/// The head of a wire-format response: the declared projection.
#[derive(Debug)]
pub struct QueryResponseHead {
    pub vars: Vec<String>,
}

/// The results of a wire-format response: binding rows as name–value
/// pairs, in wire order.
#[derive(Debug)]
pub struct QueryResponseResults {
    pub bindings: Vec<Vec<(String, QueryResponseValue)>>,
}

/// A tabular wire-format response, as the remote query capability shapes
/// it: a head declaring the projection and the binding rows.
#[derive(Debug)]
pub struct QueryResponse {
    pub head: QueryResponseHead,
    pub results: QueryResponseResults,
}

/// The mathematical shape of one wire row.
pub type WireRowView = Seq<(Seq<char>, QueryResponseValueView)>;

/// A wire row converted pointwise into a binding row of terms.
pub open spec fn spec_converted_row(row: WireRowView) -> RowView {
    row.map_values(|p: (Seq<char>, QueryResponseValueView)| (p.0, spec_term_of_value(p.1)))
}

/// A wire row is well-formed against a projection when its keys are unique
/// and each is one of the declared variable names.
pub open spec fn spec_wire_row_wf(row: WireRowView, vars: Seq<Seq<char>>) -> bool {
    &&& forall|i: int, j: int| 0 <= i < j < row.len() ==> row[i].0 != row[j].0
    &&& forall|i: int| 0 <= i < row.len() ==> vars.contains(#[trigger] row[i].0)
}

/// A wire response is well-formed when every row is.
pub open spec fn spec_response_wf(response: &QueryResponse) -> bool {
    forall|k: int|
        0 <= k < response.results.bindings.deep_view().len() ==> spec_wire_row_wf(
            #[trigger] response.results.bindings.deep_view()[k],
            response.head.vars.deep_view(),
        )
}

/// Why a tabular query failed: a transport failure, or a response whose
/// rows do not fit its own declared projection — a shape mismatch that
/// signals template or ontology drift, carrying the offending variable.
#[derive(Debug)]
pub enum SelectError {
    IO(IoError),
    UndeclaredVariable(String),
    DuplicateVariable(String),
}

/// Whether a vector of strings contains `s`, by character sequence.
fn contains_str(v: &Vec<String>, s: &str) -> (b: bool)
    ensures
        b == v.deep_view().contains(s@),
{
    let n = v.len();
    let mut i: usize = 0;
    while i < n
        invariant
            n == v@.len(),
            i <= n,
            forall|j: int| 0 <= j < i ==> v.deep_view()[j] != s@,
        decreases n - i,
    {
        if str_eq(v[i].as_str(), s) {
            assert(v.deep_view()[i as int] == s@);
            return true;
        }
        i = i + 1;
    }
    proof {
        assert(!v.deep_view().contains(s@)) by {
            if v.deep_view().contains(s@) {
                let j = choose|j: int| 0 <= j < v.deep_view().len() && v.deep_view()[j] == s@;
                assert(v.deep_view()[j] != s@);
            }
        }
    }
    false
}

/// Interprets the outcome of a tabular (select) query. A non-success
/// status is the transport failure. On success the wire response is
/// validated — every row's keys unique and declared — and converted
/// pointwise into a well-formed tabular result; a malformed response is
/// the shape-mismatch failure, carrying an offending variable name.
#[verifier::loop_isolation(false)]
pub fn query_result_from_response(status: u16, response: QueryResponse) -> (r: Result<
    QueryResult,
    SelectError,
>)
    ensures
        r is Ok <==> spec_status_success(status) && spec_response_wf(&response),
        !spec_status_success(status) ==> r == Err::<QueryResult, SelectError>(
            SelectError::IO(IoError::UnexpectedStatus { status }),
        ),
        r matches Ok(qr) ==> {
            &&& qr.wf()
            &&& qr@.vars == response.head.vars.deep_view()
            &&& qr@.rows.len() == response.results.bindings.deep_view().len()
            &&& forall|k: int|
                0 <= k < qr@.rows.len() ==> qr@.rows[k] == spec_converted_row(
                    #[trigger] response.results.bindings.deep_view()[k],
                )
        },
        spec_status_success(status) && !spec_response_wf(&response) ==> match r {
            Err(SelectError::UndeclaredVariable(v)) => exists|k: int, i: int|
                #![trigger response.results.bindings.deep_view()[k][i]]
                0 <= k < response.results.bindings.deep_view().len() && 0 <= i
                    < response.results.bindings.deep_view()[k].len()
                    && response.results.bindings.deep_view()[k][i].0 == v@
                    && !response.head.vars.deep_view().contains(
                    response.results.bindings.deep_view()[k][i].0,
                ),
            Err(SelectError::DuplicateVariable(v)) => exists|k: int, i: int, j: int|
                #![trigger response.results.bindings.deep_view()[k][i], response.results.bindings.deep_view()[k][j]]
                0 <= k < response.results.bindings.deep_view().len() && 0 <= i < j
                    < response.results.bindings.deep_view()[k].len()
                    && response.results.bindings.deep_view()[k][j].0 == v@
                    && response.results.bindings.deep_view()[k][i].0
                    == response.results.bindings.deep_view()[k][j].0,
            _ => false,
        },
{
    if !status_success(status) {
        return Err(SelectError::IO(IoError::UnexpectedStatus { status }));
    }
    let ghost resp_vars = response.head.vars.deep_view();
    let ghost resp_rows = response.results.bindings.deep_view();
    let QueryResponse { head, results } = response;
    let vars = head.vars;
    let wire_rows = results.bindings;
    let mut rows: Vec<BindingRow> = Vec::new();
    proof {
        assert(rows.deep_view() =~= Seq::<RowView>::empty());
    }
    let n = wire_rows.len();
    let mut k: usize = 0;
    while k < n
        invariant
            n == wire_rows@.len(),
            k <= n,
            resp_vars == vars.deep_view(),
            resp_rows == wire_rows.deep_view(),
            rows.deep_view().len() == k,
            forall|t: int|
                0 <= t < k ==> #[trigger] rows.deep_view()[t] == spec_converted_row(
                    resp_rows[t],
                ),
            forall|t: int| 0 <= t < k ==> spec_wire_row_wf(#[trigger] resp_rows[t], resp_vars),
        decreases n - k,
    {
        let wire_row = &wire_rows[k];
        let ghost wrow = wire_row.deep_view();
        let mut row: Vec<(String, Term)> = Vec::new();
        proof {
            assert(wrow == resp_rows[k as int]);
            assert(row.deep_view() =~= Seq::<(Seq<char>, TermView)>::empty());
            assert(spec_converted_row(wrow.take(0)) =~= Seq::<(Seq<char>, TermView)>::empty());
        }
        let m = wire_row.len();
        let mut i: usize = 0;
        while i < m
            invariant
                m == wire_row@.len(),
                m == wrow.len(),
                i <= m,
                resp_vars == vars.deep_view(),
                wrow == wire_row.deep_view(),
                wrow == resp_rows[k as int],
                0 <= k < resp_rows.len(),
                row.deep_view() == spec_converted_row(wrow.take(i as int)),
                forall|a: int, b: int| 0 <= a < b < i ==> wrow[a].0 != wrow[b].0,
                forall|a: int| 0 <= a < i ==> resp_vars.contains(#[trigger] wrow[a].0),
            decreases m - i,
        {
            let pair = &wire_row[i];
            proof {
                assert(wrow[i as int] == (pair.0@, pair.1@));
            }
            if !contains_str(&vars, pair.0.as_str()) {
                proof {
                    assert(resp_rows[k as int][i as int].0 == pair.0@);
                    assert(!resp_vars.contains(resp_rows[k as int][i as int].0));
                    assert(!spec_response_wf(&response)) by {
                        if spec_response_wf(&response) {
                            assert(spec_wire_row_wf(resp_rows[k as int], resp_vars));
                        }
                    }
                }
                return Err(SelectError::UndeclaredVariable(pair.0.clone()));
            }
            let mut j: usize = 0;
            while j < i
                invariant
                    i < m,
                    m == wire_row@.len(),
                    m == wrow.len(),
                    wrow == wire_row.deep_view(),
                    wrow[i as int].0 == pair.0@,
                    j <= i,
                    forall|a: int| 0 <= a < j ==> wrow[a].0 != wrow[i as int].0,
                decreases i - j,
            {
                let earlier = &wire_row[j];
                proof {
                    assert(wrow[j as int] == (earlier.0@, earlier.1@));
                }
                if str_eq(earlier.0.as_str(), pair.0.as_str()) {
                    proof {
                        assert(resp_rows[k as int][j as int].0 == resp_rows[k as int][i as int].0);
                        assert(resp_rows[k as int][i as int].0 == pair.0@);
                        assert(!spec_response_wf(&response)) by {
                            if spec_response_wf(&response) {
                                assert(spec_wire_row_wf(resp_rows[k as int], resp_vars));
                            }
                        }
                    }
                    return Err(SelectError::DuplicateVariable(pair.0.clone()));
                }
                j = j + 1;
            }
            let ghost row_snapshot = row.deep_view();
            let entry = (pair.0.clone(), pair.1.to_term());
            proof {
                assert(entry.deep_view() == (wrow[i as int].0, spec_term_of_value(
                    wrow[i as int].1,
                )));
            }
            row.push(entry);
            proof {
                assert(row.deep_view() =~= row_snapshot.push(
                    (wrow[i as int].0, spec_term_of_value(wrow[i as int].1)),
                ));
                assert(spec_converted_row(wrow.take(i + 1)) =~= row_snapshot.push(
                    (wrow[i as int].0, spec_term_of_value(wrow[i as int].1)),
                ));
            }
            i = i + 1;
        }
        proof {
            assert(wrow.take(m as int) =~= wrow);
        }
        let ghost rows_snapshot = rows.deep_view();
        let converted = BindingRow { bindings: row };
        proof {
            assert(converted.deep_view() == spec_converted_row(resp_rows[k as int]));
        }
        rows.push(converted);
        proof {
            assert(rows.deep_view() =~= rows_snapshot.push(
                spec_converted_row(resp_rows[k as int]),
            ));
        }
        k = k + 1;
    }
    let result = QueryResult { vars, bindings: rows };
    proof {
        assert(result.wf()) by {
            assert forall|t: int| 0 <= t < result@.rows.len() implies spec_row_wf(
                #[trigger] result@.rows[t],
                result@.vars,
            ) by {
                assert(result@.rows[t] == spec_converted_row(resp_rows[t]));
                assert(spec_wire_row_wf(resp_rows[t], resp_vars));
                assert forall|a: int| 0 <= a < result@.rows[t].len() implies resp_vars.contains(
                    #[trigger] result@.rows[t][a].0,
                ) by {
                    assert(result@.rows[t][a].0 == resp_rows[t][a].0);
                }
            }
        }
    }
    Ok(result)
}

/// Reads the label of the first row of a label-query result: the literal
/// bound to `label`, when the first row binds one; nothing when the result
/// has no rows, the variable is unbound, or the bound term is not a
/// literal. The declared projection must be exactly `label`, as the label
/// query template guarantees.
pub open spec fn spec_first_label(rows: Seq<RowView>) -> Option<Seq<char>> {
    if rows.len() == 0 {
        None
    } else {
        match spec_lookup(rows[0], "label"@) {
            Some(TermView::Literal { value, datatype: _, language: _ }) => Some(value),
            _ => None,
        }
    }
}

/// Returns the first row's label literal, as [`spec_first_label`] says.
pub fn first_label(result: &QueryResult) -> (r: Option<String>)
    requires
        result@.vars == seq!["label"@],
    ensures
        match r {
            Some(s) => spec_first_label(result@.rows) == Some(s@),
            None => spec_first_label(result@.rows) is None,
        },
{
    if result.bindings.len() == 0 {
        return None;
    }
    let row = &result.bindings[0];
    match row.get("label") {
        Some(t) => match t {
            Term::Literal { value, datatype: _, language: _ } => Some(value.clone()),
            _ => None,
        },
        None => None,
    }
}

/// Interprets the outcome of a graph-shaped (describe) query: on a success
/// status the response body is the serialized-graph payload; anything else
/// is the transport failure.
pub fn graph_from_response(outcome: Result<(u16, String), String>) -> (r: Result<Graph, IoError>)
    ensures
        match outcome {
            Err(detail) => r == Err::<Graph, IoError>(IoError::Transport { detail }),
            Ok(sb) => if spec_status_success(sb.0) {
                r matches Ok(g) && g@ == sb.1@
            } else {
                r == Err::<Graph, IoError>(IoError::UnexpectedStatus { status: sb.0 })
            },
        },
{
    match outcome {
        Err(detail) => Err(IoError::Transport { detail }),
        Ok((status, body)) => {
            if status_success(status) {
                Ok(Graph::new(body))
            } else {
                Err(IoError::UnexpectedStatus { status })
            }
        },
    }
}

} // verus!
