//! The typed architecture model — components and labeled directed relations —
//! and the deterministic renderer that serializes a model as a textual
//! directed-graph description.

use crate::knowledge::{spec_lookup, BindingRow, QueryResult, QueryResultView, RowView, Term, TermView};
use crate::text::{escape_quotes, spec_escape, str_eq};
use vstd::prelude::*;

verus! {

/// The closed set of component kinds the taxonomy recognises. Any other
/// kind URI met while decoding is a failure, never a default.
#[derive(Clone, Copy, Debug, PartialEq, Eq, Structural)]
pub enum ComponentKind {
    BusinessService,
    Function,
    InformationSystemService,
    Process,
}

/// An opaque identifier of a component: a URI used only as a key or
/// reference, never dereferenced locally; equal exactly when the URI
/// strings are.
#[derive(Debug, Hash, PartialEq, Eq)]
pub struct ComponentId {
    pub value: String,
}

impl View for ComponentId {
    type V = Seq<char>;

    open spec fn view(&self) -> Seq<char> {
        self.value@
    }
}

impl DeepView for ComponentId {
    type V = Seq<char>;

    open spec fn deep_view(&self) -> Seq<char> {
        self@
    }
}

/// The mathematical shape of a [`Component`].
pub struct ComponentView {
    pub id: Seq<char>,
    pub label: Seq<char>,
    pub description: Option<Seq<char>>,
    pub kind: ComponentKind,
}

/// An architecture component. Of any level.
#[derive(Debug)]
pub struct Component {
    pub id: ComponentId,
    pub label: String,
    pub description: Option<String>,
    pub kind: ComponentKind,
}

impl View for Component {
    type V = ComponentView;

    open spec fn view(&self) -> ComponentView {
        ComponentView {
            id: self.id@,
            label: self.label@,
            description: self.description.deep_view(),
            kind: self.kind,
        }
    }
}

impl DeepView for Component {
    type V = ComponentView;

    open spec fn deep_view(&self) -> ComponentView {
        self@
    }
}

/// The mathematical shape of a [`Relation`].
pub struct RelationView {
    pub from: Seq<char>,
    pub to: Seq<char>,
    pub label: Seq<char>,
}

/// A labeled directed edge of the architecture model, between two
/// components addressed by identifier.
#[derive(Debug)]
pub struct Relation {
    pub from: ComponentId,
    pub to: ComponentId,
    pub label: String,
}

impl View for Relation {
    type V = RelationView;

    open spec fn view(&self) -> RelationView {
        RelationView { from: self.from@, to: self.to@, label: self.label@ }
    }
}

impl DeepView for Relation {
    type V = RelationView;

    open spec fn deep_view(&self) -> RelationView {
        self@
    }
}

/// A rendered directed-graph description, ready to be handed to an external
/// layout tool.
#[derive(Debug)]
pub struct Visualization {
    pub graphviz_content: String,
}

impl View for Visualization {
    type V = Seq<char>;

    open spec fn view(&self) -> Seq<char> {
        self.graphviz_content@
    }
}

/// The display phrase of a component kind, as it appears in a node label.
pub open spec fn spec_kind_phrase(kind: ComponentKind) -> Seq<char> {
    match kind {
        ComponentKind::BusinessService => "Business service"@,
        ComponentKind::Function => "Function"@,
        ComponentKind::InformationSystemService => "Information system service"@,
        ComponentKind::Process => "Process"@,
    }
}

/// Returns the display phrase of a component kind.
pub fn kind_phrase(kind: ComponentKind) -> (s: &'static str)
    ensures
        s@ == spec_kind_phrase(kind),
{
    match kind {
        ComponentKind::BusinessService => "Business service",
        ComponentKind::Function => "Function",
        ComponentKind::InformationSystemService => "Information system service",
        ComponentKind::Process => "Process",
    }
}

/// The node declaration a component renders to: its identifier as the node
/// key, its label in bold, its kind's phrase in brackets, and — if present —
/// its description, every field quotation-escaped.
pub open spec fn spec_node_line(c: ComponentView) -> Seq<char> {
    "\""@ + spec_escape(c.id) + "\" [shape=plain,style=filled,label=<<B>"@ + spec_escape(c.label)
        + "</B><BR/>["@ + spec_kind_phrase(c.kind) + "]"@ + (match c.description {
        Some(d) => "<BR/><BR/>"@ + spec_escape(d),
        None => Seq::<char>::empty(),
    }) + ">]\n"@
}

/// The edge declaration a relation renders to: a directed edge between the
/// two identifiers, labeled with the relation phrase, every field
/// quotation-escaped.
pub open spec fn spec_edge_line(r: RelationView) -> Seq<char> {
    "\""@ + spec_escape(r.from) + "\" -> \""@ + spec_escape(r.to) + "\" [label=\""@ + spec_escape(
        r.label,
    ) + "\"]\n"@
}

/// All node declarations, one per component, in input order.
pub open spec fn spec_node_lines(cs: Seq<ComponentView>) -> Seq<char>
    decreases cs.len(),
{
    if cs.len() == 0 {
        Seq::<char>::empty()
    } else {
        spec_node_lines(cs.drop_last()) + spec_node_line(cs.last())
    }
}

/// All edge declarations, one per relation, in input order.
pub open spec fn spec_edge_lines(rs: Seq<RelationView>) -> Seq<char>
    decreases rs.len(),
{
    if rs.len() == 0 {
        Seq::<char>::empty()
    } else {
        spec_edge_lines(rs.drop_last()) + spec_edge_line(rs.last())
    }
}

/// The full rendering: the fixed header, the node declarations, the edge
/// declarations, and the closing brace.
pub open spec fn spec_render(cs: Seq<ComponentView>, rs: Seq<RelationView>) -> Seq<char> {
    "digraph components_relations {\n"@ + spec_node_lines(cs) + spec_edge_lines(rs) + "}"@
}

/// Renders an architecture model as a textual directed-graph description.
/// The output is deterministic in the input order; embedded markup in labels
/// passes through verbatim, and only double quotes are escaped, by doubling.
#[verifier::rlimit(60)]
pub fn visualization(components: Vec<Component>, relations: Vec<Relation>) -> (v: Visualization)
    ensures
        v@ == spec_render(components.deep_view(), relations.deep_view()),
{
    let ghost cd = components.deep_view();
    let ghost rd = relations.deep_view();
    let mut s = String::from_str("digraph components_relations {\n");

    let n = components.len();
    let mut i: usize = 0;
    while i < n
        invariant
            n == components@.len(),
            cd == components.deep_view(),
            i <= n,
            s@ == "digraph components_relations {\n"@ + spec_node_lines(cd.take(i as int)),
        decreases n - i,
    {
        let c = &components[i];
        s.append("\"");
        let escaped_id = escape_quotes(c.id.value.as_str());
        s.append(escaped_id.as_str());
        s.append("\" [shape=plain,style=filled,label=<<B>");
        let escaped_label = escape_quotes(c.label.as_str());
        s.append(escaped_label.as_str());
        s.append("</B><BR/>[");
        s.append(kind_phrase(c.kind));
        s.append("]");
        match &c.description {
            None => {},
            Some(d) => {
                s.append("<BR/><BR/>");
                let escaped_description = escape_quotes(d.as_str());
                s.append(escaped_description.as_str());
            },
        }
        s.append(">]\n");
        proof {
            assert(cd[i as int] == components@[i as int].deep_view());
            assert(cd.take(i + 1).drop_last() =~= cd.take(i as int));
            assert(cd.take(i + 1).last() == cd[i as int]);
            assert(s@ =~= "digraph components_relations {\n"@ + spec_node_lines(cd.take(i as int))
                + spec_node_line(cd[i as int]));
        }
        i = i + 1;
    }
    proof {
        assert(cd.take(n as int) =~= cd);
    }

    let m = relations.len();
    let mut j: usize = 0;
    while j < m
        invariant
            m == relations@.len(),
            cd == components.deep_view(),
            rd == relations.deep_view(),
            j <= m,
            s@ == "digraph components_relations {\n"@ + spec_node_lines(cd) + spec_edge_lines(
                rd.take(j as int),
            ),
        decreases m - j,
    {
        let r = &relations[j];
        s.append("\"");
        let escaped_from = escape_quotes(r.from.value.as_str());
        s.append(escaped_from.as_str());
        s.append("\" -> \"");
        let escaped_to = escape_quotes(r.to.value.as_str());
        s.append(escaped_to.as_str());
        s.append("\" [label=\"");
        let escaped_label = escape_quotes(r.label.as_str());
        s.append(escaped_label.as_str());
        s.append("\"]\n");
        proof {
            assert(rd[j as int] == relations@[j as int].deep_view());
            assert(rd.take(j + 1).drop_last() =~= rd.take(j as int));
            assert(rd.take(j + 1).last() == rd[j as int]);
            assert(s@ =~= "digraph components_relations {\n"@ + spec_node_lines(cd)
                + spec_edge_lines(rd.take(j as int)) + spec_edge_line(rd[j as int]));
        }
        j = j + 1;
    }
    proof {
        assert(rd.take(m as int) =~= rd);
    }

    s.append("}");
    proof {
        assert(s@ =~= spec_render(cd, rd));
    }
    Visualization { graphviz_content: s }
}

/// The mathematical shape of a [`DecodeError`].
pub enum DecodeErrorView {
    VariableMismatch { vars: Seq<Seq<char>> },
    UnexpectedTerm { variable: Seq<char>, term: Option<TermView> },
    UnknownKindUri { uri: Seq<char> },
    UnknownRelationUri { uri: Seq<char> },
}

/// Why a tabular result failed to decode into typed entities. Every variant
/// carries the offending raw value for diagnosability.
#[derive(Debug)]
pub enum DecodeError {
    /// The declared projection is not the one the query template expects.
    VariableMismatch { vars: Vec<String> },
    /// A variable was bound to a term of the wrong shape, or unbound where a
    /// binding was required.
    UnexpectedTerm { variable: String, term: Option<Term> },
    /// A kind URI with no entry in the closed kind taxonomy.
    UnknownKindUri { uri: String },
    /// A relation URI with no entry in the closed relation-phrase taxonomy.
    UnknownRelationUri { uri: String },
}

impl View for DecodeError {
    type V = DecodeErrorView;

    open spec fn view(&self) -> DecodeErrorView {
        match self {
            DecodeError::VariableMismatch { vars } => DecodeErrorView::VariableMismatch {
                vars: vars.deep_view(),
            },
            DecodeError::UnexpectedTerm { variable, term } => DecodeErrorView::UnexpectedTerm {
                variable: variable@,
                term: term.deep_view(),
            },
            DecodeError::UnknownKindUri { uri } => DecodeErrorView::UnknownKindUri { uri: uri@ },
            DecodeError::UnknownRelationUri { uri } => DecodeErrorView::UnknownRelationUri {
                uri: uri@,
            },
        }
    }
}

/// The kind taxonomy: the fixed, closed mapping from ontology URI to
/// component kind. A URI outside the table maps to nothing.
pub open spec fn spec_kind_of_uri(uri: Seq<char>) -> Option<ComponentKind> {
    if uri
        == "http://www.semanticweb.org/ontologies/2020/4/OntologyTOGAFContentMetamodel.owl#BusinessService"@ {
        Some(ComponentKind::BusinessService)
    } else if uri
        == "http://www.semanticweb.org/ontologies/2020/4/OntologyTOGAFContentMetamodel.owl#InformationSystemService"@ {
        Some(ComponentKind::InformationSystemService)
    } else if uri
        == "http://www.semanticweb.org/ontologies/2020/4/OntologyTOGAFContentMetamodel.owl#Function"@ {
        Some(ComponentKind::Function)
    } else if uri
        == "http://www.semanticweb.org/ontologies/2020/4/OntologyTOGAFContentMetamodel.owl#Process"@ {
        Some(ComponentKind::Process)
    } else {
        None
    }
}

/// Looks a kind URI up in the closed kind taxonomy.
pub fn kind_of_uri(uri: &str) -> (k: Option<ComponentKind>)
    ensures
        k == spec_kind_of_uri(uri@),
{
    if str_eq(
        uri,
        "http://www.semanticweb.org/ontologies/2020/4/OntologyTOGAFContentMetamodel.owl#BusinessService",
    ) {
        Some(ComponentKind::BusinessService)
    } else if str_eq(
        uri,
        "http://www.semanticweb.org/ontologies/2020/4/OntologyTOGAFContentMetamodel.owl#InformationSystemService",
    ) {
        Some(ComponentKind::InformationSystemService)
    } else if str_eq(
        uri,
        "http://www.semanticweb.org/ontologies/2020/4/OntologyTOGAFContentMetamodel.owl#Function",
    ) {
        Some(ComponentKind::Function)
    } else if str_eq(
        uri,
        "http://www.semanticweb.org/ontologies/2020/4/OntologyTOGAFContentMetamodel.owl#Process",
    ) {
        Some(ComponentKind::Process)
    } else {
        None
    }
}

/// The relation taxonomy: the fixed, closed mapping from ontology URI to a
/// human relation phrase. A URI outside the table maps to nothing.
pub open spec fn spec_relation_phrase_of_uri(uri: Seq<char>) -> Option<Seq<char>> {
    if uri
        == "http://www.semanticweb.org/ontologies/2020/4/OntologyTOGAFContentMetamodel.owl#informationSystemServiceRealizesBusinessService"@ {
        Some("realizes"@)
    } else if uri
        == "http://www.semanticweb.org/ontologies/2020/4/OntologyTOGAFContentMetamodel.owl#businessServiceProvidesGovernedInterfaceToAccessFunction"@ {
        Some("provides governed interface to access"@)
    } else if uri
        == "http://www.semanticweb.org/ontologies/2020/4/OntologyTOGAFContentMetamodel.owl#processDecomposesAndOrOrchestratesFunction"@ {
        Some("orchestrates and/or decomposes"@)
    } else if uri
        == "http://www.semanticweb.org/ontologies/2020/4/OntologyTOGAFContentMetamodel.owl#functionIsRealizedByAndOrSupportsProcess"@ {
        Some("supports or is realized by"@)
    } else {
        None
    }
}

/// Looks a relation URI up in the closed relation-phrase taxonomy.
pub fn relation_phrase_of_uri(uri: &str) -> (p: Option<String>)
    ensures
        match p {
            Some(s) => spec_relation_phrase_of_uri(uri@) == Some(s@),
            None => spec_relation_phrase_of_uri(uri@) is None,
        },
{
    if str_eq(
        uri,
        "http://www.semanticweb.org/ontologies/2020/4/OntologyTOGAFContentMetamodel.owl#informationSystemServiceRealizesBusinessService",
    ) {
        Some(String::from_str("realizes"))
    } else if str_eq(
        uri,
        "http://www.semanticweb.org/ontologies/2020/4/OntologyTOGAFContentMetamodel.owl#businessServiceProvidesGovernedInterfaceToAccessFunction",
    ) {
        Some(String::from_str("provides governed interface to access"))
    } else if str_eq(
        uri,
        "http://www.semanticweb.org/ontologies/2020/4/OntologyTOGAFContentMetamodel.owl#processDecomposesAndOrOrchestratesFunction",
    ) {
        Some(String::from_str("orchestrates and/or decomposes"))
    } else if str_eq(
        uri,
        "http://www.semanticweb.org/ontologies/2020/4/OntologyTOGAFContentMetamodel.owl#functionIsRealizedByAndOrSupportsProcess",
    ) {
        Some(String::from_str("supports or is realized by"))
    } else {
        None
    }
}

/// The projection the component-listing query template declares.
pub open spec fn spec_expected_component_vars() -> Seq<Seq<char>> {
    seq!["component"@, "label"@, "description"@, "kind"@]
}

/// The projection the relation-listing query template declares.
pub open spec fn spec_expected_relation_vars() -> Seq<Seq<char>> {
    seq!["from"@, "label"@, "to"@]
}

/// The projection the identifier-listing query template declares.
pub open spec fn spec_expected_component_id_vars() -> Seq<Seq<char>> {
    seq!["component"@]
}

/// Decoding one row into a component: the `component` variable must be a
/// URI, `label` a literal, `description` a literal or unbound, and `kind` a
/// URI listed in the kind taxonomy. The first offending field, in that
/// order, decides the error.
pub open spec fn spec_decode_component(row: RowView) -> Result<ComponentView, DecodeErrorView> {
    match spec_lookup(row, "component"@) {
        Some(TermView::Uri { uri: id }) => match spec_lookup(row, "label"@) {
            Some(TermView::Literal { value: label, datatype: _, language: _ }) => match spec_lookup(
                row,
                "description"@,
            ) {
                None => spec_decode_component_kind(row, id, label, None),
                Some(
                    TermView::Literal { value: description, datatype: _, language: _ },
                ) => spec_decode_component_kind(row, id, label, Some(description)),
                t => Err(DecodeErrorView::UnexpectedTerm { variable: "description"@, term: t }),
            },
            t => Err(DecodeErrorView::UnexpectedTerm { variable: "label"@, term: t }),
        },
        t => Err(DecodeErrorView::UnexpectedTerm { variable: "component"@, term: t }),
    }
}

/// The kind step of [`spec_decode_component`], once identifier, label and
/// description have been read.
pub open spec fn spec_decode_component_kind(
    row: RowView,
    id: Seq<char>,
    label: Seq<char>,
    description: Option<Seq<char>>,
) -> Result<ComponentView, DecodeErrorView> {
    match spec_lookup(row, "kind"@) {
        Some(TermView::Uri { uri }) => match spec_kind_of_uri(uri) {
            Some(kind) => Ok(ComponentView { id, label, description, kind }),
            None => Err(DecodeErrorView::UnknownKindUri { uri }),
        },
        t => Err(DecodeErrorView::UnexpectedTerm { variable: "kind"@, term: t }),
    }
}

/// Decoding one row into a relation: `from` and `to` must be URIs, and
/// `label` a URI listed in the relation-phrase taxonomy. The first offending
/// field, in that order, decides the error.
pub open spec fn spec_decode_relation(row: RowView) -> Result<RelationView, DecodeErrorView> {
    match spec_lookup(row, "from"@) {
        Some(TermView::Uri { uri: from }) => match spec_lookup(row, "label"@) {
            Some(TermView::Uri { uri }) => match spec_relation_phrase_of_uri(uri) {
                Some(label) => match spec_lookup(row, "to"@) {
                    Some(TermView::Uri { uri: to }) => Ok(RelationView { from, to, label }),
                    t => Err(DecodeErrorView::UnexpectedTerm { variable: "to"@, term: t }),
                },
                None => Err(DecodeErrorView::UnknownRelationUri { uri }),
            },
            t => Err(DecodeErrorView::UnexpectedTerm { variable: "label"@, term: t }),
        },
        t => Err(DecodeErrorView::UnexpectedTerm { variable: "from"@, term: t }),
    }
}

/// Decoding one row into a bare identifier: the `component` variable must be
/// a URI.
pub open spec fn spec_decode_component_id(row: RowView) -> Result<Seq<char>, DecodeErrorView> {
    match spec_lookup(row, "component"@) {
        Some(TermView::Uri { uri }) => Ok(uri),
        t => Err(DecodeErrorView::UnexpectedTerm { variable: "component"@, term: t }),
    }
}

/// The row decoder of the component listing, as a single spec value.
pub open spec fn spec_component_row_fn() -> spec_fn(RowView) -> Result<
    ComponentView,
    DecodeErrorView,
> {
    |row: RowView| spec_decode_component(row)
}

/// The row decoder of the relation listing, as a single spec value.
pub open spec fn spec_relation_row_fn() -> spec_fn(RowView) -> Result<
    RelationView,
    DecodeErrorView,
> {
    |row: RowView| spec_decode_relation(row)
}

/// The row decoder of the identifier listing, as a single spec value.
pub open spec fn spec_component_id_row_fn() -> spec_fn(RowView) -> Result<
    Seq<char>,
    DecodeErrorView,
> {
    |row: RowView| spec_decode_component_id(row)
}

/// Decodes rows in order with `f`; the first failing row decides the error.
pub open spec fn spec_decode_rows<V>(
    rows: Seq<RowView>,
    f: spec_fn(RowView) -> Result<V, DecodeErrorView>,
) -> Result<Seq<V>, DecodeErrorView>
    decreases rows.len(),
{
    if rows.len() == 0 {
        Ok(Seq::<V>::empty())
    } else {
        match spec_decode_rows(rows.drop_last(), f) {
            Err(e) => Err(e),
            Ok(s) => match f(rows.last()) {
                Ok(v) => Ok(s.push(v)),
                Err(e) => Err(e),
            },
        }
    }
}

/// What the component listing decodes to: the whole tabular result checked
/// against the expected projection, then every row decoded in order.
pub open spec fn spec_components_from_result(rv: QueryResultView) -> Result<
    Seq<ComponentView>,
    DecodeErrorView,
> {
    if rv.vars != spec_expected_component_vars() {
        Err(DecodeErrorView::VariableMismatch { vars: rv.vars })
    } else {
        spec_decode_rows(rv.rows, spec_component_row_fn())
    }
}

/// What the relation listing decodes to.
pub open spec fn spec_relations_from_result(rv: QueryResultView) -> Result<
    Seq<RelationView>,
    DecodeErrorView,
> {
    if rv.vars != spec_expected_relation_vars() {
        Err(DecodeErrorView::VariableMismatch { vars: rv.vars })
    } else {
        spec_decode_rows(rv.rows, spec_relation_row_fn())
    }
}

/// What the identifier listing decodes to.
pub open spec fn spec_component_ids_from_result(rv: QueryResultView) -> Result<
    Seq<Seq<char>>,
    DecodeErrorView,
> {
    if rv.vars != spec_expected_component_id_vars() {
        Err(DecodeErrorView::VariableMismatch { vars: rv.vars })
    } else {
        spec_decode_rows(rv.rows, spec_component_id_row_fn())
    }
}

/// Checks a declared projection against the component listing's expectation.
fn component_vars_match(vars: &Vec<String>) -> (b: bool)
    ensures
        b == (vars.deep_view() == spec_expected_component_vars()),
{
    if vars.len() != 4 {
        proof {
            assert(vars.deep_view().len() == vars@.len());
            assert(spec_expected_component_vars().len() == 4);
        }
        return false;
    }
    let b0 = str_eq(vars[0].as_str(), "component");
    let b1 = str_eq(vars[1].as_str(), "label");
    let b2 = str_eq(vars[2].as_str(), "description");
    let b3 = str_eq(vars[3].as_str(), "kind");
    let b = b0 && b1 && b2 && b3;
    proof {
        if b {
            assert(vars.deep_view() =~= spec_expected_component_vars());
        } else {
            assert(vars.deep_view() != spec_expected_component_vars()) by {
                if vars.deep_view() == spec_expected_component_vars() {
                    assert(vars.deep_view()[0] == "component"@);
                    assert(vars.deep_view()[1] == "label"@);
                    assert(vars.deep_view()[2] == "description"@);
                    assert(vars.deep_view()[3] == "kind"@);
                }
            }
        }
    }
    b
}

/// Checks a declared projection against the relation listing's expectation.
fn relation_vars_match(vars: &Vec<String>) -> (b: bool)
    ensures
        b == (vars.deep_view() == spec_expected_relation_vars()),
{
    if vars.len() != 3 {
        proof {
            assert(vars.deep_view().len() == vars@.len());
            assert(spec_expected_relation_vars().len() == 3);
        }
        return false;
    }
    let b0 = str_eq(vars[0].as_str(), "from");
    let b1 = str_eq(vars[1].as_str(), "label");
    let b2 = str_eq(vars[2].as_str(), "to");
    let b = b0 && b1 && b2;
    proof {
        if b {
            assert(vars.deep_view() =~= spec_expected_relation_vars());
        } else {
            assert(vars.deep_view() != spec_expected_relation_vars()) by {
                if vars.deep_view() == spec_expected_relation_vars() {
                    assert(vars.deep_view()[0] == "from"@);
                    assert(vars.deep_view()[1] == "label"@);
                    assert(vars.deep_view()[2] == "to"@);
                }
            }
        }
    }
    b
}

/// Checks a declared projection against the identifier listing's
/// expectation.
fn component_id_vars_match(vars: &Vec<String>) -> (b: bool)
    ensures
        b == (vars.deep_view() == spec_expected_component_id_vars()),
{
    if vars.len() != 1 {
        proof {
            assert(vars.deep_view().len() == vars@.len());
            assert(spec_expected_component_id_vars().len() == 1);
        }
        return false;
    }
    let b = str_eq(vars[0].as_str(), "component");
    proof {
        if b {
            assert(vars.deep_view() =~= spec_expected_component_id_vars());
        } else {
            assert(vars.deep_view() != spec_expected_component_id_vars()) by {
                if vars.deep_view() == spec_expected_component_id_vars() {
                    assert(vars.deep_view()[0] == "component"@);
                }
            }
        }
    }
    b
}

/// Decodes a component-listing result into typed components, validating the
/// projection first. Succeeds exactly when the projection matches and every
/// row decodes; a projection mismatch fails before any row is read.
pub fn components_from_result(result: &QueryResult) -> (r: Result<Vec<Component>, DecodeError>)
    ensures
        match r {
            Ok(cs) => spec_components_from_result(result@) == Ok::<
                Seq<ComponentView>,
                DecodeErrorView,
            >(cs.deep_view()),
            Err(e) => spec_components_from_result(result@) == Err::<
                Seq<ComponentView>,
                DecodeErrorView,
            >(e@),
        },
{
    if !component_vars_match(&result.vars) {
        return Err(DecodeError::VariableMismatch { vars: result.vars.clone() });
    }
    let ghost f = spec_component_row_fn();
    let mut out: Vec<Component> = Vec::new();
    proof {
        assert(result@.rows.take(0) =~= Seq::<RowView>::empty());
        assert(out.deep_view() =~= Seq::<ComponentView>::empty());
    }
    let n = result.bindings.len();
    let mut i: usize = 0;
    while i < n
        invariant
            n == result.bindings.len(),
            i <= n,
            result@.vars == spec_expected_component_vars(),
            f == spec_component_row_fn(),
            spec_decode_rows(result@.rows.take(i as int), f) == Ok::<
                Seq<ComponentView>,
                DecodeErrorView,
            >(out.deep_view()),
        decreases n - i,
    {
        let row = &result.bindings[i];
        match decode_component_row(row) {
            Ok(c) => {
                out.push(c);
                proof {
                    assert(result@.rows.take(i + 1).drop_last() =~= result@.rows.take(i as int));
                    assert(result@.rows.take(i + 1).last() == row@);
                    assert(out.deep_view() =~= spec_decode_rows(
                        result@.rows.take(i as int),
                        f,
                    )->Ok_0.push(f(row@)->Ok_0));
                }
            },
            Err(e) => {
                proof {
                    assert(result@.rows.take(i + 1).drop_last() =~= result@.rows.take(i as int));
                    assert(result@.rows.take(i + 1).last() == row@);
                    lemma_decode_rows_err_prefix(result@.rows, i + 1, f);
                }
                return Err(e);
            },
        }
        i = i + 1;
    }
    proof {
        assert(result@.rows.take(n as int) =~= result@.rows);
    }
    Ok(out)
}

/// Decodes a relation-listing result into typed relations, validating the
/// projection first. Succeeds exactly when the projection matches and every
/// row decodes; a projection mismatch fails before any row is read.
pub fn relations_from_result(result: &QueryResult) -> (r: Result<Vec<Relation>, DecodeError>)
    ensures
        match r {
            Ok(rels) => spec_relations_from_result(result@) == Ok::<
                Seq<RelationView>,
                DecodeErrorView,
            >(rels.deep_view()),
            Err(e) => spec_relations_from_result(result@) == Err::<
                Seq<RelationView>,
                DecodeErrorView,
            >(e@),
        },
{
    if !relation_vars_match(&result.vars) {
        return Err(DecodeError::VariableMismatch { vars: result.vars.clone() });
    }
    let ghost f = spec_relation_row_fn();
    let mut out: Vec<Relation> = Vec::new();
    proof {
        assert(result@.rows.take(0) =~= Seq::<RowView>::empty());
        assert(out.deep_view() =~= Seq::<RelationView>::empty());
    }
    let n = result.bindings.len();
    let mut i: usize = 0;
    while i < n
        invariant
            n == result.bindings.len(),
            i <= n,
            result@.vars == spec_expected_relation_vars(),
            f == spec_relation_row_fn(),
            spec_decode_rows(result@.rows.take(i as int), f) == Ok::<
                Seq<RelationView>,
                DecodeErrorView,
            >(out.deep_view()),
        decreases n - i,
    {
        let row = &result.bindings[i];
        match decode_relation_row(row) {
            Ok(rel) => {
                out.push(rel);
                proof {
                    assert(result@.rows.take(i + 1).drop_last() =~= result@.rows.take(i as int));
                    assert(result@.rows.take(i + 1).last() == row@);
                    assert(out.deep_view() =~= spec_decode_rows(
                        result@.rows.take(i as int),
                        f,
                    )->Ok_0.push(f(row@)->Ok_0));
                }
            },
            Err(e) => {
                proof {
                    assert(result@.rows.take(i + 1).drop_last() =~= result@.rows.take(i as int));
                    assert(result@.rows.take(i + 1).last() == row@);
                    lemma_decode_rows_err_prefix(result@.rows, i + 1, f);
                }
                return Err(e);
            },
        }
        i = i + 1;
    }
    proof {
        assert(result@.rows.take(n as int) =~= result@.rows);
    }
    Ok(out)
}

/// Decodes an identifier-listing result into component identifiers,
/// validating the projection first. Succeeds exactly when the projection
/// matches and every row decodes; a projection mismatch fails before any
/// row is read.
pub fn component_ids_from_result(result: &QueryResult) -> (r: Result<Vec<ComponentId>, DecodeError>)
    ensures
        match r {
            Ok(ids) => spec_component_ids_from_result(result@) == Ok::<
                Seq<Seq<char>>,
                DecodeErrorView,
            >(ids.deep_view()),
            Err(e) => spec_component_ids_from_result(result@) == Err::<
                Seq<Seq<char>>,
                DecodeErrorView,
            >(e@),
        },
{
    if !component_id_vars_match(&result.vars) {
        return Err(DecodeError::VariableMismatch { vars: result.vars.clone() });
    }
    let ghost f = spec_component_id_row_fn();
    let mut out: Vec<ComponentId> = Vec::new();
    proof {
        assert(result@.rows.take(0) =~= Seq::<RowView>::empty());
        assert(out.deep_view() =~= Seq::<Seq<char>>::empty());
    }
    let n = result.bindings.len();
    let mut i: usize = 0;
    while i < n
        invariant
            n == result.bindings.len(),
            i <= n,
            result@.vars == spec_expected_component_id_vars(),
            f == spec_component_id_row_fn(),
            spec_decode_rows(result@.rows.take(i as int), f) == Ok::<
                Seq<Seq<char>>,
                DecodeErrorView,
            >(out.deep_view()),
        decreases n - i,
    {
        let row = &result.bindings[i];
        match decode_component_id_row(row) {
            Ok(id) => {
                out.push(id);
                proof {
                    assert(result@.rows.take(i + 1).drop_last() =~= result@.rows.take(i as int));
                    assert(result@.rows.take(i + 1).last() == row@);
                    assert(out.deep_view() =~= spec_decode_rows(
                        result@.rows.take(i as int),
                        f,
                    )->Ok_0.push(f(row@)->Ok_0));
                }
            },
            Err(e) => {
                proof {
                    assert(result@.rows.take(i + 1).drop_last() =~= result@.rows.take(i as int));
                    assert(result@.rows.take(i + 1).last() == row@);
                    lemma_decode_rows_err_prefix(result@.rows, i + 1, f);
                }
                return Err(e);
            },
        }
        i = i + 1;
    }
    proof {
        assert(result@.rows.take(n as int) =~= result@.rows);
    }
    Ok(out)
}

/// A failure in a prefix decides the whole decoding.
pub proof fn lemma_decode_rows_err_prefix<V>(
    rows: Seq<RowView>,
    k: int,
    f: spec_fn(RowView) -> Result<V, DecodeErrorView>,
)
    requires
        0 <= k <= rows.len(),
        spec_decode_rows(rows.take(k), f) is Err,
    ensures
        spec_decode_rows(rows, f) == spec_decode_rows(rows.take(k), f),
    decreases rows.len() - k,
{
    if k == rows.len() {
        assert(rows.take(k) =~= rows);
    } else {
        assert(rows.take(k + 1).drop_last() =~= rows.take(k));
        assert(spec_decode_rows(rows.take(k + 1), f) == spec_decode_rows(rows.take(k), f));
        lemma_decode_rows_err_prefix(rows, k + 1, f);
    }
}

/// Decodes one row into a component, as [`spec_decode_component`] says.
pub fn decode_component_row(row: &BindingRow) -> (r: Result<Component, DecodeError>)
    ensures
        match r {
            Ok(c) => spec_decode_component(row@) == Ok::<ComponentView, DecodeErrorView>(c@),
            Err(e) => spec_decode_component(row@) == Err::<ComponentView, DecodeErrorView>(e@),
        },
{
    let id = match row.get("component") {
        Some(t) => match t {
            Term::Uri { uri } => uri.clone(),
            other => {
                return Err(
                    DecodeError::UnexpectedTerm {
                        variable: String::from_str("component"),
                        term: Some(other.clone()),
                    },
                );
            },
        },
        None => {
            return Err(
                DecodeError::UnexpectedTerm { variable: String::from_str("component"), term: None },
            );
        },
    };
    let label = match row.get("label") {
        Some(t) => match t {
            Term::Literal { value, datatype: _, language: _ } => value.clone(),
            other => {
                return Err(
                    DecodeError::UnexpectedTerm {
                        variable: String::from_str("label"),
                        term: Some(other.clone()),
                    },
                );
            },
        },
        None => {
            return Err(
                DecodeError::UnexpectedTerm { variable: String::from_str("label"), term: None },
            );
        },
    };
    let description = match row.get("description") {
        None => None,
        Some(t) => match t {
            Term::Literal { value, datatype: _, language: _ } => Some(value.clone()),
            other => {
                return Err(
                    DecodeError::UnexpectedTerm {
                        variable: String::from_str("description"),
                        term: Some(other.clone()),
                    },
                );
            },
        },
    };
    let kind = match row.get("kind") {
        Some(t) => match t {
            Term::Uri { uri } => match kind_of_uri(uri.as_str()) {
                Some(k) => k,
                None => {
                    return Err(DecodeError::UnknownKindUri { uri: uri.clone() });
                },
            },
            other => {
                return Err(
                    DecodeError::UnexpectedTerm {
                        variable: String::from_str("kind"),
                        term: Some(other.clone()),
                    },
                );
            },
        },
        None => {
            return Err(
                DecodeError::UnexpectedTerm { variable: String::from_str("kind"), term: None },
            );
        },
    };
    Ok(Component { id: ComponentId { value: id }, label, description, kind })
}

/// Decodes one row into a relation, as [`spec_decode_relation`] says.
pub fn decode_relation_row(row: &BindingRow) -> (r: Result<Relation, DecodeError>)
    ensures
        match r {
            Ok(rel) => spec_decode_relation(row@) == Ok::<RelationView, DecodeErrorView>(rel@),
            Err(e) => spec_decode_relation(row@) == Err::<RelationView, DecodeErrorView>(e@),
        },
{
    let from = match row.get("from") {
        Some(t) => match t {
            Term::Uri { uri } => uri.clone(),
            other => {
                return Err(
                    DecodeError::UnexpectedTerm {
                        variable: String::from_str("from"),
                        term: Some(other.clone()),
                    },
                );
            },
        },
        None => {
            return Err(
                DecodeError::UnexpectedTerm { variable: String::from_str("from"), term: None },
            );
        },
    };
    let label = match row.get("label") {
        Some(t) => match t {
            Term::Uri { uri } => match relation_phrase_of_uri(uri.as_str()) {
                Some(phrase) => phrase,
                None => {
                    return Err(DecodeError::UnknownRelationUri { uri: uri.clone() });
                },
            },
            other => {
                return Err(
                    DecodeError::UnexpectedTerm {
                        variable: String::from_str("label"),
                        term: Some(other.clone()),
                    },
                );
            },
        },
        None => {
            return Err(
                DecodeError::UnexpectedTerm { variable: String::from_str("label"), term: None },
            );
        },
    };
    let to = match row.get("to") {
        Some(t) => match t {
            Term::Uri { uri } => uri.clone(),
            other => {
                return Err(
                    DecodeError::UnexpectedTerm {
                        variable: String::from_str("to"),
                        term: Some(other.clone()),
                    },
                );
            },
        },
        None => {
            return Err(
                DecodeError::UnexpectedTerm { variable: String::from_str("to"), term: None },
            );
        },
    };
    Ok(Relation { from: ComponentId { value: from }, to: ComponentId { value: to }, label })
}

/// Decodes one row into a bare identifier, as [`spec_decode_component_id`]
/// says.
pub fn decode_component_id_row(row: &BindingRow) -> (r: Result<ComponentId, DecodeError>)
    ensures
        match r {
            Ok(id) => spec_decode_component_id(row@) == Ok::<Seq<char>, DecodeErrorView>(id@),
            Err(e) => spec_decode_component_id(row@) == Err::<Seq<char>, DecodeErrorView>(e@),
        },
{
    match row.get("component") {
        Some(t) => match t {
            Term::Uri { uri } => Ok(ComponentId { value: uri.clone() }),
            other => Err(
                DecodeError::UnexpectedTerm {
                    variable: String::from_str("component"),
                    term: Some(other.clone()),
                },
            ),
        },
        None => Err(
            DecodeError::UnexpectedTerm { variable: String::from_str("component"), term: None },
        ),
    }
}

/// Decoding succeeds exactly when every row decodes; then the output has
/// one entry per row, pointwise the row's decoding.
pub proof fn lemma_decode_rows_ok<V>(
    rows: Seq<RowView>,
    f: spec_fn(RowView) -> Result<V, DecodeErrorView>,
)
    ensures
        spec_decode_rows(rows, f) is Ok <==> (forall|i: int|
            0 <= i < rows.len() ==> f(#[trigger] rows[i]) is Ok),
        spec_decode_rows(rows, f) is Ok ==> spec_decode_rows(rows, f)->Ok_0.len() == rows.len(),
        spec_decode_rows(rows, f) is Ok ==> forall|i: int|
            0 <= i < rows.len() ==> spec_decode_rows(rows, f)->Ok_0[i] == f(
                #[trigger] rows[i],
            )->Ok_0,
    decreases rows.len(),
{
    if rows.len() > 0 {
        lemma_decode_rows_ok(rows.drop_last(), f);
        assert(forall|i: int|
            0 <= i < rows.len() - 1 ==> #[trigger] rows[i] == rows.drop_last()[i]);
    }
}

/// A projection mismatch fails without reading any row: under the same
/// mismatched projection, any two row sequences decode to the same error,
/// and that error carries the declared variables. This holds for each of the
/// three listings.
pub proof fn lemma_variable_mismatch_ignores_rows(
    vars: Seq<Seq<char>>,
    rows1: Seq<RowView>,
    rows2: Seq<RowView>,
)
    ensures
        vars != spec_expected_component_vars() ==> spec_components_from_result(
            QueryResultView { vars, rows: rows1 },
        ) == Err::<Seq<ComponentView>, DecodeErrorView>(
            DecodeErrorView::VariableMismatch { vars },
        ) && spec_components_from_result(QueryResultView { vars, rows: rows1 })
            == spec_components_from_result(QueryResultView { vars, rows: rows2 }),
        vars != spec_expected_relation_vars() ==> spec_relations_from_result(
            QueryResultView { vars, rows: rows1 },
        ) == Err::<Seq<RelationView>, DecodeErrorView>(
            DecodeErrorView::VariableMismatch { vars },
        ) && spec_relations_from_result(QueryResultView { vars, rows: rows1 })
            == spec_relations_from_result(QueryResultView { vars, rows: rows2 }),
        vars != spec_expected_component_id_vars() ==> spec_component_ids_from_result(
            QueryResultView { vars, rows: rows1 },
        ) == Err::<Seq<Seq<char>>, DecodeErrorView>(
            DecodeErrorView::VariableMismatch { vars },
        ) && spec_component_ids_from_result(QueryResultView { vars, rows: rows1 })
            == spec_component_ids_from_result(QueryResultView { vars, rows: rows2 }),
{
}

/// The kind taxonomy is closed: each of the four taxonomy URIs decodes to
/// its matching kind, and every other URI decodes to nothing.
pub proof fn lemma_kind_taxonomy_closed(uri: Seq<char>)
    ensures
        spec_kind_of_uri(
            "http://www.semanticweb.org/ontologies/2020/4/OntologyTOGAFContentMetamodel.owl#BusinessService"@,
        ) == Some(ComponentKind::BusinessService),
        spec_kind_of_uri(
            "http://www.semanticweb.org/ontologies/2020/4/OntologyTOGAFContentMetamodel.owl#InformationSystemService"@,
        ) == Some(ComponentKind::InformationSystemService),
        spec_kind_of_uri(
            "http://www.semanticweb.org/ontologies/2020/4/OntologyTOGAFContentMetamodel.owl#Function"@,
        ) == Some(ComponentKind::Function),
        spec_kind_of_uri(
            "http://www.semanticweb.org/ontologies/2020/4/OntologyTOGAFContentMetamodel.owl#Process"@,
        ) == Some(ComponentKind::Process),
        spec_kind_of_uri(uri) is None <==> {
            &&& uri
                != "http://www.semanticweb.org/ontologies/2020/4/OntologyTOGAFContentMetamodel.owl#BusinessService"@
            &&& uri
                != "http://www.semanticweb.org/ontologies/2020/4/OntologyTOGAFContentMetamodel.owl#InformationSystemService"@
            &&& uri
                != "http://www.semanticweb.org/ontologies/2020/4/OntologyTOGAFContentMetamodel.owl#Function"@
            &&& uri
                != "http://www.semanticweb.org/ontologies/2020/4/OntologyTOGAFContentMetamodel.owl#Process"@
        },
{
    reveal_strlit(
        "http://www.semanticweb.org/ontologies/2020/4/OntologyTOGAFContentMetamodel.owl#BusinessService",
    );
    reveal_strlit(
        "http://www.semanticweb.org/ontologies/2020/4/OntologyTOGAFContentMetamodel.owl#InformationSystemService",
    );
    reveal_strlit(
        "http://www.semanticweb.org/ontologies/2020/4/OntologyTOGAFContentMetamodel.owl#Function",
    );
    reveal_strlit(
        "http://www.semanticweb.org/ontologies/2020/4/OntologyTOGAFContentMetamodel.owl#Process",
    );
    let business =
        "http://www.semanticweb.org/ontologies/2020/4/OntologyTOGAFContentMetamodel.owl#BusinessService"@;
    let information =
        "http://www.semanticweb.org/ontologies/2020/4/OntologyTOGAFContentMetamodel.owl#InformationSystemService"@;
    let function =
        "http://www.semanticweb.org/ontologies/2020/4/OntologyTOGAFContentMetamodel.owl#Function"@;
    let process =
        "http://www.semanticweb.org/ontologies/2020/4/OntologyTOGAFContentMetamodel.owl#Process"@;
    assert(business.len() != information.len());
    assert(business.len() != function.len());
    assert(business.len() != process.len());
    assert(information.len() != function.len());
    assert(information.len() != process.len());
    assert(function.len() != process.len());
}

/// A term is a URI reference.
pub open spec fn spec_is_uri_term(t: Option<TermView>) -> bool {
    t matches Some(TermView::Uri { uri: _ })
}

/// A term is a literal.
pub open spec fn spec_is_literal_term(t: Option<TermView>) -> bool {
    t matches Some(TermView::Literal { value: _, datatype: _, language: _ })
}

/// Decoding a row whose kind is bound to a URI outside the closed taxonomy
/// fails, and the error carries that URI verbatim.
pub proof fn lemma_unknown_kind_uri_carried(row: RowView, uri: Seq<char>)
    requires
        spec_is_uri_term(spec_lookup(row, "component"@)),
        spec_is_literal_term(spec_lookup(row, "label"@)),
        spec_is_literal_term(spec_lookup(row, "description"@)) || spec_lookup(row, "description"@)
            is None,
        spec_lookup(row, "kind"@) == Some(TermView::Uri { uri }),
        spec_kind_of_uri(uri) is None,
    ensures
        spec_decode_component(row) == Err::<ComponentView, DecodeErrorView>(
            DecodeErrorView::UnknownKindUri { uri },
        ),
{
}

/// Cross-consistency of the two component listings: on any rows where the
/// full components decode, the identifier-only decoding also succeeds, and
/// returns exactly the components' identifiers, pointwise and therefore as
/// a set.
pub proof fn lemma_component_ids_cross_consistent(rows: Seq<RowView>)
    requires
        spec_decode_rows(rows, spec_component_row_fn()) is Ok,
    ensures
        spec_decode_rows(rows, spec_component_id_row_fn()) is Ok,
        spec_decode_rows(rows, spec_component_id_row_fn())->Ok_0.len() == rows.len(),
        forall|i: int|
            0 <= i < rows.len() ==> spec_decode_rows(rows, spec_component_id_row_fn())->Ok_0[i]
                == spec_decode_rows(rows, spec_component_row_fn())->Ok_0[i].id,
{
    let cf = spec_component_row_fn();
    let idf = spec_component_id_row_fn();
    lemma_decode_rows_ok(rows, cf);
    assert forall|i: int| 0 <= i < rows.len() implies idf(#[trigger] rows[i]) is Ok by {
        assert(cf(rows[i]) is Ok);
    }
    lemma_decode_rows_ok(rows, idf);
    assert forall|i: int|
        0 <= i < rows.len() implies spec_decode_rows(rows, idf)->Ok_0[i] == spec_decode_rows(
        rows,
        cf,
    )->Ok_0[i].id by {
        assert(cf(rows[i]) is Ok);
        assert(idf(rows[i])->Ok_0 == cf(rows[i])->Ok_0.id);
    }
}

} // verus!
