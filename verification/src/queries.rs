//! The fixed, versioned query templates that encode the expected ontology's
//! vocabulary. Changing the ontology requires updating these templates and
//! the taxonomy tables of the decoders in lockstep.

use crate::knowledge::Resource;
use vstd::prelude::*;

verus! {

/// The component-listing query text: projects `component`, `label`,
/// `description` and `kind`, in that order.
pub open spec fn spec_components_query() -> Seq<char> {
    "prefix rdfs: <http://www.w3.org/2000/01/rdf-schema#>\nprefix tcm: <http://www.semanticweb.org/ontologies/2020/4/OntologyTOGAFContentMetamodel.owl#>\n\nSELECT ?component ?label ?description ?kind\nWHERE {\n  GRAPH ?g {\n    VALUES ?kind { tcm:BusinessService tcm:Function tcm:InformationSystemService tcm:Process }\n    ?component a ?kind .\n    ?component rdfs:label ?label .\n    OPTIONAL { ?component rdfs:comment ?description }\n  }\n}"@
}

/// Returns the component-listing query.
pub fn components_query() -> (q: &'static str)
    ensures
        q@ == spec_components_query(),
{
    "prefix rdfs: <http://www.w3.org/2000/01/rdf-schema#>\nprefix tcm: <http://www.semanticweb.org/ontologies/2020/4/OntologyTOGAFContentMetamodel.owl#>\n\nSELECT ?component ?label ?description ?kind\nWHERE {\n  GRAPH ?g {\n    VALUES ?kind { tcm:BusinessService tcm:Function tcm:InformationSystemService tcm:Process }\n    ?component a ?kind .\n    ?component rdfs:label ?label .\n    OPTIONAL { ?component rdfs:comment ?description }\n  }\n}"
}

/// The relation-listing query text: projects `from`, `label` and `to`, in
/// that order, over the four relation properties of the taxonomy.
pub open spec fn spec_relations_query() -> Seq<char> {
    "prefix tcm: <http://www.semanticweb.org/ontologies/2020/4/OntologyTOGAFContentMetamodel.owl#>\n\nSELECT ?from ?label ?to\nWHERE {\n  GRAPH ?g {\n    VALUES ?label { tcm:informationSystemServiceRealizesBusinessService tcm:businessServiceProvidesGovernedInterfaceToAccessFunction tcm:processDecomposesAndOrOrchestratesFunction tcm:functionIsRealizedByAndOrSupportsProcess }\n    ?from ?label ?to .\n  }\n}"@
}

/// Returns the relation-listing query.
pub fn relations_query() -> (q: &'static str)
    ensures
        q@ == spec_relations_query(),
{
    "prefix tcm: <http://www.semanticweb.org/ontologies/2020/4/OntologyTOGAFContentMetamodel.owl#>\n\nSELECT ?from ?label ?to\nWHERE {\n  GRAPH ?g {\n    VALUES ?label { tcm:informationSystemServiceRealizesBusinessService tcm:businessServiceProvidesGovernedInterfaceToAccessFunction tcm:processDecomposesAndOrOrchestratesFunction tcm:functionIsRealizedByAndOrSupportsProcess }\n    ?from ?label ?to .\n  }\n}"
}

/// The identifier-listing query text: projects `component` only — the
/// cheaper enumeration path when full detail is unneeded.
pub open spec fn spec_component_ids_query() -> Seq<char> {
    "prefix tcm: <http://www.semanticweb.org/ontologies/2020/4/OntologyTOGAFContentMetamodel.owl#>\n\nSELECT ?component\nWHERE {\n  GRAPH ?g {\n    VALUES ?kind { tcm:BusinessService tcm:Function tcm:InformationSystemService tcm:Process }\n    ?component a ?kind .\n  }\n}"@
}

/// Returns the identifier-listing query.
pub fn component_ids_query() -> (q: &'static str)
    ensures
        q@ == spec_component_ids_query(),
{
    "prefix tcm: <http://www.semanticweb.org/ontologies/2020/4/OntologyTOGAFContentMetamodel.owl#>\n\nSELECT ?component\nWHERE {\n  GRAPH ?g {\n    VALUES ?kind { tcm:BusinessService tcm:Function tcm:InformationSystemService tcm:Process }\n    ?component a ?kind .\n  }\n}"
}

/// The describe-by-id query: the identifier substituted between the fixed
/// prefix and suffix of the template.
pub open spec fn spec_describe_query(id: Seq<char>) -> Seq<char> {
    "DESCRIBE <"@ + id + ">"@
}

/// Builds the describe-by-id query by textual substitution. The
/// substitution is verbatim: an identifier holding template-control
/// characters would break the query, so callers must keep such characters
/// out of identifiers.
pub fn describe_query(component_id: &str) -> (q: String)
    ensures
        q@ == spec_describe_query(component_id@),
{
    let mut q = String::from_str("DESCRIBE <");
    q.append(component_id);
    q.append(">");
    q
}

/// The label-of-resource query: the resource's IRI substituted between the
/// fixed prefix and suffix of the template; projects `label` only.
pub open spec fn spec_label_query(resource: Seq<char>) -> Seq<char> {
    "prefix rdfs: <http://www.w3.org/2000/01/rdf-schema#>\n\nSELECT ?label\nWHERE {\n  GRAPH ?g { <"@
        + resource + "> rdfs:label ?label }\n}\nLIMIT 25"@
}

/// Builds the label-of-resource query by textual substitution, with the
/// same verbatim-substitution caveat as [`describe_query`].
pub fn label_query(resource: &Resource) -> (q: String)
    ensures
        q@ == spec_label_query(resource@),
{
    let mut q = String::from_str(
        "prefix rdfs: <http://www.w3.org/2000/01/rdf-schema#>\n\nSELECT ?label\nWHERE {\n  GRAPH ?g { <",
    );
    q.append(resource.0.as_str());
    q.append("> rdfs:label ?label }\n}\nLIMIT 25");
    q
}

} // verus!
