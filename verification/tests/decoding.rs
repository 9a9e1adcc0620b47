use tooling::architecture::{
    component_ids_from_result, components_from_result, decode_component_row, kind_of_uri,
    relation_phrase_of_uri, relations_from_result, ComponentKind, DecodeError,
};
use tooling::knowledge::{BindingRow, QueryResult, Term};

fn uri(value: &str) -> Term {
    Term::Uri { uri: value.to_string() }
}

fn literal(value: &str) -> Term {
    Term::Literal { value: value.to_string(), datatype: None, language: None }
}

fn row(bindings: Vec<(&str, Term)>) -> BindingRow {
    BindingRow { bindings: bindings.into_iter().map(|(n, t)| (n.to_string(), t)).collect() }
}

fn component_vars() -> Vec<String> {
    vec![
        "component".to_string(),
        "label".to_string(),
        "description".to_string(),
        "kind".to_string(),
    ]
}

const KIND_BUSINESS_SERVICE: &str =
    "http://www.semanticweb.org/ontologies/2020/4/OntologyTOGAFContentMetamodel.owl#BusinessService";
const KIND_INFORMATION_SYSTEM_SERVICE: &str =
    "http://www.semanticweb.org/ontologies/2020/4/OntologyTOGAFContentMetamodel.owl#InformationSystemService";
const KIND_FUNCTION: &str =
    "http://www.semanticweb.org/ontologies/2020/4/OntologyTOGAFContentMetamodel.owl#Function";
const KIND_PROCESS: &str =
    "http://www.semanticweb.org/ontologies/2020/4/OntologyTOGAFContentMetamodel.owl#Process";

#[test]
fn decodes_a_full_component_row() {
    let result = QueryResult {
        vars: component_vars(),
        bindings: vec![row(vec![
            ("component", uri("http://example.com/ordering")),
            ("label", literal("Ordering")),
            ("description", literal("Takes orders.")),
            ("kind", uri(KIND_FUNCTION)),
        ])],
    };
    let components = components_from_result(&result).unwrap();
    assert_eq!(components.len(), 1);
    assert_eq!(components[0].id.value, "http://example.com/ordering");
    assert_eq!(components[0].label, "Ordering");
    assert_eq!(components[0].description, Some("Takes orders.".to_string()));
    assert_eq!(components[0].kind, ComponentKind::Function);
}

#[test]
fn decodes_an_absent_description_as_none() {
    let result = QueryResult {
        vars: component_vars(),
        bindings: vec![row(vec![
            ("component", uri("http://example.com/c")),
            ("label", literal("C")),
            ("kind", uri(KIND_BUSINESS_SERVICE)),
        ])],
    };
    let components = components_from_result(&result).unwrap();
    assert_eq!(components[0].description, None);
}

#[test]
fn decodes_an_empty_result_to_no_components() {
    let result = QueryResult { vars: component_vars(), bindings: vec![] };
    let components = components_from_result(&result).unwrap();
    assert!(components.is_empty());
}

#[test]
fn variable_mismatch_fails_without_reading_rows() {
    // The single row would itself fail to decode; the projection mismatch
    // must win, and the error must carry the declared variables.
    let result = QueryResult {
        vars: vec!["component".to_string(), "label".to_string()],
        bindings: vec![row(vec![("label", uri("http://example.com/not-a-literal"))])],
    };
    match components_from_result(&result) {
        Err(DecodeError::VariableMismatch { vars }) => {
            assert_eq!(vars, vec!["component".to_string(), "label".to_string()]);
        },
        other => panic!("expected a variable mismatch, got {:?}", other),
    }
}

#[test]
fn each_taxonomy_uri_decodes_to_its_kind() {
    assert_eq!(kind_of_uri(KIND_BUSINESS_SERVICE), Some(ComponentKind::BusinessService));
    assert_eq!(
        kind_of_uri(KIND_INFORMATION_SYSTEM_SERVICE),
        Some(ComponentKind::InformationSystemService)
    );
    assert_eq!(kind_of_uri(KIND_FUNCTION), Some(ComponentKind::Function));
    assert_eq!(kind_of_uri(KIND_PROCESS), Some(ComponentKind::Process));
}

#[test]
fn unknown_kind_uri_fails_carrying_the_uri() {
    let stranger =
        "http://www.semanticweb.org/ontologies/2020/4/OntologyTOGAFContentMetamodel.owl#Capability";
    assert_eq!(kind_of_uri(stranger), None);
    let result = QueryResult {
        vars: component_vars(),
        bindings: vec![row(vec![
            ("component", uri("http://example.com/c")),
            ("label", literal("C")),
            ("kind", uri(stranger)),
        ])],
    };
    match components_from_result(&result) {
        Err(DecodeError::UnknownKindUri { uri }) => assert_eq!(uri, stranger),
        other => panic!("expected an unknown kind, got {:?}", other),
    }
}

#[test]
fn literal_where_uri_expected_fails() {
    let r = row(vec![
        ("component", literal("not a uri")),
        ("label", literal("C")),
        ("kind", uri(KIND_PROCESS)),
    ]);
    match decode_component_row(&r) {
        Err(DecodeError::UnexpectedTerm { variable, term }) => {
            assert_eq!(variable, "component");
            assert!(matches!(term, Some(Term::Literal { .. })));
        },
        other => panic!("expected an unexpected term, got {:?}", other),
    }
}

#[test]
fn unbound_label_fails() {
    let r = row(vec![("component", uri("http://example.com/c")), ("kind", uri(KIND_PROCESS))]);
    match decode_component_row(&r) {
        Err(DecodeError::UnexpectedTerm { variable, term }) => {
            assert_eq!(variable, "label");
            assert!(term.is_none());
        },
        other => panic!("expected an unexpected term, got {:?}", other),
    }
}

#[test]
fn uri_description_fails() {
    let r = row(vec![
        ("component", uri("http://example.com/c")),
        ("label", literal("C")),
        ("description", uri("http://example.com/d")),
        ("kind", uri(KIND_PROCESS)),
    ]);
    match decode_component_row(&r) {
        Err(DecodeError::UnexpectedTerm { variable, term }) => {
            assert_eq!(variable, "description");
            assert!(matches!(term, Some(Term::Uri { .. })));
        },
        other => panic!("expected an unexpected term, got {:?}", other),
    }
}

#[test]
fn decodes_relations_through_the_phrase_taxonomy() {
    let result = QueryResult {
        vars: vec!["from".to_string(), "label".to_string(), "to".to_string()],
        bindings: vec![row(vec![
            ("from", uri("http://example.com/a")),
            (
                "label",
                uri("http://www.semanticweb.org/ontologies/2020/4/OntologyTOGAFContentMetamodel.owl#informationSystemServiceRealizesBusinessService"),
            ),
            ("to", uri("http://example.com/b")),
        ])],
    };
    let relations = relations_from_result(&result).unwrap();
    assert_eq!(relations.len(), 1);
    assert_eq!(relations[0].from.value, "http://example.com/a");
    assert_eq!(relations[0].to.value, "http://example.com/b");
    assert_eq!(relations[0].label, "realizes");
}

#[test]
fn each_relation_uri_resolves_to_its_phrase() {
    let base = "http://www.semanticweb.org/ontologies/2020/4/OntologyTOGAFContentMetamodel.owl#";
    assert_eq!(
        relation_phrase_of_uri(&format!("{}informationSystemServiceRealizesBusinessService", base)),
        Some("realizes".to_string())
    );
    assert_eq!(
        relation_phrase_of_uri(&format!(
            "{}businessServiceProvidesGovernedInterfaceToAccessFunction",
            base
        )),
        Some("provides governed interface to access".to_string())
    );
    assert_eq!(
        relation_phrase_of_uri(&format!("{}processDecomposesAndOrOrchestratesFunction", base)),
        Some("orchestrates and/or decomposes".to_string())
    );
    assert_eq!(
        relation_phrase_of_uri(&format!("{}functionIsRealizedByAndOrSupportsProcess", base)),
        Some("supports or is realized by".to_string())
    );
    assert_eq!(relation_phrase_of_uri(&format!("{}somethingElse", base)), None);
}

#[test]
fn unknown_relation_uri_fails_carrying_the_uri() {
    let stranger = "http://example.com/unlisted-relation";
    let result = QueryResult {
        vars: vec!["from".to_string(), "label".to_string(), "to".to_string()],
        bindings: vec![row(vec![
            ("from", uri("http://example.com/a")),
            ("label", uri(stranger)),
            ("to", uri("http://example.com/b")),
        ])],
    };
    match relations_from_result(&result) {
        Err(DecodeError::UnknownRelationUri { uri }) => assert_eq!(uri, stranger),
        other => panic!("expected an unknown relation, got {:?}", other),
    }
}

#[test]
fn id_listing_agrees_with_component_listing() {
    let full = QueryResult {
        vars: component_vars(),
        bindings: vec![
            row(vec![
                ("component", uri("http://example.com/one")),
                ("label", literal("One")),
                ("kind", uri(KIND_FUNCTION)),
            ]),
            row(vec![
                ("component", uri("http://example.com/two")),
                ("label", literal("Two")),
                ("description", literal("Second.")),
                ("kind", uri(KIND_PROCESS)),
            ]),
        ],
    };
    let projected = QueryResult {
        vars: vec!["component".to_string()],
        bindings: vec![
            row(vec![("component", uri("http://example.com/one"))]),
            row(vec![("component", uri("http://example.com/two"))]),
        ],
    };
    let components = components_from_result(&full).unwrap();
    let ids = component_ids_from_result(&projected).unwrap();
    let from_components: Vec<String> = components.into_iter().map(|c| c.id.value).collect();
    let from_ids: Vec<String> = ids.into_iter().map(|id| id.value).collect();
    assert_eq!(from_components, from_ids);
}

#[test]
fn id_listing_rejects_the_full_projection() {
    let result = QueryResult { vars: component_vars(), bindings: vec![] };
    assert!(matches!(
        component_ids_from_result(&result),
        Err(DecodeError::VariableMismatch { .. })
    ));
}
