use tooling::knowledge::{
    first_label, graph_from_response, query_result_from_response, status_success, BindingRow,
    Dataset, IoError, QueryResponse, QueryResponseHead, QueryResponseResults, QueryResponseValue,
    QueryResult, Resource, SelectError, Term,
};
use tooling::lifecycle::{
    interpret_create_response, interpret_delete_response, interpret_import_response,
    DatasetCreationError, DatasetDeletionError, ImportError, LifecycleRequest, OverwriteError,
    OverwriteMachine, OverwriteStep,
};
use tooling::queries::{
    component_ids_query, components_query, describe_query, label_query, relations_query,
};

fn response(vars: Vec<&str>, rows: Vec<Vec<(&str, QueryResponseValue)>>) -> QueryResponse {
    QueryResponse {
        head: QueryResponseHead { vars: vars.into_iter().map(|v| v.to_string()).collect() },
        results: QueryResponseResults {
            bindings: rows
                .into_iter()
                .map(|r| r.into_iter().map(|(n, v)| (n.to_string(), v)).collect())
                .collect(),
        },
    }
}

fn wire_uri(value: &str) -> QueryResponseValue {
    QueryResponseValue::Uri { value: value.to_string() }
}

fn wire_literal(value: &str) -> QueryResponseValue {
    QueryResponseValue::Literal { value: value.to_string() }
}

#[test]
fn success_statuses_are_the_two_hundreds() {
    assert!(status_success(200));
    assert!(status_success(204));
    assert!(!status_success(199));
    assert!(!status_success(300));
    assert!(!status_success(409));
    assert!(!status_success(500));
}

#[test]
fn converts_a_wire_response_into_terms() {
    let qr = query_result_from_response(
        200,
        response(
            vec!["component", "label"],
            vec![vec![
                ("component", wire_uri("http://example.com/c")),
                ("label", wire_literal("C")),
            ]],
        ),
    )
    .unwrap();
    assert_eq!(qr.vars, vec!["component".to_string(), "label".to_string()]);
    assert_eq!(qr.bindings.len(), 1);
    let row = &qr.bindings[0];
    assert!(matches!(
        row.get("component"),
        Some(Term::Uri { uri }) if uri.as_str() == "http://example.com/c"
    ));
    assert!(matches!(
        row.get("label"),
        Some(Term::Literal { value, datatype: None, language: None }) if value.as_str() == "C"
    ));
    assert!(row.get("missing").is_none());
}

#[test]
fn select_rejects_a_non_success_status() {
    let r = query_result_from_response(500, response(vec!["component"], vec![]));
    assert!(matches!(
        r,
        Err(SelectError::IO(IoError::UnexpectedStatus { status: 500 }))
    ));
}

#[test]
fn select_rejects_an_undeclared_variable() {
    let r = query_result_from_response(
        200,
        response(vec!["component"], vec![vec![("stranger", wire_uri("http://example.com/c"))]]),
    );
    match r {
        Err(SelectError::UndeclaredVariable(v)) => assert_eq!(v, "stranger"),
        other => panic!("expected an undeclared variable, got {:?}", other),
    }
}

#[test]
fn select_rejects_a_duplicate_variable() {
    let r = query_result_from_response(
        200,
        response(
            vec!["component"],
            vec![vec![
                ("component", wire_uri("http://example.com/a")),
                ("component", wire_uri("http://example.com/b")),
            ]],
        ),
    );
    match r {
        Err(SelectError::DuplicateVariable(v)) => assert_eq!(v, "component"),
        other => panic!("expected a duplicate variable, got {:?}", other),
    }
}

#[test]
fn reads_the_first_label() {
    let result = QueryResult {
        vars: vec!["label".to_string()],
        bindings: vec![
            BindingRow {
                bindings: vec![(
                    "label".to_string(),
                    Term::Literal {
                        value: "architecture application service".to_string(),
                        datatype: None,
                        language: None,
                    },
                )],
            },
            BindingRow {
                bindings: vec![(
                    "label".to_string(),
                    Term::Literal { value: "second".to_string(), datatype: None, language: None },
                )],
            },
        ],
    };
    assert_eq!(first_label(&result), Some("architecture application service".to_string()));
}

#[test]
fn no_rows_mean_no_label() {
    let result = QueryResult { vars: vec!["label".to_string()], bindings: vec![] };
    assert_eq!(first_label(&result), None);
    let unbound = QueryResult {
        vars: vec!["label".to_string()],
        bindings: vec![BindingRow { bindings: vec![] }],
    };
    assert_eq!(first_label(&unbound), None);
    let uri_bound = QueryResult {
        vars: vec!["label".to_string()],
        bindings: vec![BindingRow {
            bindings: vec![(
                "label".to_string(),
                Term::Uri { uri: "http://example.com/l".to_string() },
            )],
        }],
    };
    assert_eq!(first_label(&uri_bound), None);
}

#[test]
fn describe_success_keeps_the_body() {
    let g = graph_from_response(Ok((200, "{\"@graph\":[]}".to_string()))).unwrap();
    assert_eq!(g.document(), "{\"@graph\":[]}");
}

#[test]
fn describe_failures_surface_the_status_or_detail() {
    assert!(matches!(
        graph_from_response(Ok((404, String::new()))),
        Err(IoError::UnexpectedStatus { status: 404 })
    ));
    assert!(matches!(
        graph_from_response(Err("connection refused".to_string())),
        Err(IoError::Transport { detail }) if detail == "connection refused"
    ));
}

#[test]
fn create_interprets_each_outcome() {
    let created = interpret_create_response("x".to_string(), Ok(200)).unwrap();
    assert_eq!(created.name(), "x");
    match interpret_create_response("x".to_string(), Ok(409)) {
        Err(DatasetCreationError::NameAlreadyTaken(existing)) => assert_eq!(existing.name(), "x"),
        other => panic!("expected a name collision, got {:?}", other),
    }
    assert!(matches!(
        interpret_create_response("x".to_string(), Ok(500)),
        Err(DatasetCreationError::IO(IoError::UnexpectedStatus { status: 500 }))
    ));
    assert!(matches!(
        interpret_create_response("x".to_string(), Err("down".to_string())),
        Err(DatasetCreationError::IO(IoError::Transport { detail })) if detail == "down"
    ));
}

#[test]
fn delete_interprets_each_outcome() {
    assert!(interpret_delete_response(Ok(200)).is_ok());
    assert!(matches!(
        interpret_delete_response(Ok(409)),
        Err(DatasetDeletionError::DatasetNotFound)
    ));
    assert!(matches!(
        interpret_delete_response(Ok(500)),
        Err(DatasetDeletionError::IO(IoError::UnexpectedStatus { status: 500 }))
    ));
    assert!(matches!(
        interpret_delete_response(Err("down".to_string())),
        Err(DatasetDeletionError::IO(IoError::Transport { detail })) if detail == "down"
    ));
}

#[test]
fn import_interprets_each_outcome() {
    assert!(interpret_import_response(Ok(200), String::new()).is_ok());
    match interpret_import_response(Ok(400), "bad turtle".to_string()) {
        Err(ImportError::UnexpectedStatus { status, body }) => {
            assert_eq!(status, 400);
            assert_eq!(body, "bad turtle");
        },
        other => panic!("expected an unexpected status, got {:?}", other),
    }
    assert!(matches!(
        interpret_import_response(Err("down".to_string()), String::new()),
        Err(ImportError::Transport(detail)) if detail == "down"
    ));
}

#[test]
fn overwriting_a_taken_name_does_create_delete_create() {
    // First create: conflict, carrying the existing handle.
    let (machine, first) = OverwriteMachine::start("x".to_string());
    assert!(matches!(first, LifecycleRequest::Create(name) if name == "x"));
    let step = machine.on_create(Err(DatasetCreationError::NameAlreadyTaken(Dataset::new(
        "x".to_string(),
    ))));
    let (machine, second) = match step {
        OverwriteStep::Next(m, req) => (m, req),
        OverwriteStep::Done(r) => panic!("plan ended early with {:?}", r),
    };
    assert!(matches!(second, LifecycleRequest::Delete(d) if d.name() == "x"));
    // Delete succeeds; the plan asks for exactly one more create.
    let step = machine.on_delete(Ok(()));
    let (machine, third) = match step {
        OverwriteStep::Next(m, req) => (m, req),
        OverwriteStep::Done(r) => panic!("plan ended early with {:?}", r),
    };
    assert!(matches!(third, LifecycleRequest::Create(name) if name == "x"));
    // Second create succeeds: done.
    let step = machine.on_create(Ok(Dataset::new("x".to_string())));
    match step {
        OverwriteStep::Done(Ok(d)) => assert_eq!(d.name(), "x"),
        other => panic!("expected the plan to finish, got {:?}", other),
    }
}

#[test]
fn a_second_conflict_is_the_race_error_not_a_loop() {
    let (machine, _) = OverwriteMachine::start("x".to_string());
    let step = machine.on_create(Err(DatasetCreationError::NameAlreadyTaken(Dataset::new(
        "x".to_string(),
    ))));
    let machine = match step {
        OverwriteStep::Next(m, _) => m,
        OverwriteStep::Done(r) => panic!("plan ended early with {:?}", r),
    };
    let machine = match machine.on_delete(Ok(())) {
        OverwriteStep::Next(m, _) => m,
        OverwriteStep::Done(r) => panic!("plan ended early with {:?}", r),
    };
    match machine.on_create(Err(DatasetCreationError::NameAlreadyTaken(Dataset::new(
        "x".to_string(),
    )))) {
        OverwriteStep::Done(Err(OverwriteError::RaceCondition(d))) => assert_eq!(d.name(), "x"),
        other => panic!("expected the race-condition error, got {:?}", other),
    }
}

#[test]
fn delete_failure_ends_the_overwrite_plan() {
    let (machine, _) = OverwriteMachine::start("x".to_string());
    let machine = match machine.on_create(Err(DatasetCreationError::NameAlreadyTaken(
        Dataset::new("x".to_string()),
    ))) {
        OverwriteStep::Next(m, _) => m,
        OverwriteStep::Done(r) => panic!("plan ended early with {:?}", r),
    };
    match machine.on_delete(Err(DatasetDeletionError::DatasetNotFound)) {
        OverwriteStep::Done(Err(OverwriteError::DeleteFailed(
            DatasetDeletionError::DatasetNotFound,
        ))) => {},
        other => panic!("expected the delete failure, got {:?}", other),
    }
}

#[test]
fn first_create_io_failure_ends_the_overwrite_plan() {
    let (machine, _) = OverwriteMachine::start("x".to_string());
    match machine.on_create(Err(DatasetCreationError::IO(IoError::Transport {
        detail: "down".to_string(),
    }))) {
        OverwriteStep::Done(Err(OverwriteError::CreateFailed(IoError::Transport { detail }))) => {
            assert_eq!(detail, "down");
        },
        other => panic!("expected the create failure, got {:?}", other),
    }
}

#[test]
fn first_create_success_finishes_immediately() {
    let (machine, _) = OverwriteMachine::start("fresh".to_string());
    match machine.on_create(Ok(Dataset::new("fresh".to_string()))) {
        OverwriteStep::Done(Ok(d)) => assert_eq!(d.name(), "fresh"),
        other => panic!("expected immediate success, got {:?}", other),
    }
}

#[test]
fn query_templates_declare_their_projections() {
    assert!(components_query().contains("SELECT ?component ?label ?description ?kind"));
    assert!(relations_query().contains("SELECT ?from ?label ?to"));
    assert!(component_ids_query().contains("SELECT ?component"));
    assert!(components_query().contains("OntologyTOGAFContentMetamodel.owl#"));
}

#[test]
fn describe_query_substitutes_the_identifier() {
    assert_eq!(describe_query("http://example.com/c"), "DESCRIBE <http://example.com/c>");
}

#[test]
fn label_query_substitutes_the_resource() {
    let q = label_query(&Resource::from("http://example.com/r"));
    assert_eq!(
        q,
        "prefix rdfs: <http://www.w3.org/2000/01/rdf-schema#>\n\nSELECT ?label\nWHERE {\n  GRAPH ?g { <http://example.com/r> rdfs:label ?label }\n}\nLIMIT 25"
    );
}
