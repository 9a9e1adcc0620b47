use tooling::architecture::{visualization, Component, ComponentId, ComponentKind, Relation};
use tooling::text::escape_quotes;

fn component(
    id: &str,
    label: &str,
    description: Option<&str>,
    kind: ComponentKind,
) -> Component {
    Component {
        id: ComponentId { value: id.to_string() },
        label: label.to_string(),
        description: description.map(|d| d.to_string()),
        kind,
    }
}

#[test]
fn renders_the_empty_model_as_the_bare_wrapper() {
    let v = visualization(vec![], vec![]);
    assert_eq!(v.graphviz_content, "digraph components_relations {\n}");
}

#[test]
fn renders_a_single_component_without_relations() {
    let v = visualization(vec![component("c1", "Ordering", None, ComponentKind::Function)], vec![]);
    let text = v.graphviz_content;
    assert_eq!(
        text,
        "digraph components_relations {\n\"c1\" [shape=plain,style=filled,label=<<B>Ordering</B><BR/>[Function]>]\n}"
    );
    assert!(text.contains("Ordering"));
    assert!(text.contains("[Function]"));
    assert!(!text.contains("->"));
}

#[test]
fn renders_a_description_after_the_kind() {
    let v = visualization(
        vec![component("c2", "Billing", Some("Sends invoices."), ComponentKind::BusinessService)],
        vec![],
    );
    assert_eq!(
        v.graphviz_content,
        "digraph components_relations {\n\"c2\" [shape=plain,style=filled,label=<<B>Billing</B><BR/>[Business service]<BR/><BR/>Sends invoices.>]\n}"
    );
}

#[test]
fn renders_each_kind_phrase() {
    let v = visualization(
        vec![
            component("a", "A", None, ComponentKind::BusinessService),
            component("b", "B", None, ComponentKind::Function),
            component("c", "C", None, ComponentKind::InformationSystemService),
            component("d", "D", None, ComponentKind::Process),
        ],
        vec![],
    );
    let text = v.graphviz_content;
    assert!(text.contains("[Business service]"));
    assert!(text.contains("[Function]"));
    assert!(text.contains("[Information system service]"));
    assert!(text.contains("[Process]"));
}

#[test]
fn renders_a_relation_as_a_labeled_edge() {
    let v = visualization(
        vec![],
        vec![Relation {
            from: ComponentId { value: "a".to_string() },
            to: ComponentId { value: "b".to_string() },
            label: "realizes".to_string(),
        }],
    );
    assert_eq!(
        v.graphviz_content,
        "digraph components_relations {\n\"a\" -> \"b\" [label=\"realizes\"]\n}"
    );
}

#[test]
fn escaping_doubles_exactly_the_quote() {
    assert_eq!(escape_quotes("say \"hi\""), "say \"\"hi\"\"");
    assert_eq!(escape_quotes("no quotes"), "no quotes");
    assert_eq!(escape_quotes(""), "");
    assert_eq!(escape_quotes("\""), "\"\"");
}

#[test]
fn renders_quoted_labels_with_doubled_quotes() {
    let v = visualization(
        vec![component("c\"3", "The \"big\" one", Some("a \"note\""), ComponentKind::Process)],
        vec![Relation {
            from: ComponentId { value: "fr\"om".to_string() },
            to: ComponentId { value: "t\"o".to_string() },
            label: "say \"go\"".to_string(),
        }],
    );
    let text = v.graphviz_content;
    assert!(text.contains("\"c\"\"3\" [shape=plain"));
    assert!(text.contains("<<B>The \"\"big\"\" one</B>"));
    assert!(text.contains("<BR/><BR/>a \"\"note\"\">]"));
    assert!(text.contains("\"fr\"\"om\" -> \"t\"\"o\" [label=\"say \"\"go\"\"\"]"));
}

#[test]
fn keeps_markup_in_labels_verbatim() {
    let v = visualization(
        vec![component("c4", "<I>italic</I>", None, ComponentKind::Function)],
        vec![],
    );
    assert!(v.graphviz_content.contains("<<B><I>italic</I></B>"));
}
