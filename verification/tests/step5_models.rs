use workflow_ide_framework::flow_editor::{FlowEdge, FlowModel, FlowNode, FlowPort, PortDirection};
use workflow_ide_framework::text_editor::{TextDocument, TextEditorOptions, TextEncoding};
use workflow_ide_framework::tree_viewer::{TreeModel, TreeNode};

#[test]
fn text_document_preserves_japanese_and_metadata() {
    let doc = TextDocument::new("doc", "日本語.txt", "こんにちは\n世界")
        .language_hint("日本語")
        .encoding(TextEncoding::ShiftJis);
    assert_eq!(doc.display_name, "日本語.txt");
    assert_eq!(doc.text, "こんにちは\n世界");
    assert_eq!(doc.language_hint.as_deref(), Some("日本語"));
    assert_eq!(doc.encoding.label(), "Shift_JIS");
    assert!(!doc.modified);
    assert!(!TextEditorOptions::default().word_wrap);
}

#[test]
fn tree_model_preserves_japanese_labels_and_hierarchy() {
    let root = TreeNode::new("root", "サンプルプロジェクト")
        .node_type("project")
        .child(TreeNode::new("robot", "ロボット.rs").node_type("file"));
    let model = TreeModel { roots: vec![root], selected_id: None };
    assert_eq!(model.roots[0].label, "サンプルプロジェクト");
    assert_eq!(model.roots[0].children[0].label, "ロボット.rs");
    assert_eq!(model.roots[0].children[0].node_type.as_deref(), Some("file"));
}

#[test]
fn flow_model_preserves_japanese_nodes_ports_edges_and_view_state() {
    let base = FlowNode::new("base", "ベース", [10.0f32, 20.0])
        .port(FlowPort::new("out", "子", PortDirection::Output).data_type("link"));
    let arm = FlowNode::new("arm", "アーム", [30.0f32, 40.0])
        .port(FlowPort::new("in", "親", PortDirection::Input).data_type("link"));
    let model = FlowModel {
        nodes: vec![base, arm],
        edges: vec![FlowEdge::new("e1", "base", "out", "arm", "in")],
        ..FlowModel::new([0.0f32, 0.0], 1.0f32)
    };
    assert_eq!(model.nodes[0].label, "ベース");
    assert_eq!(model.nodes[1].ports[0].label, "親");
    assert_eq!(model.edges[0].to_node, "arm");
    assert_eq!(model.zoom, 1.0);
}
