use stream_session::xml::{
    extract_name, extract_name_from_xml, extract_resolution, extract_resolution_from_xml,
    extract_type, extract_type_from_xml, parse_xml, XmlNode,
};

fn leaf(tag: &str, text: &str) -> XmlNode {
    XmlNode {
        tag: tag.to_string(),
        text: Some(text.to_string()),
        children: Vec::new(),
    }
}

fn node(tag: &str, children: Vec<XmlNode>) -> XmlNode {
    XmlNode {
        tag: tag.to_string(),
        text: None,
        children,
    }
}

#[test]
fn name_present_is_returned() {
    assert_eq!(
        extract_name_from_xml("<stream><name>EEG Stream</name></stream>"),
        Some("EEG Stream".to_string())
    );
}

#[test]
fn name_absent_is_nothing_not_error() {
    assert_eq!(
        extract_name_from_xml("<stream><type>EEG</type></stream>"),
        None
    );
}

#[test]
fn malformed_document_is_nothing() {
    assert_eq!(extract_name_from_xml("<stream><name>x"), None);
}

#[test]
fn name_found_at_any_depth() {
    assert_eq!(
        extract_name_from_xml("<info><desc><name>Deep</name></desc></info>"),
        Some("Deep".to_string())
    );
}

#[test]
fn first_name_in_document_order_wins() {
    assert_eq!(
        extract_name_from_xml("<a><name>first</name><name>second</name></a>"),
        Some("first".to_string())
    );
}

#[test]
fn type_present_and_absent() {
    assert_eq!(
        extract_type_from_xml("<s><type>EEG</type></s>"),
        Some("EEG".to_string())
    );
    assert_eq!(extract_type_from_xml("<s><name>n</name></s>"), None);
}

#[test]
fn name_on_tree_without_text_is_nothing() {
    let doc = node("stream", vec![node("name", vec![leaf("sub", "x")])]);
    assert_eq!(extract_name(&doc), None);
}

#[test]
fn name_on_hand_built_tree() {
    let doc = node("stream", vec![leaf("name", "Handmade")]);
    assert_eq!(extract_name(&doc), Some("Handmade".to_string()));
    assert_eq!(extract_type(&doc), None);
}

#[test]
fn resolution_path_present() {
    let xml = "<info><desc><resinfo><resolution>24</resolution></resinfo></desc></info>";
    assert_eq!(extract_resolution_from_xml(xml), Some("24".to_string()));
}

#[test]
fn resolution_path_incomplete_is_nothing() {
    assert_eq!(
        extract_resolution_from_xml("<info><desc><resolution>24</resolution></desc></info>"),
        None
    );
    assert_eq!(extract_resolution_from_xml("<info></info>"), None);
}

#[test]
fn resolution_element_empty_is_empty_text() {
    let doc = node(
        "info",
        vec![node(
            "desc",
            vec![node("resinfo", vec![node("resolution", vec![])])],
        )],
    );
    assert_eq!(extract_resolution(&doc), Some(String::new()));
}

#[test]
fn resolution_must_follow_child_path_not_any_descendant() {
    let xml = "<info><other><resinfo><resolution>24</resolution></resinfo></other></info>";
    assert_eq!(extract_resolution_from_xml(xml), None);
}

#[test]
fn parse_builds_the_element_tree() {
    let doc = parse_xml("<a><b>inner</b><c/></a>").expect("well-formed");
    assert_eq!(doc.tag, "a");
    assert_eq!(doc.children.len(), 2);
    assert_eq!(doc.children[0].tag, "b");
    assert_eq!(doc.children[0].text, Some("inner".to_string()));
    assert_eq!(doc.children[1].tag, "c");
    assert_eq!(doc.children[1].text, None);
}
