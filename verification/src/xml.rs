//! Metadata extraction: a stream describes itself with a small XML
//! document. The document is modelled as a tree of elements; the
//! extraction functions are pure traversals of that tree returning the
//! first matching element's text, or nothing when the tag is absent.

use vstd::prelude::*;
use vstd::string::StringExecFns;

verus! {

/// One element of a parsed metadata document: its tag, the text
/// directly under it (if its first child is text), and its child
/// elements in document order.
pub struct XmlNode {
    pub tag: String,
    pub text: Option<String>,
    pub children: Vec<XmlNode>,
}

/// First node of `n`'s subtree, in document order (`n` itself first),
/// whose tag equals `tag`.
pub open spec fn find_in_node(n: XmlNode, tag: Seq<char>) -> Option<XmlNode>
    decreases n, 1int,
{
    if n.tag@ == tag {
        Some(n)
    } else {
        find_in_nodes(n.children@, tag)
    }
}

/// First match of `tag` over the subtrees of `ns`, searched in order,
/// each subtree fully before the next.
pub open spec fn find_in_nodes(ns: Seq<XmlNode>, tag: Seq<char>) -> Option<XmlNode>
    decreases ns, 0int,
{
    if ns.len() == 0 {
        None
    } else {
        match find_in_node(ns[0], tag) {
            Some(m) => Some(m),
            None => find_in_nodes(ns.drop_first(), tag),
        }
    }
}

/// Whether any node of `n`'s subtree carries the tag.
pub open spec fn node_has_tag(n: XmlNode, tag: Seq<char>) -> bool
    decreases n, 1int,
{
    n.tag@ == tag || nodes_have_tag(n.children@, tag)
}

/// Whether any subtree of `ns` holds a node with the tag.
pub open spec fn nodes_have_tag(ns: Seq<XmlNode>, tag: Seq<char>) -> bool
    decreases ns, 0int,
{
    exists|i: int| 0 <= i < ns.len() && node_has_tag(#[trigger] ns[i], tag)
}

/// The text directly under the first `tag` node of `n`'s subtree:
/// nothing when no such node exists or it has no text.
pub open spec fn tag_text(n: XmlNode, tag: Seq<char>) -> Option<Seq<char>> {
    match find_in_node(n, tag) {
        None => None,
        Some(m) => match m.text {
            None => None,
            Some(t) => Some(t@),
        },
    }
}

pub fn find_tag<'a>(n: &'a XmlNode, tag: &String) -> (r: Option<&'a XmlNode>)
    ensures
        match r {
            Some(m) => find_in_node(*n, tag@) == Some(*m),
            None => find_in_node(*n, tag@) is None,
        },
    decreases *n, 1int,
{
    if n.tag == *tag {
        Some(n)
    } else {
        proof {
            assert(n.children@.skip(0) =~= n.children@);
        }
        find_tag_from(&n.children, 0, tag)
    }
}

fn find_tag_from<'a>(ns: &'a Vec<XmlNode>, i: usize, tag: &String) -> (r: Option<&'a XmlNode>)
    requires
        i <= ns.len(),
    ensures
        match r {
            Some(m) => find_in_nodes(ns@.skip(i as int), tag@) == Some(*m),
            None => find_in_nodes(ns@.skip(i as int), tag@) is None,
        },
    decreases ns@, ns@.len() - i, 0int,
{
    if i == ns.len() {
        proof {
            assert(ns@.skip(i as int) =~= Seq::<XmlNode>::empty());
        }
        None
    } else {
        proof {
            assert(ns@.skip(i as int)[0] == ns@[i as int]);
            assert(ns@.skip(i as int).drop_first() =~= ns@.skip(i as int + 1));
        }
        match find_tag(&ns[i], tag) {
            Some(m) => Some(m),
            None => find_tag_from(ns, i + 1, tag),
        }
    }
}

/// The found subtree's text is absent exactly when no node of the
/// subtree carries the tag or the first one found holds no text; in
/// particular an absent tag yields nothing rather than an error.
pub proof fn lemma_find_none_iff_absent(n: XmlNode, tag: Seq<char>)
    ensures
        find_in_node(n, tag) is None <==> !node_has_tag(n, tag),
    decreases n, 1int,
{
    if n.tag@ == tag {
    } else {
        lemma_find_nodes_none_iff_absent(n.children@, tag);
    }
}

/// Companion of `lemma_find_none_iff_absent` over a sequence of
/// subtrees.
proof fn lemma_find_nodes_none_iff_absent(ns: Seq<XmlNode>, tag: Seq<char>)
    ensures
        find_in_nodes(ns, tag) is None <==> !nodes_have_tag(ns, tag),
    decreases ns, 0int,
{
    if ns.len() == 0 {
    } else {
        lemma_find_none_iff_absent(ns[0], tag);
        lemma_find_nodes_none_iff_absent(ns.drop_first(), tag);
        assert forall|i: int| 0 <= i < ns.len() && node_has_tag(#[trigger] ns[i], tag) implies
            node_has_tag(ns[0], tag) || nodes_have_tag(ns.drop_first(), tag) by {
            if i > 0 {
                assert(ns.drop_first()[i - 1] == ns[i]);
            }
        }
        if node_has_tag(ns[0], tag) {
        } else if nodes_have_tag(ns.drop_first(), tag) {
            let j = choose|j: int| 0 <= j < ns.drop_first().len()
                && node_has_tag(#[trigger] ns.drop_first()[j], tag);
            assert(ns[j + 1] == ns.drop_first()[j]);
        }
    }
}

/// Text of the first `tag` node of the document, if any.
pub fn extract_tag_text(doc: &XmlNode, tag: &String) -> (r: Option<String>)
    ensures
        r.deep_view() == tag_text(*doc, tag@),
{
    match find_tag(doc, tag) {
        None => None,
        Some(m) => match &m.text {
            None => None,
            Some(t) => Some(t.clone()),
        },
    }
}

/// Display name declared by a metadata document: text of its first
/// `name` element.
pub open spec fn name_text(doc: XmlNode) -> Option<Seq<char>> {
    tag_text(doc, "name"@)
}

/// Stream type declared by a metadata document: text of its first
/// `type` element.
pub open spec fn type_text(doc: XmlNode) -> Option<Seq<char>> {
    tag_text(doc, "type"@)
}

pub fn extract_name(doc: &XmlNode) -> (r: Option<String>)
    ensures
        r.deep_view() == name_text(*doc),
{
    extract_tag_text(doc, &String::from_str("name"))
}

pub fn extract_type(doc: &XmlNode) -> (r: Option<String>)
    ensures
        r.deep_view() == type_text(*doc),
{
    extract_tag_text(doc, &String::from_str("type"))
}

/// First direct child element of `n` whose tag equals `tag`.
pub open spec fn child_with_tag(n: XmlNode, tag: Seq<char>) -> Option<XmlNode> {
    first_with_tag(n.children@, tag)
}

/// First element of `ns` itself carrying the tag (children are not
/// searched).
pub open spec fn first_with_tag(ns: Seq<XmlNode>, tag: Seq<char>) -> Option<XmlNode>
    decreases ns,
{
    if ns.len() == 0 {
        None
    } else if ns[0].tag@ == tag {
        Some(ns[0])
    } else {
        first_with_tag(ns.drop_first(), tag)
    }
}

pub fn find_child<'a>(n: &'a XmlNode, tag: &String) -> (r: Option<&'a XmlNode>)
    ensures
        match r {
            Some(m) => child_with_tag(*n, tag@) == Some(*m),
            None => child_with_tag(*n, tag@) is None,
        },
{
    proof {
        assert(n.children@.skip(0) =~= n.children@);
    }
    find_child_from(&n.children, 0, tag)
}

fn find_child_from<'a>(ns: &'a Vec<XmlNode>, i: usize, tag: &String) -> (r: Option<&'a XmlNode>)
    requires
        i <= ns.len(),
    ensures
        match r {
            Some(m) => first_with_tag(ns@.skip(i as int), tag@) == Some(*m),
            None => first_with_tag(ns@.skip(i as int), tag@) is None,
        },
    decreases ns@.len() - i,
{
    if i == ns.len() {
        proof {
            assert(ns@.skip(i as int) =~= Seq::<XmlNode>::empty());
        }
        None
    } else {
        proof {
            assert(ns@.skip(i as int)[0] == ns@[i as int]);
            assert(ns@.skip(i as int).drop_first() =~= ns@.skip(i as int + 1));
        }
        if ns[i].tag == *tag {
            Some(&ns[i])
        } else {
            find_child_from(ns, i + 1, tag)
        }
    }
}

/// Declared resolution of a stream: the text of the `resolution`
/// element reached along the `desc`, `resinfo`, `resolution` child
/// path, the empty text standing in when the element is empty; nothing
/// when the path is incomplete.
pub open spec fn resolution_text(doc: XmlNode) -> Option<Seq<char>> {
    match child_with_tag(doc, "desc"@) {
        None => None,
        Some(d) => match child_with_tag(d, "resinfo"@) {
            None => None,
            Some(ri) => match child_with_tag(ri, "resolution"@) {
                None => None,
                Some(res) => match res.text {
                    None => Some(Seq::<char>::empty()),
                    Some(t) => Some(t@),
                },
            },
        },
    }
}

pub fn extract_resolution(doc: &XmlNode) -> (r: Option<String>)
    ensures
        r.deep_view() == resolution_text(*doc),
{
    match find_child(doc, &String::from_str("desc")) {
        None => None,
        Some(d) => match find_child(d, &String::from_str("resinfo")) {
            None => None,
            Some(ri) => match find_child(ri, &String::from_str("resolution")) {
                None => None,
                Some(res) => match &res.text {
                    None => Some(String::new()),
                    Some(t) => Some(t.clone()),
                },
            },
        },
    }
}

#[verifier::external_type_specification]
#[verifier::external_body]
pub struct ExNode<'a, 'input: 'a>(roxmltree::Node<'a, 'input>);

/// What `roxmltree::Document::parse` yields on `s`: the root element's
/// subtree as an `XmlNode`, or nothing where `s` is not well-formed
/// XML. The result depends on the text alone.
pub uninterp spec fn parsed_xml(s: Seq<char>) -> Option<XmlNode>;

/// Relies on `roxmltree::Document::parse` to judge well-formedness and
/// build the document tree; the tree is copied over by
/// `convert_element`.
#[verifier::external_body]
pub fn parse_xml(s: &str) -> (r: Option<XmlNode>)
    ensures
        r == parsed_xml(s@),
{
    match roxmltree::Document::parse(s) {
        Ok(doc) => Some(convert_element(doc.root_element())),
        Err(_) => None,
    }
}

/// Relies on `roxmltree::Node::tag_name`, `Node::text`,
/// `Node::children` and `Node::is_element`: copies one parsed element —
/// tag, immediate text, child elements — into the library's model of
/// it, recursively.
#[verifier::external_body]
fn convert_element<'a, 'input>(n: roxmltree::Node<'a, 'input>) -> XmlNode {
    let mut children = Vec::new();
    for c in n.children() {
        if c.is_element() {
            children.push(convert_element(c));
        }
    }
    XmlNode {
        tag: n.tag_name().name().to_string(),
        text: n.text().map(|t| t.to_string()),
        children,
    }
}

/// Display name from the raw metadata text, parsed and searched.
pub open spec fn name_from_xml(s: Seq<char>) -> Option<Seq<char>> {
    match parsed_xml(s) {
        None => None,
        Some(doc) => name_text(doc),
    }
}

/// Stream type from the raw metadata text, parsed and searched.
pub open spec fn type_from_xml(s: Seq<char>) -> Option<Seq<char>> {
    match parsed_xml(s) {
        None => None,
        Some(doc) => type_text(doc),
    }
}

/// Declared resolution from the raw metadata text, parsed and walked.
pub open spec fn resolution_from_xml(s: Seq<char>) -> Option<Seq<char>> {
    match parsed_xml(s) {
        None => None,
        Some(doc) => resolution_text(doc),
    }
}

pub fn extract_name_from_xml(xml: &str) -> (r: Option<String>)
    ensures
        r.deep_view() == name_from_xml(xml@),
{
    match parse_xml(xml) {
        None => None,
        Some(doc) => extract_name(&doc),
    }
}

pub fn extract_type_from_xml(xml: &str) -> (r: Option<String>)
    ensures
        r.deep_view() == type_from_xml(xml@),
{
    match parse_xml(xml) {
        None => None,
        Some(doc) => extract_type(&doc),
    }
}

pub fn extract_resolution_from_xml(xml: &str) -> (r: Option<String>)
    ensures
        r.deep_view() == resolution_from_xml(xml@),
{
    match parse_xml(xml) {
        None => None,
        Some(doc) => extract_resolution(&doc),
    }
}

} // verus!
