//! XML documents as the manifest and device-definition parsers read them.
//!
//! A document is read (by `roxmltree`) into its nodes in document order, each with its local
//! tag name, attributes, text and the size of its subtree. Within that listing the descendants
//! of the node at position `k` are the positions `k + 1 .. k + size`, and its children are the
//! first descendant, then each next one a subtree further on.

use vstd::prelude::*;

use crate::text::{chars_of, str_eq};

verus! {

/// One attribute of an element.
#[derive(Debug, Clone, PartialEq, Eq)]
pub struct XmlAttr {
    /// Whether the attribute name has a namespace prefix.
    pub namespaced: bool,
    /// Local name.
    pub name: String,
    /// Value.
    pub value: String,
}

/// One node of a document, as listed in document order.
#[derive(Debug, Clone, PartialEq, Eq)]
pub struct XmlNode {
    /// Whether the node is an element (else text, comment, the root, …).
    pub element: bool,
    /// Local tag name (empty for a non-element).
    pub tag: String,
    /// The element's attributes, in order.
    pub attrs: Vec<XmlAttr>,
    /// The node's text: for an element, the text of its first child when that is a text node.
    pub text: Option<String>,
    /// The number of nodes in its subtree, itself included.
    pub size: usize,
}

/// The contents of an [`XmlAttr`].
pub struct XmlAttrView {
    pub namespaced: bool,
    pub name: Seq<char>,
    pub value: Seq<char>,
}

impl View for XmlAttr {
    type V = XmlAttrView;

    open spec fn view(&self) -> XmlAttrView {
        XmlAttrView { namespaced: self.namespaced, name: self.name@, value: self.value@ }
    }
}

/// The contents of an [`XmlNode`].
pub struct XmlNodeView {
    pub element: bool,
    pub tag: Seq<char>,
    pub attrs: Seq<XmlAttrView>,
    pub text: Option<Seq<char>>,
    pub size: nat,
}

impl View for XmlNode {
    type V = XmlNodeView;

    open spec fn view(&self) -> XmlNodeView {
        XmlNodeView {
            element: self.element,
            tag: self.tag@,
            attrs: self.attrs@.map_values(|a: XmlAttr| a@),
            text: crate::android::avd_list::opt_view(self.text),
            size: self.size as nat,
        }
    }
}

/// The views of a list of nodes.
pub open spec fn node_views(v: Seq<XmlNode>) -> Seq<XmlNodeView> {
    v.map_values(|n: XmlNode| n@)
}

/// A document's nodes in document order, or the parser's error message (`roxmltree`).
pub uninterp spec fn xml_doc(text: Seq<char>) -> Result<Seq<XmlNodeView>, Seq<char>>;

/// `roxmltree::Document::parse`: the document's nodes in document order, each with its subtree
/// size, or the parse error's message.
#[verifier::external_body]
pub(crate) fn parse_xml(text: &str) -> (r: Result<Vec<XmlNode>, String>)
    ensures
        match r {
            Ok(v) => xml_doc(text@) == Ok::<Seq<XmlNodeView>, Seq<char>>(node_views(v@)),
            Err(e) => xml_doc(text@) == Err::<Seq<XmlNodeView>, Seq<char>>(e@),
        },
{
    let doc = roxmltree::Document::parse(text).map_err(|e| e.to_string())?;
    Ok(doc.descendants().map(|n| XmlNode {
        element: n.is_element(),
        tag: n.tag_name().name().to_string(),
        attrs: n.attributes().map(|a| XmlAttr {
            namespaced: a.namespace().is_some(),
            name: a.name().to_string(),
            value: a.value().to_string(),
        }).collect(),
        text: n.text().map(str::to_string),
        size: n.descendants().count(),
    }).collect())
}

/// Bytes read as UTF-8, or the decoder's error message.
pub uninterp spec fn utf8_decode(bytes: Seq<u8>) -> Result<Seq<char>, Seq<char>>;

/// `std::str::from_utf8`: the text the bytes encode, or the `Utf8Error` message.
#[verifier::external_body]
pub(crate) fn decode_utf8(bytes: &[u8]) -> (r: Result<String, String>)
    ensures
        match r {
            Ok(s) => utf8_decode(bytes@) == Ok::<Seq<char>, Seq<char>>(s@),
            Err(e) => utf8_decode(bytes@) == Err::<Seq<char>, Seq<char>>(e@),
        },
{
    std::str::from_utf8(bytes).map(str::to_string).map_err(|e| e.to_string())
}

/// The node is an element with the local name `tag`.
pub open spec fn has_tag(n: XmlNodeView, tag: Seq<char>) -> bool {
    n.element && n.tag == tag
}

/// The value of the first attribute without a namespace named `name`.
pub open spec fn attr_of(attrs: Seq<XmlAttrView>, name: Seq<char>) -> Option<Seq<char>>
    decreases attrs.len(),
{
    if attrs.len() == 0 {
        None
    } else if !attrs[0].namespaced && attrs[0].name == name {
        Some(attrs[0].value)
    } else {
        attr_of(attrs.drop_first(), name)
    }
}

/// The value of an element's attribute (without namespace) named `name`.
pub fn attribute(n: &XmlNode, name: &str) -> (r: Option<String>)
    ensures
        crate::android::avd_list::opt_view(r) == attr_of(n@.attrs, name@),
{
    let ghost av = n@.attrs;
    let k = n.attrs.len();
    let mut i: usize = 0;
    assert(av.skip(0) =~= av);
    while i < k
        invariant
            i <= k,
            k == n.attrs@.len(),
            av == n@.attrs,
            attr_of(av, name@) == attr_of(av.skip(i as int), name@),
        decreases k - i,
    {
        assert(av.skip(i as int)[0] == av[i as int]);
        assert(av.skip(i as int).drop_first() =~= av.skip(i + 1));
        assert(av[i as int] == n.attrs@[i as int]@);
        if !n.attrs[i].namespaced && str_eq(n.attrs[i].name.as_str(), name) {
            return Some(n.attrs[i].value.clone());
        }
        i = i + 1;
    }
    None
}

/// The number of positions a node's subtree spans (at least one, so a walk always advances).
pub open spec fn span(nodes: Seq<XmlNodeView>, k: int) -> int {
    if 0 <= k < nodes.len() && nodes[k].size > 0 {
        nodes[k].size as int
    } else {
        1
    }
}

/// The end (exclusive) of the subtree of the node at `k`, within the listing.
pub open spec fn subtree_end(nodes: Seq<XmlNodeView>, k: int) -> int {
    if k + span(nodes, k) <= nodes.len() {
        k + span(nodes, k)
    } else {
        nodes.len() as int
    }
}

/// The first child satisfying `pred`, walking the children from position `from` to `end`.
pub open spec fn child_from_where(
    nodes: Seq<XmlNodeView>,
    from: int,
    end: int,
    pred: spec_fn(XmlNodeView) -> bool,
) -> Option<int>
    decreases end - from,
{
    if from >= end || from < 0 || from >= nodes.len() {
        None
    } else if pred(nodes[from]) {
        Some(from)
    } else {
        let step: int = if nodes[from].size > 0 {
            nodes[from].size as int
        } else {
            1
        };
        if from + step >= end {
            None
        } else {
            child_from_where(nodes, from + step, end, pred)
        }
    }
}

/// The first child of the node at `k` that satisfies `pred`.
pub open spec fn child_where(nodes: Seq<XmlNodeView>, k: int, pred: spec_fn(XmlNodeView) -> bool) -> Option<int> {
    child_from_where(nodes, k + 1, subtree_end(nodes, k), pred)
}

/// The first position in `from .. to` whose node satisfies `pred`.
pub open spec fn first_where(
    nodes: Seq<XmlNodeView>,
    from: int,
    to: int,
    pred: spec_fn(XmlNodeView) -> bool,
) -> Option<int>
    decreases to - from,
{
    if from >= to || from < 0 || from >= nodes.len() {
        None
    } else if pred(nodes[from]) {
        Some(from)
    } else {
        first_where(nodes, from + 1, to, pred)
    }
}

/// The first child of the node at `k` that is an element named `tag`, walking the children
/// from position `from` to `end`.
pub open spec fn child_from(nodes: Seq<XmlNodeView>, from: int, end: int, tag: Seq<char>) -> Option<int>
    decreases end - from,
{
    if from >= end || from < 0 || from >= nodes.len() {
        None
    } else if has_tag(nodes[from], tag) {
        Some(from)
    } else {
        let step: int = if nodes[from].size > 0 {
            nodes[from].size as int
        } else {
            1
        };
        if from + step >= end {
            None
        } else {
            child_from(nodes, from + step, end, tag)
        }
    }
}

/// The first child of the node at `k` that is an element named `tag`.
pub open spec fn child_with_tag(nodes: Seq<XmlNodeView>, k: int, tag: Seq<char>) -> Option<int> {
    child_from(nodes, k + 1, subtree_end(nodes, k), tag)
}

/// The first child (of the node at `k`) that is an element named `tag`.
pub fn find_child(nodes: &[XmlNode], k: usize, tag: &str) -> (r: Option<usize>)
    requires
        k < nodes@.len(),
    ensures
        match r {
            Some(c) => child_with_tag(node_views(nodes@), k as int, tag@) == Some(c as int) && c
                < nodes@.len(),
            None => child_with_tag(node_views(nodes@), k as int, tag@) is None,
        },
{
    let ghost nv = node_views(nodes@);
    let n = nodes.len();
    let span_k: usize = if nodes[k].size > 0 {
        nodes[k].size
    } else {
        1
    };
    let end: usize = if span_k <= n - k {
        k + span_k
    } else {
        n
    };
    assert(end == subtree_end(nv, k as int));
    let mut i: usize = k + 1;
    while i < end
        invariant
            k < i,
            end <= n,
            n == nodes@.len(),
            nv == node_views(nodes@),
            end == subtree_end(nv, k as int),
            child_with_tag(nv, k as int, tag@) == child_from(nv, i as int, end as int, tag@),
        decreases end - i,
    {
        assert(nv[i as int] == nodes@[i as int]@);
        if nodes[i].element && str_eq(nodes[i].tag.as_str(), tag) {
            return Some(i);
        }
        let step: usize = if nodes[i].size > 0 {
            nodes[i].size
        } else {
            1
        };
        assert(step == span(nv, i as int));
        if step >= end - i {
            assert(child_from(nv, i + step, end as int, tag@) is None);
            return None;
        }
        i = i + step;
    }
    None
}

/// The first `<checksum type="sha1">` child of the node at `k`.
pub open spec fn sha1_checksum_child(nodes: Seq<XmlNodeView>, k: int) -> Option<int> {
    child_where(
        nodes,
        k,
        |n: XmlNodeView| has_tag(n, "checksum"@) && attr_of(n.attrs, "type"@) == Some("sha1"@),
    )
}

/// The first `<checksum type="sha1">` child of the node at `k`.
pub fn find_sha1_checksum(nodes: &[XmlNode], k: usize) -> (r: Option<usize>)
    requires
        k < nodes@.len(),
    ensures
        match r {
            Some(c) => sha1_checksum_child(node_views(nodes@), k as int) == Some(c as int) && c
                < nodes@.len(),
            None => sha1_checksum_child(node_views(nodes@), k as int) is None,
        },
{
    let ghost nv = node_views(nodes@);
    let ghost pred = |n: XmlNodeView| has_tag(n, "checksum"@) && attr_of(n.attrs, "type"@) == Some(
        "sha1"@,
    );
    let n = nodes.len();
    let span_k: usize = if nodes[k].size > 0 {
        nodes[k].size
    } else {
        1
    };
    let end: usize = if span_k <= n - k {
        k + span_k
    } else {
        n
    };
    assert(end == subtree_end(nv, k as int));
    let mut i: usize = k + 1;
    while i < end
        invariant
            k < i,
            end <= n,
            n == nodes@.len(),
            nv == node_views(nodes@),
            end == subtree_end(nv, k as int),
            pred == (|n: XmlNodeView| has_tag(n, "checksum"@) && attr_of(n.attrs, "type"@) == Some(
                "sha1"@,
            )),
            sha1_checksum_child(nv, k as int) == child_from_where(nv, i as int, end as int, pred),
        decreases end - i,
    {
        assert(nv[i as int] == nodes@[i as int]@);
        if nodes[i].element && str_eq(nodes[i].tag.as_str(), "checksum") {
            let ty = attribute(&nodes[i], "type");
            let is_sha1 = match &ty {
                Some(t) => str_eq(t.as_str(), "sha1"),
                None => false,
            };
            if is_sha1 {
                return Some(i);
            }
        }
        let step: usize = if nodes[i].size > 0 {
            nodes[i].size
        } else {
            1
        };
        if step >= end - i {
            return None;
        }
        i = i + step;
    }
    None
}

/// The first position in `from .. to` holding an element named `tag`.
pub fn first_tagged(nodes: &[XmlNode], from: usize, to: usize, tag: &str) -> (r: Option<usize>)
    requires
        to <= nodes@.len(),
    ensures
        match r {
            Some(c) => first_where(
                node_views(nodes@),
                from as int,
                to as int,
                |n: XmlNodeView| has_tag(n, tag@),
            ) == Some(c as int) && from <= c < to,
            None => first_where(
                node_views(nodes@),
                from as int,
                to as int,
                |n: XmlNodeView| has_tag(n, tag@),
            ) is None,
        },
{
    let ghost nv = node_views(nodes@);
    let ghost pred = |n: XmlNodeView| has_tag(n, tag@);
    let mut i: usize = from;
    while i < to
        invariant
            from <= i,
            to <= nodes@.len(),
            nv == node_views(nodes@),
            pred == (|n: XmlNodeView| has_tag(n, tag@)),
            first_where(nv, from as int, to as int, pred) == first_where(
                nv,
                i as int,
                to as int,
                pred,
            ),
        decreases to - i,
    {
        assert(nv[i as int] == nodes@[i as int]@);
        if nodes[i].element && str_eq(nodes[i].tag.as_str(), tag) {
            return Some(i);
        }
        i = i + 1;
    }
    None
}

/// The text of the first child element named `tag` (nothing when that child has no text).
pub open spec fn text_of(nodes: Seq<XmlNodeView>, k: int, tag: Seq<char>) -> Option<Seq<char>> {
    match child_with_tag(nodes, k, tag) {
        Some(c) => nodes[c].text,
        None => None,
    }
}

/// The text of the first child element named `tag`.
pub fn child_text(nodes: &[XmlNode], k: usize, tag: &str) -> (r: Option<String>)
    requires
        k < nodes@.len(),
    ensures
        crate::android::avd_list::opt_view(r) == text_of(node_views(nodes@), k as int, tag@),
{
    match find_child(nodes, k, tag) {
        Some(c) => {
            assert(node_views(nodes@)[c as int] == nodes@[c as int]@);
            nodes[c].text.clone()
        },
        None => None,
    }
}

/// `<major>[.<minor>[.<micro>]]` of the node's first `<revision>` child, joined with `.`.
pub open spec fn revision_of(nodes: Seq<XmlNodeView>, k: int) -> Option<Seq<char>> {
    match child_with_tag(nodes, k, "revision"@) {
        None => None,
        Some(rv) => match text_of(nodes, rv, "major"@) {
            None => None,
            Some(major) => match text_of(nodes, rv, "minor"@) {
                None => Some(major),
                Some(minor) => match text_of(nodes, rv, "micro"@) {
                    None => Some(major + "."@ + minor),
                    Some(micro) => Some(major + "."@ + minor + "."@ + micro),
                },
            },
        },
    }
}

/// The revision of a package node, joined with `.`.
pub fn revision_string(nodes: &[XmlNode], k: usize) -> (r: Option<String>)
    requires
        k < nodes@.len(),
    ensures
        crate::android::avd_list::opt_view(r) == revision_of(node_views(nodes@), k as int),
{
    let rv = match find_child(nodes, k, "revision") {
        Some(rv) => rv,
        None => {
            return None;
        },
    };
    let major = match child_text(nodes, rv, "major") {
        Some(m) => m,
        None => {
            return None;
        },
    };
    let minor = match child_text(nodes, rv, "minor") {
        Some(m) => m,
        None => {
            return Some(major);
        },
    };
    let mut s = crate::text::cat3(major.as_str(), ".", minor.as_str());
    match child_text(nodes, rv, "micro") {
        Some(micro) => {
            s.append(".");
            s.append(micro.as_str());
        },
        None => {},
    }
    Some(s)
}

} // verus!
