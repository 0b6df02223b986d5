//! `Node`: a read view of one YAML value (scalar, mapping, sequence, alias or tagged).

use vstd::prelude::*;
use yaml_edit::{Alias, Mapping, Scalar, Sequence, TaggedNode, YamlNode};
use crate::mapping::PyMapping;
use crate::scalar::{PyScalar, scalar_handle};
use crate::sequence::PySequence;
use crate::text::{debug_string, str_debug};

verus! {

/// The five kinds of YAML node that the editor distinguishes.
#[derive(PartialEq, Eq, Structural, Clone, Copy)]
pub enum NodeKind {
    Scalar,
    Mapping,
    Sequence,
    Alias,
    Tagged,
}

/// A node split by its kind, each arm holding the editor's typed handle.
pub enum NodeShape {
    Scalar(Scalar),
    Mapping(Mapping),
    Sequence(Sequence),
    Alias(Alias),
    Tagged(TaggedNode),
}

impl NodeShape {
    pub open spec fn kind(&self) -> NodeKind {
        match self {
            NodeShape::Scalar(_) => NodeKind::Scalar,
            NodeShape::Mapping(_) => NodeKind::Mapping,
            NodeShape::Sequence(_) => NodeKind::Sequence,
            NodeShape::Alias(_) => NodeKind::Alias,
            NodeShape::Tagged(_) => NodeKind::Tagged,
        }
    }
}

/// Tells `YamlNode`'s variants apart, one arm each, cloning the payload handle
/// (`Scalar::clone` and the like). The verifier cannot see the node's variant,
/// so that the shape has the node's variant is not stated: it is what the body does.
#[verifier::external_body]
fn yaml_node_shape(node: &YamlNode) -> NodeShape {
    match node {
        YamlNode::Scalar(s) => NodeShape::Scalar(s.clone()),
        YamlNode::Mapping(m) => NodeShape::Mapping(m.clone()),
        YamlNode::Sequence(s) => NodeShape::Sequence(s.clone()),
        YamlNode::Alias(a) => NodeShape::Alias(a.clone()),
        YamlNode::TaggedNode(t) => NodeShape::Tagged(t.clone()),
    }
}

/// `YamlNode::to_i64`: the value of an integer scalar that fits in an `i64`.
/// Nothing is stated of the result: it is read from the shared tree.
#[verifier::external_body]
fn yaml_node_to_i64(node: &YamlNode) -> Option<i64> {
    node.to_i64()
}

/// `YamlNode::to_bool`: the value of a boolean scalar.
/// Nothing is stated of the result: it is read from the shared tree.
#[verifier::external_body]
fn yaml_node_to_bool(node: &YamlNode) -> Option<bool> {
    node.to_bool()
}

/// `YamlNode`'s `Display`: the node's source text. Read from the shared tree;
/// nothing is stated.
#[verifier::external_body]
pub fn node_text(node: &YamlNode) -> String {
    node.to_string()
}

/// The name of a node kind, as `Node.kind` reports it.
pub open spec fn kind_name(k: NodeKind) -> Seq<char> {
    match k {
        NodeKind::Scalar => "scalar"@,
        NodeKind::Mapping => "mapping"@,
        NodeKind::Sequence => "sequence"@,
        NodeKind::Alias => "alias"@,
        NodeKind::Tagged => "tagged"@,
    }
}

/// The name of a node kind.
pub fn kind_str(k: NodeKind) -> (r: &'static str)
    ensures
        r@ == kind_name(k),
{
    match k {
        NodeKind::Scalar => "scalar",
        NodeKind::Mapping => "mapping",
        NodeKind::Sequence => "sequence",
        NodeKind::Alias => "alias",
        NodeKind::Tagged => "tagged",
    }
}

/// A YAML node returned from a getter: a read view into the document.
pub struct PyNode {
    inner: YamlNode,
    shape: NodeShape,
}

impl View for PyNode {
    type V = NodeKind;

    /// A node's kind never changes: it is the variant of the editor's node.
    open spec fn view(&self) -> NodeKind {
        self.shape_kind()
    }
}

impl PyNode {
    /// The editor's node that this value holds.
    pub closed spec fn held(&self) -> YamlNode {
        self.inner
    }

    /// The node split by its kind, with the typed handle it holds.
    pub closed spec fn held_shape(&self) -> NodeShape {
        self.shape
    }

    pub closed spec fn shape_kind(&self) -> NodeKind {
        self.shape.kind()
    }

    /// Wraps a node handed out by the editor.
    pub fn new(inner: YamlNode) -> (r: PyNode)
        ensures
            r.held() == inner,
    {
        let shape = yaml_node_shape(&inner);
        PyNode { inner, shape }
    }

    /// The kind of node: "scalar", "mapping", "sequence", "alias" or "tagged".
    pub fn kind(&self) -> (r: &'static str)
        ensures
            r@ == kind_name(self@),
    {
        let k = match &self.shape {
            NodeShape::Scalar(_) => NodeKind::Scalar,
            NodeShape::Mapping(_) => NodeKind::Mapping,
            NodeShape::Sequence(_) => NodeKind::Sequence,
            NodeShape::Alias(_) => NodeKind::Alias,
            NodeShape::Tagged(_) => NodeKind::Tagged,
        };
        kind_str(k)
    }

    pub fn is_scalar(&self) -> (r: bool)
        ensures
            r == (self@ == NodeKind::Scalar),
    {
        match &self.shape {
            NodeShape::Scalar(_) => true,
            _ => false,
        }
    }

    pub fn is_mapping(&self) -> (r: bool)
        ensures
            r == (self@ == NodeKind::Mapping),
    {
        match &self.shape {
            NodeShape::Mapping(_) => true,
            _ => false,
        }
    }

    pub fn is_sequence(&self) -> (r: bool)
        ensures
            r == (self@ == NodeKind::Sequence),
    {
        match &self.shape {
            NodeShape::Sequence(_) => true,
            _ => false,
        }
    }

    /// View this node as a `Scalar`, or `None` if it is not a scalar.
    pub fn as_scalar(&self) -> (r: Option<PyScalar>)
        ensures
            r is Some <==> self@ == NodeKind::Scalar,
            r matches Some(s) ==> self.held_shape() == NodeShape::Scalar(s.held()),
    {
        match &self.shape {
            NodeShape::Scalar(s) => Some(PyScalar::new(scalar_handle(s))),
            _ => None,
        }
    }

    /// View this node as a `Mapping`, or `None` if it is not a mapping.
    pub fn as_mapping(&self) -> (r: Option<PyMapping>)
        ensures
            r is Some <==> self@ == NodeKind::Mapping,
            r matches Some(m) ==> self.held_shape() == NodeShape::Mapping(m.held()),
    {
        match &self.shape {
            NodeShape::Mapping(m) => Some(PyMapping::new(crate::mapping::mapping_handle(m))),
            _ => None,
        }
    }

    /// View this node as a `Sequence`, or `None` if it is not a sequence.
    pub fn as_sequence(&self) -> (r: Option<PySequence>)
        ensures
            r is Some <==> self@ == NodeKind::Sequence,
            r matches Some(s) ==> self.held_shape() == NodeShape::Sequence(s.held()),
    {
        match &self.shape {
            NodeShape::Sequence(s) => Some(PySequence::new(crate::sequence::sequence_handle(s))),
            _ => None,
        }
    }

    /// The node's value as an `int`, if it is an integer scalar.
    pub fn as_int(&self) -> (r: Option<i64>)
        ensures
            r is Some ==> self@ == NodeKind::Scalar,
    {
        match &self.shape {
            NodeShape::Scalar(_) => yaml_node_to_i64(&self.inner),
            _ => None,
        }
    }

    /// The node's value as a `bool`, if it is a boolean scalar.
    pub fn as_bool(&self) -> (r: Option<bool>)
        ensures
            r is Some ==> self@ == NodeKind::Scalar,
    {
        match &self.shape {
            NodeShape::Scalar(_) => yaml_node_to_bool(&self.inner),
            _ => None,
        }
    }

    /// The editor's node, for calls that this crate does not make (floats).
    pub fn handle(&self) -> (r: &YamlNode)
        ensures
            *r == self.held(),
    {
        &self.inner
    }

    /// The node's source text, including any surrounding formatting.
    pub fn __str__(&self) -> (r: String) {
        node_text(&self.inner)
    }

    /// `<yaml_edit.Node kind=K "text">`, the text in Rust's debug quoting.
    pub fn __repr__(&self) -> (r: String)
        ensures
            exists|t: Seq<char>| r@ == node_repr_text(self@, t),
    {
        let text = self.__str__();
        let r = node_repr(self.kind(), text.as_str());
        assert(r@ == node_repr_text(self@, text@));
        r
    }
}

/// The `repr` of a node of kind `k` whose source text is `text`.
pub open spec fn node_repr_text(k: NodeKind, text: Seq<char>) -> Seq<char> {
    "<yaml_edit.Node kind="@ + kind_name(k) + " "@ + str_debug(text) + ">"@
}

/// Builds the `repr` of a node from its kind name and source text.
pub fn node_repr(kind: &str, text: &str) -> (r: String)
    ensures
        r@ == "<yaml_edit.Node kind="@ + kind@ + " "@ + str_debug(text@) + ">"@,
{
    let mut r = String::from_str("<yaml_edit.Node kind=");
    r.append(kind);
    r.append(" ");
    let quoted = debug_string(text);
    r.append(quoted.as_str());
    r.append(">");
    r
}

/// The text of each node, in order.
pub fn node_texts(nodes: &Vec<YamlNode>) -> (r: Vec<String>)
    ensures
        r.len() == nodes.len(),
{
    let mut out: Vec<String> = Vec::new();
    let n = nodes.len();
    for i in 0..n
        invariant
            n == nodes.len(),
            out.len() == i,
    {
        out.push(node_text(&nodes[i]));
    }
    out
}

/// Each node wrapped as a `Node`, in order.
pub fn wrap_nodes(nodes: Vec<YamlNode>) -> (r: Vec<PyNode>)
    ensures
        r.len() == nodes.len(),
        forall|i: int| 0 <= i < r.len() ==> (#[trigger] r@[i]).held() == nodes@[i],
{
    let mut out: Vec<PyNode> = Vec::new();
    let ghost all = nodes@;
    let mut rest = nodes;
    while rest.len() > 0
        invariant
            out.len() + rest.len() == all.len(),
            rest@ == all.subrange(out.len() as int, all.len() as int),
            forall|i: int| 0 <= i < out.len() ==> (#[trigger] out@[i]).held() == all[i],
        decreases rest.len(),
    {
        let node = rest.remove(0);
        assert(rest@ =~= all.subrange(out.len() + 1, all.len() as int));
        out.push(PyNode::new(node));
    }
    out
}

/// Each (key, value) pair with the key's text and the value wrapped as a
/// `Node`, in order.
pub fn wrap_pairs(pairs: Vec<(YamlNode, YamlNode)>) -> (r: Vec<(String, PyNode)>)
    ensures
        r.len() == pairs.len(),
        forall|i: int| 0 <= i < r.len() ==> (#[trigger] r@[i]).1.held() == pairs@[i].1,
{
    let mut out: Vec<(String, PyNode)> = Vec::new();
    let ghost all = pairs@;
    let mut rest = pairs;
    while rest.len() > 0
        invariant
            out.len() + rest.len() == all.len(),
            rest@ == all.subrange(out.len() as int, all.len() as int),
            forall|i: int| 0 <= i < out.len() ==> (#[trigger] out@[i]).1.held() == all[i].1,
        decreases rest.len(),
    {
        let (k, v) = rest.remove(0);
        assert(rest@ =~= all.subrange(out.len() + 1, all.len() as int));
        out.push((node_text(&k), PyNode::new(v)));
    }
    out
}

/// A node's kind is the kind of the typed handle it holds.
pub proof fn lemma_kind_is_shape_kind(node: PyNode)
    ensures
        node@ == node.held_shape().kind(),
{
}

/// What a node's kind decides, stated together: the kind names, the kind tests,
/// and the typed views agree.
pub proof fn lemma_node_kind_agreement(node: PyNode)
    ensures
        (node@ == NodeKind::Scalar) <==> kind_name(node@) == "scalar"@,
        (node@ == NodeKind::Mapping) <==> kind_name(node@) == "mapping"@,
        (node@ == NodeKind::Sequence) <==> kind_name(node@) == "sequence"@,
        (node@ == NodeKind::Alias) <==> kind_name(node@) == "alias"@,
        (node@ == NodeKind::Tagged) <==> kind_name(node@) == "tagged"@,
{
    reveal_strlit("scalar");
    reveal_strlit("mapping");
    reveal_strlit("sequence");
    reveal_strlit("alias");
    reveal_strlit("tagged");
    assert("scalar"@.len() == 6 && "tagged"@.len() == 6 && "scalar"@[0] != "tagged"@[0]);
    assert("mapping"@.len() == 7 && "sequence"@.len() == 8 && "alias"@.len() == 5);
}

} // verus!
