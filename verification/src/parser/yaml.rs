//! The plain document tree read from YAML text: scalars, mappings and
//! sequences, every node carrying its source span. The text is parsed by the
//! `marked_yaml` crate; its node tree is converted once into this type, and
//! everything after that conversion is ordinary verified code.
use crate::span::{Position, Span};
use crate::GhastlyError;
use vstd::prelude::*;

verus! {

/// A node of the parsed document tree.
#[derive(Debug, PartialEq, Eq)]
pub struct YamlNode {
    pub span: Span,
    pub value: YamlValue,
}

/// The value of a node: a string scalar, a key-to-node mapping in document
/// order, or a sequence of nodes.
#[derive(Debug, PartialEq, Eq)]
pub enum YamlValue {
    Scalar(String),
    Mapping(Vec<(String, YamlNode)>),
    Sequence(Vec<YamlNode>),
}

/// The mathematical image of a `YamlNode`.
pub struct YamlNodeModel {
    pub span: Span,
    pub value: YamlValueModel,
}

/// The mathematical image of a `YamlValue`, strings as character sequences.
pub enum YamlValueModel {
    Scalar(Seq<char>),
    Mapping(Seq<(Seq<char>, YamlNodeModel)>),
    Sequence(Seq<YamlNodeModel>),
}

pub open spec fn node_view(n: YamlNode) -> YamlNodeModel
    decreases n,
{
    YamlNodeModel { span: n.span, value: value_view(n.value) }
}

pub open spec fn value_view(v: YamlValue) -> YamlValueModel
    decreases v,
{
    match v {
        YamlValue::Scalar(s) => YamlValueModel::Scalar(s@),
        YamlValue::Mapping(es) => YamlValueModel::Mapping(entries_view(es@)),
        YamlValue::Sequence(ns) => YamlValueModel::Sequence(nodes_view(ns@)),
    }
}

pub open spec fn entries_view(es: Seq<(String, YamlNode)>) -> Seq<(Seq<char>, YamlNodeModel)>
    decreases es,
{
    if es.len() == 0 {
        Seq::empty()
    } else {
        seq![(es[0].0@, node_view(es[0].1))] + entries_view(es.drop_first())
    }
}

pub open spec fn nodes_view(ns: Seq<YamlNode>) -> Seq<YamlNodeModel>
    decreases ns,
{
    if ns.len() == 0 {
        Seq::empty()
    } else {
        seq![node_view(ns[0])] + nodes_view(ns.drop_first())
    }
}

impl View for YamlNode {
    type V = YamlNodeModel;

    open spec fn view(&self) -> YamlNodeModel {
        node_view(*self)
    }
}

/// Indexing form of `entries_view`.
pub proof fn lemma_entries_view(es: Seq<(String, YamlNode)>)
    ensures
        entries_view(es).len() == es.len(),
        forall|i: int|
            0 <= i < es.len() ==> entries_view(es)[i] == (es[i].0@, node_view(es[i].1)),
    decreases es.len(),
{
    if es.len() > 0 {
        lemma_entries_view(es.drop_first());
    }
}

/// Indexing form of `nodes_view`.
pub proof fn lemma_nodes_view(ns: Seq<YamlNode>)
    ensures
        nodes_view(ns).len() == ns.len(),
        forall|i: int| 0 <= i < ns.len() ==> nodes_view(ns)[i] == node_view(ns[i]),
    decreases ns.len(),
{
    if ns.len() > 0 {
        lemma_nodes_view(ns.drop_first());
    }
}

#[verifier::external_type_specification]
#[verifier::external_body]
pub struct ExNode(marked_yaml::Node);

/// What `marked_yaml::parse_yaml` makes of a text: the model of the parsed
/// node tree, or `None` when the text is rejected. The parse is a pure
/// function of the text (the source identifier is fixed to zero here).
pub uninterp spec fn yaml_doc(text: Seq<char>) -> Option<YamlNodeModel>;

/// What a parsed `marked_yaml` node holds: its scalar text, mapping entries
/// in document order, or sequence items, with their source spans.
pub uninterp spec fn node_model(n: marked_yaml::Node) -> YamlNodeModel;

/// Relies on `marked_yaml::parse_yaml`: parsing is deterministic in the text,
/// and the error text describes the failure.
#[verifier::external_body]
fn parse_yaml_raw(text: &str) -> (r: Result<marked_yaml::Node, String>)
    ensures
        match r {
            Ok(n) => yaml_doc(text@) == Some(node_model(n)),
            Err(_) => yaml_doc(text@) is None,
        },
{
    marked_yaml::parse_yaml(0, text).map_err(|e| format!("{}", e))
}

/// Relies on each marked node's `span` accessor and `marked_yaml::Marker`:
/// the node's start and end positions, line and column 1-based, converted to
/// the library's span through its normalizing constructor.
#[verifier::external_body]
fn convert_span(n: &marked_yaml::Node) -> (r: Span)
    ensures
        r.wf(),
{
    let s = match n {
        marked_yaml::Node::Scalar(x) => x.span(),
        marked_yaml::Node::Mapping(x) => x.span(),
        marked_yaml::Node::Sequence(x) => x.span(),
    };
    let p = |m: &marked_yaml::Marker| Position::new(m.line() as u32, m.column() as u32);
    Span::new(s.start().map(p), s.end().map(p))
}

/// Relies on `marked_yaml::Node` and its accessors (`as_str`, mapping and
/// sequence iteration): the returned tree is the node's own content,
/// converted one for one into plain values.
#[verifier::external_body]
fn convert_node(n: &marked_yaml::Node) -> (r: YamlNode)
    ensures
        r@ == node_model(*n),
{
    let span = convert_span(n);
    let value = match n {
        marked_yaml::Node::Scalar(s) => YamlValue::Scalar(s.as_str().to_string()),
        marked_yaml::Node::Mapping(m) => YamlValue::Mapping(
            m.iter().map(|(k, v)| (k.as_str().to_string(), convert_node(v))).collect(),
        ),
        marked_yaml::Node::Sequence(q) => YamlValue::Sequence(
            q.iter().map(convert_node).collect(),
        ),
    };
    YamlNode { span, value }
}

/// Parse YAML text into the plain document tree, or report why the text was
/// rejected.
pub fn parse_document(text: &str) -> (r: Result<YamlNode, GhastlyError>)
    ensures
        match r {
            Ok(n) => yaml_doc(text@) == Some(n@),
            Err(e) => yaml_doc(text@) is None && e is Decode,
        },
{
    match parse_yaml_raw(text) {
        Ok(raw) => Ok(convert_node(&raw)),
        Err(message) => Err(GhastlyError::Decode(message)),
    }
}

} // verus!
