//! The wire value model: what a query result holds before it is converted.
//!
//! Scalars, collections, graph entities and points are held as plain values.
//! Temporal values, and the entries of an entity that are not of the kind the
//! entity asks for, are `neo4rs` values kept as they came: nothing but their
//! `Debug` text is ever taken from them.

use vstd::prelude::*;
use crate::value::map_of;

verus! {

/// A two-dimensional point; the coordinates are IEEE-754 bit patterns.
#[derive(Debug, Clone, Copy, PartialEq, Eq)]
pub struct WirePoint2D {
    pub sr_id: i64,
    pub x: u64,
    pub y: u64,
}

/// A three-dimensional point; the coordinates are IEEE-754 bit patterns.
#[derive(Debug, Clone, Copy, PartialEq, Eq)]
pub struct WirePoint3D {
    pub sr_id: i64,
    pub x: u64,
    pub y: u64,
    pub z: u64,
}

/// One entry of a node's label list.
#[derive(Debug, PartialEq)]
pub enum WireLabel {
    Text(String),
    /// An entry that is not a string.
    Other(neo4rs::BoltType),
}

/// A node of the graph.
#[derive(Debug, PartialEq)]
pub struct WireNode {
    pub id: i64,
    pub labels: Vec<WireLabel>,
    pub properties: Vec<(String, WireValue)>,
}

/// A relationship with its two end points.
#[derive(Debug, PartialEq)]
pub struct WireRelation {
    pub id: i64,
    pub start_node_id: i64,
    pub end_node_id: i64,
    pub typ: String,
    pub properties: Vec<(String, WireValue)>,
}

/// A relationship without its end points, as a path holds it.
#[derive(Debug, PartialEq)]
pub struct WireUnboundedRelation {
    pub id: i64,
    pub typ: String,
    pub properties: Vec<(String, WireValue)>,
}

/// One entry of a path's node list.
#[derive(Debug, PartialEq)]
pub enum WirePathNode {
    Node(WireNode),
    /// An entry that is not a node.
    Other(neo4rs::BoltType),
}

/// One entry of a path's relationship list.
#[derive(Debug, PartialEq)]
pub enum WirePathRelation {
    Relation(WireUnboundedRelation),
    /// An entry that is not an unbounded relationship.
    Other(neo4rs::BoltType),
}

/// One entry of a path's index list.
#[derive(Debug, Clone, Copy, PartialEq, Eq)]
pub enum WirePathIndex {
    Index(i64),
    /// An entry that is not an integer.
    Other,
}

/// A path: its nodes, its relationships, and the raw traversal indices.
#[derive(Debug, PartialEq)]
pub struct WirePath {
    pub nodes: Vec<WirePathNode>,
    pub rels: Vec<WirePathRelation>,
    pub indices: Vec<WirePathIndex>,
}

/// A value as the database sends it.
///
/// `Float` holds the IEEE-754 bit pattern of a 64-bit float. `Mapping` holds
/// keyed values in any order; where a key occurs twice, the later entry counts.
#[derive(Debug, PartialEq)]
pub enum WireValue {
    Null,
    Boolean(bool),
    Integer(i64),
    Float(u64),
    String(String),
    Bytes(Vec<u8>),
    List(Vec<WireValue>),
    Mapping(Vec<(String, WireValue)>),
    Node(WireNode),
    Relation(WireRelation),
    UnboundedRelation(WireUnboundedRelation),
    Path(WirePath),
    Point2D(WirePoint2D),
    Point3D(WirePoint3D),
    Date(neo4rs::BoltDate),
    Time(neo4rs::BoltTime),
    DateTime(neo4rs::BoltDateTime),
    DateTimeZoneId(neo4rs::BoltDateTimeZoneId),
    LocalTime(neo4rs::BoltLocalTime),
    LocalDateTime(neo4rs::BoltLocalDateTime),
    Duration(neo4rs::BoltDuration),
}

/// One row of a query result: the column names and, position by position,
/// their values.
#[derive(Debug, PartialEq)]
pub struct WireRow {
    pub columns: Vec<String>,
    pub values: Vec<WireValue>,
}

/// The content of a [`WireLabel`].
pub enum LabelModel {
    Text(Seq<char>),
    Other,
}

/// The content of a [`WireNode`].
pub struct NodeModel {
    pub id: i64,
    pub labels: Seq<LabelModel>,
    pub properties: Map<Seq<char>, WireModel>,
}

/// The content of a [`WireRelation`].
pub struct RelationModel {
    pub id: i64,
    pub start_node_id: i64,
    pub end_node_id: i64,
    pub typ: Seq<char>,
    pub properties: Map<Seq<char>, WireModel>,
}

/// The content of a [`WireUnboundedRelation`].
pub struct UnboundedRelationModel {
    pub id: i64,
    pub typ: Seq<char>,
    pub properties: Map<Seq<char>, WireModel>,
}

/// The content of a [`WirePathNode`].
pub enum PathNodeModel {
    Node(NodeModel),
    Other,
}

/// The content of a [`WirePathRelation`].
pub enum PathRelationModel {
    Relation(UnboundedRelationModel),
    Other,
}

/// The content of a [`WirePath`].
pub struct PathModel {
    pub nodes: Seq<PathNodeModel>,
    pub rels: Seq<PathRelationModel>,
    pub indices: Seq<WirePathIndex>,
}

/// The mathematical content of a [`WireValue`].
pub enum WireModel {
    Null,
    Boolean(bool),
    Integer(i64),
    Float(u64),
    String(Seq<char>),
    Bytes(Seq<u8>),
    List(Seq<WireModel>),
    Mapping(Map<Seq<char>, WireModel>),
    Node(NodeModel),
    Relation(RelationModel),
    UnboundedRelation(UnboundedRelationModel),
    Path(PathModel),
    Point2D(WirePoint2D),
    Point3D(WirePoint3D),
    Date(neo4rs::BoltDate),
    Time(neo4rs::BoltTime),
    DateTime(neo4rs::BoltDateTime),
    DateTimeZoneId(neo4rs::BoltDateTimeZoneId),
    LocalTime(neo4rs::BoltLocalTime),
    LocalDateTime(neo4rs::BoltLocalDateTime),
    Duration(neo4rs::BoltDuration),
}

/// The content of a [`WireRow`].
pub struct RowModel {
    pub columns: Seq<Seq<char>>,
    pub values: Seq<WireModel>,
}

impl View for WireLabel {
    type V = LabelModel;

    open spec fn view(&self) -> LabelModel {
        match self {
            WireLabel::Text(s) => LabelModel::Text(s@),
            WireLabel::Other(_) => LabelModel::Other,
        }
    }
}

/// The labels of a node, each by its view.
pub open spec fn label_models(labels: Seq<WireLabel>) -> Seq<LabelModel> {
    Seq::new(labels.len(), |i: int| labels[i]@)
}

/// The keyed values of a mapping, each key and value by its view.
pub open spec fn entry_models(entries: Seq<(String, WireValue)>) -> Seq<(Seq<char>, WireModel)>
    decreases entries,
{
    Seq::new(
        entries.len(),
        |i: int|
            if 0 <= i < entries.len() {
                (entries[i].0@, entries[i].1@)
            } else {
                (Seq::empty(), WireModel::Null)
            },
    )
}

/// The items of a list, each by its view.
pub open spec fn item_models(items: Seq<WireValue>) -> Seq<WireModel>
    decreases items,
{
    Seq::new(
        items.len(),
        |i: int|
            if 0 <= i < items.len() {
                items[i]@
            } else {
                WireModel::Null
            },
    )
}

/// The entries of a path's node list, each by its view.
pub open spec fn path_node_models(nodes: Seq<WirePathNode>) -> Seq<PathNodeModel>
    decreases nodes,
{
    Seq::new(
        nodes.len(),
        |i: int|
            if 0 <= i < nodes.len() {
                nodes[i]@
            } else {
                PathNodeModel::Other
            },
    )
}

/// The entries of a path's relationship list, each by its view.
pub open spec fn path_relation_models(rels: Seq<WirePathRelation>) -> Seq<PathRelationModel>
    decreases rels,
{
    Seq::new(
        rels.len(),
        |i: int|
            if 0 <= i < rels.len() {
                rels[i]@
            } else {
                PathRelationModel::Other
            },
    )
}

impl View for WireNode {
    type V = NodeModel;

    open spec fn view(&self) -> NodeModel
        decreases self,
    {
        NodeModel {
            id: self.id,
            labels: label_models(self.labels@),
            properties: map_of(entry_models(self.properties@)),
        }
    }
}

impl View for WireRelation {
    type V = RelationModel;

    open spec fn view(&self) -> RelationModel
        decreases self,
    {
        RelationModel {
            id: self.id,
            start_node_id: self.start_node_id,
            end_node_id: self.end_node_id,
            typ: self.typ@,
            properties: map_of(entry_models(self.properties@)),
        }
    }
}

impl View for WireUnboundedRelation {
    type V = UnboundedRelationModel;

    open spec fn view(&self) -> UnboundedRelationModel
        decreases self,
    {
        UnboundedRelationModel {
            id: self.id,
            typ: self.typ@,
            properties: map_of(entry_models(self.properties@)),
        }
    }
}

impl View for WirePathNode {
    type V = PathNodeModel;

    open spec fn view(&self) -> PathNodeModel
        decreases self,
    {
        match self {
            WirePathNode::Node(node) => PathNodeModel::Node(node@),
            WirePathNode::Other(_) => PathNodeModel::Other,
        }
    }
}

impl View for WirePathRelation {
    type V = PathRelationModel;

    open spec fn view(&self) -> PathRelationModel
        decreases self,
    {
        match self {
            WirePathRelation::Relation(rel) => PathRelationModel::Relation(rel@),
            WirePathRelation::Other(_) => PathRelationModel::Other,
        }
    }
}

impl View for WirePath {
    type V = PathModel;

    open spec fn view(&self) -> PathModel
        decreases self,
    {
        PathModel {
            nodes: path_node_models(self.nodes@),
            rels: path_relation_models(self.rels@),
            indices: self.indices@,
        }
    }
}

impl View for WireValue {
    type V = WireModel;

    open spec fn view(&self) -> WireModel
        decreases self,
    {
        match self {
            WireValue::Null => WireModel::Null,
            WireValue::Boolean(b) => WireModel::Boolean(*b),
            WireValue::Integer(i) => WireModel::Integer(*i),
            WireValue::Float(bits) => WireModel::Float(*bits),
            WireValue::String(s) => WireModel::String(s@),
            WireValue::Bytes(b) => WireModel::Bytes(b@),
            WireValue::List(items) => WireModel::List(item_models(items@)),
            WireValue::Mapping(entries) => WireModel::Mapping(map_of(entry_models(entries@))),
            WireValue::Node(node) => WireModel::Node(node@),
            WireValue::Relation(rel) => WireModel::Relation(rel@),
            WireValue::UnboundedRelation(rel) => WireModel::UnboundedRelation(rel@),
            WireValue::Path(path) => WireModel::Path(path@),
            WireValue::Point2D(p) => WireModel::Point2D(*p),
            WireValue::Point3D(p) => WireModel::Point3D(*p),
            WireValue::Date(d) => WireModel::Date(*d),
            WireValue::Time(t) => WireModel::Time(*t),
            WireValue::DateTime(t) => WireModel::DateTime(*t),
            WireValue::DateTimeZoneId(t) => WireModel::DateTimeZoneId(*t),
            WireValue::LocalTime(t) => WireModel::LocalTime(*t),
            WireValue::LocalDateTime(t) => WireModel::LocalDateTime(*t),
            WireValue::Duration(d) => WireModel::Duration(*d),
        }
    }
}

impl View for WireRow {
    type V = RowModel;

    open spec fn view(&self) -> RowModel {
        RowModel {
            columns: Seq::new(self.columns@.len(), |i: int| self.columns@[i]@),
            values: item_models(self.values@),
        }
    }
}

/// The views of keyed values stand at the positions of the values.
pub proof fn lemma_entry_models(entries: Seq<(String, WireValue)>)
    ensures
        entry_models(entries).len() == entries.len(),
        forall|i: int|
            0 <= i < entries.len() ==> #[trigger] entry_models(entries)[i] == (
                entries[i].0@,
                entries[i].1@,
            ),
{
    reveal_with_fuel(entry_models, 2);
}

/// The views of items stand at the positions of the items.
pub proof fn lemma_item_models(items: Seq<WireValue>)
    ensures
        item_models(items).len() == items.len(),
        forall|i: int| 0 <= i < items.len() ==> #[trigger] item_models(items)[i] == items[i]@,
{
    reveal_with_fuel(item_models, 2);
}

} // verus!
