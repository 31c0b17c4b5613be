//! The conversion of wire values into generic values.

use vstd::prelude::*;
use crate::debug_text::{
    bytes_text, date_debug_text, date_time_debug_text, date_time_zone_id_debug_text,
    duration_debug_text, local_date_time_debug_text, local_time_debug_text, render_bolt,
    render_bytes, render_date, render_date_time, render_date_time_zone_id, render_duration,
    render_local_date_time, render_local_time, render_time, time_debug_text,
};
use crate::value::{
    entries_wf, entry_views, insert_entry, items_wf, lemma_item_views, lemma_map_of_push, map_of,
    ElixirValue, GenericValue, Record,
};
use crate::wire::{
    entry_models, item_models, lemma_entry_models, lemma_item_models, LabelModel, NodeModel,
    PathModel, PathNodeModel, PathRelationModel, RelationModel, RowModel, UnboundedRelationModel,
    WireLabel, WireModel, WireNode, WirePath, WirePathIndex, WirePathNode, WirePathRelation,
    WirePoint2D, WirePoint3D, WireRelation, WireRow, WireUnboundedRelation, WireValue,
};

verus! {

/// The mapping that stands for a two-dimensional point.
pub open spec fn point2d_value(p: WirePoint2D) -> GenericValue {
    GenericValue::Mapping(
        map![
            "__type"@ => GenericValue::String("point2d"@),
            "srid"@ => GenericValue::Integer(p.sr_id),
            "x"@ => GenericValue::Float(p.x),
            "y"@ => GenericValue::Float(p.y),
        ],
    )
}

/// The mapping that stands for a three-dimensional point.
pub open spec fn point3d_value(p: WirePoint3D) -> GenericValue {
    GenericValue::Mapping(
        map![
            "__type"@ => GenericValue::String("point3d"@),
            "srid"@ => GenericValue::Integer(p.sr_id),
            "x"@ => GenericValue::Float(p.x),
            "y"@ => GenericValue::Float(p.y),
            "z"@ => GenericValue::Float(p.z),
        ],
    )
}

/// `v` is a conversion of the label `label`: a string label gives its text, and
/// any other entry gives some string.
pub open spec fn label_converts(label: LabelModel, v: GenericValue) -> bool {
    match label {
        LabelModel::Text(s) => v == GenericValue::String(s),
        LabelModel::Other => v is String,
    }
}

/// `v` holds, position by position, a conversion of each label.
pub open spec fn labels_convert(labels: Seq<LabelModel>, v: GenericValue) -> bool {
    &&& v matches GenericValue::List(out)
    &&& out.len() == labels.len()
    &&& forall|i: int| 0 <= i < labels.len() ==> label_converts(labels[i], #[trigger] out[i])
}

/// The raw traversal indices of a path, with zero for an entry that is not an
/// integer.
pub open spec fn indices_value(indices: Seq<WirePathIndex>) -> GenericValue {
    GenericValue::List(
        Seq::new(
            indices.len(),
            |i: int|
                match indices[i] {
                    WirePathIndex::Index(n) => GenericValue::Integer(n),
                    WirePathIndex::Other => GenericValue::Integer(0),
                },
        ),
    )
}

/// `v` is a conversion of the wire value `w`.
///
/// This is a relation and not a function for one reason: where an entity
/// holds an entry of a kind it does not ask for, the entry is rendered as some
/// string, and which string is left open.
pub open spec fn converts(w: WireModel, v: GenericValue) -> bool
    decreases w,
{
    match w {
        WireModel::Null => v == GenericValue::Null,
        WireModel::Boolean(b) => v == GenericValue::Boolean(b),
        WireModel::Integer(i) => v == GenericValue::Integer(i),
        WireModel::Float(bits) => v == GenericValue::Float(bits),
        WireModel::String(s) => v == GenericValue::String(s),
        WireModel::Bytes(b) => v == GenericValue::String(bytes_text(b)),
        WireModel::List(items) => {
            &&& v matches GenericValue::List(out)
            &&& out.len() == items.len()
            &&& forall|i: int| 0 <= i < items.len() ==> converts(items[i], #[trigger] out[i])
        },
        WireModel::Mapping(m) => mapping_converts(m, v),
        WireModel::Node(n) => node_converts(n, v),
        WireModel::Relation(r) => relation_converts(r, v),
        WireModel::UnboundedRelation(r) => unbounded_relation_converts(r, v),
        WireModel::Path(p) => path_converts(p, v),
        WireModel::Point2D(p) => v == point2d_value(p),
        WireModel::Point3D(p) => v == point3d_value(p),
        WireModel::Date(d) => v == GenericValue::String(date_debug_text(d)),
        WireModel::Time(t) => v == GenericValue::String(time_debug_text(t)),
        WireModel::DateTime(t) => v == GenericValue::String(date_time_debug_text(t)),
        WireModel::DateTimeZoneId(t) => v == GenericValue::String(date_time_zone_id_debug_text(t)),
        WireModel::LocalTime(t) => v == GenericValue::String(local_time_debug_text(t)),
        WireModel::LocalDateTime(t) => v == GenericValue::String(local_date_time_debug_text(t)),
        WireModel::Duration(d) => v == GenericValue::String(duration_debug_text(d)),
    }
}

/// `v` is a mapping with the keys of `m`, of which there are finitely many, and
/// holds at each key a conversion of what `m` holds there.
pub open spec fn mapping_converts(m: Map<Seq<char>, WireModel>, v: GenericValue) -> bool
    decreases m,
{
    &&& m.dom().finite()
    &&& v matches GenericValue::Mapping(out)
    &&& out.dom() == m.dom()
    &&& forall|k: Seq<char>| m.dom().contains(k) ==> converts(m[k], #[trigger] out[k])
}

/// `v` is the mapping that stands for the node `n`.
pub open spec fn node_converts(n: NodeModel, v: GenericValue) -> bool
    decreases n,
{
    &&& v matches GenericValue::Mapping(m)
    &&& m.dom() == set!["__type"@, "id"@, "labels"@, "properties"@]
    &&& m["__type"@] == GenericValue::String("node"@)
    &&& m["id"@] == GenericValue::Integer(n.id)
    &&& labels_convert(n.labels, m["labels"@])
    &&& mapping_converts(n.properties, m["properties"@])
}

/// `v` is the mapping that stands for the relationship `r`.
pub open spec fn relation_converts(r: RelationModel, v: GenericValue) -> bool
    decreases r,
{
    &&& v matches GenericValue::Mapping(m)
    &&& m.dom() == set![
        "__type"@,
        "id"@,
        "start_node_id"@,
        "end_node_id"@,
        "type"@,
        "properties"@,
    ]
    &&& m["__type"@] == GenericValue::String("relationship"@)
    &&& m["id"@] == GenericValue::Integer(r.id)
    &&& m["start_node_id"@] == GenericValue::Integer(r.start_node_id)
    &&& m["end_node_id"@] == GenericValue::Integer(r.end_node_id)
    &&& m["type"@] == GenericValue::String(r.typ)
    &&& mapping_converts(r.properties, m["properties"@])
}

/// `v` is the mapping that stands for the relationship `r`, which has no end
/// points.
pub open spec fn unbounded_relation_converts(r: UnboundedRelationModel, v: GenericValue) -> bool
    decreases r,
{
    &&& v matches GenericValue::Mapping(m)
    &&& m.dom() == set!["__type"@, "id"@, "type"@, "properties"@]
    &&& m["__type"@] == GenericValue::String("unbounded_relationship"@)
    &&& m["id"@] == GenericValue::Integer(r.id)
    &&& m["type"@] == GenericValue::String(r.typ)
    &&& mapping_converts(r.properties, m["properties"@])
}

/// `v` is a conversion of one entry of a path's node list: a node gives its
/// mapping, and any other entry gives some string.
pub open spec fn path_node_converts(entry: PathNodeModel, v: GenericValue) -> bool
    decreases entry,
{
    match entry {
        PathNodeModel::Node(n) => node_converts(n, v),
        PathNodeModel::Other => v is String,
    }
}

/// `v` is a conversion of one entry of a path's relationship list: an
/// unbounded relationship gives its mapping, and any other entry gives some
/// string.
pub open spec fn path_relation_converts(entry: PathRelationModel, v: GenericValue) -> bool
    decreases entry,
{
    match entry {
        PathRelationModel::Relation(r) => unbounded_relation_converts(r, v),
        PathRelationModel::Other => v is String,
    }
}

/// `v` is the mapping that stands for the path `p`.
pub open spec fn path_converts(p: PathModel, v: GenericValue) -> bool
    decreases p,
{
    &&& v matches GenericValue::Mapping(m)
    &&& m.dom() == set!["__type"@, "nodes"@, "relationships"@, "indices"@]
    &&& m["__type"@] == GenericValue::String("path"@)
    &&& m["nodes"@] matches GenericValue::List(nodes)
    &&& nodes.len() == p.nodes.len()
    &&& forall|i: int|
        0 <= i < p.nodes.len() ==> path_node_converts(p.nodes[i], #[trigger] nodes[i])
    &&& m["relationships"@] matches GenericValue::List(rels)
    &&& rels.len() == p.rels.len()
    &&& forall|i: int|
        0 <= i < p.rels.len() ==> path_relation_converts(p.rels[i], #[trigger] rels[i])
    &&& m["indices"@] == indices_value(p.indices)
}

/// `w` is a graph entity or a point: a value that converts to a mapping
/// with a discriminator.
pub open spec fn is_entity(w: WireModel) -> bool {
    w is Node || w is Relation || w is UnboundedRelation || w is Path || w is Point2D
        || w is Point3D
}

/// The mapping lists its discriminator first.
pub open spec fn discriminator_first(value: ElixirValue) -> bool {
    &&& value matches ElixirValue::Mapping(entries)
    &&& entries@.len() > 0
    &&& entries@[0].0@ == "__type"@
}

/// What the keys of the entity mappings hold: for each key its length, and its
/// first character where two keys of one mapping have the same length.
proof fn lemma_key_texts()
    ensures
        "__type"@.len() == 6 && "__type"@[0] == '_',
        "id"@.len() == 2,
        "labels"@.len() == 6 && "labels"@[0] == 'l',
        "properties"@.len() == 10,
        "start_node_id"@.len() == 13,
        "end_node_id"@.len() == 11,
        "type"@.len() == 4,
        "nodes"@.len() == 5,
        "relationships"@.len() == 13,
        "indices"@.len() == 7,
        "srid"@.len() == 4,
        "x"@.len() == 1 && "x"@[0] == 'x',
        "y"@.len() == 1 && "y"@[0] == 'y',
        "z"@.len() == 1 && "z"@[0] == 'z',
{
    reveal_strlit("__type");
    reveal_strlit("id");
    reveal_strlit("labels");
    reveal_strlit("properties");
    reveal_strlit("start_node_id");
    reveal_strlit("end_node_id");
    reveal_strlit("type");
    reveal_strlit("nodes");
    reveal_strlit("relationships");
    reveal_strlit("indices");
    reveal_strlit("srid");
    reveal_strlit("x");
    reveal_strlit("y");
    reveal_strlit("z");
}

/// Converts a two-dimensional point into its mapping.
pub fn convert_point2d_to_map(point: &WirePoint2D) -> (value: ElixirValue)
    ensures
        value.wf(),
        value@ == point2d_value(*point),
        discriminator_first(value),
{
    let mut map: Vec<(String, ElixirValue)> = Vec::new();
    insert_entry(&mut map, "__type".to_string(), ElixirValue::String("point2d".to_string()));
    insert_entry(&mut map, "srid".to_string(), ElixirValue::Integer(point.sr_id));
    insert_entry(&mut map, "x".to_string(), ElixirValue::Float(point.x));
    insert_entry(&mut map, "y".to_string(), ElixirValue::Float(point.y));
    ElixirValue::Mapping(map)
}

/// Converts a three-dimensional point into its mapping.
pub fn convert_point3d_to_map(point: &WirePoint3D) -> (value: ElixirValue)
    ensures
        value.wf(),
        value@ == point3d_value(*point),
        discriminator_first(value),
{
    let mut map: Vec<(String, ElixirValue)> = Vec::new();
    insert_entry(&mut map, "__type".to_string(), ElixirValue::String("point3d".to_string()));
    insert_entry(&mut map, "srid".to_string(), ElixirValue::Integer(point.sr_id));
    insert_entry(&mut map, "x".to_string(), ElixirValue::Float(point.x));
    insert_entry(&mut map, "y".to_string(), ElixirValue::Float(point.y));
    insert_entry(&mut map, "z".to_string(), ElixirValue::Float(point.z));
    ElixirValue::Mapping(map)
}

/// Setting one key on both sides keeps a mapping converted.
proof fn lemma_mapping_converts_insert(
    m: Map<Seq<char>, WireModel>,
    out: Map<Seq<char>, GenericValue>,
    key: Seq<char>,
    w: WireModel,
    v: GenericValue,
)
    requires
        mapping_converts(m, GenericValue::Mapping(out)),
        converts(w, v),
    ensures
        mapping_converts(m.insert(key, w), GenericValue::Mapping(out.insert(key, v))),
{
}

/// The value of an entry that is not what its entity asks for, from the text
/// that was rendered for it: that text, as a string.
pub fn rendered_value(text: String) -> (value: ElixirValue)
    ensures
        value == ElixirValue::String(text),
{
    ElixirValue::String(text)
}

/// Converts a list item by item, in order.
pub fn convert_list(list: &Vec<WireValue>) -> (value: ElixirValue)
    ensures
        value.wf(),
        converts(WireModel::List(item_models(list@)), value@),
    decreases list,
{
    let mut items: Vec<ElixirValue> = Vec::new();
    let mut i: usize = 0;
    while i < list.len()
        invariant
            i <= list.len(),
            items@.len() == i,
            items_wf(items@),
            forall|j: int| 0 <= j < i ==> converts(list@[j]@, #[trigger] items@[j]@),
        decreases list.len() - i,
    {
        items.push(ElixirValue::from_bolt_ref(&list[i]));
        i += 1;
    }
    let ghost converted = items@;
    let value = ElixirValue::List(items);
    proof {
        lemma_item_views(converted);
        lemma_item_models(list@);
    }
    value
}

/// Converts keyed wire values into a mapping: each value is converted under
/// its own key, and of two entries with one key the later one counts.
pub fn convert_mapping(entries: &Vec<(String, WireValue)>) -> (value: ElixirValue)
    ensures
        value.wf(),
        mapping_converts(map_of(entry_models(entries@)), value@),
    decreases entries,
{
    let mut map: Vec<(String, ElixirValue)> = Vec::new();
    let mut i: usize = 0;
    while i < entries.len()
        invariant
            i <= entries.len(),
            entries_wf(map@),
            mapping_converts(
                map_of(entry_models(entries@.take(i as int))),
                GenericValue::Mapping(map_of(entry_views(map@))),
            ),
        decreases entries.len() - i,
    {
        let value = ElixirValue::from_bolt_ref(&entries[i].1);
        let ghost before = map_of(entry_views(map@));
        proof {
            let seen = entry_models(entries@.take(i as int));
            let next = entry_models(entries@.take(i + 1));
            let entry = (entries@[i as int].0@, entries@[i as int].1@);
            lemma_map_of_push(seen, entry.0, entry.1);
            lemma_entry_models(entries@.take(i as int));
            lemma_entry_models(entries@.take(i + 1));
            assert(next =~= seen.push(entry));
            lemma_mapping_converts_insert(
                map_of(seen),
                before,
                entries@[i as int].0@,
                entries@[i as int].1@,
                value@,
            );
        }
        insert_entry(&mut map, entries[i].0.clone(), value);
        i += 1;
    }
    proof {
        assert(entries@.take(i as int) =~= entries@);
    }
    ElixirValue::Mapping(map)
}

/// Converts a node into its mapping. A label that is not a string is
/// rendered as the text that `neo4rs` gives for it.
pub fn convert_node_to_map(node: &WireNode) -> (value: ElixirValue)
    ensures
        value.wf(),
        node_converts(node@, value@),
        discriminator_first(value),
    decreases node,
{
    let mut map: Vec<(String, ElixirValue)> = Vec::new();
    insert_entry(&mut map, "__type".to_string(), ElixirValue::String("node".to_string()));
    insert_entry(&mut map, "id".to_string(), ElixirValue::Integer(node.id));
    let mut labels: Vec<ElixirValue> = Vec::new();
    let mut i: usize = 0;
    while i < node.labels.len()
        invariant
            i <= node.labels.len(),
            labels@.len() == i,
            items_wf(labels@),
            forall|j: int| 0 <= j < i ==> label_converts(node.labels@[j]@, #[trigger] labels@[j]@),
        decreases node.labels.len() - i,
    {
        let label = match &node.labels[i] {
            WireLabel::Text(s) => ElixirValue::String(s.clone()),
            WireLabel::Other(bolt) => rendered_value(render_bolt(bolt)),
        };
        labels.push(label);
        i += 1;
    }
    let ghost label_items = labels@;
    let labels = ElixirValue::List(labels);
    let properties = convert_mapping(&node.properties);
    proof {
        lemma_key_texts();
        lemma_item_views(label_items);
    }
    insert_entry(&mut map, "labels".to_string(), labels);
    insert_entry(&mut map, "properties".to_string(), properties);
    ElixirValue::Mapping(map)
}

/// Converts a relationship into its mapping.
pub fn convert_relation_to_map(rel: &WireRelation) -> (value: ElixirValue)
    ensures
        value.wf(),
        relation_converts(rel@, value@),
        discriminator_first(value),
    decreases rel,
{
    let mut map: Vec<(String, ElixirValue)> = Vec::new();
    let properties = convert_mapping(&rel.properties);
    proof {
        lemma_key_texts();
    }
    insert_entry(&mut map, "__type".to_string(), ElixirValue::String("relationship".to_string()));
    insert_entry(&mut map, "id".to_string(), ElixirValue::Integer(rel.id));
    insert_entry(&mut map, "start_node_id".to_string(), ElixirValue::Integer(rel.start_node_id));
    insert_entry(&mut map, "end_node_id".to_string(), ElixirValue::Integer(rel.end_node_id));
    insert_entry(&mut map, "type".to_string(), ElixirValue::String(rel.typ.clone()));
    insert_entry(&mut map, "properties".to_string(), properties);
    let value = ElixirValue::Mapping(map);
    proof {
        let m = value@->Mapping_0;
        assert(m.dom() =~= set![
            "__type"@,
            "id"@,
            "start_node_id"@,
            "end_node_id"@,
            "type"@,
            "properties"@,
        ]);
    }
    value
}

/// Converts a relationship without end points into its mapping.
pub fn convert_unbounded_relation_to_map(rel: &WireUnboundedRelation) -> (value: ElixirValue)
    ensures
        value.wf(),
        unbounded_relation_converts(rel@, value@),
        discriminator_first(value),
    decreases rel,
{
    let mut map: Vec<(String, ElixirValue)> = Vec::new();
    let properties = convert_mapping(&rel.properties);
    proof {
        lemma_key_texts();
    }
    insert_entry(
        &mut map,
        "__type".to_string(),
        ElixirValue::String("unbounded_relationship".to_string()),
    );
    insert_entry(&mut map, "id".to_string(), ElixirValue::Integer(rel.id));
    insert_entry(&mut map, "type".to_string(), ElixirValue::String(rel.typ.clone()));
    insert_entry(&mut map, "properties".to_string(), properties);
    ElixirValue::Mapping(map)
}

/// Converts a path into its mapping. An entry of the node list that is not a
/// node, and one of the relationship list that is not an unbounded
/// relationship, is rendered as the text that `neo4rs` gives for it; an index
/// that is not an integer becomes zero.
pub fn convert_path_to_map(path: &WirePath) -> (value: ElixirValue)
    ensures
        value.wf(),
        path_converts(path@, value@),
        discriminator_first(value),
    decreases path,
{
    let mut map: Vec<(String, ElixirValue)> = Vec::new();
    insert_entry(&mut map, "__type".to_string(), ElixirValue::String("path".to_string()));

    let mut nodes: Vec<ElixirValue> = Vec::new();
    let mut i: usize = 0;
    while i < path.nodes.len()
        invariant
            i <= path.nodes.len(),
            nodes@.len() == i,
            items_wf(nodes@),
            forall|j: int|
                0 <= j < i ==> path_node_converts(path.nodes@[j]@, #[trigger] nodes@[j]@),
        decreases path.nodes.len() - i,
    {
        let node = match &path.nodes[i] {
            WirePathNode::Node(node) => convert_node_to_map(node),
            WirePathNode::Other(bolt) => rendered_value(render_bolt(bolt)),
        };
        nodes.push(node);
        i += 1;
    }
    let ghost node_items = nodes@;
    let nodes = ElixirValue::List(nodes);

    let mut rels: Vec<ElixirValue> = Vec::new();
    let mut i: usize = 0;
    while i < path.rels.len()
        invariant
            i <= path.rels.len(),
            rels@.len() == i,
            items_wf(rels@),
            forall|j: int|
                0 <= j < i ==> path_relation_converts(path.rels@[j]@, #[trigger] rels@[j]@),
        decreases path.rels.len() - i,
    {
        let rel = match &path.rels[i] {
            WirePathRelation::Relation(rel) => convert_unbounded_relation_to_map(rel),
            WirePathRelation::Other(bolt) => rendered_value(render_bolt(bolt)),
        };
        rels.push(rel);
        i += 1;
    }
    let ghost rel_items = rels@;
    let rels = ElixirValue::List(rels);

    let mut indices: Vec<ElixirValue> = Vec::new();
    let mut i: usize = 0;
    while i < path.indices.len()
        invariant
            i <= path.indices.len(),
            indices@.len() == i,
            items_wf(indices@),
            forall|j: int|
                0 <= j < i ==> (#[trigger] indices@[j])@ == indices_value(path.indices@)->List_0[j],
        decreases path.indices.len() - i,
    {
        let index = match path.indices[i] {
            WirePathIndex::Index(n) => ElixirValue::Integer(n),
            WirePathIndex::Other => ElixirValue::Integer(0),
        };
        indices.push(index);
        i += 1;
    }
    let ghost index_items = indices@;
    let indices = ElixirValue::List(indices);

    proof {
        lemma_key_texts();
        lemma_item_views(node_items);
        lemma_item_views(rel_items);
        assert(indices@->List_0 =~= indices_value(path.indices@)->List_0);
    }
    insert_entry(&mut map, "nodes".to_string(), nodes);
    insert_entry(&mut map, "relationships".to_string(), rels);
    insert_entry(&mut map, "indices".to_string(), indices);
    ElixirValue::Mapping(map)
}

impl ElixirValue {
    /// Converts a wire value. The conversion is total: every wire value has a
    /// generic value.
    pub fn from_bolt(bolt: WireValue) -> (value: ElixirValue)
        ensures
            value.wf(),
            converts(bolt@, value@),
            is_entity(bolt@) ==> discriminator_first(value),
    {
        ElixirValue::from_bolt_ref(&bolt)
    }

    /// Converts a wire value that the caller keeps.
    pub fn from_bolt_ref(bolt: &WireValue) -> (value: ElixirValue)
        ensures
            value.wf(),
            converts(bolt@, value@),
            is_entity(bolt@) ==> discriminator_first(value),
        decreases bolt,
    {
        match bolt {
            WireValue::Null => ElixirValue::Null,
            WireValue::Boolean(b) => ElixirValue::Boolean(*b),
            WireValue::Integer(i) => ElixirValue::Integer(*i),
            WireValue::Float(bits) => ElixirValue::Float(*bits),
            WireValue::String(s) => ElixirValue::String(s.clone()),
            WireValue::Bytes(b) => ElixirValue::String(render_bytes(b)),
            WireValue::List(list) => convert_list(list),
            WireValue::Mapping(entries) => convert_mapping(entries),
            WireValue::Node(node) => convert_node_to_map(node),
            WireValue::Relation(rel) => convert_relation_to_map(rel),
            WireValue::UnboundedRelation(rel) => convert_unbounded_relation_to_map(rel),
            WireValue::Path(path) => convert_path_to_map(path),
            WireValue::Point2D(p) => convert_point2d_to_map(p),
            WireValue::Point3D(p) => convert_point3d_to_map(p),
            WireValue::Date(d) => ElixirValue::String(render_date(d)),
            WireValue::Time(t) => ElixirValue::String(render_time(t)),
            WireValue::DateTime(dt) => ElixirValue::String(render_date_time(dt)),
            WireValue::DateTimeZoneId(dt) => ElixirValue::String(render_date_time_zone_id(dt)),
            WireValue::LocalTime(lt) => ElixirValue::String(render_local_time(lt)),
            WireValue::LocalDateTime(ldt) => ElixirValue::String(render_local_date_time(ldt)),
            WireValue::Duration(dur) => ElixirValue::String(render_duration(dur)),
        }
    }
}

/// Why a row could not be converted: it has `columns` column names and
/// `values` values, and the two numbers differ.
#[derive(Debug, Clone, Copy, PartialEq, Eq)]
pub struct RowDecodeError {
    pub columns: usize,
    pub values: usize,
}

/// No name occurs at two positions.
pub open spec fn distinct_names(names: Seq<Seq<char>>) -> bool {
    forall|i: int, j: int| 0 <= i < j < names.len() ==> names[i] != names[j]
}

/// The columns of a row, each name with the value at its position.
pub open spec fn row_entries(row: RowModel) -> Seq<(Seq<char>, WireModel)> {
    Seq::new(row.columns.len(), |i: int| (row.columns[i], row.values[i]))
}

/// Converts a row into a record: each column name is paired with the
/// conversion of the value at its position, and of two columns with one name
/// the later one counts. Where no name occurs twice, the record lists the
/// columns in their order. A row with as many names as values always
/// converts; any other row is refused.
pub fn convert_row_to_elixir(row: &WireRow) -> (result: Result<Record, RowDecodeError>)
    ensures
        result is Ok <==> row.columns@.len() == row.values@.len(),
        result matches Ok(record) ==> entries_wf(record@) && mapping_converts(
            map_of(row_entries(row@)),
            GenericValue::Mapping(map_of(entry_views(record@))),
        ),
        result matches Ok(record) ==> distinct_names(row@.columns) ==> record@.len()
            == row.columns@.len(),
        result matches Ok(record) ==> distinct_names(row@.columns) ==> forall|i: int|
            0 <= i < record@.len() ==> (#[trigger] record@[i]).0@ == row.columns@[i]@,
        result matches Ok(record) ==> distinct_names(row@.columns) ==> forall|i: int|
            0 <= i < record@.len() ==> converts(row.values@[i]@, (#[trigger] record@[i]).1@),
        result matches Err(e) ==> e.columns == row.columns@.len() && e.values == row.values@.len(),
{
    if row.columns.len() != row.values.len() {
        return Err(RowDecodeError { columns: row.columns.len(), values: row.values.len() });
    }
    let mut record: Record = Vec::new();
    let mut i: usize = 0;
    while i < row.columns.len()
        invariant
            i <= row.columns.len(),
            row.columns.len() == row.values.len(),
            row_entries(row@).len() == row.columns.len(),
            entries_wf(record@),
            mapping_converts(
                map_of(row_entries(row@).take(i as int)),
                GenericValue::Mapping(map_of(entry_views(record@))),
            ),
            distinct_names(row@.columns) ==> {
                &&& record@.len() == i
                &&& forall|j: int|
                    0 <= j < i ==> {
                        &&& (#[trigger] record@[j]).0@ == row.columns@[j]@
                        &&& converts(row.values@[j]@, record@[j].1@)
                    }
            },
        decreases row.columns.len() - i,
    {
        let value = ElixirValue::from_bolt_ref(&row.values[i]);
        proof {
            if distinct_names(row@.columns) {
                assert forall|j: int| 0 <= j < record@.len() implies (#[trigger] record@[j]).0@
                    != row.columns@[i as int]@ by {
                    assert(row@.columns[j] != row@.columns[i as int]);
                }
            }
            let seen = row_entries(row@).take(i as int);
            let entry = row_entries(row@)[i as int];
            lemma_item_models(row.values@);
            lemma_map_of_push(seen, entry.0, entry.1);
            assert(row_entries(row@).take(i + 1) =~= seen.push(entry));
            lemma_mapping_converts_insert(
                map_of(seen),
                map_of(entry_views(record@)),
                entry.0,
                entry.1,
                value@,
            );
        }
        insert_entry(&mut record, row.columns[i].clone(), value);
        i += 1;
    }
    proof {
        assert(row_entries(row@).take(i as int) =~= row_entries(row@));
    }
    Ok(record)
}

} // verus!
