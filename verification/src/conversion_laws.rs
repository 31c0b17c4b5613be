//! What holds of every conversion.

use vstd::prelude::*;
use crate::conversions::{
    converts, label_converts, mapping_converts, node_converts, path_node_converts,
    path_relation_converts, unbounded_relation_converts,
};
use crate::value::GenericValue;
use crate::wire::{NodeModel, PathNodeModel, PathRelationModel, UnboundedRelationModel, WireModel};

verus! {

/// `w` is null, a boolean, an integer, a float or a string.
pub open spec fn is_scalar(w: WireModel) -> bool {
    w is Null || w is Boolean || w is Integer || w is Float || w is String
}

/// The generic scalar with the content of the wire scalar `w`.
pub open spec fn scalar_value(w: WireModel) -> GenericValue {
    match w {
        WireModel::Boolean(b) => GenericValue::Boolean(b),
        WireModel::Integer(i) => GenericValue::Integer(i),
        WireModel::Float(bits) => GenericValue::Float(bits),
        WireModel::String(s) => GenericValue::String(s),
        _ => GenericValue::Null,
    }
}

/// A scalar converts to the scalar of the same kind with the same content,
/// and to nothing else.
pub proof fn law_scalar_conversion(w: WireModel, v: GenericValue)
    requires
        is_scalar(w),
    ensures
        converts(w, v) <==> v == scalar_value(w),
{
}

/// A list converts to a list of the same length that holds, at each position,
/// a conversion of the item at that position.
pub proof fn law_list_conversion(items: Seq<WireModel>, v: GenericValue)
    requires
        converts(WireModel::List(items), v),
    ensures
        v is List,
        v->List_0.len() == items.len(),
        forall|i: int| 0 <= i < items.len() ==> converts(items[i], #[trigger] v->List_0[i]),
{
}

/// A mapping converts to a mapping with the same keys that holds, at each
/// key, a conversion of the value at that key.
pub proof fn law_mapping_conversion(m: Map<Seq<char>, WireModel>, v: GenericValue)
    requires
        converts(WireModel::Mapping(m), v),
    ensures
        v is Mapping,
        v->Mapping_0.dom() == m.dom(),
        forall|k: Seq<char>| m.dom().contains(k) ==> converts(m[k], #[trigger] v->Mapping_0[k]),
{
    reveal_with_fuel(converts, 2);
}

/// Neither a graph entity nor a point occurs in `w`, at any depth.
pub open spec fn is_plain(w: WireModel) -> bool
    decreases w,
{
    match w {
        WireModel::List(items) => forall|i: int|
            0 <= i < items.len() ==> is_plain(#[trigger] items[i]),
        WireModel::Mapping(m) => m.dom().finite() && forall|k: Seq<char>|
            m.dom().contains(k) ==> is_plain(#[trigger] m[k]),
        WireModel::Node(_) | WireModel::Relation(_) | WireModel::UnboundedRelation(_)
        | WireModel::Path(_) | WireModel::Point2D(_) | WireModel::Point3D(_) => false,
        _ => true,
    }
}

/// Lists and mappings are nested at most `depth` deep in `w`.
pub open spec fn wire_nesting_within(w: WireModel, depth: nat) -> bool
    decreases w,
{
    match w {
        WireModel::List(items) => depth > 0 && forall|i: int|
            0 <= i < items.len() ==> wire_nesting_within(#[trigger] items[i], (depth - 1) as nat),
        WireModel::Mapping(m) => depth > 0 && m.dom().finite() && forall|k: Seq<char>|
            m.dom().contains(k) ==> wire_nesting_within(#[trigger] m[k], (depth - 1) as nat),
        _ => true,
    }
}

/// Lists and mappings are nested at most `depth` deep in `v`.
pub open spec fn nesting_within(v: GenericValue, depth: nat) -> bool
    decreases v,
{
    match v {
        GenericValue::List(items) => depth > 0 && forall|i: int|
            0 <= i < items.len() ==> nesting_within(#[trigger] items[i], (depth - 1) as nat),
        GenericValue::Mapping(m) => depth > 0 && m.dom().finite() && forall|k: Seq<char>|
            m.dom().contains(k) ==> nesting_within(#[trigger] m[k], (depth - 1) as nat),
        _ => true,
    }
}

/// Converting a value that holds no graph entity and no point keeps its
/// depth: the value and its conversion are nested within the same bounds.
pub proof fn law_nesting_preserved(w: WireModel, v: GenericValue, depth: nat)
    requires
        is_plain(w),
        converts(w, v),
    ensures
        wire_nesting_within(w, depth) <==> nesting_within(v, depth),
    decreases w,
{
    match w {
        WireModel::List(items) => {
            let out = v->List_0;
            if depth > 0 {
                assert forall|i: int| 0 <= i < items.len() implies (wire_nesting_within(
                    items[i],
                    (depth - 1) as nat,
                ) <==> nesting_within(out[i], (depth - 1) as nat)) by {
                    law_nesting_preserved(items[i], out[i], (depth - 1) as nat);
                }
            }
        },
        WireModel::Mapping(m) => {
            law_mapping_conversion(m, v);
            let out = v->Mapping_0;
            if depth > 0 {
                assert forall|k: Seq<char>| m.dom().contains(k) implies (wire_nesting_within(
                    m[k],
                    (depth - 1) as nat,
                ) <==> nesting_within(out[k], (depth - 1) as nat)) by {
                    law_nesting_preserved(m[k], out[k], (depth - 1) as nat);
                }
            }
        },
        _ => {},
    }
}

/// Every entry of every entity in `w` is of the kind that the entity asks
/// for: each label is a string, each entry of a path's node list is a node,
/// and each entry of its relationship list is an unbounded relationship.
pub open spec fn is_regular(w: WireModel) -> bool
    decreases w,
{
    match w {
        WireModel::List(items) => forall|i: int|
            0 <= i < items.len() ==> is_regular(#[trigger] items[i]),
        WireModel::Mapping(m) => regular_mapping(m),
        WireModel::Node(n) => regular_node(n),
        WireModel::Relation(r) => regular_mapping(r.properties),
        WireModel::UnboundedRelation(r) => regular_mapping(r.properties),
        WireModel::Path(p) => {
            &&& forall|i: int| 0 <= i < p.nodes.len() ==> regular_path_node(#[trigger] p.nodes[i])
            &&& forall|i: int|
                0 <= i < p.rels.len() ==> regular_path_relation(#[trigger] p.rels[i])
        },
        _ => true,
    }
}

/// The mapping has finitely many keys, and each of its values is regular.
pub open spec fn regular_mapping(m: Map<Seq<char>, WireModel>) -> bool
    decreases m,
{
    m.dom().finite() && forall|k: Seq<char>| m.dom().contains(k) ==> is_regular(#[trigger] m[k])
}

/// Each label of the node is a string, and its properties are regular.
pub open spec fn regular_node(n: NodeModel) -> bool
    decreases n,
{
    &&& forall|i: int| 0 <= i < n.labels.len() ==> (#[trigger] n.labels[i]) is Text
    &&& regular_mapping(n.properties)
}

/// The entry is a node, and a regular one.
pub open spec fn regular_path_node(entry: PathNodeModel) -> bool
    decreases entry,
{
    match entry {
        PathNodeModel::Node(n) => regular_node(n),
        PathNodeModel::Other => false,
    }
}

/// The entry is an unbounded relationship with regular properties.
pub open spec fn regular_path_relation(entry: PathRelationModel) -> bool
    decreases entry,
{
    match entry {
        PathRelationModel::Relation(r) => regular_mapping(r.properties),
        PathRelationModel::Other => false,
    }
}

/// A regular wire value has one conversion only.
pub proof fn law_conversion_unique(w: WireModel, v1: GenericValue, v2: GenericValue)
    requires
        is_regular(w),
        converts(w, v1),
        converts(w, v2),
    ensures
        v1 == v2,
    decreases w,
{
    reveal_with_fuel(converts, 2);
    match w {
        WireModel::List(items) => {
            let out1 = v1->List_0;
            let out2 = v2->List_0;
            assert forall|i: int| 0 <= i < items.len() implies out1[i] == out2[i] by {
                law_conversion_unique(items[i], out1[i], out2[i]);
            }
            assert(out1 =~= out2);
        },
        WireModel::Mapping(m) => {
            lemma_mapping_unique(m, v1, v2);
        },
        WireModel::Node(n) => {
            lemma_node_unique(n, v1, v2);
        },
        WireModel::Relation(r) => {
            let m1 = v1->Mapping_0;
            let m2 = v2->Mapping_0;
            lemma_mapping_unique(r.properties, m1["properties"@], m2["properties"@]);
            assert(m1 =~= m2);
        },
        WireModel::UnboundedRelation(r) => {
            lemma_unbounded_relation_unique(r, v1, v2);
        },
        WireModel::Path(p) => {
            let m1 = v1->Mapping_0;
            let m2 = v2->Mapping_0;
            let nodes1 = m1["nodes"@]->List_0;
            let nodes2 = m2["nodes"@]->List_0;
            assert forall|i: int| 0 <= i < p.nodes.len() implies nodes1[i] == nodes2[i] by {
                assert(regular_path_node(p.nodes[i]));
                assert(path_node_converts(p.nodes[i], nodes1[i]));
                assert(path_node_converts(p.nodes[i], nodes2[i]));
                lemma_node_unique(p.nodes[i]->Node_0, nodes1[i], nodes2[i]);
            }
            assert(nodes1 =~= nodes2);
            let rels1 = m1["relationships"@]->List_0;
            let rels2 = m2["relationships"@]->List_0;
            assert forall|i: int| 0 <= i < p.rels.len() implies rels1[i] == rels2[i] by {
                assert(regular_path_relation(p.rels[i]));
                assert(path_relation_converts(p.rels[i], rels1[i]));
                assert(path_relation_converts(p.rels[i], rels2[i]));
                lemma_unbounded_relation_unique(p.rels[i]->Relation_0, rels1[i], rels2[i]);
            }
            assert(rels1 =~= rels2);
            assert(m1 =~= m2);
        },
        _ => {},
    }
}

/// A mapping with regular values has one conversion only.
pub proof fn lemma_mapping_unique(
    m: Map<Seq<char>, WireModel>,
    v1: GenericValue,
    v2: GenericValue,
)
    requires
        regular_mapping(m),
        mapping_converts(m, v1),
        mapping_converts(m, v2),
    ensures
        v1 == v2,
    decreases m,
{
    let out1 = v1->Mapping_0;
    let out2 = v2->Mapping_0;
    assert forall|k: Seq<char>| m.dom().contains(k) implies out1[k] == out2[k] by {
        law_conversion_unique(m[k], out1[k], out2[k]);
    }
    assert(out1 =~= out2);
}

/// A regular node has one conversion only.
pub proof fn lemma_node_unique(n: NodeModel, v1: GenericValue, v2: GenericValue)
    requires
        regular_node(n),
        node_converts(n, v1),
        node_converts(n, v2),
    ensures
        v1 == v2,
    decreases n,
{
    let m1 = v1->Mapping_0;
    let m2 = v2->Mapping_0;
    let labels1 = m1["labels"@]->List_0;
    let labels2 = m2["labels"@]->List_0;
    assert forall|i: int| 0 <= i < n.labels.len() implies labels1[i] == labels2[i] by {
    }
    assert(labels1 =~= labels2);
    lemma_mapping_unique(n.properties, m1["properties"@], m2["properties"@]);
    assert(m1 =~= m2);
}

/// An unbounded relationship with regular properties has one conversion only.
pub proof fn lemma_unbounded_relation_unique(
    r: UnboundedRelationModel,
    v1: GenericValue,
    v2: GenericValue,
)
    requires
        regular_mapping(r.properties),
        unbounded_relation_converts(r, v1),
        unbounded_relation_converts(r, v2),
    ensures
        v1 == v2,
    decreases r,
{
    let m1 = v1->Mapping_0;
    let m2 = v2->Mapping_0;
    lemma_mapping_unique(r.properties, m1["properties"@], m2["properties"@]);
    assert(m1 =~= m2);
}

} // verus!
