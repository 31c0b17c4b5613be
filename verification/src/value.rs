//! The generic value model: the only shape of data that leaves this library.

use vstd::prelude::*;

verus! {

/// A generic value as handed to the host.
///
/// `Float` holds the IEEE-754 bit pattern of a 64-bit float. `Mapping` holds
/// its entries in the order in which their keys first came; a well-formed
/// mapping has no key twice.
#[derive(Debug, PartialEq)]
pub enum ElixirValue {
    Null,
    Boolean(bool),
    Integer(i64),
    Float(u64),
    String(String),
    List(Vec<ElixirValue>),
    Mapping(Vec<(String, ElixirValue)>),
}

/// The fields of one result row, keyed by column name.
pub type Record = Vec<(String, ElixirValue)>;

/// The mathematical content of an [`ElixirValue`].
pub enum GenericValue {
    Null,
    Boolean(bool),
    Integer(i64),
    Float(u64),
    String(Seq<char>),
    List(Seq<GenericValue>),
    Mapping(Map<Seq<char>, GenericValue>),
}

/// The mapping that a sequence of entries stands for: a later entry replaces
/// an earlier one with the same key.
pub open spec fn map_of<V>(entries: Seq<(Seq<char>, V)>) -> Map<Seq<char>, V>
    decreases entries.len(),
{
    if entries.len() == 0 {
        Map::empty()
    } else {
        map_of(entries.drop_last()).insert(entries.last().0, entries.last().1)
    }
}

/// No key occurs at two positions.
pub open spec fn distinct_keys<V>(entries: Seq<(Seq<char>, V)>) -> bool {
    forall|i: int, j: int|
        0 <= i < j < entries.len() ==> (#[trigger] entries[i]).0 != (#[trigger] entries[j]).0
}

/// The entries of a mapping, each key and value by its view.
pub open spec fn entry_views(entries: Seq<(String, ElixirValue)>) -> Seq<(Seq<char>, GenericValue)>
    decreases entries,
{
    Seq::new(
        entries.len(),
        |i: int|
            if 0 <= i < entries.len() {
                (entries[i].0@, entries[i].1@)
            } else {
                (Seq::empty(), GenericValue::Null)
            },
    )
}

/// The items of a list, each by its view.
pub open spec fn item_views(items: Seq<ElixirValue>) -> Seq<GenericValue>
    decreases items,
{
    Seq::new(
        items.len(),
        |i: int|
            if 0 <= i < items.len() {
                items[i]@
            } else {
                GenericValue::Null
            },
    )
}

impl View for ElixirValue {
    type V = GenericValue;

    open spec fn view(&self) -> GenericValue
        decreases self,
    {
        match self {
            ElixirValue::Null => GenericValue::Null,
            ElixirValue::Boolean(b) => GenericValue::Boolean(*b),
            ElixirValue::Integer(i) => GenericValue::Integer(*i),
            ElixirValue::Float(bits) => GenericValue::Float(*bits),
            ElixirValue::String(s) => GenericValue::String(s@),
            ElixirValue::List(items) => GenericValue::List(item_views(items@)),
            ElixirValue::Mapping(entries) => GenericValue::Mapping(map_of(entry_views(entries@))),
        }
    }
}

/// Every item is well formed.
pub open spec fn items_wf(items: Seq<ElixirValue>) -> bool
    decreases items,
{
    forall|i: int| 0 <= i < items.len() ==> (#[trigger] items[i]).wf()
}

/// No key occurs twice and every value is well formed.
pub open spec fn entries_wf(entries: Seq<(String, ElixirValue)>) -> bool
    decreases entries,
{
    &&& distinct_keys(entry_views(entries))
    &&& forall|i: int| 0 <= i < entries.len() ==> (#[trigger] entries[i]).1.wf()
}

impl ElixirValue {
    /// The invariant of the representation: no mapping, at any depth, holds a
    /// key twice.
    pub open spec fn wf(&self) -> bool
        decreases self,
    {
        match self {
            ElixirValue::List(items) => items_wf(items@),
            ElixirValue::Mapping(entries) => entries_wf(entries@),
            _ => true,
        }
    }
}

/// Copies a list item by item.
fn clone_items(items: &Vec<ElixirValue>) -> (copy: Vec<ElixirValue>)
    ensures
        item_views(copy@) == item_views(items@),
        items_wf(items@) ==> items_wf(copy@),
    decreases items,
{
    let mut copy: Vec<ElixirValue> = Vec::new();
    let mut i: usize = 0;
    while i < items.len()
        invariant
            i <= items.len(),
            copy@.len() == i,
            forall|j: int| 0 <= j < i ==> (#[trigger] copy@[j])@ == items@[j]@,
            items_wf(items@) ==> items_wf(copy@),
        decreases items.len() - i,
    {
        let item = items[i].clone();
        copy.push(item);
        i += 1;
    }
    copy
}

/// Copies the entries of a mapping one by one.
fn clone_entries(entries: &Vec<(String, ElixirValue)>) -> (copy: Vec<(String, ElixirValue)>)
    ensures
        entry_views(copy@) == entry_views(entries@),
        entries_wf(entries@) ==> entries_wf(copy@),
    decreases entries,
{
    let mut copy: Vec<(String, ElixirValue)> = Vec::new();
    let mut i: usize = 0;
    while i < entries.len()
        invariant
            i <= entries.len(),
            copy@.len() == i,
            forall|j: int|
                0 <= j < i ==> (#[trigger] copy@[j]).0@ == entries@[j].0@ && copy@[j].1@
                    == entries@[j].1@,
            entries_wf(entries@) ==> forall|j: int| 0 <= j < i ==> (#[trigger] copy@[j]).1.wf(),
        decreases entries.len() - i,
    {
        let key = entries[i].0.clone();
        let value = entries[i].1.clone();
        copy.push((key, value));
        i += 1;
    }
    proof {
        lemma_entry_views(copy@);
        lemma_entry_views(entries@);
    }
    copy
}

impl Clone for ElixirValue {
    /// A copy with the same content; the copy of a well-formed value is well
    /// formed.
    fn clone(&self) -> (copy: Self)
        ensures
            copy@ == self@,
            self.wf() ==> copy.wf(),
        decreases self,
    {
        match self {
            ElixirValue::Null => ElixirValue::Null,
            ElixirValue::Boolean(b) => ElixirValue::Boolean(*b),
            ElixirValue::Integer(i) => ElixirValue::Integer(*i),
            ElixirValue::Float(bits) => ElixirValue::Float(*bits),
            ElixirValue::String(s) => ElixirValue::String(s.clone()),
            ElixirValue::List(items) => ElixirValue::List(clone_items(items)),
            ElixirValue::Mapping(entries) => ElixirValue::Mapping(clone_entries(entries)),
        }
    }
}

/// The views of entries stand at the positions of the entries.
pub proof fn lemma_entry_views(entries: Seq<(String, ElixirValue)>)
    ensures
        entry_views(entries).len() == entries.len(),
        forall|i: int|
            0 <= i < entries.len() ==> #[trigger] entry_views(entries)[i] == (
                entries[i].0@,
                entries[i].1@,
            ),
{
}

/// The views of items stand at the positions of the items.
pub proof fn lemma_item_views(items: Seq<ElixirValue>)
    ensures
        item_views(items).len() == items.len(),
        forall|i: int| 0 <= i < items.len() ==> #[trigger] item_views(items)[i] == items[i]@,
{
}

/// Appending an entry inserts it into the mapping.
pub proof fn lemma_map_of_push<V>(entries: Seq<(Seq<char>, V)>, key: Seq<char>, value: V)
    ensures
        map_of(entries.push((key, value))) == map_of(entries).insert(key, value),
{
    assert(entries.push((key, value)).drop_last() =~= entries);
}

/// The keys of the mapping are the keys of the entries, and there are
/// finitely many.
pub proof fn lemma_map_of_dom<V>(entries: Seq<(Seq<char>, V)>)
    ensures
        map_of(entries).dom().finite(),
        forall|k: Seq<char>|
            map_of(entries).dom().contains(k) <==> exists|i: int|
                0 <= i < entries.len() && (#[trigger] entries[i]).0 == k,
    decreases entries.len(),
{
    if entries.len() > 0 {
        let front = entries.drop_last();
        lemma_map_of_dom(front);
        assert forall|k: Seq<char>|
            map_of(entries).dom().contains(k) <==> exists|i: int|
                0 <= i < entries.len() && (#[trigger] entries[i]).0 == k by {
            if exists|i: int| 0 <= i < entries.len() && (#[trigger] entries[i]).0 == k {
                let i = choose|i: int| 0 <= i < entries.len() && (#[trigger] entries[i]).0 == k;
                if i < entries.len() - 1 {
                    assert(front[i].0 == k);
                }
            }
        }
    }
}

/// A list of entries that holds no key twice has one entry for each key of
/// its mapping.
pub proof fn law_one_entry_for_each_key<V>(entries: Seq<(Seq<char>, V)>)
    requires
        distinct_keys(entries),
    ensures
        map_of(entries).dom().finite(),
        map_of(entries).dom().len() == entries.len(),
    decreases entries.len(),
{
    if entries.len() > 0 {
        let front = entries.drop_last();
        assert(distinct_keys(front));
        law_one_entry_for_each_key(front);
        lemma_map_of_dom(front);
        assert(!map_of(front).dom().contains(entries.last().0));
    }
}

/// Replacing the value at the last position of a key is an insertion at that
/// key.
pub proof fn lemma_map_of_update<V>(entries: Seq<(Seq<char>, V)>, i: int, value: V)
    requires
        0 <= i < entries.len(),
        forall|j: int| i < j < entries.len() ==> (#[trigger] entries[j]).0 != entries[i].0,
    ensures
        map_of(entries.update(i, (entries[i].0, value))) == map_of(entries).insert(
            entries[i].0,
            value,
        ),
    decreases entries.len(),
{
    let key = entries[i].0;
    let updated = entries.update(i, (key, value));
    let front = entries.drop_last();
    if i == entries.len() - 1 {
        assert(updated.drop_last() =~= front);
    } else {
        lemma_map_of_update(front, i, value);
        assert(updated.drop_last() =~= front.update(i, (key, value)));
    }
}

/// Sets `key` to `value` in a list of entries: the last entry with that key
/// is replaced where it stands, and where there is none a new entry is
/// appended. A list that held no key twice holds none twice afterwards.
pub fn insert_entry(entries: &mut Vec<(String, ElixirValue)>, key: String, value: ElixirValue)
    ensures
        map_of(entry_views(final(entries)@)) == map_of(entry_views(old(entries)@)).insert(
            key@,
            value@,
        ),
        entries_wf(old(entries)@) && value.wf() ==> entries_wf(final(entries)@),
        final(entries)@.len() >= old(entries)@.len(),
        forall|j: int|
            0 <= j < old(entries)@.len() ==> (#[trigger] final(entries)@[j]).0@
                == old(entries)@[j].0@,
        (forall|j: int| 0 <= j < old(entries)@.len() ==> (#[trigger] old(entries)@[j]).0@ != key@)
            ==> final(entries)@ == old(entries)@.push((key, value)),
        forall|j: int|
            0 <= j < old(entries)@.len() && (#[trigger] old(entries)@[j]).0@ == key@
                && (forall|k: int|
                j < k < old(entries)@.len() ==> (#[trigger] old(entries)@[k]).0@ != key@)
                ==> final(entries)@ == old(entries)@.update(j, (key, value)),
{
    let ghost before = entry_views(entries@);
    let ghost prior = entries@;
    let mut i: usize = entries.len();
    while i > 0
        invariant
            i <= entries.len(),
            entries@ == prior,
            prior == old(entries)@,
            before == entry_views(prior),
            forall|j: int| i <= j < prior.len() ==> (#[trigger] before[j]).0 != key@,
        decreases i,
    {
        i -= 1;
        if entries[i].0 == key {
            proof {
                lemma_map_of_update(before, i as int, value@);
            }
            entries.set(i, (key, value));
            proof {
                let after = entry_views(entries@);
                assert(after =~= before.update(i as int, (key@, value@)));
                assert forall|j: int|
                    0 <= j < prior.len() && (#[trigger] prior[j]).0@ == key@ && (forall|k: int|
                        j < k < prior.len() ==> (#[trigger] prior[k]).0@ != key@) implies j
                    == i by {
                    if j > i {
                        assert(before[j].0 != key@);
                    }
                }
            }
            return ;
        }
    }
    proof {
        lemma_map_of_push(before, key@, value@);
    }
    entries.push((key, value));
    proof {
        let after = entry_views(entries@);
        assert(after =~= before.push((key@, value@)));
        assert forall|j: int| 0 <= j < prior.len() implies (#[trigger] prior[j]).0@ != key@ by {
            assert(before[j].0 != key@);
        }
    }
}

} // verus!
