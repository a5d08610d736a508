//! The open documents: the views in the order in which they were opened,
//! each under the id that the back-end gave it.

use indexmap::IndexMap;
use vstd::prelude::*;
use crate::view::View;

verus! {

/// `indexmap::IndexMap`: a map that keeps its entries in the order in which
/// their keys were first inserted. Nothing of its inside is known here.
#[verifier::external_type_specification]
#[verifier::external_body]
#[verifier::reject_recursive_types(K)]
#[verifier::reject_recursive_types(V)]
#[verifier::reject_recursive_types(S)]
pub struct ExIndexMap<K, V, S>(IndexMap<K, V, S>);

/// The entries of the map in its order: each view with its id.
pub uninterp spec fn registry_entries(views: IndexMap<usize, View>) -> Seq<(usize, View)>;

/// The index of the first of `entries` from `from` on that has the id `id`.
pub open spec fn position_from(entries: Seq<(usize, View)>, id: usize, from: int) -> Option<int>
    decreases entries.len() - from,
{
    if from < 0 || from >= entries.len() {
        None
    } else if entries[from].0 == id {
        Some(from)
    } else {
        position_from(entries, id, from + 1)
    }
}

/// The index of the entry that has the id `id`.
pub open spec fn position(entries: Seq<(usize, View)>, id: usize) -> Option<int> {
    position_from(entries, id, 0)
}

/// Whether no two of `entries` have the same id.
pub open spec fn distinct_ids(entries: Seq<(usize, View)>) -> bool {
    forall|i: int, j: int|
        0 <= i < entries.len() && 0 <= j < entries.len() && i != j ==> entries[i].0
            != entries[j].0
}

/// What `position_from` finds is an entry of the id, and none before it is;
/// it finds none only where there is none.
pub proof fn lemma_position_from(entries: Seq<(usize, View)>, id: usize, from: int)
    requires
        0 <= from,
    ensures
        match position_from(entries, id, from) {
            Some(index) => {
                &&& from <= index < entries.len()
                &&& entries[index].0 == id
                &&& forall|i: int| from <= i < index ==> entries[i].0 != id
            },
            None => forall|i: int| from <= i < entries.len() ==> entries[i].0 != id,
        },
    decreases entries.len() - from,
{
    if from < entries.len() && entries[from].0 != id {
        lemma_position_from(entries, id, from + 1);
    }
}

/// Where the ids are the same, the same entry is found.
pub proof fn lemma_position_by_ids(
    entries: Seq<(usize, View)>,
    other: Seq<(usize, View)>,
    id: usize,
    from: int,
)
    requires
        0 <= from,
        entries.len() == other.len(),
        forall|i: int| 0 <= i < entries.len() ==> entries[i].0 == other[i].0,
    ensures
        position_from(entries, id, from) == position_from(other, id, from),
    decreases entries.len() - from,
{
    if from < entries.len() && entries[from].0 != id {
        lemma_position_by_ids(entries, other, id, from + 1);
    }
}

/// `IndexMap::new`: a map without entries.
#[verifier::external_body]
pub(crate) fn registry_new() -> (views: IndexMap<usize, View>)
    ensures
        registry_entries(views) == Seq::<(usize, View)>::empty(),
{
    IndexMap::new()
}

/// `IndexMap::insert`: where the map has an entry of the id, the entry keeps
/// its place, gets the new view, and the view that it had is returned; else
/// the new entry becomes the last one and nothing is returned.
#[verifier::external_body]
pub(crate) fn registry_insert(views: &mut IndexMap<usize, View>, id: usize, view: View) -> (previous:
    Option<View>)
    ensures
        match position(registry_entries(*old(views)), id) {
            Some(index) => {
                &&& previous == Some(registry_entries(*old(views))[index].1)
                &&& registry_entries(*final(views)) == registry_entries(*old(views)).update(
                    index,
                    (id, view),
                )
            },
            None => {
                &&& previous is None
                &&& registry_entries(*final(views)) == registry_entries(*old(views)).push(
                    (id, view),
                )
            },
        },
{
    views.insert(id, view)
}

/// `IndexMap::get_index_of`: the index of the entry of the id, if there is
/// one.
#[verifier::external_body]
pub(crate) fn registry_index_of(views: &IndexMap<usize, View>, id: usize) -> (index: Option<usize>)
    ensures
        match position(registry_entries(*views), id) {
            Some(found) => index == Some(found as usize),
            None => index is None,
        },
{
    views.get_index_of(&id)
}

/// `IndexMap::get_index`: the id of the entry at the index, if the index is
/// less than the number of entries.
#[verifier::external_body]
pub(crate) fn registry_id_at(views: &IndexMap<usize, View>, index: usize) -> (id: Option<usize>)
    ensures
        id == (if index < registry_entries(*views).len() {
            Some(registry_entries(*views)[index as int].0)
        } else {
            None
        }),
{
    views.get_index(index).map(|entry| *entry.0)
}

/// `IndexMap::get`: the view of the entry of the id, if there is one.
#[verifier::external_body]
pub(crate) fn registry_get(views: &IndexMap<usize, View>, id: usize) -> (view: Option<&View>)
    ensures
        match position(registry_entries(*views), id) {
            Some(index) => view == Some(&registry_entries(*views)[index].1),
            None => view is None,
        },
{
    views.get(&id)
}

/// `IndexMap::len`: the number of entries.
#[verifier::external_body]
pub(crate) fn registry_len(views: &IndexMap<usize, View>) -> (count: usize)
    ensures
        count == registry_entries(*views).len(),
{
    views.len()
}

} // verus!
