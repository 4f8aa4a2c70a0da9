//! The mathematical model of the ship registry: ghost records, the
//! well-formedness invariant of the store, and the meaning of every
//! storage operation as a function on sequences of records.

use vstd::prelude::*;
use crate::substring::contains_substr;

verus! {

/// A persisted ship record, as the contracts see it.
#[verifier::ext_equal]
pub ghost struct ShipModel {
    pub id: int,
    pub name: Seq<char>,
    pub warp_speed: int,
    pub faction: Option<Seq<char>>,
}

/// A creation payload, as the contracts see it: a ship without an id.
#[verifier::ext_equal]
pub ghost struct NewShipModel {
    pub name: Seq<char>,
    pub warp_speed: int,
    pub faction: Option<Seq<char>>,
}

/// The whole store: the rows of the `ships` relation and the next id
/// the storage will assign.
#[verifier::ext_equal]
pub ghost struct StoreModel {
    pub ships: Seq<ShipModel>,
    pub next_id: int,
}

/// Store invariant: ids are unique, and every id already handed out is
/// below the next one to be assigned, so freshly assigned ids never
/// collide with live rows.
pub open spec fn store_wf(m: StoreModel) -> bool {
    &&& forall|i: int| 0 <= i < m.ships.len() ==> #[trigger] m.ships[i].id < m.next_id
    &&& forall|i: int, j: int|
        0 <= i < m.ships.len() && 0 <= j < m.ships.len() && i != j
            ==> #[trigger] m.ships[i].id != #[trigger] m.ships[j].id
}

/// The record a creation payload becomes once storage assigns it `id`.
pub open spec fn new_ship_record(new: NewShipModel, id: int) -> ShipModel {
    ShipModel { id, name: new.name, warp_speed: new.warp_speed, faction: new.faction }
}

/// Whether a row with this id is present.
pub open spec fn has_ship_with_id(ships: Seq<ShipModel>, id: int) -> bool {
    exists|i: int| 0 <= i < ships.len() && #[trigger] ships[i].id == id
}

/// The position of the row with this id (meaningful only when present;
/// unique under `store_wf`).
pub open spec fn index_of_id(ships: Seq<ShipModel>, id: int) -> int {
    choose|i: int| 0 <= i < ships.len() && #[trigger] ships[i].id == id
}

/// Point lookup: the row with this id, or `None`.
pub open spec fn find_result(ships: Seq<ShipModel>, id: int) -> Option<ShipModel> {
    if has_ship_with_id(ships, id) {
        Some(ships[index_of_id(ships, id)])
    } else {
        None
    }
}

/// Deletion: the rows with the row of this id taken out (unchanged when
/// no row has the id).
pub open spec fn remove_id(ships: Seq<ShipModel>, id: int) -> Seq<ShipModel> {
    if has_ship_with_id(ships, id) {
        ships.remove(index_of_id(ships, id))
    } else {
        ships
    }
}

/// Whether a row passes the optional name filter: no filter admits every
/// row, a filter admits the rows whose name contains it.
pub open spec fn matches_filter(s: ShipModel, filter: Option<Seq<char>>) -> bool {
    match filter {
        None => true,
        Some(sub) => contains_substr(s.name, sub),
    }
}

/// Listing: the rows that pass the filter, in storage order.
pub open spec fn list_result(ships: Seq<ShipModel>, filter: Option<Seq<char>>) -> Seq<ShipModel> {
    ships.filter(|s: ShipModel| matches_filter(s, filter))
}

/// Listing one more row keeps the earlier selection and appends the row
/// exactly when it passes the filter.
pub proof fn lemma_list_result_push(ships: Seq<ShipModel>, s: ShipModel, filter: Option<Seq<char>>)
    ensures
        list_result(ships.push(s), filter) == (if matches_filter(s, filter) {
            list_result(ships, filter).push(s)
        } else {
            list_result(ships, filter)
        }),
{
    reveal(Seq::filter);
    assert(ships.push(s).drop_last() =~= ships);
    assert(ships.push(s).last() == s);
}

/// A row found by id carries that id, and is a live row.
pub proof fn lemma_find_result_present(ships: Seq<ShipModel>, id: int)
    requires
        has_ship_with_id(ships, id),
    ensures
        find_result(ships, id) matches Some(s) && s.id == id && ships.contains(s),
{
    let i = index_of_id(ships, id);
    assert(0 <= i < ships.len() && ships[i].id == id);
}

/// Under the invariant the row with a given id sits at one position only,
/// so any index holding the id is the index the lookup picks.
pub proof fn lemma_index_of_id_unique(ships: Seq<ShipModel>, next_id: int, id: int, i: int)
    requires
        store_wf(StoreModel { ships, next_id }),
        0 <= i < ships.len(),
        ships[i].id == id,
    ensures
        index_of_id(ships, id) == i,
        has_ship_with_id(ships, id),
{
    assert(has_ship_with_id(ships, id));
    let j = index_of_id(ships, id);
    assert(0 <= j < ships.len() && ships[j].id == id);
    if i != j {
        assert(ships[i].id != ships[j].id);
    }
}

/// Removing the row with an id preserves the invariant and leaves no row
/// with that id behind: a second deletion of the same id finds nothing.
pub proof fn lemma_remove_id_wf(m: StoreModel, id: int)
    requires
        store_wf(m),
    ensures
        store_wf(StoreModel { ships: remove_id(m.ships, id), next_id: m.next_id }),
        !has_ship_with_id(remove_id(m.ships, id), id),
{
    if has_ship_with_id(m.ships, id) {
        let k = index_of_id(m.ships, id);
        assert(0 <= k < m.ships.len() && m.ships[k].id == id);
        let rest = m.ships.remove(k);
        assert forall|i: int| 0 <= i < rest.len() implies #[trigger] rest[i].id != id by {
            if i < k {
                assert(rest[i] == m.ships[i]);
                assert(m.ships[i].id != m.ships[k].id);
            } else {
                assert(rest[i] == m.ships[i + 1]);
                assert(m.ships[i + 1].id != m.ships[k].id);
            }
        }
        assert(!has_ship_with_id(rest, id));
        assert forall|i: int, j: int|
            0 <= i < rest.len() && 0 <= j < rest.len() && i != j implies #[trigger] rest[i].id
            != #[trigger] rest[j].id by {
            let oi: int = if i < k { i } else { i + 1 };
            let oj: int = if j < k { j } else { j + 1 };
            assert(rest[i] == m.ships[oi]);
            assert(rest[j] == m.ships[oj]);
        }
        assert forall|i: int| 0 <= i < rest.len() implies #[trigger] rest[i].id < m.next_id by {
            let oi: int = if i < k { i } else { i + 1 };
            assert(rest[i] == m.ships[oi]);
        }
    }
}

} // verus!
