//! The registry's laws: properties that relate several operations,
//! stated over the model and proved once and for all.

use vstd::prelude::*;
use crate::model::{
    find_result, has_ship_with_id, lemma_find_result_present, lemma_remove_id_wf, list_result,
    matches_filter, new_ship_record, remove_id, store_wf, NewShipModel, ShipModel, StoreModel,
};
use crate::substring::{contains_substr, lemma_empty_substr};

verus! {

/// The rows whose name contains `sub`, in order: the selection criterion
/// of the name filter, applied to an already-listed sequence.
pub open spec fn selected_by_name(ships: Seq<ShipModel>, sub: Seq<char>) -> Seq<ShipModel> {
    ships.filter(|s: ShipModel| contains_substr(s.name, sub))
}

/// A filter every row passes selects every row.
proof fn lemma_list_result_total(ships: Seq<ShipModel>, filter: Option<Seq<char>>)
    requires
        forall|i: int| 0 <= i < ships.len() ==> matches_filter(#[trigger] ships[i], filter),
    ensures
        list_result(ships, filter) == ships,
    decreases ships.len(),
{
    reveal(Seq::filter);
    if ships.len() > 0 {
        assert(forall|i: int|
            0 <= i < ships.drop_last().len() ==> #[trigger] ships.drop_last()[i] == ships[i]);
        lemma_list_result_total(ships.drop_last(), filter);
        assert(matches_filter(ships.last(), filter));
        assert(list_result(ships, filter) =~= ships);
    } else {
        assert(list_result(ships, filter) =~= ships);
    }
}

/// Listing without a filter returns every row, in storage order.
pub proof fn lemma_list_none_is_all(ships: Seq<ShipModel>)
    ensures
        list_result(ships, None) == ships,
{
    lemma_list_result_total(ships, None);
}

/// Listing with the empty filter text also returns every row: the empty
/// sequence is contained in every name.
pub proof fn lemma_list_empty_filter_is_all(ships: Seq<ShipModel>)
    ensures
        list_result(ships, Some(Seq::<char>::empty())) == ships,
{
    assert forall|i: int|
        0 <= i < ships.len() implies matches_filter(
        #[trigger] ships[i],
        Some(Seq::<char>::empty()),
    ) by {
        lemma_empty_substr(ships[i].name);
    }
    lemma_list_result_total(ships, Some(Seq::<char>::empty()));
}

/// A filtered listing is exactly the subset of the unfiltered listing
/// whose names contain the filter text, in the same order.
pub proof fn lemma_list_filter_is_subset(ships: Seq<ShipModel>, sub: Seq<char>)
    ensures
        list_result(ships, Some(sub)) == selected_by_name(list_result(ships, None), sub),
    decreases ships.len(),
{
    lemma_list_none_is_all(ships);
    reveal(Seq::filter);
    if ships.len() > 0 {
        lemma_list_filter_is_subset(ships.drop_last(), sub);
        lemma_list_none_is_all(ships.drop_last());
    }
}

/// Inserting a payload and then listing everything shows a record that
/// carries the payload's name, warp speed and faction, under an id that
/// no row of the prior state carries; and the store stays well formed.
pub proof fn lemma_add_ship_then_list(m: StoreModel, new: NewShipModel)
    requires
        store_wf(m),
    ensures
        ({
            let ship = new_ship_record(new, m.next_id);
            let after = StoreModel { ships: m.ships.push(ship), next_id: m.next_id + 1 };
            &&& store_wf(after)
            &&& list_result(after.ships, None).contains(ship)
            &&& ship.name == new.name
            &&& ship.warp_speed == new.warp_speed
            &&& ship.faction == new.faction
            &&& forall|i: int| 0 <= i < m.ships.len() ==> #[trigger] m.ships[i].id != ship.id
        }),
{
    let ship = new_ship_record(new, m.next_id);
    let after = StoreModel { ships: m.ships.push(ship), next_id: m.next_id + 1 };
    lemma_list_none_is_all(after.ships);
    assert(after.ships[m.ships.len() as int] == ship);
    assert(list_result(after.ships, None).contains(ship));
    assert forall|i: int, j: int|
        0 <= i < after.ships.len() && 0 <= j < after.ships.len() && i != j
        implies #[trigger] after.ships[i].id != #[trigger] after.ships[j].id by {
        if i < m.ships.len() && j < m.ships.len() {
            assert(m.ships[i].id != m.ships[j].id);
        }
    }
}

/// Removing a present id returns that very record, and the id is gone
/// from a subsequent unfiltered listing.
pub proof fn lemma_remove_ship_then_list(m: StoreModel, id: int)
    requires
        store_wf(m),
        has_ship_with_id(m.ships, id),
    ensures
        ({
            let after = remove_id(m.ships, id);
            &&& find_result(m.ships, id) matches Some(prior) && prior.id == id
                && m.ships.contains(prior)
            &&& forall|i: int|
                0 <= i < list_result(after, None).len()
                    ==> #[trigger] list_result(after, None)[i].id != id
        }),
{
    lemma_find_result_present(m.ships, id);
    lemma_remove_id_wf(m, id);
    lemma_list_none_is_all(remove_id(m.ships, id));
}

/// Deleting the same id twice succeeds at most once: if the id was
/// present, the first removal leaves no row with it, so the second
/// finds nothing and changes nothing; if it was absent, neither
/// removal changes anything.
pub proof fn lemma_remove_ship_twice(m: StoreModel, id: int)
    requires
        store_wf(m),
    ensures
        ({
            let once = remove_id(m.ships, id);
            &&& has_ship_with_id(m.ships, id) ==> !has_ship_with_id(once, id)
            &&& !has_ship_with_id(m.ships, id) ==> once == m.ships
            &&& remove_id(once, id) == once
        }),
{
    lemma_remove_id_wf(m, id);
}

} // verus!
