//! The storage gateway: the `ships` relation held as plain rows, owned
//! exclusively by the process, with list / insert / delete / point-lookup
//! operations whose results are pinned to the model in `model`.

use vstd::prelude::*;
use crate::model::{
    find_result, has_ship_with_id, lemma_index_of_id_unique, lemma_list_result_push,
    lemma_remove_id_wf, list_result, new_ship_record, remove_id, store_wf, NewShipModel,
    ShipModel, StoreModel,
};
use crate::services::ServiceError;
use crate::substring::str_contains_substr;

verus! {

/// A persisted ship record. The id is unique and assigned by storage on
/// insert, never supplied by a client.
#[derive(Debug)]
pub struct Ship {
    pub id: i32,
    pub name: String,
    pub warp_speed: i32,
    pub faction: Option<String>,
}

/// A creation payload: a ship minus the id.
#[derive(Debug)]
pub struct NewShip {
    pub name: String,
    pub warp_speed: i32,
    pub faction: Option<String>,
}

/// A failure of the persistence layer. The only failure the in-process
/// store can meet is an exhausted id space; the cause stays opaque to
/// clients either way.
#[derive(Debug)]
pub struct StorageError;

/// The optional name filter, as the contracts see it.
pub open spec fn opt_string_view(o: Option<String>) -> Option<Seq<char>> {
    match o {
        Some(s) => Some(s@),
        None => None,
    }
}

/// An optional row, as the contracts see it.
pub open spec fn opt_ship_view(o: Option<Ship>) -> Option<ShipModel> {
    match o {
        Some(s) => Some(s@),
        None => None,
    }
}

/// A sequence of rows, as the contracts see it.
pub open spec fn ship_views(ships: Seq<Ship>) -> Seq<ShipModel> {
    ships.map_values(|s: Ship| s@)
}

impl View for Ship {
    type V = ShipModel;

    open spec fn view(&self) -> ShipModel {
        ShipModel {
            id: self.id as int,
            name: self.name@,
            warp_speed: self.warp_speed as int,
            faction: match self.faction {
                Some(f) => Some(f@),
                None => None,
            },
        }
    }
}

impl Clone for Ship {
    /// A clone carries the same record.
    fn clone(&self) -> (res: Ship)
        ensures
            res@ == self@,
    {
        Ship {
            id: self.id,
            name: self.name.clone(),
            warp_speed: self.warp_speed,
            faction: match &self.faction {
                Some(f) => Some(f.clone()),
                None => None,
            },
        }
    }
}

impl View for NewShip {
    type V = NewShipModel;

    open spec fn view(&self) -> NewShipModel {
        NewShipModel {
            name: self.name@,
            warp_speed: self.warp_speed as int,
            faction: match self.faction {
                Some(f) => Some(f@),
                None => None,
            },
        }
    }
}

impl Clone for NewShip {
    /// A clone carries the same payload.
    fn clone(&self) -> (res: NewShip)
        ensures
            res@ == self@,
    {
        NewShip {
            name: self.name.clone(),
            warp_speed: self.warp_speed,
            faction: match &self.faction {
                Some(f) => Some(f.clone()),
                None => None,
            },
        }
    }
}

/// The store: the live rows of the `ships` relation and the next id to
/// assign. The process owns exactly one of these; concurrent request
/// handlers reach it only through a mutual-exclusion guard held by the
/// unverified front end, so each operation below sees the store alone.
pub struct DB {
    pub ships: Vec<Ship>,
    pub next_id: i32,
}

impl View for DB {
    type V = StoreModel;

    open spec fn view(&self) -> StoreModel {
        StoreModel { ships: ship_views(self.ships@), next_id: self.next_id as int }
    }
}

impl DB {
    /// The store invariant: unique ids, all below the next to assign.
    pub open spec fn wf(&self) -> bool {
        store_wf(self@)
    }

    /// An empty store; ids start at 1 as the underlying relation's
    /// row ids would.
    pub fn new() -> (db: DB)
        ensures
            db.wf(),
            db@.ships == Seq::<ShipModel>::empty(),
            db@.next_id == 1,
    {
        let db = DB { ships: Vec::new(), next_id: 1 };
        proof {
            assert(db@.ships =~= Seq::<ShipModel>::empty());
        }
        db
    }

    /// Inserts a row with a storage-assigned id and returns the full
    /// persisted record. The record is formed from the assigned id
    /// directly (not re-read by name afterwards), so two same-named
    /// inserts can never hand back each other's row. Fails only when
    /// the id space is exhausted, and then changes nothing.
    pub fn insert_new_ship(&mut self, new_ship: NewShip) -> (r: Result<Ship, StorageError>)
        requires
            old(self).wf(),
        ensures
            final(self).wf(),
            r matches Ok(ship) ==> ({
                &&& ship@ == new_ship_record(new_ship@, old(self)@.next_id)
                &&& final(self)@.ships == old(self)@.ships.push(ship@)
                &&& final(self)@.next_id == old(self)@.next_id + 1
            }),
            r is Ok <==> old(self)@.next_id < i32::MAX as int,
            r is Err ==> *final(self) == *old(self),
    {
        if self.next_id == i32::MAX {
            return Err(StorageError);
        }
        let id = self.next_id;
        self.next_id = self.next_id + 1;
        let row = Ship {
            id,
            name: new_ship.name,
            warp_speed: new_ship.warp_speed,
            faction: new_ship.faction,
        };
        let record = row.clone();
        let ghost pre = self.ships@;
        self.ships.push(row);
        proof {
            assert(ship_views(self.ships@) =~= ship_views(pre).push(record@));
        }
        Ok(record)
    }

    /// Deletes the row whose id the given record carries and returns the
    /// pre-delete snapshot; fails, changing nothing, when no row has
    /// that id.
    pub fn delete(&mut self, ship: Ship) -> (r: Result<Ship, StorageError>)
        requires
            old(self).wf(),
        ensures
            final(self).wf(),
            final(self)@.next_id == old(self)@.next_id,
            r is Ok <==> has_ship_with_id(old(self)@.ships, ship@.id),
            r matches Ok(removed) ==> ({
                &&& Some(removed@) == find_result(old(self)@.ships, ship@.id)
                &&& final(self)@.ships == remove_id(old(self)@.ships, ship@.id)
            }),
            r is Err ==> *final(self) == *old(self),
    {
        let ghost pre = self@;
        let mut i: usize = 0;
        while i < self.ships.len()
            invariant
                self == old(self),
                self.wf(),
                pre == self@,
                i <= self.ships.len(),
                forall|k: int| 0 <= k < i ==> #[trigger] self@.ships[k].id != ship@.id,
            decreases self.ships.len() - i,
        {
            if self.ships[i].id == ship.id {
                proof {
                    lemma_index_of_id_unique(pre.ships, pre.next_id, ship@.id, i as int);
                    lemma_remove_id_wf(pre, ship@.id);
                }
                let removed = self.ships.remove(i);
                proof {
                    assert(ship_views(self.ships@) =~= pre.ships.remove(i as int));
                }
                return Ok(removed);
            }
            i += 1;
        }
        assert(!has_ship_with_id(self@.ships, ship@.id));
        Err(StorageError)
    }

    /// Lists the rows that pass the optional name filter, in storage
    /// order: every row when no filter is given, else exactly the rows
    /// whose name contains the filter text. An empty selection is a
    /// result, not an error.
    pub fn list_ships(&self, name: Option<String>) -> (r: Result<Vec<Ship>, StorageError>)
        ensures
            r matches Ok(ships) && ship_views(ships@) == list_result(
                self@.ships,
                opt_string_view(name),
            ),
    {
        let ghost fv = opt_string_view(name);
        let mut out: Vec<Ship> = Vec::new();
        let mut i: usize = 0;
        proof {
            assert(ship_views(out@) =~= list_result(ship_views(self.ships@.take(0)), fv)) by {
                reveal(Seq::filter);
                assert(ship_views(self.ships@.take(0)) =~= Seq::<ShipModel>::empty());
            }
        }
        while i < self.ships.len()
            invariant
                i <= self.ships.len(),
                fv == opt_string_view(name),
                ship_views(out@) == list_result(ship_views(self.ships@.take(i as int)), fv),
            decreases self.ships.len() - i,
        {
            let row = &self.ships[i];
            let pass = match &name {
                None => true,
                Some(sub) => str_contains_substr(row.name.as_str(), sub.as_str()),
            };
            if pass {
                out.push(row.clone());
            }
            proof {
                let taken = ship_views(self.ships@.take(i as int));
                lemma_list_result_push(taken, row@, fv);
                assert(ship_views(self.ships@.take(i as int + 1)) =~= taken.push(row@));
                if pass {
                    assert(ship_views(out@) =~= list_result(taken, fv).push(row@));
                }
            }
            i += 1;
        }
        proof {
            assert(self.ships@.take(self.ships@.len() as int) =~= self.ships@);
        }
        Ok(out)
    }

    /// Point lookup: the row with this id, or `None` when absent; absence
    /// is not an error.
    pub fn find_by_id(&self, id: i32) -> (r: Result<Option<Ship>, ServiceError>)
        requires
            self.wf(),
        ensures
            r matches Ok(found) && opt_ship_view(found) == find_result(self@.ships, id as int),
    {
        let mut i: usize = 0;
        while i < self.ships.len()
            invariant
                self.wf(),
                i <= self.ships.len(),
                forall|k: int| 0 <= k < i ==> #[trigger] self@.ships[k].id != id as int,
            decreases self.ships.len() - i,
        {
            if self.ships[i].id == id {
                proof {
                    lemma_index_of_id_unique(self@.ships, self@.next_id, id as int, i as int);
                }
                return Ok(Some(self.ships[i].clone()));
            }
            i += 1;
        }
        assert(!has_ship_with_id(self@.ships, id as int));
        Ok(None)
    }
}

} // verus!
