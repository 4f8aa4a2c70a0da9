//! The service layer: the single point where domain error kinds are
//! produced. Each operation takes the store handle that the caller holds
//! exclusively for the whole call (the front end acquires the lock and
//! releases it on every exit path), so the composite lookup-then-delete
//! of `remove_ship` is atomic with respect to other callers.

use vstd::prelude::*;
use crate::db_models::{opt_string_view, ship_views, NewShip, Ship, DB};
use crate::model::{find_result, has_ship_with_id, list_result, new_ship_record, remove_id};

verus! {

/// The closed set of domain error kinds.
///
/// `Unknown` stands for a coordination failure (a poisoned lock: possible
/// only if a prior holder crashed while holding it), `DBError` for a
/// failed storage operation, `NotFound` for a missing entity.
#[derive(Debug, Clone, PartialEq, Eq, Structural)]
pub enum ServiceError {
    Unknown,
    DBError,
    NotFound,
}

/// Lists the ships that pass the optional name filter, in storage order.
pub fn get_all_ships(db: &DB, filter: Option<String>) -> (r: Result<Vec<Ship>, ServiceError>)
    requires
        db.wf(),
    ensures
        r matches Ok(ships) && ship_views(ships@) == list_result(db@.ships, opt_string_view(filter)),
{
    match db.list_ships(filter) {
        Ok(ships) => Ok(ships),
        Err(_) => Err(ServiceError::DBError),
    }
}

/// Inserts a new ship. The stored and returned record carries the
/// payload's fields and a storage-assigned id that no earlier record
/// ever carried; a storage failure (the id space is exhausted) maps to
/// `DBError` and leaves the store unchanged.
pub fn add_ship(db: &mut DB, new_ship: NewShip) -> (r: Result<Ship, ServiceError>)
    requires
        old(db).wf(),
    ensures
        final(db).wf(),
        r matches Ok(ship) ==> ({
            &&& ship@ == new_ship_record(new_ship@, old(db)@.next_id)
            &&& final(db)@.ships == old(db)@.ships.push(ship@)
            &&& final(db)@.next_id == old(db)@.next_id + 1
            &&& forall|i: int|
                0 <= i < old(db)@.ships.len() ==> #[trigger] old(db)@.ships[i].id != ship@.id
        }),
        r is Ok <==> old(db)@.next_id < i32::MAX as int,
        r matches Err(e) ==> e == ServiceError::DBError && *final(db) == *old(db),
{
    match db.insert_new_ship(new_ship) {
        Ok(ship) => Ok(ship),
        Err(_) => Err(ServiceError::DBError),
    }
}

/// Looks a ship up by id and, when present, deletes it and returns the
/// prior record; `NotFound` when no row has the id, with the store left
/// unchanged. Lookup and delete happen under one exclusive hold of the
/// store, so no other caller can slip between them.
pub fn remove_ship(db: &mut DB, ship_id: i32) -> (r: Result<Ship, ServiceError>)
    requires
        old(db).wf(),
    ensures
        final(db).wf(),
        final(db)@.next_id == old(db)@.next_id,
        r is Ok <==> has_ship_with_id(old(db)@.ships, ship_id as int),
        r matches Ok(ship) ==> ({
            &&& Some(ship@) == find_result(old(db)@.ships, ship_id as int)
            &&& ship@.id == ship_id as int
            &&& final(db)@.ships == remove_id(old(db)@.ships, ship_id as int)
        }),
        r matches Err(e) ==> e == ServiceError::NotFound && *final(db) == *old(db),
{
    let found = match db.find_by_id(ship_id) {
        Ok(found) => found,
        Err(_) => None,
    };
    match found {
        None => Err(ServiceError::NotFound),
        Some(ship) => match db.delete(ship) {
            Ok(removed) => Ok(removed),
            Err(_) => Err(ServiceError::DBError),
        },
    }
}

} // verus!
