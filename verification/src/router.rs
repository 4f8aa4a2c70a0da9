//! The request-side decisions and the error translation: which service
//! call a request becomes, and which JSON error body a failure becomes.
//! The HTTP listener itself parses paths and bodies outside the library
//! and hands in plain values: a parsed payload (or `None` when the body
//! did not deserialize), the optional name filter, the id from the path.

use vstd::prelude::*;
use vstd::string::StringExecFns;
use crate::db_models::{opt_string_view, ship_views, NewShip, Ship, DB};
use crate::model::{find_result, has_ship_with_id, list_result, new_ship_record, remove_id};
use crate::services::{add_ship, get_all_ships, remove_ship, ServiceError};

verus! {

/// The request-level error taxonomy: everything a handler can reject
/// with. `UnknownError` carries the printed form of a rejection nothing
/// else explains; `ServiceError` wraps a domain error; `BodyParserError`
/// marks a body that did not deserialize, a path that never reaches
/// storage.
#[derive(Debug, Clone)]
pub enum AppError {
    UnknownError(String),
    DBError,
    ServiceError(ServiceError),
    BodyParserError,
    NotFound,
}

/// The human-readable line each error kind puts in the error body.
pub open spec fn message_of(e: AppError) -> Seq<char> {
    match e {
        AppError::UnknownError(detail) => "Dont know what happened : "@ + detail@,
        AppError::DBError => "sthg in the DB didnt work"@,
        AppError::ServiceError(_) => "service crashed"@,
        AppError::BodyParserError => "invalid body"@,
        AppError::NotFound => "Stuff not found"@,
    }
}

impl AppError {
    /// The error's human-readable message.
    pub fn message(&self) -> (r: String)
        ensures
            r@ == message_of(*self),
    {
        match self {
            AppError::UnknownError(detail) => {
                let mut m = "Dont know what happened : ".to_owned();
                m.append(detail.as_str());
                m
            },
            AppError::DBError => "sthg in the DB didnt work".to_owned(),
            AppError::ServiceError(_) => "service crashed".to_owned(),
            AppError::BodyParserError => "invalid body".to_owned(),
            AppError::NotFound => "Stuff not found".to_owned(),
        }
    }
}

/// The one shape every failure takes on the wire: a JSON object with a
/// single `error_message` string.
pub struct ErrorResponse {
    pub error_message: String,
}

impl ErrorResponse {
    /// The error body for a given error.
    pub fn new(error: &AppError) -> (r: ErrorResponse)
        ensures
            r.error_message@ == message_of(*error),
    {
        ErrorResponse { error_message: error.message() }
    }
}

/// Turns whatever a request was rejected with into the one error-body
/// shape: the handler's own error when one was attached, else the
/// catch-all wrapped around the rejection's printed form.
pub fn to_response(found: Option<AppError>, rejection_detail: String) -> (r: ErrorResponse)
    ensures
        found matches Some(e) ==> r.error_message@ == message_of(e),
        found is None ==> r.error_message@ == message_of(
            AppError::UnknownError(rejection_detail),
        ),
{
    match found {
        Some(e) => ErrorResponse::new(&e),
        None => ErrorResponse::new(&AppError::UnknownError(rejection_detail)),
    }
}

/// The list endpoint: every ship, or those passing the name filter.
pub fn handle_list_ships(db: &DB, filter: Option<String>) -> (r: Result<Vec<Ship>, AppError>)
    requires
        db.wf(),
    ensures
        r matches Ok(ships) && ship_views(ships@) == list_result(
            db@.ships,
            opt_string_view(filter),
        ),
{
    match get_all_ships(db, filter) {
        Ok(ships) => Ok(ships),
        Err(e) => Err(AppError::ServiceError(e)),
    }
}

/// The create endpoint. A body that did not deserialize (`None`) is
/// rejected as `BodyParserError` before any storage work; a parsed
/// payload is inserted and the persisted record returned.
pub fn handle_create_ship(db: &mut DB, body: Option<NewShip>) -> (r: Result<Ship, AppError>)
    requires
        old(db).wf(),
    ensures
        final(db).wf(),
        body is None ==> (r matches Err(AppError::BodyParserError) && *final(db) == *old(db)),
        body matches Some(new_ship) ==> ({
            &&& r matches Ok(ship) ==> ({
                &&& ship@ == new_ship_record(new_ship@, old(db)@.next_id)
                &&& final(db)@.ships == old(db)@.ships.push(ship@)
                &&& final(db)@.next_id == old(db)@.next_id + 1
            })
            &&& r is Ok <==> old(db)@.next_id < i32::MAX as int
            &&& r is Err ==> *final(db) == *old(db)
        }),
{
    match body {
        None => Err(AppError::BodyParserError),
        Some(new_ship) => match add_ship(db, new_ship) {
            Ok(ship) => Ok(ship),
            Err(e) => Err(AppError::ServiceError(e)),
        },
    }
}

/// The delete endpoint: removes the ship with the given id and returns
/// the removed record; a missing id leaves the store unchanged.
pub fn handle_delete_ship(db: &mut DB, ship_id: i32) -> (r: Result<Ship, AppError>)
    requires
        old(db).wf(),
    ensures
        final(db).wf(),
        final(db)@.next_id == old(db)@.next_id,
        r is Ok <==> has_ship_with_id(old(db)@.ships, ship_id as int),
        r matches Ok(ship) ==> ({
            &&& Some(ship@) == find_result(old(db)@.ships, ship_id as int)
            &&& ship@.id == ship_id as int
            &&& final(db)@.ships == remove_id(old(db)@.ships, ship_id as int)
        }),
        r is Err ==> *final(db) == *old(db),
{
    match remove_ship(db, ship_id) {
        Ok(ship) => Ok(ship),
        Err(e) => Err(AppError::ServiceError(e)),
    }
}

} // verus!
