use warp_ships::db_models::{NewShip, DB};
use warp_ships::router::{
    handle_create_ship, handle_delete_ship, handle_list_ships, to_response, AppError,
    ErrorResponse,
};
use warp_ships::services::ServiceError;

fn payload(name: &str, warp_speed: i32, faction: Option<&str>) -> NewShip {
    NewShip {
        name: name.to_owned(),
        warp_speed,
        faction: faction.map(|f| f.to_owned()),
    }
}

#[test]
fn malformed_body_is_rejected_before_any_storage_work() {
    let mut db = DB::new();
    let r = handle_create_ship(&mut db, None);
    assert!(matches!(r, Err(AppError::BodyParserError)));

    let body = ErrorResponse::new(&r.unwrap_err());
    assert_eq!(body.error_message, "invalid body");

    assert!(handle_list_ships(&db, None).unwrap().is_empty());
    assert_eq!(db.next_id, 1);
}

#[test]
fn parsed_body_is_created_and_returned_with_id() {
    let mut db = DB::new();
    let created = handle_create_ship(&mut db, Some(payload("USS Voyager", 6, Some("Starfleet"))))
        .unwrap();
    assert_eq!(created.id, 1);
    assert_eq!(created.name, "USS Voyager");

    let all = handle_list_ships(&db, None).unwrap();
    assert_eq!(all.len(), 1);
    assert_eq!(all[0].id, 1);
}

#[test]
fn delete_endpoint_returns_removed_record_or_error_body() {
    let mut db = DB::new();
    let created = handle_create_ship(&mut db, Some(payload("Black Pearl", 0, None))).unwrap();

    let removed = handle_delete_ship(&mut db, created.id).unwrap();
    assert_eq!(removed.id, created.id);
    assert_eq!(removed.name, "Black Pearl");

    let again = handle_delete_ship(&mut db, created.id);
    let err = again.unwrap_err();
    assert!(matches!(
        err,
        AppError::ServiceError(ServiceError::NotFound)
    ));
    let body = ErrorResponse::new(&err);
    assert_eq!(body.error_message, "service crashed");
}

#[test]
fn every_error_kind_has_its_message() {
    assert_eq!(
        ErrorResponse::new(&AppError::UnknownError("odd".to_owned())).error_message,
        "Dont know what happened : odd"
    );
    assert_eq!(
        ErrorResponse::new(&AppError::DBError).error_message,
        "sthg in the DB didnt work"
    );
    assert_eq!(
        ErrorResponse::new(&AppError::ServiceError(ServiceError::Unknown)).error_message,
        "service crashed"
    );
    assert_eq!(
        ErrorResponse::new(&AppError::BodyParserError).error_message,
        "invalid body"
    );
    assert_eq!(
        ErrorResponse::new(&AppError::NotFound).error_message,
        "Stuff not found"
    );
}

#[test]
fn rejection_translation_prefers_the_attached_error() {
    let body = to_response(Some(AppError::NotFound), "ignored".to_owned());
    assert_eq!(body.error_message, "Stuff not found");

    let fallback = to_response(None, "MethodNotAllowed".to_owned());
    assert_eq!(
        fallback.error_message,
        "Dont know what happened : MethodNotAllowed"
    );
}

#[test]
fn scenario_seed_filter_and_delete() {
    let mut db = DB::new();
    let enterprise = handle_create_ship(
        &mut db,
        Some(payload("USS Enterprise", 12, Some("Starfleet"))),
    )
    .unwrap();
    let voyager = handle_create_ship(
        &mut db,
        Some(payload("USS Voyager", 6, Some("Starfleet"))),
    )
    .unwrap();

    let uss = handle_list_ships(&db, Some("USS".to_owned())).unwrap();
    assert_eq!(uss.len(), 2);
    assert!(uss.iter().any(|s| s.id == enterprise.id));
    assert!(uss.iter().any(|s| s.id == voyager.id));

    let pearl = handle_list_ships(&db, Some("Pearl".to_owned())).unwrap();
    assert!(pearl.is_empty());

    let removed = handle_delete_ship(&mut db, enterprise.id).unwrap();
    assert_eq!(removed.id, enterprise.id);
    assert_eq!(removed.name, "USS Enterprise");
    assert_eq!(removed.warp_speed, 12);
    assert_eq!(removed.faction, Some("Starfleet".to_owned()));

    let rest = handle_list_ships(&db, None).unwrap();
    assert_eq!(rest.len(), 1);
    assert_eq!(rest[0].id, voyager.id);
    assert_eq!(rest[0].name, "USS Voyager");
}
