use warp_ships::db_models::{NewShip, Ship, DB};
use warp_ships::str_contains_substr;

fn payload(name: &str, warp_speed: i32, faction: Option<&str>) -> NewShip {
    NewShip {
        name: name.to_owned(),
        warp_speed,
        faction: faction.map(|f| f.to_owned()),
    }
}

#[test]
fn insert_assigns_sequential_ids_and_returns_the_record() {
    let mut db = DB::new();
    let first = db.insert_new_ship(payload("USS Enterprise", 12, Some("Starfleet")));
    let second = db.insert_new_ship(payload("USS Enterprise", 12, Some("Starfleet")));
    let first = first.unwrap();
    let second = second.unwrap();
    assert_eq!(first.id, 1);
    assert_eq!(second.id, 2);
    assert_eq!(first.name, second.name);
}

#[test]
fn insert_fails_only_when_the_id_space_is_exhausted() {
    let mut db = DB {
        ships: Vec::new(),
        next_id: i32::MAX,
    };
    assert!(db.insert_new_ship(payload("USS Voyager", 6, None)).is_err());
    assert!(db.ships.is_empty());
    assert_eq!(db.next_id, i32::MAX);
}

#[test]
fn find_by_id_reports_absence_as_none_not_as_an_error() {
    let mut db = DB::new();
    let ship = db.insert_new_ship(payload("Black Pearl", 0, None)).unwrap();

    let hit = db.find_by_id(ship.id).unwrap();
    assert_eq!(hit.map(|s| s.name), Some("Black Pearl".to_owned()));

    let miss = db.find_by_id(ship.id + 1).unwrap();
    assert!(miss.is_none());
}

#[test]
fn delete_returns_the_pre_delete_snapshot() {
    let mut db = DB::new();
    let ship = db.insert_new_ship(payload("USS Calister", 1, Some("Netflix"))).unwrap();
    let copy = Ship {
        id: ship.id,
        name: ship.name.clone(),
        warp_speed: ship.warp_speed,
        faction: ship.faction.clone(),
    };

    let removed = db.delete(copy).unwrap();
    assert_eq!(removed.id, ship.id);
    assert_eq!(removed.name, "USS Calister");
    assert!(db.list_ships(None).unwrap().is_empty());

    let absent = Ship {
        id: ship.id,
        name: ship.name.clone(),
        warp_speed: ship.warp_speed,
        faction: ship.faction.clone(),
    };
    assert!(db.delete(absent).is_err());
}

#[test]
fn list_ships_applies_the_optional_substring_filter() {
    let mut db = DB::new();
    db.insert_new_ship(payload("USS Enterprise", 12, Some("Starfleet"))).unwrap();
    db.insert_new_ship(payload("Black Pearl", 0, Some("Caribeans"))).unwrap();

    let all = db.list_ships(None).unwrap();
    assert_eq!(all.len(), 2);

    let uss = db.list_ships(Some("USS".to_owned())).unwrap();
    assert_eq!(uss.len(), 1);
    assert_eq!(uss[0].name, "USS Enterprise");

    let empty_filter = db.list_ships(Some(String::new())).unwrap();
    assert_eq!(empty_filter.len(), 2);
}

#[test]
fn substring_matcher_is_exact_and_case_sensitive() {
    assert!(str_contains_substr("USS Enterprise", "Enter"));
    assert!(str_contains_substr("USS Enterprise", ""));
    assert!(str_contains_substr("USS Enterprise", "USS Enterprise"));
    assert!(!str_contains_substr("USS Enterprise", "enter"));
    assert!(!str_contains_substr("USS", "USS Enterprise"));
    assert!(!str_contains_substr("", "x"));
    assert!(str_contains_substr("", ""));
    assert!(str_contains_substr("aab", "ab"));
}
