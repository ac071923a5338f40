use forza_rich_presence::car_database::CarDatabase;

#[test]
fn lookup_finds_inserted_names() {
    let mut db = CarDatabase::new();
    assert_eq!(db.get_car_name_opt(3462), None);
    db.insert(3462, String::from("Koenigsegg Jesko"));
    db.insert(2311, String::from("Mazda MX-5"));
    assert_eq!(db.get_car_name_opt(3462).as_deref(), Some("Koenigsegg Jesko"));
    assert_eq!(db.get_car_name_opt(2311).as_deref(), Some("Mazda MX-5"));
    assert_eq!(db.get_car_name_opt(1), None);
}

#[test]
fn later_insert_replaces_name() {
    let mut db = CarDatabase::new();
    db.insert(7, String::from("Old"));
    db.insert(8, String::from("Other"));
    db.insert(7, String::from("New"));
    assert_eq!(db.get_car_name_opt(7).as_deref(), Some("New"));
    assert_eq!(db.get_car_name_opt(8).as_deref(), Some("Other"));
}
