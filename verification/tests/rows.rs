use ppp_client::fdw::{ForeignRow, Table};
use ppp_client::messages::{Event, EventType, InventoryItem, Item, Pokemon};
use ppp_client::row::{get_column, get_number_column, Datum, Row};

fn row(cols: Vec<(&str, Datum)>) -> Row {
    Row { columns: cols.into_iter().map(|(n, d)| (n.to_string(), d)).collect() }
}

fn as_int(d: Option<Datum>) -> Option<i32> {
    match d {
        Some(Datum::Int(i)) => Some(i),
        _ => None,
    }
}

fn text(d: Option<Datum>) -> Option<String> {
    match d {
        Some(Datum::Text(s)) => Some(s),
        _ => None,
    }
}

fn pikachu() -> Pokemon {
    Pokemon {
        id: 0x54,
        position: 0,
        hp: 35,
        level: 5,
        max_hp: 40,
        attack: 12,
        defense: 9,
        speed: 20,
        special: u32::MAX,
    }
}

#[test]
fn row_lookup_finds_first_column_of_a_name() {
    let r = row(vec![("id", Datum::Int(1)), ("hp", Datum::Null), ("id", Datum::Int(2))]);
    assert!(matches!(r.get("id"), Some(Datum::Int(1))));
    assert!(matches!(r.get("hp"), Some(Datum::Null)));
    assert!(r.get("level").is_none());
}

#[test]
fn datum_conversions() {
    assert_eq!(Datum::Int(-5).to_i32(), Ok(-5));
    assert_eq!(Datum::Null.to_i32(), Err("datum was NULL".to_string()));
    assert_eq!(Datum::Text("x".to_string()).to_i32(), Err("datum is not an integer".to_string()));
    assert_eq!(Datum::Text("x".to_string()).to_text(), Ok("x".to_string()));
    assert_eq!(Datum::Null.to_text(), Err("datum was NULL".to_string()));
    assert_eq!(Datum::Int(1).to_text(), Err("datum is not text".to_string()));
    assert!(Datum::Null.is_null());
    assert!(!Datum::Int(0).is_null());
}

#[test]
fn get_column_reads_optional_integers() {
    let r = row(vec![("hp", Datum::Int(-1)), ("level", Datum::Null), ("id", Datum::Int(7))]);
    assert_eq!(get_column(&r, "id"), Ok(Some(7)));
    assert_eq!(get_column(&r, "hp"), Ok(Some(u32::MAX)));
    assert_eq!(get_column(&r, "speed"), Ok(None));
    assert_eq!(get_column(&r, "level"), Err("datum was NULL".to_string()));
}

#[test]
fn get_number_column_requires_the_column() {
    let r = row(vec![("id", Datum::Int(7)), ("quantity", Datum::Null)]);
    assert_eq!(get_number_column(&r, "id"), Ok(7));
    assert_eq!(
        get_number_column(&r, "position"),
        Err("tried to update inventory without a position!".to_string())
    );
    assert_eq!(
        get_number_column(&r, "quantity"),
        Err("couldn't convert quantity: datum was NULL".to_string())
    );
}

#[test]
fn table_names() {
    assert_eq!(Table::from_name("party"), Some(Table::Party));
    assert_eq!(Table::from_name("inventory"), Some(Table::Inventory));
    assert_eq!(Table::from_name("story"), Some(Table::Story));
    assert_eq!(Table::from_name("Party"), None);
    assert_eq!(Table::from_name(""), None);
}

#[test]
fn pokemon_fields() {
    let p = pikachu();
    assert_eq!(as_int(p.get_field("id").unwrap()), Some(0x54));
    assert_eq!(as_int(p.get_field("position").unwrap()), Some(0));
    assert_eq!(as_int(p.get_field("hp").unwrap()), Some(35));
    assert_eq!(as_int(p.get_field("level").unwrap()), Some(5));
    assert_eq!(as_int(p.get_field("max_hp").unwrap()), Some(40));
    assert_eq!(as_int(p.get_field("attack").unwrap()), Some(12));
    assert_eq!(as_int(p.get_field("defense").unwrap()), Some(9));
    assert_eq!(as_int(p.get_field("speed").unwrap()), Some(20));
    assert_eq!(as_int(p.get_field("special").unwrap()), Some(-1));
    assert_eq!(p.get_field("quantity").unwrap_err(), "No such field'");
}

#[test]
fn inventory_fields() {
    let i = InventoryItem { item: Item { id: 0x14, quantity: 3 }, position: 2 };
    assert_eq!(as_int(i.get_field("id").unwrap()), Some(0x14));
    assert_eq!(as_int(i.get_field("quantity").unwrap()), Some(3));
    assert_eq!(as_int(i.get_field("position").unwrap()), Some(2));
    assert_eq!(i.get_field("hp").unwrap_err(), "No such field'");
}

#[test]
fn event_fields() {
    let e = Event { event: EventType::DeliveredParcel, setting: true };
    assert_eq!(text(e.get_field("event").unwrap()), Some("DELIVERED_PARCEL".to_string()));
    assert_eq!(as_int(e.get_field("setting").unwrap()), Some(1));
    let e = Event { event: EventType::GotPokedex, setting: false };
    assert_eq!(text(e.get_field("event").unwrap()), Some("GOT_POKEDEX".to_string()));
    assert_eq!(as_int(e.get_field("setting").unwrap()), Some(0));
    assert_eq!(e.get_field("id").unwrap_err(), "No such field'");
}

#[test]
fn event_names() {
    assert_eq!(EventType::GotParcel.name(), "GOT_PARCEL");
    assert_eq!(EventType::from_name("GOT_PARCEL"), Some(EventType::GotParcel));
    assert_eq!(EventType::from_name("DELIVERED_PARCEL"), Some(EventType::DeliveredParcel));
    assert_eq!(EventType::from_name("GOT_POKEDEX"), Some(EventType::GotPokedex));
    assert_eq!(EventType::from_name("got_parcel"), None);
}

#[test]
fn foreign_row_dispatches_to_its_kind() {
    assert_eq!(as_int(ForeignRow::Pokemon(pikachu()).get_field("level").unwrap()), Some(5));
    let i = InventoryItem { item: Item { id: 1, quantity: 2 }, position: 3 };
    assert_eq!(as_int(ForeignRow::Inventory(i).get_field("position").unwrap()), Some(3));
    let e = Event { event: EventType::GotParcel, setting: true };
    assert_eq!(text(ForeignRow::Event(e).get_field("event").unwrap()), Some("GOT_PARCEL".to_string()));
    assert_eq!(ForeignRow::Event(e).get_field("level").unwrap_err(), "No such field'");
}
