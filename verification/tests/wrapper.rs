use ppp_client::fdw::{ForeignRow, Table};
use ppp_client::messages::{Event, EventType, InventoryItem, Item, Pokemon};
use ppp_client::modify::ClientCall;
use ppp_client::report::{inventory_line, memory_report};
use ppp_client::row::{Datum, Row};
use ppp_client::scan::{inventory_rows, party_rows, story_rows, PokemonFDW, ScanStep};
use ppp_client::UpdatePokemon;

fn row(cols: Vec<(&str, Datum)>) -> Row {
    Row { columns: cols.into_iter().map(|(n, d)| (n.to_string(), d)).collect() }
}

fn mon(id: u32, position: u32) -> Pokemon {
    Pokemon { id, position, hp: 1, level: 2, max_hp: 3, attack: 4, defense: 5, speed: 6, special: 7 }
}

#[test]
fn begin_picks_the_table_by_name() {
    assert_eq!(PokemonFDW::begin("inventory").table(), Table::Inventory);
    assert_eq!(PokemonFDW::begin("story").table(), Table::Story);
    assert_eq!(PokemonFDW::begin("party").table(), Table::Party);
    assert_eq!(PokemonFDW::begin("pokedex").table(), Table::Party);
}

#[test]
fn scan_fetches_once_then_hands_out_rows_last_first() {
    let mut f = PokemonFDW::begin("party");
    assert_eq!(f.next(), ScanStep::Fetch(Table::Party));
    assert_eq!(f.next(), ScanStep::Fetch(Table::Party));
    let rows = party_rows(&vec![mon(1, 0), mon(2, 1), mon(3, 2)]);
    f.deliver(rows);
    assert_eq!(f.next(), ScanStep::Row(ForeignRow::Pokemon(mon(3, 2))));
    assert_eq!(f.next(), ScanStep::Row(ForeignRow::Pokemon(mon(2, 1))));
    assert_eq!(f.next(), ScanStep::Row(ForeignRow::Pokemon(mon(1, 0))));
    assert_eq!(f.next(), ScanStep::Done);
    assert_eq!(f.next(), ScanStep::Done);
}

#[test]
fn scan_of_an_empty_table_ends_at_once() {
    let mut f = PokemonFDW::begin("story");
    assert_eq!(f.next(), ScanStep::Fetch(Table::Story));
    f.deliver(story_rows(&vec![]));
    assert_eq!(f.next(), ScanStep::Done);
}

#[test]
fn rows_keep_their_order_and_kind() {
    let i = InventoryItem { item: Item { id: 1, quantity: 2 }, position: 0 };
    assert_eq!(inventory_rows(&vec![i]), vec![ForeignRow::Inventory(i)]);
    let e = Event { event: EventType::GotPokedex, setting: true };
    assert_eq!(story_rows(&vec![e, e]), vec![ForeignRow::Event(e), ForeignRow::Event(e)]);
    assert_eq!(party_rows(&vec![mon(1, 0), mon(2, 1)]), vec![
        ForeignRow::Pokemon(mon(1, 0)),
        ForeignRow::Pokemon(mon(2, 1))
    ]);
}

#[test]
fn update_party_row() {
    let f = PokemonFDW::begin("party");
    let r = row(vec![
        ("position", Datum::Int(3)),
        ("id", Datum::Int(0x99)),
        ("level", Datum::Int(100)),
        ("hp", Datum::Int(-1)),
    ]);
    assert_eq!(
        f.update(&r),
        Ok(ClientCall::SetPokemon(UpdatePokemon {
            slot: 3,
            id: Some(0x99),
            hp: Some(u32::MAX),
            level: Some(100),
            max_hp: None,
            attack: None,
            defense: None,
            speed: None,
            special: None,
        }))
    );
}

#[test]
fn update_party_errors() {
    let f = PokemonFDW::begin("party");
    assert_eq!(
        f.update(&row(vec![("id", Datum::Int(1))])),
        Err("tried to update pokemon without a position!".to_string())
    );
    assert_eq!(
        f.update(&row(vec![("position", Datum::Null)])),
        Err("couldn't convert position: datum was NULL".to_string())
    );
    assert_eq!(f.update(&row(vec![("position", Datum::Int(6))])), Err("Invalid slot 6".to_string()));
    assert_eq!(
        f.update(&row(vec![("position", Datum::Int(-1))])),
        Err("Invalid slot 4294967295".to_string())
    );
    assert_eq!(
        f.update(&row(vec![("position", Datum::Int(5)), ("speed", Datum::Null), ("hp", Datum::Text("x".to_string()))])),
        Err("datum is not an integer".to_string())
    );
    assert_eq!(
        f.update_party(&row(vec![("position", Datum::Int(0)), ("special", Datum::Null)])),
        Err("datum was NULL".to_string())
    );
}

#[test]
fn update_inventory_row() {
    let f = PokemonFDW::begin("inventory");
    let r = row(vec![("quantity", Datum::Int(99)), ("position", Datum::Int(2)), ("id", Datum::Int(4))]);
    assert_eq!(f.update(&r), Ok(ClientCall::UpdateItem { slot: 2, id: 4, quantity: 99 }));
    assert_eq!(
        f.update(&row(vec![("id", Datum::Int(4))])),
        Err("tried to update inventory without a position!".to_string())
    );
    assert_eq!(
        f.update(&row(vec![("position", Datum::Int(2)), ("quantity", Datum::Int(1))])),
        Err("tried to update inventory without a position!".to_string())
    );
    assert_eq!(
        f.update_inventory(&row(vec![("position", Datum::Int(2)), ("id", Datum::Null)])),
        Err("couldn't convert id: datum was NULL".to_string())
    );
}

#[test]
fn update_story_row() {
    let f = PokemonFDW::begin("story");
    let r = row(vec![("event", Datum::Text("GOT_PARCEL".to_string())), ("setting", Datum::Int(7))]);
    assert_eq!(f.update(&r), Ok(ClientCall::SetEvent { event: EventType::GotParcel, setting: true }));
    let r = row(vec![("event", Datum::Text("GOT_POKEDEX".to_string())), ("setting", Datum::Int(0))]);
    assert_eq!(f.update(&r), Ok(ClientCall::SetEvent { event: EventType::GotPokedex, setting: false }));
    assert_eq!(f.update(&row(vec![("setting", Datum::Int(1))])), Err("Missing event".to_string()));
    assert_eq!(
        f.update(&row(vec![("event", Datum::Text("WON".to_string()))])),
        Err("Unknown event WON".to_string())
    );
    assert_eq!(
        f.update_event(&row(vec![("event", Datum::Null)])),
        Err("datum was NULL".to_string())
    );
    assert_eq!(
        f.update(&row(vec![("event", Datum::Text("DELIVERED_PARCEL".to_string()))])),
        Err("tried to update inventory without a position!".to_string())
    );
}

#[test]
fn inserts() {
    let r = row(vec![("id", Datum::Int(4)), ("quantity", Datum::Int(2)), ("position", Datum::Null)]);
    assert_eq!(PokemonFDW::begin("inventory").insert(&r), Ok(ClientCall::AddItem { id: 4, quantity: 2 }));
    let r = row(vec![("id", Datum::Int(4)), ("quantity", Datum::Int(2))]);
    assert_eq!(PokemonFDW::begin("inventory").insert_item(&r), Ok(ClientCall::AddItem { id: 4, quantity: 2 }));
    let r = row(vec![("id", Datum::Int(4)), ("quantity", Datum::Int(2)), ("position", Datum::Int(0))]);
    assert_eq!(
        PokemonFDW::begin("inventory").insert(&r),
        Err("Can't provide position for insert".to_string())
    );
    assert_eq!(PokemonFDW::begin("story").insert(&r), Err("Can't insert into Story".to_string()));
    assert_eq!(PokemonFDW::begin("party").insert(&r), Err("Can't insert into Party".to_string()));
    assert_eq!(
        PokemonFDW::begin("inventory").insert(&row(vec![("quantity", Datum::Int(2))])),
        Err("tried to update inventory without a position!".to_string())
    );
}

#[test]
fn failure_messages() {
    let u = UpdatePokemon {
        slot: 0, id: None, hp: None, level: None, max_hp: None, attack: None, defense: None, speed: None, special: None,
    };
    assert_eq!(ClientCall::SetPokemon(u).failure_message("E"), "Failed to update pokemon: E");
    assert_eq!(ClientCall::UpdateItem { slot: 0, id: 0, quantity: 0 }.failure_message("E"), "Update failed: E");
    assert_eq!(
        ClientCall::SetEvent { event: EventType::GotParcel, setting: true }.failure_message("E"),
        "Update failed: E"
    );
    assert_eq!(ClientCall::AddItem { id: 0, quantity: 0 }.failure_message("E"), "Insert failed: E");
}

#[test]
fn schema_statements() {
    let v = PokemonFDW::schema("red", "public").unwrap();
    assert_eq!(v.len(), 3);
    assert_eq!(
        v[0],
        "\nCREATE FOREIGN TABLE public.party (\n  id Integer\n, position Integer\n, hp Integer\n, level Integer\n, max_hp Integer\n, attack Integer\n, defense Integer\n, speed Integer\n, special Integer\n) SERVER red;\n"
    );
    assert_eq!(
        v[1],
        "\nCREATE FOREIGN TABLE public.inventory (\n  id Integer\n, position Integer\n, quantity Integer\n) SERVER red;\n"
    );
    assert_eq!(v[2], "\nCREATE FOREIGN TABLE public.story (\n  event text\n, setting integer\n) SERVER red;\n");
}

#[test]
fn index_columns_of_each_table() {
    assert_eq!(PokemonFDW::index_columns("party"), Some(vec!["position".to_string()]));
    assert_eq!(PokemonFDW::index_columns("inventory"), Some(vec!["position".to_string()]));
    assert_eq!(PokemonFDW::index_columns("story"), Some(vec!["event".to_string()]));
    assert_eq!(PokemonFDW::index_columns("pokedex"), None);
}

#[test]
fn report_lines() {
    assert_eq!(memory_report(0xd35c, 0xdeadbeef, 1), "d35c was deadbeef, now 00000001");
    assert_eq!(memory_report(0x12, 0, 0x23456789), "0012 was 00000000, now 23456789");
    assert_eq!(memory_report(0x12345, 0, 0), "12345 was 00000000, now 00000000");
    let i = InventoryItem { item: Item { id: 0x14, quantity: 12 }, position: 0 };
    assert_eq!(inventory_line(&i), "Found 12 of 14");
}

#[test]
fn writing_back_a_shown_party_row_sets_the_same_values() {
    let p = Pokemon { id: 0x54, position: 4, hp: 3, level: 70, max_hp: 200, attack: 0x8000_0000, defense: 1, speed: 2, special: u32::MAX };
    let cols = ["id", "position", "hp", "level", "max_hp", "attack", "defense", "speed", "special"];
    let shown: Vec<(&str, Datum)> = cols
        .iter()
        .map(|c| (*c, ForeignRow::Pokemon(p).get_field(c).unwrap().unwrap()))
        .collect();
    let r = row(shown);
    assert_eq!(
        PokemonFDW::begin("party").update(&r),
        Ok(ClientCall::SetPokemon(UpdatePokemon {
            slot: 4,
            id: Some(0x54),
            hp: Some(3),
            level: Some(70),
            max_hp: Some(200),
            attack: Some(0x8000_0000),
            defense: Some(1),
            speed: Some(2),
            special: Some(u32::MAX),
        }))
    );
}

#[test]
fn every_declared_column_is_readable() {
    let p = ForeignRow::Pokemon(mon(1, 2));
    for c in ["id", "position", "hp", "level", "max_hp", "attack", "defense", "speed", "special"] {
        assert!(matches!(p.get_field(c), Ok(Some(Datum::Int(_)))), "{}", c);
    }
    let i = ForeignRow::Inventory(InventoryItem { item: Item { id: 1, quantity: 2 }, position: 0 });
    for c in ["id", "position", "quantity"] {
        assert!(matches!(i.get_field(c), Ok(Some(Datum::Int(_)))), "{}", c);
    }
    let e = ForeignRow::Event(Event { event: EventType::GotParcel, setting: false });
    assert!(matches!(e.get_field("event"), Ok(Some(Datum::Text(_)))));
    assert!(matches!(e.get_field("setting"), Ok(Some(Datum::Int(0)))));
}

#[test]
fn updates_without_the_key_column_are_refused() {
    let r = row(vec![("id", Datum::Int(1)), ("quantity", Datum::Int(1)), ("setting", Datum::Int(1))]);
    for t in ["party", "inventory", "story"] {
        let f = PokemonFDW::begin(t);
        assert_eq!(PokemonFDW::index_columns(t).unwrap().len(), 1);
        assert!(f.update(&r).is_err(), "{}", t);
    }
}

#[test]
fn unknown_table_names_are_reported() {
    assert_eq!(PokemonFDW::unknown_table_message("pokedex"), Some("Unknown table: pokedex".to_string()));
    assert_eq!(PokemonFDW::unknown_table_message("party"), None);
    assert_eq!(PokemonFDW::unknown_table_message("story"), None);
    assert_eq!(PokemonFDW::unknown_index_table_message("pokedex"), Some("unknown table pokedex".to_string()));
    assert_eq!(PokemonFDW::unknown_index_table_message("inventory"), None);
}

#[test]
fn a_failed_fetch_gives_no_row_and_asks_again() {
    let mut f = PokemonFDW::begin("inventory");
    assert_eq!(f.next(), ScanStep::Fetch(Table::Inventory));
    let (row, message) = f.fetch_failed("GrpcMessage(unavailable)");
    assert!(row.is_none());
    assert_eq!(message, "GrpcMessage(unavailable)");
    assert_eq!(f.next(), ScanStep::Fetch(Table::Inventory));
    f.deliver(inventory_rows(&vec![]));
    assert_eq!(f.next(), ScanStep::Done);
}
