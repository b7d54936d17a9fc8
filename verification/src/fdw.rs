//! The foreign data wrapper that shows the game as three tables: `party`,
//! `inventory` and `story`. Scanning a table fetches its rows once from the
//! emulator; updating or inserting a row becomes one request to it.

use vstd::prelude::*;
use crate::messages::{Event, EventType, InventoryItem, Pokemon};
use crate::row::{Datum, DatumView};
use crate::text::str_eq;

verus! {

/// The tables the wrapper serves.
#[derive(Clone, Copy, Debug, PartialEq, Eq, Structural)]
pub enum Table {
    Party,
    Inventory,
    Story,
}

/// The table a foreign table name stands for.
pub open spec fn table_named(name: Seq<char>) -> Option<Table> {
    if name == "party"@ {
        Some(Table::Party)
    } else if name == "inventory"@ {
        Some(Table::Inventory)
    } else if name == "story"@ {
        Some(Table::Story)
    } else {
        None
    }
}

impl Table {
    /// The table called `name`, if there is one.
    pub fn from_name(name: &str) -> (t: Option<Table>)
        ensures
            t == table_named(name@),
    {
        if str_eq(name, "party") {
            Some(Table::Party)
        } else if str_eq(name, "inventory") {
            Some(Table::Inventory)
        } else if str_eq(name, "story") {
            Some(Table::Story)
        } else {
            None
        }
    }
}

/// The columns of a `party` row.
pub open spec fn pokemon_field(p: Pokemon, name: Seq<char>) -> Option<u32> {
    if name == "id"@ {
        Some(p.id)
    } else if name == "hp"@ {
        Some(p.hp)
    } else if name == "level"@ {
        Some(p.level)
    } else if name == "max_hp"@ {
        Some(p.max_hp)
    } else if name == "attack"@ {
        Some(p.attack)
    } else if name == "defense"@ {
        Some(p.defense)
    } else if name == "speed"@ {
        Some(p.speed)
    } else if name == "special"@ {
        Some(p.special)
    } else if name == "position"@ {
        Some(p.position)
    } else {
        None
    }
}

/// The columns of an `inventory` row.
pub open spec fn inventory_field(i: InventoryItem, name: Seq<char>) -> Option<u32> {
    if name == "id"@ {
        Some(i.item.id)
    } else if name == "quantity"@ {
        Some(i.item.quantity)
    } else if name == "position"@ {
        Some(i.position)
    } else {
        None
    }
}

/// The name by which a story event is shown and set.
pub open spec fn event_type_name(e: EventType) -> Seq<char> {
    match e {
        EventType::GotPokedex => "GOT_POKEDEX"@,
        EventType::DeliveredParcel => "DELIVERED_PARCEL"@,
        EventType::GotParcel => "GOT_PARCEL"@,
    }
}

/// The story event shown under `name`.
pub open spec fn event_named(name: Seq<char>) -> Option<EventType> {
    if name == "GOT_POKEDEX"@ {
        Some(EventType::GotPokedex)
    } else if name == "DELIVERED_PARCEL"@ {
        Some(EventType::DeliveredParcel)
    } else if name == "GOT_PARCEL"@ {
        Some(EventType::GotParcel)
    } else {
        None
    }
}

/// The columns of a `story` row: the event's name as text, and whether it
/// happened as 1 or 0.
pub open spec fn event_field(e: Event, name: Seq<char>) -> Option<DatumView> {
    if name == "event"@ {
        Some(DatumView::Text(event_type_name(e.event)))
    } else if name == "setting"@ {
        Some(DatumView::Int(if e.setting { 1i32 } else { 0i32 }))
    } else {
        None
    }
}

/// What reading a column of a row gives: the value, or, for a column the
/// row does not have, the error `No such field'`.
pub open spec fn field_result(
    r: Result<Option<Datum>, &'static str>,
    expected: Option<DatumView>,
) -> bool {
    match r {
        Ok(Some(d)) => expected == Some(d@),
        Ok(None) => false,
        Err(e) => expected is None && e@ == "No such field'"@,
    }
}

impl EventType {
    /// The name by which this event is shown and set.
    pub fn name(&self) -> (s: &'static str)
        ensures
            s@ == event_type_name(*self),
    {
        match self {
            EventType::GotPokedex => "GOT_POKEDEX",
            EventType::DeliveredParcel => "DELIVERED_PARCEL",
            EventType::GotParcel => "GOT_PARCEL",
        }
    }

    /// The event shown under `name`.
    pub fn from_name(name: &str) -> (e: Option<EventType>)
        ensures
            e == event_named(name@),
    {
        if str_eq(name, "GOT_POKEDEX") {
            Some(EventType::GotPokedex)
        } else if str_eq(name, "DELIVERED_PARCEL") {
            Some(EventType::DeliveredParcel)
        } else if str_eq(name, "GOT_PARCEL") {
            Some(EventType::GotParcel)
        } else {
            None
        }
    }
}

impl Pokemon {
    /// The column `name` of this party row, as a 32-bit integer.
    pub fn get_field(&self, name: &str) -> (r: Result<Option<Datum>, &'static str>)
        ensures
            field_result(
                r,
                match pokemon_field(*self, name@) {
                    Some(v) => Some(DatumView::Int(v as i32)),
                    None => None,
                },
            ),
    {
        let val = if str_eq(name, "id") {
            self.id
        } else if str_eq(name, "hp") {
            self.hp
        } else if str_eq(name, "level") {
            self.level
        } else if str_eq(name, "max_hp") {
            self.max_hp
        } else if str_eq(name, "attack") {
            self.attack
        } else if str_eq(name, "defense") {
            self.defense
        } else if str_eq(name, "speed") {
            self.speed
        } else if str_eq(name, "special") {
            self.special
        } else if str_eq(name, "position") {
            self.position
        } else {
            return Err("No such field'");
        };
        Ok(Some(Datum::Int(val as i32)))
    }
}

impl InventoryItem {
    /// The column `name` of this inventory row, as a 32-bit integer.
    pub fn get_field(&self, name: &str) -> (r: Result<Option<Datum>, &'static str>)
        ensures
            field_result(
                r,
                match inventory_field(*self, name@) {
                    Some(v) => Some(DatumView::Int(v as i32)),
                    None => None,
                },
            ),
    {
        let val = if str_eq(name, "id") {
            self.item.id
        } else if str_eq(name, "quantity") {
            self.item.quantity
        } else if str_eq(name, "position") {
            self.position
        } else {
            return Err("No such field'");
        };
        Ok(Some(Datum::Int(val as i32)))
    }
}

impl Event {
    /// The column `name` of this story row.
    pub fn get_field(&self, name: &str) -> (r: Result<Option<Datum>, &'static str>)
        ensures
            field_result(r, event_field(*self, name@)),
    {
        if str_eq(name, "event") {
            Ok(Some(Datum::Text(String::from_str(self.event.name()))))
        } else if str_eq(name, "setting") {
            Ok(Some(Datum::Int(if self.setting { 1 } else { 0 })))
        } else {
            Err("No such field'")
        }
    }
}

/// A row of one of the three tables.
#[derive(Clone, Copy, Debug, PartialEq, Eq, Structural)]
pub enum ForeignRow {
    Pokemon(Pokemon),
    Inventory(InventoryItem),
    Event(Event),
}

/// The columns of a row of any table.
pub open spec fn row_field(r: ForeignRow, name: Seq<char>) -> Option<DatumView> {
    match r {
        ForeignRow::Pokemon(p) => match pokemon_field(p, name) {
            Some(v) => Some(DatumView::Int(v as i32)),
            None => None,
        },
        ForeignRow::Inventory(i) => match inventory_field(i, name) {
            Some(v) => Some(DatumView::Int(v as i32)),
            None => None,
        },
        ForeignRow::Event(e) => event_field(e, name),
    }
}

impl ForeignRow {
    /// The column `name` of this row.
    pub fn get_field(&self, name: &str) -> (r: Result<Option<Datum>, &'static str>)
        ensures
            field_result(r, row_field(*self, name@)),
    {
        match self {
            ForeignRow::Pokemon(p) => p.get_field(name),
            ForeignRow::Inventory(i) => i.get_field(name),
            ForeignRow::Event(e) => e.get_field(name),
        }
    }
}


/// The column and event names, told apart by their lengths and first
/// characters.
pub proof fn lemma_names_distinct()
    ensures
        "id"@.len() == 2 && "id"@[0] == 'i' && "id"@[1] == 'd',
        "position"@.len() == 8 && "position"@[0] == 'p' && "position"@[1] == 'o',
        "hp"@.len() == 2 && "hp"@[0] == 'h' && "hp"@[1] == 'p',
        "level"@.len() == 5 && "level"@[0] == 'l' && "level"@[1] == 'e',
        "max_hp"@.len() == 6 && "max_hp"@[0] == 'm' && "max_hp"@[1] == 'a',
        "attack"@.len() == 6 && "attack"@[0] == 'a' && "attack"@[1] == 't',
        "defense"@.len() == 7 && "defense"@[0] == 'd' && "defense"@[1] == 'e',
        "speed"@.len() == 5 && "speed"@[0] == 's' && "speed"@[1] == 'p',
        "special"@.len() == 7 && "special"@[0] == 's' && "special"@[1] == 'p',
        "quantity"@.len() == 8 && "quantity"@[0] == 'q' && "quantity"@[1] == 'u',
        "event"@.len() == 5 && "event"@[0] == 'e' && "event"@[1] == 'v',
        "setting"@.len() == 7 && "setting"@[0] == 's' && "setting"@[1] == 'e',
        "GOT_POKEDEX"@.len() == 11 && "GOT_POKEDEX"@[0] == 'G' && "GOT_POKEDEX"@[1] == 'O',
        "DELIVERED_PARCEL"@.len() == 16 && "DELIVERED_PARCEL"@[0] == 'D' && "DELIVERED_PARCEL"@[1] == 'E',
        "GOT_PARCEL"@.len() == 10 && "GOT_PARCEL"@[0] == 'G' && "GOT_PARCEL"@[1] == 'O',
        "GOT_POKEDEX"@[4] == 'P' && "GOT_PARCEL"@[4] == 'P' && "GOT_POKEDEX"@[5] == 'O' && "GOT_PARCEL"@[5] == 'A',
{
    reveal_strlit("id");
    reveal_strlit("position");
    reveal_strlit("hp");
    reveal_strlit("level");
    reveal_strlit("max_hp");
    reveal_strlit("attack");
    reveal_strlit("defense");
    reveal_strlit("speed");
    reveal_strlit("special");
    reveal_strlit("quantity");
    reveal_strlit("event");
    reveal_strlit("setting");
    reveal_strlit("GOT_POKEDEX");
    reveal_strlit("DELIVERED_PARCEL");
    reveal_strlit("GOT_PARCEL");
}

/// Each column of a `party` row shows the member's stat of that name, read
/// as a 32-bit integer; the row has no other column.
pub proof fn lemma_pokemon_columns(p: Pokemon)
    ensures
        row_field(ForeignRow::Pokemon(p), "id"@) == Some(DatumView::Int(p.id as i32)),
        row_field(ForeignRow::Pokemon(p), "position"@) == Some(DatumView::Int(p.position as i32)),
        row_field(ForeignRow::Pokemon(p), "hp"@) == Some(DatumView::Int(p.hp as i32)),
        row_field(ForeignRow::Pokemon(p), "level"@) == Some(DatumView::Int(p.level as i32)),
        row_field(ForeignRow::Pokemon(p), "max_hp"@) == Some(DatumView::Int(p.max_hp as i32)),
        row_field(ForeignRow::Pokemon(p), "attack"@) == Some(DatumView::Int(p.attack as i32)),
        row_field(ForeignRow::Pokemon(p), "defense"@) == Some(DatumView::Int(p.defense as i32)),
        row_field(ForeignRow::Pokemon(p), "speed"@) == Some(DatumView::Int(p.speed as i32)),
        row_field(ForeignRow::Pokemon(p), "special"@) == Some(DatumView::Int(p.special as i32)),
        forall|name: Seq<char>|
            #[trigger] row_field(ForeignRow::Pokemon(p), name) is Some ==> name == "id"@ || name
                == "position"@ || name == "hp"@ || name == "level"@ || name == "max_hp"@ || name
                == "attack"@ || name == "defense"@ || name == "speed"@ || name == "special"@,
{
    lemma_names_distinct();
}

/// The `id` column of a bag row shows the item's kind, `quantity` how many
/// of it there are, and `position` where it lies in the bag; the row has no
/// other column.
pub proof fn lemma_inventory_columns(i: InventoryItem)
    ensures
        row_field(ForeignRow::Inventory(i), "id"@) == Some(DatumView::Int(i.item.id as i32)),
        row_field(ForeignRow::Inventory(i), "quantity"@) == Some(
            DatumView::Int(i.item.quantity as i32),
        ),
        row_field(ForeignRow::Inventory(i), "position"@) == Some(DatumView::Int(i.position as i32)),
        forall|name: Seq<char>|
            #[trigger] row_field(ForeignRow::Inventory(i), name) is Some ==> name == "id"@ || name
                == "quantity"@ || name == "position"@,
{
    lemma_names_distinct();
}

/// The `event` column of a story row shows the event's name, which names
/// that event and no other, and `setting` shows 1 for a set event and 0
/// otherwise; the row has no other column.
pub proof fn lemma_event_columns(e: Event)
    ensures
        row_field(ForeignRow::Event(e), "event"@) == Some(DatumView::Text(event_type_name(e.event))),
        row_field(ForeignRow::Event(e), "setting"@) == Some(
            DatumView::Int(if e.setting { 1i32 } else { 0i32 }),
        ),
        event_named(event_type_name(e.event)) == Some(e.event),
        forall|f: EventType| #[trigger] event_type_name(f) == event_type_name(e.event) ==> f == e.event,
        forall|name: Seq<char>|
            #[trigger] row_field(ForeignRow::Event(e), name) is Some ==> name == "event"@ || name
                == "setting"@,
{
    lemma_names_distinct();
}

} // verus!
