//! Updates and inserts on the foreign tables: each row the database sends is
//! checked and turned into one request to the emulator, or refused with a
//! message.

use vstd::prelude::*;
use crate::catalog::key_column;
use crate::fdw::{event_named, event_type_name, lemma_names_distinct, row_field, ForeignRow, Table};
use crate::messages::{EventType, Pokemon, UpdatePokemon};
use crate::row::{
    lemma_lookup_absent, lemma_lookup_at, column_spec, get_column, get_number_column, int_of, lookup, number_column_spec, res_view,
    text_of, DatumView, Row,
};
use crate::scan::PokemonFDW;
use crate::text::{decimal, radix_digits};

verus! {

/// A request to the emulator that a change of a row calls for.
#[derive(Clone, Copy, Debug, PartialEq, Eq, Structural)]
pub enum ClientCall {
    /// Change a party member.
    SetPokemon(UpdatePokemon),
    /// Overwrite the bag position `slot`.
    UpdateItem { slot: u32, id: u32, quantity: u32 },
    /// Set a story event.
    SetEvent { event: EventType, setting: bool },
    /// Add an item to the bag.
    AddItem { id: u32, quantity: u32 },
}

/// The message that precedes the emulator's error when a request fails.
pub open spec fn failure_prefix(c: ClientCall) -> Seq<char> {
    match c {
        ClientCall::SetPokemon(_) => "Failed to update pokemon: "@,
        ClientCall::UpdateItem { .. } => "Update failed: "@,
        ClientCall::SetEvent { .. } => "Update failed: "@,
        ClientCall::AddItem { .. } => "Insert failed: "@,
    }
}

impl ClientCall {
    /// The message for a failed request, given the emulator's error text.
    pub fn failure_message(&self, detail: &str) -> (m: String)
        ensures
            m@ == failure_prefix(*self) + detail@,
    {
        let mut m = match self {
            ClientCall::SetPokemon(_) => String::from_str("Failed to update pokemon: "),
            ClientCall::UpdateItem { .. } => String::from_str("Update failed: "),
            ClientCall::SetEvent { .. } => String::from_str("Update failed: "),
            ClientCall::AddItem { .. } => String::from_str("Insert failed: "),
        };
        m.append(detail);
        m
    }
}

/// The party slot a row names: it must have a `position`, holding an
/// integer, read as unsigned, of at most 5.
pub open spec fn party_slot_spec(row: Seq<(Seq<char>, DatumView)>) -> Result<u32, Seq<char>> {
    match lookup(row, "position"@) {
        None => Err("tried to update pokemon without a position!"@),
        Some(d) => match int_of(d) {
            Err(e) => Err("couldn't convert position: "@ + e),
            Ok(i) => if (i as u32) > 5 {
                Err("Invalid slot "@ + radix_digits((i as u32) as nat, 10))
            } else {
                Ok(i as u32)
            },
        },
    }
}

/// The change a `party` row asks for: the slot, then each of `id`, `hp`,
/// `level`, `max_hp`, `attack`, `defense`, `speed`, `special` in this order,
/// the first failure giving the error.
pub open spec fn party_update_spec(row: Seq<(Seq<char>, DatumView)>) -> Result<
    UpdatePokemon,
    Seq<char>,
> {
    match party_slot_spec(row) {
        Err(e) => Err(e),
        Ok(slot) => match column_spec(row, "id"@) {
            Err(e) => Err(e),
            Ok(id) => match column_spec(row, "hp"@) {
                Err(e) => Err(e),
                Ok(hp) => match column_spec(row, "level"@) {
                    Err(e) => Err(e),
                    Ok(level) => match column_spec(row, "max_hp"@) {
                        Err(e) => Err(e),
                        Ok(max_hp) => match column_spec(row, "attack"@) {
                            Err(e) => Err(e),
                            Ok(attack) => match column_spec(row, "defense"@) {
                                Err(e) => Err(e),
                                Ok(defense) => match column_spec(row, "speed"@) {
                                    Err(e) => Err(e),
                                    Ok(speed) => match column_spec(row, "special"@) {
                                        Err(e) => Err(e),
                                        Ok(special) => Ok(
                                            UpdatePokemon {
                                                slot,
                                                id,
                                                hp,
                                                level,
                                                max_hp,
                                                attack,
                                                defense,
                                                speed,
                                                special,
                                            },
                                        ),
                                    },
                                },
                            },
                        },
                    },
                },
            },
        },
    }
}

/// The request an `inventory` row asks for: `position`, `id` and `quantity`,
/// in this order, must each hold an integer.
pub open spec fn inventory_update_spec(row: Seq<(Seq<char>, DatumView)>) -> Result<
    ClientCall,
    Seq<char>,
> {
    match number_column_spec(row, "position"@) {
        Err(e) => Err(e),
        Ok(slot) => match number_column_spec(row, "id"@) {
            Err(e) => Err(e),
            Ok(id) => match number_column_spec(row, "quantity"@) {
                Err(e) => Err(e),
                Ok(quantity) => Ok(ClientCall::UpdateItem { slot, id, quantity }),
            },
        },
    }
}

/// The request a `story` row asks for: `event` must name a known event, and
/// `setting` must hold an integer, any non-zero value meaning set.
pub open spec fn event_update_spec(row: Seq<(Seq<char>, DatumView)>) -> Result<
    ClientCall,
    Seq<char>,
> {
    match lookup(row, "event"@) {
        None => Err("Missing event"@),
        Some(d) => match text_of(d) {
            Err(e) => Err(e),
            Ok(name) => match event_named(name) {
                None => Err("Unknown event "@ + name),
                Some(event) => match number_column_spec(row, "setting"@) {
                    Err(e) => Err(e),
                    Ok(setting) => Ok(ClientCall::SetEvent { event, setting: setting != 0 }),
                },
            },
        },
    }
}

/// The request a new `inventory` row asks for: `id` and `quantity` must each
/// hold an integer, and the row must not give a `position` other than NULL.
pub open spec fn insert_item_spec(row: Seq<(Seq<char>, DatumView)>) -> Result<
    ClientCall,
    Seq<char>,
> {
    match number_column_spec(row, "id"@) {
        Err(e) => Err(e),
        Ok(id) => match number_column_spec(row, "quantity"@) {
            Err(e) => Err(e),
            Ok(quantity) => match lookup(row, "position"@) {
                Some(v) if !(v is Null) => Err("Can't provide position for insert"@),
                _ => Ok(ClientCall::AddItem { id, quantity }),
            },
        },
    }
}

/// The request an update of a row of `table` asks for.
pub open spec fn update_spec(table: Table, row: Seq<(Seq<char>, DatumView)>) -> Result<
    ClientCall,
    Seq<char>,
> {
    match table {
        Table::Story => event_update_spec(row),
        Table::Party => match party_update_spec(row) {
            Ok(u) => Ok(ClientCall::SetPokemon(u)),
            Err(e) => Err(e),
        },
        Table::Inventory => inventory_update_spec(row),
    }
}

/// The request an insert into `table` asks for: only the bag takes new rows.
pub open spec fn insert_spec(table: Table, row: Seq<(Seq<char>, DatumView)>) -> Result<
    ClientCall,
    Seq<char>,
> {
    match table {
        Table::Story => Err("Can't insert into Story"@),
        Table::Party => Err("Can't insert into Party"@),
        Table::Inventory => insert_item_spec(row),
    }
}

/// Reads the party slot of a row.
fn party_slot(row: &Row) -> (res: Result<u32, String>)
    ensures
        res_view(res) == party_slot_spec(row@),
{
    let slot = match row.get("position") {
        Some(slot) => match slot.to_i32() {
            Ok(i) => i as u32,
            Err(err) => {
                let mut m = String::from_str("couldn't convert position: ");
                m.append(err.as_str());
                return Err(m);
            },
        },
        None => return Err(String::from_str("tried to update pokemon without a position!")),
    };
    if slot > 5 {
        let mut m = String::from_str("Invalid slot ");
        m.append(decimal(slot).as_str());
        return Err(m);
    }
    Ok(slot)
}

impl PokemonFDW {
    /// The change an updated `party` row asks for.
    pub fn update_party(&self, row: &Row) -> (res: Result<ClientCall, String>)
        ensures
            res_view(res) == match party_update_spec(row@) {
                Ok(u) => Ok(ClientCall::SetPokemon(u)),
                Err(e) => Err(e),
            },
    {
        let slot = match party_slot(row) {
            Ok(s) => s,
            Err(e) => return Err(e),
        };
        let id = match get_column(row, "id") {
            Ok(v) => v,
            Err(e) => return Err(e),
        };
        let hp = match get_column(row, "hp") {
            Ok(v) => v,
            Err(e) => return Err(e),
        };
        let level = match get_column(row, "level") {
            Ok(v) => v,
            Err(e) => return Err(e),
        };
        let max_hp = match get_column(row, "max_hp") {
            Ok(v) => v,
            Err(e) => return Err(e),
        };
        let attack = match get_column(row, "attack") {
            Ok(v) => v,
            Err(e) => return Err(e),
        };
        let defense = match get_column(row, "defense") {
            Ok(v) => v,
            Err(e) => return Err(e),
        };
        let speed = match get_column(row, "speed") {
            Ok(v) => v,
            Err(e) => return Err(e),
        };
        let special = match get_column(row, "special") {
            Ok(v) => v,
            Err(e) => return Err(e),
        };
        Ok(
            ClientCall::SetPokemon(
                UpdatePokemon { slot, id, hp, level, max_hp, attack, defense, speed, special },
            ),
        )
    }

    /// The request an updated `inventory` row asks for.
    pub fn update_inventory(&self, row: &Row) -> (res: Result<ClientCall, String>)
        ensures
            res_view(res) == inventory_update_spec(row@),
    {
        let position = match get_number_column(row, "position") {
            Ok(v) => v,
            Err(e) => return Err(e),
        };
        let id = match get_number_column(row, "id") {
            Ok(v) => v,
            Err(e) => return Err(e),
        };
        let quantity = match get_number_column(row, "quantity") {
            Ok(v) => v,
            Err(e) => return Err(e),
        };
        Ok(ClientCall::UpdateItem { slot: position, id, quantity })
    }

    /// The request an updated `story` row asks for.
    pub fn update_event(&self, row: &Row) -> (res: Result<ClientCall, String>)
        ensures
            res_view(res) == event_update_spec(row@),
    {
        let evt_string = match row.get("event") {
            Some(evt) => match evt.to_text() {
                Ok(s) => s,
                Err(e) => return Err(e),
            },
            None => return Err(String::from_str("Missing event")),
        };
        let evt = match EventType::from_name(evt_string.as_str()) {
            Some(e) => e,
            None => {
                let mut m = String::from_str("Unknown event ");
                m.append(evt_string.as_str());
                return Err(m);
            },
        };
        let setting = match get_number_column(row, "setting") {
            Ok(v) => v,
            Err(e) => return Err(e),
        };
        Ok(ClientCall::SetEvent { event: evt, setting: setting != 0 })
    }

    /// The request a new `inventory` row asks for.
    pub fn insert_item(&self, row: &Row) -> (res: Result<ClientCall, String>)
        ensures
            res_view(res) == insert_item_spec(row@),
    {
        let id = match get_number_column(row, "id") {
            Ok(v) => v,
            Err(e) => return Err(e),
        };
        let quantity = match get_number_column(row, "quantity") {
            Ok(v) => v,
            Err(e) => return Err(e),
        };
        if let Some(v) = row.get("position") {
            if !v.is_null() {
                return Err(String::from_str("Can't provide position for insert"));
            }
        }
        Ok(ClientCall::AddItem { id, quantity })
    }

    /// The request an update of a row of the scanned table asks for.
    pub fn update(&self, row: &Row) -> (res: Result<ClientCall, String>)
        ensures
            res_view(res) == update_spec(self@.table, row@),
    {
        match self.table() {
            Table::Story => self.update_event(row),
            Table::Party => self.update_party(row),
            Table::Inventory => self.update_inventory(row),
        }
    }

    /// The request an insert into the scanned table asks for.
    pub fn insert(&self, row: &Row) -> (res: Result<ClientCall, String>)
        ensures
            res_view(res) == insert_spec(self@.table, row@),
    {
        match self.table() {
            Table::Story => Err(String::from_str("Can't insert into Story")),
            Table::Party => Err(String::from_str("Can't insert into Party")),
            Table::Inventory => self.insert_item(row),
        }
    }
}

/// Whether a request is of the kind a table's rows call for.
pub open spec fn call_fits_table(c: ClientCall, t: Table) -> bool {
    match (c, t) {
        (ClientCall::SetPokemon(_), Table::Party) => true,
        (ClientCall::UpdateItem { .. }, Table::Inventory) => true,
        (ClientCall::SetEvent { .. }, Table::Story) => true,
        _ => false,
    }
}

/// An update never reaches past the six party slots, and always asks for
/// the kind of request its table calls for; an insert is only ever taken by
/// the bag, where it adds an item.
pub proof fn lemma_modifications_fit_table(t: Table, row: Seq<(Seq<char>, DatumView)>)
    ensures
        update_spec(t, row) matches Ok(c) ==> call_fits_table(c, t),
        update_spec(t, row) matches Ok(ClientCall::SetPokemon(u)) ==> u.slot <= 5,
        insert_spec(t, row) is Ok ==> t == Table::Inventory,
        insert_spec(t, row) matches Ok(c) ==> c is AddItem,
{
}

/// A 32-bit value read as a signed integer and back as unsigned is itself.
proof fn lemma_u32_i32_u32(v: u32)
    ensures
        (v as i32) as u32 == v,
{
    assert((v as i32) as u32 == v) by (bit_vector);
}

/// A `party` row as the table shows a party member: each column holds the
/// member's value read as a 32-bit integer.
pub open spec fn shown_party_row(p: Pokemon) -> Seq<(Seq<char>, DatumView)> {
    seq![
        ("id"@, DatumView::Int(p.id as i32)),
        ("position"@, DatumView::Int(p.position as i32)),
        ("hp"@, DatumView::Int(p.hp as i32)),
        ("level"@, DatumView::Int(p.level as i32)),
        ("max_hp"@, DatumView::Int(p.max_hp as i32)),
        ("attack"@, DatumView::Int(p.attack as i32)),
        ("defense"@, DatumView::Int(p.defense as i32)),
        ("speed"@, DatumView::Int(p.speed as i32)),
        ("special"@, DatumView::Int(p.special as i32)),
    ]
}

/// The row shown for a party member holds exactly the columns the member's
/// row reports; writing that row back unchanged asks the emulator to set
/// every stat of the member in the same slot to the value it already has.
pub proof fn lemma_party_write_back(p: Pokemon)
    requires
        p.position <= 5,
    ensures
        forall|name: Seq<char>|
            lookup(shown_party_row(p), name) == #[trigger] row_field(ForeignRow::Pokemon(p), name),
        update_spec(Table::Party, shown_party_row(p)) == Ok::<ClientCall, Seq<char>>(
            ClientCall::SetPokemon(
                UpdatePokemon {
                    slot: p.position,
                    id: Some(p.id),
                    hp: Some(p.hp),
                    level: Some(p.level),
                    max_hp: Some(p.max_hp),
                    attack: Some(p.attack),
                    defense: Some(p.defense),
                    speed: Some(p.speed),
                    special: Some(p.special),
                },
            ),
        ),
{
    reveal_strlit("id");
    reveal_strlit("position");
    reveal_strlit("hp");
    reveal_strlit("level");
    reveal_strlit("max_hp");
    reveal_strlit("attack");
    reveal_strlit("defense");
    reveal_strlit("speed");
    reveal_strlit("special");
    lemma_u32_i32_u32(p.id);
    lemma_u32_i32_u32(p.position);
    lemma_u32_i32_u32(p.hp);
    lemma_u32_i32_u32(p.level);
    lemma_u32_i32_u32(p.max_hp);
    lemma_u32_i32_u32(p.attack);
    lemma_u32_i32_u32(p.defense);
    lemma_u32_i32_u32(p.speed);
    lemma_u32_i32_u32(p.special);
    let r = shown_party_row(p);
    assert("id"@.len() == 2 && "id"@[0] == 'i');
    assert("position"@.len() == 8 && "position"@[0] == 'p');
    assert("hp"@.len() == 2 && "hp"@[0] == 'h');
    assert("level"@.len() == 5 && "level"@[0] == 'l');
    assert("max_hp"@.len() == 6 && "max_hp"@[0] == 'm');
    assert("attack"@.len() == 6 && "attack"@[0] == 'a');
    assert("defense"@.len() == 7 && "defense"@[0] == 'd');
    assert("speed"@.len() == 5 && "speed"@[0] == 's');
    assert("special"@.len() == 7 && "special"@[0] == 's');
    lemma_lookup_at(r, 0, "id"@);
    lemma_lookup_at(r, 1, "position"@);
    lemma_lookup_at(r, 2, "hp"@);
    lemma_lookup_at(r, 3, "level"@);
    lemma_lookup_at(r, 4, "max_hp"@);
    lemma_lookup_at(r, 5, "attack"@);
    lemma_lookup_at(r, 6, "defense"@);
    lemma_lookup_at(r, 7, "speed"@);
    lemma_lookup_at(r, 8, "special"@);
    assert forall|name: Seq<char>|
        lookup(r, name) == #[trigger] row_field(ForeignRow::Pokemon(p), name) by {
        if name == "id"@ {
        } else if name == "position"@ {
        } else if name == "hp"@ {
        } else if name == "level"@ {
        } else if name == "max_hp"@ {
        } else if name == "attack"@ {
        } else if name == "defense"@ {
        } else if name == "speed"@ {
        } else if name == "special"@ {
        } else {
            lemma_lookup_absent(r, name);
        }
    }
}

/// An update of a row that lacks its table's key column is refused.
pub proof fn lemma_update_needs_key(t: Table, row: Seq<(Seq<char>, DatumView)>)
    requires
        lookup(row, key_column(t)) is None,
    ensures
        update_spec(t, row) is Err,
{
}

/// A 32-bit value read as unsigned and back as signed is itself, and it is
/// zero as unsigned exactly when it is zero.
proof fn lemma_i32_u32_i32(v: i32)
    ensures
        (v as u32) as i32 == v,
        ((v as u32) == 0) == (v == 0),
{
    assert((v as u32) as i32 == v) by (bit_vector);
    assert(((v as u32) == 0) == (v == 0)) by (bit_vector);
}

/// The unsigned value an integer column holds, where it holds one.
pub open spec fn stat_of(row: Seq<(Seq<char>, DatumView)>, name: Seq<char>) -> Option<u32> {
    match lookup(row, name) {
        Some(DatumView::Int(v)) => Some(v as u32),
        _ => None,
    }
}

/// Whether a column is absent or holds an integer.
pub open spec fn absent_or_int(row: Seq<(Seq<char>, DatumView)>, name: Seq<char>) -> bool {
    match lookup(row, name) {
        None => true,
        Some(DatumView::Int(_)) => true,
        _ => false,
    }
}

/// The change an accepted `party` row asks for targets the slot its
/// `position` column holds, one of the six, and sets each stat to what the
/// column of that name holds, leaving the stats whose column is absent.
pub proof fn lemma_party_update_reads_columns(row: Seq<(Seq<char>, DatumView)>, u: UpdatePokemon)
    requires
        update_spec(Table::Party, row) == Ok::<ClientCall, Seq<char>>(ClientCall::SetPokemon(u)),
    ensures
        lookup(row, "position"@) == Some(DatumView::Int(u.slot as i32)),
        u.slot <= 5,
        u.id == stat_of(row, "id"@),
        u.hp == stat_of(row, "hp"@),
        u.level == stat_of(row, "level"@),
        u.max_hp == stat_of(row, "max_hp"@),
        u.attack == stat_of(row, "attack"@),
        u.defense == stat_of(row, "defense"@),
        u.speed == stat_of(row, "speed"@),
        u.special == stat_of(row, "special"@),
{
    if let Some(DatumView::Int(v)) = lookup(row, "position"@) {
        lemma_i32_u32_i32(v);
    }
}

/// A `party` row is accepted when its `position` holds an integer naming
/// one of the six slots and each stat column is absent or holds an integer.
pub proof fn lemma_party_update_succeeds(row: Seq<(Seq<char>, DatumView)>, pos: i32)
    requires
        lookup(row, "position"@) == Some(DatumView::Int(pos)),
        (pos as u32) <= 5,
        absent_or_int(row, "id"@),
        absent_or_int(row, "hp"@),
        absent_or_int(row, "level"@),
        absent_or_int(row, "max_hp"@),
        absent_or_int(row, "attack"@),
        absent_or_int(row, "defense"@),
        absent_or_int(row, "speed"@),
        absent_or_int(row, "special"@),
    ensures
        update_spec(Table::Party, row) is Ok,
{
}

/// An `inventory` row whose `position`, `id` and `quantity` hold integers
/// asks to put that quantity of that item at that position, whatever the
/// position, the first one included.
pub proof fn lemma_inventory_update(row: Seq<(Seq<char>, DatumView)>, p: i32, i: i32, q: i32)
    requires
        lookup(row, "position"@) == Some(DatumView::Int(p)),
        lookup(row, "id"@) == Some(DatumView::Int(i)),
        lookup(row, "quantity"@) == Some(DatumView::Int(q)),
    ensures
        update_spec(Table::Inventory, row) == Ok::<ClientCall, Seq<char>>(
            ClientCall::UpdateItem { slot: p as u32, id: i as u32, quantity: q as u32 },
        ),
{
}

/// The request an accepted `inventory` row asks for puts at the position its
/// `position` column holds the item its `id` column holds, as many as its
/// `quantity` column holds.
pub proof fn lemma_inventory_update_reads_columns(
    row: Seq<(Seq<char>, DatumView)>,
    c: ClientCall,
)
    requires
        update_spec(Table::Inventory, row) == Ok::<ClientCall, Seq<char>>(c),
    ensures
        c matches ClientCall::UpdateItem { slot, id, quantity } && lookup(row, "position"@) == Some(
            DatumView::Int(slot as i32),
        ) && lookup(row, "id"@) == Some(DatumView::Int(id as i32)) && lookup(row, "quantity"@)
            == Some(DatumView::Int(quantity as i32)),
{
    if let Some(DatumView::Int(v)) = lookup(row, "position"@) {
        lemma_i32_u32_i32(v);
    }
    if let Some(DatumView::Int(v)) = lookup(row, "id"@) {
        lemma_i32_u32_i32(v);
    }
    if let Some(DatumView::Int(v)) = lookup(row, "quantity"@) {
        lemma_i32_u32_i32(v);
    }
}

/// A new `inventory` row whose `id` and `quantity` hold integers and which
/// gives no position (or a NULL one) asks to add that quantity of that very
/// item.
pub proof fn lemma_insert_item(row: Seq<(Seq<char>, DatumView)>, i: i32, q: i32)
    requires
        lookup(row, "id"@) == Some(DatumView::Int(i)),
        lookup(row, "quantity"@) == Some(DatumView::Int(q)),
        lookup(row, "position"@) is None || lookup(row, "position"@) == Some(DatumView::Null),
    ensures
        insert_spec(Table::Inventory, row) == Ok::<ClientCall, Seq<char>>(
            ClientCall::AddItem { id: i as u32, quantity: q as u32 },
        ),
{
}

/// An accepted insert is into the bag, and adds the item its `id` column
/// holds, as many as its `quantity` column holds, from a row that gives no
/// position other than NULL.
pub proof fn lemma_insert_reads_columns(t: Table, row: Seq<(Seq<char>, DatumView)>, c: ClientCall)
    requires
        insert_spec(t, row) == Ok::<ClientCall, Seq<char>>(c),
    ensures
        t == Table::Inventory,
        c matches ClientCall::AddItem { id, quantity } && lookup(row, "id"@) == Some(
            DatumView::Int(id as i32),
        ) && lookup(row, "quantity"@) == Some(DatumView::Int(quantity as i32)),
        lookup(row, "position"@) is None || lookup(row, "position"@) == Some(DatumView::Null),
{
    if let Some(DatumView::Int(v)) = lookup(row, "id"@) {
        lemma_i32_u32_i32(v);
    }
    if let Some(DatumView::Int(v)) = lookup(row, "quantity"@) {
        lemma_i32_u32_i32(v);
    }
}

/// A `story` row whose `event` holds the name of an event and whose
/// `setting` holds an integer asks to set that very event, on exactly when
/// the integer is not zero.
pub proof fn lemma_event_update(row: Seq<(Seq<char>, DatumView)>, e: EventType, s: i32)
    requires
        lookup(row, "event"@) == Some(DatumView::Text(event_type_name(e))),
        lookup(row, "setting"@) == Some(DatumView::Int(s)),
    ensures
        update_spec(Table::Story, row) == Ok::<ClientCall, Seq<char>>(
            ClientCall::SetEvent { event: e, setting: s != 0 },
        ),
{
    lemma_names_distinct();
    lemma_i32_u32_i32(s);
}

/// The request an accepted `story` row asks for sets the event whose name
/// its `event` column holds, on exactly when its `setting` column holds a
/// non-zero integer.
pub proof fn lemma_event_update_reads_columns(row: Seq<(Seq<char>, DatumView)>, c: ClientCall)
    requires
        update_spec(Table::Story, row) == Ok::<ClientCall, Seq<char>>(c),
    ensures
        c matches ClientCall::SetEvent { event, setting } && lookup(row, "event"@) == Some(
            DatumView::Text(event_type_name(event)),
        ) && (exists|s: i32|
            lookup(row, "setting"@) == Some(DatumView::Int(s)) && setting == (s != 0)),
{
    if let Some(DatumView::Int(v)) = lookup(row, "setting"@) {
        lemma_i32_u32_i32(v);
    }
}

} // verus!
