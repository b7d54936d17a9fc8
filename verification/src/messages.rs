//! The messages exchanged with the emulator's RPC service, as plain values.

use vstd::prelude::*;

verus! {

/// A party member as the emulator reports it.
#[derive(Clone, Copy, Debug, PartialEq, Eq, Structural)]
pub struct Pokemon {
    pub id: u32,
    pub position: u32,
    pub hp: u32,
    pub level: u32,
    pub max_hp: u32,
    pub attack: u32,
    pub defense: u32,
    pub speed: u32,
    pub special: u32,
}

/// An item kind and how many of it.
#[derive(Clone, Copy, Debug, PartialEq, Eq, Structural)]
pub struct Item {
    pub id: u32,
    pub quantity: u32,
}

/// An item at a position of the bag.
#[derive(Clone, Copy, Debug, PartialEq, Eq, Structural)]
pub struct InventoryItem {
    pub item: Item,
    pub position: u32,
}

/// The story events the emulator exposes.
#[derive(Clone, Copy, Debug, PartialEq, Eq, Structural)]
pub enum EventType {
    GotPokedex,
    DeliveredParcel,
    GotParcel,
}

/// A story event and whether it has happened.
#[derive(Clone, Copy, Debug, PartialEq, Eq, Structural)]
pub struct Event {
    pub event: EventType,
    pub setting: bool,
}

/// A change to the party member in `slot`: each field that is `Some` is set,
/// the others are left as they are.
#[derive(Clone, Copy, Debug, PartialEq, Eq, Structural)]
pub struct UpdatePokemon {
    pub slot: u32,
    pub id: Option<u32>,
    pub hp: Option<u32>,
    pub level: Option<u32>,
    pub max_hp: Option<u32>,
    pub attack: Option<u32>,
    pub defense: Option<u32>,
    pub speed: Option<u32>,
    pub special: Option<u32>,
}

/// The request that updates a party member: `position` is the slot, and a
/// field that is `None` is not set in the message.
#[derive(Clone, Copy, Debug, PartialEq, Eq, Structural)]
pub struct UpdatePokemonRequest {
    pub position: u32,
    pub id: Option<u32>,
    pub hp: Option<u32>,
    pub level: Option<u32>,
    pub max_hp: Option<u32>,
    pub attack: Option<u32>,
    pub defense: Option<u32>,
    pub speed: Option<u32>,
    pub special: Option<u32>,
}

/// The request that adds an item to the bag.
#[derive(Clone, Copy, Debug, PartialEq, Eq, Structural)]
pub struct AddItemRequest {
    pub item: Item,
}

/// The request that overwrites a bag position.
#[derive(Clone, Copy, Debug, PartialEq, Eq, Structural)]
pub struct UpdateInventoryRequest {
    pub item: InventoryItem,
}

/// The request that writes `value` at memory address `location`.
#[derive(Clone, Copy, Debug, PartialEq, Eq, Structural)]
pub struct MemoryUpdate {
    pub location: u32,
    pub value: u32,
}

/// The request that sets a story event.
#[derive(Clone, Copy, Debug, PartialEq, Eq, Structural)]
pub struct SetEventRequest {
    pub event: EventType,
    pub setting: bool,
}

/// The request for an update: the slot becomes the position, and every field
/// of the update is carried over, set exactly where the update sets it.
pub open spec fn update_request_spec(p: UpdatePokemon) -> UpdatePokemonRequest {
    UpdatePokemonRequest {
        position: p.slot,
        id: p.id,
        hp: p.hp,
        level: p.level,
        max_hp: p.max_hp,
        attack: p.attack,
        defense: p.defense,
        speed: p.speed,
        special: p.special,
    }
}

impl<'a> From<&'a UpdatePokemon> for UpdatePokemonRequest {
    fn from(p: &'a UpdatePokemon) -> (req: UpdatePokemonRequest)
        ensures
            req.position == p.slot,
            req.id == p.id,
            req.hp == p.hp,
            req.level == p.level,
            req.max_hp == p.max_hp,
            req.attack == p.attack,
            req.defense == p.defense,
            req.speed == p.speed,
            req.special == p.special,
    {
        let mut req = UpdatePokemonRequest {
            position: p.slot,
            id: None,
            hp: None,
            level: None,
            max_hp: None,
            attack: None,
            defense: None,
            speed: None,
            special: None,
        };
        if let Some(id) = p.id {
            req.id = Some(id);
        }
        if let Some(hp) = p.hp {
            req.hp = Some(hp);
        }
        if let Some(level) = p.level {
            req.level = Some(level);
        }
        if let Some(max_hp) = p.max_hp {
            req.max_hp = Some(max_hp);
        }
        if let Some(attack) = p.attack {
            req.attack = Some(attack);
        }
        if let Some(defense) = p.defense {
            req.defense = Some(defense);
        }
        if let Some(speed) = p.speed {
            req.speed = Some(speed);
        }
        if let Some(special) = p.special {
            req.special = Some(special);
        }
        req
    }
}

impl<'a> vstd::std_specs::convert::FromSpecImpl<&'a UpdatePokemon> for UpdatePokemonRequest {
    open spec fn obeys_from_spec() -> bool {
        true
    }

    open spec fn from_spec(p: &'a UpdatePokemon) -> UpdatePokemonRequest {
        update_request_spec(*p)
    }
}

/// The request for an update targets the update's slot, and sets each stat
/// exactly where the update gives it, to the value the update gives: the hit
/// points to the hit points, the maximum to the maximum, and so on.
pub proof fn lemma_update_request_fields(p: UpdatePokemon)
    ensures
        update_request_spec(p).position == p.slot,
        update_request_spec(p).id == p.id,
        update_request_spec(p).hp == p.hp,
        update_request_spec(p).level == p.level,
        update_request_spec(p).max_hp == p.max_hp,
        update_request_spec(p).attack == p.attack,
        update_request_spec(p).defense == p.defense,
        update_request_spec(p).speed == p.speed,
        update_request_spec(p).special == p.special,
{
}

} // verus!
