//! The client of the emulator's RPC service: where it listens, and the
//! message each operation sends.

use vstd::prelude::*;
use crate::messages::{
    update_request_spec, AddItemRequest, EventType, InventoryItem, Item, MemoryUpdate,
    SetEventRequest, UpdateInventoryRequest, UpdatePokemon, UpdatePokemonRequest,
};
use crate::modify::ClientCall;

verus! {

/// A client of the emulator, which listens on a Unix socket.
pub struct Client {
    socket_path: String,
}

impl View for Client {
    type V = Seq<char>;

    /// The path of the socket the client talks to.
    closed spec fn view(&self) -> Seq<char> {
        self.socket_path@
    }
}

/// One call of the emulator's service, with its message.
#[derive(Clone, Copy, Debug, PartialEq, Eq, Structural)]
pub enum Rpc {
    UpdatePokemon(UpdatePokemonRequest),
    UpdateInventory(UpdateInventoryRequest),
    SetEvent(SetEventRequest),
    AddItem(AddItemRequest),
}

/// The call that carries out a request of the wrapper.
pub open spec fn rpc_for(call: ClientCall) -> Rpc {
    match call {
        ClientCall::SetPokemon(u) => Rpc::UpdatePokemon(update_request_spec(u)),
        ClientCall::UpdateItem { slot, id, quantity } => Rpc::UpdateInventory(
            UpdateInventoryRequest {
                item: InventoryItem { item: Item { id, quantity }, position: slot },
            },
        ),
        ClientCall::SetEvent { event, setting } => Rpc::SetEvent(SetEventRequest { event, setting }),
        ClientCall::AddItem { id, quantity } => Rpc::AddItem(
            AddItemRequest { item: Item { id, quantity } },
        ),
    }
}

impl Client {
    /// A client of the emulator at its usual socket, `/tmp/ppp`.
    pub fn new() -> (c: Client)
        ensures
            c@ == "/tmp/ppp"@,
    {
        Client { socket_path: String::from_str("/tmp/ppp") }
    }

    /// The path of the socket this client talks to.
    pub fn socket_path(&self) -> (p: &str)
        ensures
            p@ == self@,
    {
        self.socket_path.as_str()
    }

    /// The message that adds `quantity` of item `id` to the bag.
    pub fn add_item_request(&self, id: u32, quantity: u32) -> (r: AddItemRequest)
        ensures
            r == (AddItemRequest { item: Item { id, quantity } }),
    {
        AddItemRequest { item: Item { id, quantity } }
    }

    /// The message that puts `quantity` of item `id` at bag position `slot`.
    pub fn update_item_request(&self, slot: u32, id: u32, quantity: u32) -> (r:
        UpdateInventoryRequest)
        ensures
            r == (UpdateInventoryRequest {
                item: InventoryItem { item: Item { id, quantity }, position: slot },
            }),
    {
        UpdateInventoryRequest { item: InventoryItem { item: Item { id, quantity }, position: slot } }
    }

    /// The message that writes `val` at memory address `dest`.
    pub fn set_memory_request(&self, dest: u32, val: u32) -> (r: MemoryUpdate)
        ensures
            r == (MemoryUpdate { location: dest, value: val }),
    {
        MemoryUpdate { location: dest, value: val }
    }

    /// The message that applies the change `p` to a party member.
    pub fn set_pokemon_request(&self, p: &UpdatePokemon) -> (r: UpdatePokemonRequest)
        ensures
            r == update_request_spec(*p),
    {
        UpdatePokemonRequest::from(p)
    }

    /// The message that sets a story event.
    pub fn set_event_request(&self, event: EventType, setting: bool) -> (r: SetEventRequest)
        ensures
            r == (SetEventRequest { event, setting }),
    {
        SetEventRequest { event, setting }
    }

    /// The call that carries out a request of the wrapper.
    pub fn rpc(&self, call: &ClientCall) -> (r: Rpc)
        ensures
            r == rpc_for(*call),
    {
        match call {
            ClientCall::SetPokemon(u) => Rpc::UpdatePokemon(self.set_pokemon_request(u)),
            ClientCall::UpdateItem { slot, id, quantity } => Rpc::UpdateInventory(
                self.update_item_request(*slot, *id, *quantity),
            ),
            ClientCall::SetEvent { event, setting } => Rpc::SetEvent(
                self.set_event_request(*event, *setting),
            ),
            ClientCall::AddItem { id, quantity } => Rpc::AddItem(
                self.add_item_request(*id, *quantity),
            ),
        }
    }
}

/// Each request of the wrapper goes out as the call of its kind, carrying
/// its values in the fields of the same meaning: the bag position as the
/// item's position, the item kind as the item's id, the count as its
/// quantity, the party slot as the position, each stat as that stat.
pub proof fn lemma_rpc_fields(call: ClientCall)
    ensures
        call matches ClientCall::UpdateItem { slot, id, quantity } ==> rpc_for(call) matches Rpc::UpdateInventory(r)
            && r.item.position == slot && r.item.item.id == id && r.item.item.quantity == quantity,
        call matches ClientCall::AddItem { id, quantity } ==> rpc_for(call) matches Rpc::AddItem(r)
            && r.item.id == id && r.item.quantity == quantity,
        call matches ClientCall::SetEvent { event, setting } ==> rpc_for(call) matches Rpc::SetEvent(r)
            && r.event == event && r.setting == setting,
        call matches ClientCall::SetPokemon(u) ==> rpc_for(call) matches Rpc::UpdatePokemon(r)
            && r.position == u.slot && r.id == u.id && r.hp == u.hp && r.level == u.level
            && r.max_hp == u.max_hp && r.attack == u.attack && r.defense == u.defense && r.speed
            == u.speed && r.special == u.special,
{
}

} // verus!
