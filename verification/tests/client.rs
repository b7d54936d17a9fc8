use ppp_client::client::Rpc;
use ppp_client::messages::{
    AddItemRequest, EventType, InventoryItem, Item, MemoryUpdate, SetEventRequest,
    UpdateInventoryRequest, UpdatePokemonRequest,
};
use ppp_client::modify::ClientCall;
use ppp_client::{Client, UpdatePokemon};

fn update() -> UpdatePokemon {
    UpdatePokemon {
        slot: 2,
        id: Some(0x99),
        hp: None,
        level: Some(50),
        max_hp: None,
        attack: Some(1),
        defense: None,
        speed: None,
        special: Some(255),
    }
}

#[test]
fn new_client_talks_to_the_usual_socket() {
    assert_eq!(Client::new().socket_path(), "/tmp/ppp");
}

#[test]
fn update_request_sets_exactly_the_given_fields() {
    let req = UpdatePokemonRequest::from(&update());
    assert_eq!(
        req,
        UpdatePokemonRequest {
            position: 2,
            id: Some(0x99),
            hp: None,
            level: Some(50),
            max_hp: None,
            attack: Some(1),
            defense: None,
            speed: None,
            special: Some(255),
        }
    );
    assert_eq!(Client::new().set_pokemon_request(&update()), req);
}

#[test]
fn request_builders() {
    let c = Client::new();
    assert_eq!(c.add_item_request(4, 10), AddItemRequest { item: Item { id: 4, quantity: 10 } });
    assert_eq!(
        c.update_item_request(3, 4, 10),
        UpdateInventoryRequest { item: InventoryItem { item: Item { id: 4, quantity: 10 }, position: 3 } }
    );
    assert_eq!(c.set_memory_request(0xd35c, 0xff), MemoryUpdate { location: 0xd35c, value: 0xff });
    assert_eq!(
        c.set_event_request(EventType::GotParcel, true),
        SetEventRequest { event: EventType::GotParcel, setting: true }
    );
}

#[test]
fn each_wrapper_request_becomes_its_rpc() {
    let c = Client::new();
    assert_eq!(
        c.rpc(&ClientCall::SetPokemon(update())),
        Rpc::UpdatePokemon(UpdatePokemonRequest::from(&update()))
    );
    assert_eq!(
        c.rpc(&ClientCall::UpdateItem { slot: 1, id: 2, quantity: 3 }),
        Rpc::UpdateInventory(UpdateInventoryRequest {
            item: InventoryItem { item: Item { id: 2, quantity: 3 }, position: 1 }
        })
    );
    assert_eq!(
        c.rpc(&ClientCall::SetEvent { event: EventType::GotPokedex, setting: false }),
        Rpc::SetEvent(SetEventRequest { event: EventType::GotPokedex, setting: false })
    );
    assert_eq!(
        c.rpc(&ClientCall::AddItem { id: 5, quantity: 6 }),
        Rpc::AddItem(AddItemRequest { item: Item { id: 5, quantity: 6 } })
    );
}
