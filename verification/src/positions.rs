//! Positions at which the client displays cards and other game objects.
use vstd::prelude::*;

use crate::adventure::Side;
use crate::raid_state::RoomId;
use crate::protos::game_enums::{
    ClientItemLocation, ClientRoomLocation, PlayerName, RevealedCardsBrowserSize, RoomIdentifier,
};
use crate::protos::messages::{
    ObjectPosition, ObjectPositionBrowser, ObjectPositionBrowserDragTarget,
    ObjectPositionCardChoiceBrowser, ObjectPositionCharacter, ObjectPositionCharacterContainer,
    ObjectPositionDeck, ObjectPositionDeckContainer, ObjectPositionDiscardPile,
    ObjectPositionDiscardPileContainer, ObjectPositionHand, ObjectPositionHandStorage,
    ObjectPositionItem, ObjectPositionOffscreen, ObjectPositionRaid, ObjectPositionRevealedCards,
    ObjectPositionRiftcallers, ObjectPositionRoom, ObjectPositionScoring, ObjectPositionStaging,
    Position,
};

verus! {

/// The sorting key of objects displayed on release of a drag.
pub const RELEASE_SORTING_KEY: u32 = 100;

/// Where a card in a room sits: defending it, or occupying it.
#[derive(Clone, Copy, Debug, PartialEq, Eq, Structural)]
pub enum RoomLocation {
    Defender,
    Occupant,
}

/// Where an item in the arena sits.
#[derive(Clone, Copy, Debug, PartialEq, Eq, Structural)]
pub enum ItemLocation {
    Artifacts,
    Evocations,
    Allies,
}

/// Identifies a card within a game: its owner and its index among the
/// owner's cards.
#[derive(Clone, Copy, Debug, PartialEq, Eq, Structural)]
pub struct CardId {
    pub side: Side,
    pub index: usize,
}

/// The objects of a game which the client can display.
#[derive(Clone, Copy, Debug, PartialEq, Eq, Structural)]
pub enum GameObjectId {
    CardId(CardId),
    Deck(Side),
    DiscardPile(Side),
    Character(Side),
}

/// The position of a card with the given sorting key, in front of objects
/// sharing the key.
pub fn for_card(sorting_key: u32, position: Position) -> (res: ObjectPosition)
    requires
        sorting_key < u32::MAX,
    ensures
        res == (ObjectPosition {
            position: Some(position),
            sorting_key: (sorting_key + 1) as u32,
            sorting_subkey: 0,
        }),
{
    ObjectPosition { position: Some(position), sorting_key: 1 + sorting_key, sorting_subkey: 0 }
}

/// The position of a summoned project card, just in front of the card with
/// the same sorting key.
pub fn for_summon_project_card(sorting_key: u32, position: Position) -> (res: ObjectPosition)
    requires
        sorting_key < u32::MAX,
    ensures
        res == (ObjectPosition {
            position: Some(position),
            sorting_key: (sorting_key + 1) as u32,
            sorting_subkey: 1,
        }),
{
    ObjectPosition { position: Some(position), sorting_key: 1 + sorting_key, sorting_subkey: 1 }
}

/// The position of the ability with the given index of a card with the given
/// sorting key, in front of the card itself.
pub fn for_ability(card_sorting_key: u32, ability_index: u32, position: Position) -> (res:
    ObjectPosition)
    requires
        card_sorting_key < u32::MAX,
        ability_index <= u32::MAX - 2,
    ensures
        res == (ObjectPosition {
            position: Some(position),
            sorting_key: (card_sorting_key + 1) as u32,
            sorting_subkey: (ability_index + 2) as u32,
        }),
{
    ObjectPosition {
        position: Some(position),
        sorting_key: 1 + card_sorting_key,
        sorting_subkey: 2 + ability_index,
    }
}

/// The position of an object with the given sorting key.
pub fn for_sorting_key(sorting_key: u32, position: Position) -> (res: ObjectPosition)
    requires
        sorting_key < u32::MAX,
    ensures
        res == (ObjectPosition {
            position: Some(position),
            sorting_key: (sorting_key + 1) as u32,
            sorting_subkey: 0,
        }),
{
    ObjectPosition { sorting_key: 1 + sorting_key, sorting_subkey: 0, position: Some(position) }
}

/// The client's location for a card in a room: defenders in front,
/// occupants at the back.
pub open spec fn client_room_location(location: RoomLocation) -> ClientRoomLocation {
    match location {
        RoomLocation::Defender => ClientRoomLocation::Front,
        RoomLocation::Occupant => ClientRoomLocation::Back,
    }
}

/// The client's location for an item: artifacts on the left, evocations and
/// allies on the right.
pub open spec fn client_item_location(location: ItemLocation) -> ClientItemLocation {
    match location {
        ItemLocation::Artifacts => ClientItemLocation::Left,
        ItemLocation::Evocations => ClientItemLocation::Right,
        ItemLocation::Allies => ClientItemLocation::Right,
    }
}

/// The protocol's identifier of a room, which bears the room's name.
pub open spec fn spec_room_identifier(room: RoomId) -> RoomIdentifier {
    match room {
        RoomId::Vault => RoomIdentifier::Vault,
        RoomId::Sanctum => RoomIdentifier::Sanctum,
        RoomId::Crypts => RoomIdentifier::Crypts,
        RoomId::RoomA => RoomIdentifier::RoomA,
        RoomId::RoomB => RoomIdentifier::RoomB,
        RoomId::RoomC => RoomIdentifier::RoomC,
        RoomId::RoomD => RoomIdentifier::RoomD,
        RoomId::RoomE => RoomIdentifier::RoomE,
    }
}

/// The protocol's identifier of a room, as [spec_room_identifier] gives it.
pub fn room_identifier(room: RoomId) -> (res: RoomIdentifier)
    ensures
        res == spec_room_identifier(room),
{
    match room {
        RoomId::Vault => RoomIdentifier::Vault,
        RoomId::Sanctum => RoomIdentifier::Sanctum,
        RoomId::Crypts => RoomIdentifier::Crypts,
        RoomId::RoomA => RoomIdentifier::RoomA,
        RoomId::RoomB => RoomIdentifier::RoomB,
        RoomId::RoomC => RoomIdentifier::RoomC,
        RoomId::RoomD => RoomIdentifier::RoomD,
        RoomId::RoomE => RoomIdentifier::RoomE,
    }
}

/// A position in a room: defenders in front, occupants at the back.
pub fn room(room_id: RoomId, location: RoomLocation) -> (res: Position)
    ensures
        res == Position::Room(
            ObjectPositionRoom {
                room_id: spec_room_identifier(room_id).spec_value(),
                room_location: client_room_location(location).spec_value(),
            },
        ),
{
    let room_location = match location {
        RoomLocation::Defender => ClientRoomLocation::Front,
        RoomLocation::Occupant => ClientRoomLocation::Back,
    };
    Position::Room(
        ObjectPositionRoom {
            room_id: room_identifier(room_id).into(),
            room_location: room_location.into(),
        },
    )
}

/// A position in a room the client has not been told about.
pub fn unspecified_room(location: RoomLocation) -> (res: Position)
    ensures
        res == Position::Room(
            ObjectPositionRoom {
                room_id: RoomIdentifier::Unspecified.spec_value(),
                room_location: client_room_location(location).spec_value(),
            },
        ),
{
    let room_location = match location {
        RoomLocation::Defender => ClientRoomLocation::Front,
        RoomLocation::Occupant => ClientRoomLocation::Back,
    };
    Position::Room(
        ObjectPositionRoom {
            room_id: RoomIdentifier::Unspecified.into(),
            room_location: room_location.into(),
        },
    )
}

/// The position of an item in the arena.
pub fn item(location: ItemLocation) -> (res: Position)
    ensures
        res == Position::Item(
            ObjectPositionItem { item_location: client_item_location(location).spec_value() },
        ),
{
    let item_location = match location {
        ItemLocation::Artifacts => ClientItemLocation::Left,
        ItemLocation::Evocations => ClientItemLocation::Right,
        ItemLocation::Allies => ClientItemLocation::Right,
    };
    Position::Item(ObjectPositionItem { item_location: item_location.into() })
}

/// The staging area.
pub fn staging() -> (res: Position)
    ensures
        res == Position::Staging(ObjectPositionStaging {}),
{
    Position::Staging(ObjectPositionStaging {})
}

/// The card browser.
pub fn card_browser() -> (res: Position)
    ensures
        res == Position::Browser(ObjectPositionBrowser {}),
{
    Position::Browser(ObjectPositionBrowser {})
}

/// Off screen.
pub fn offscreen() -> (res: Position)
    ensures
        res == Position::Offscreen(ObjectPositionOffscreen {}),
{
    Position::Offscreen(ObjectPositionOffscreen {})
}

/// The browser of newly revealed cards, large or small.
pub fn revealed_cards(large: bool) -> (res: Position)
    ensures
        res == Position::Revealed(
            ObjectPositionRevealedCards {
                size: if large {
                    RevealedCardsBrowserSize::Large.spec_value()
                } else {
                    RevealedCardsBrowserSize::Small.spec_value()
                },
            },
        ),
{
    let size = if large {
        RevealedCardsBrowserSize::Large
    } else {
        RevealedCardsBrowserSize::Small
    };
    Position::Revealed(ObjectPositionRevealedCards { size: size.into() })
}

/// The hand of the player with the given name.
pub fn hand(owner: PlayerName) -> (res: Position)
    ensures
        res == Position::Hand(ObjectPositionHand { owner: owner.spec_value() }),
{
    Position::Hand(ObjectPositionHand { owner: owner.into() })
}

/// The deck of the player with the given name.
pub fn deck(owner: PlayerName) -> (res: Position)
    ensures
        res == Position::Deck(ObjectPositionDeck { owner: owner.spec_value() }),
{
    Position::Deck(ObjectPositionDeck { owner: owner.into() })
}

/// The container holding the deck of the player with the given name.
pub fn deck_container(owner: PlayerName) -> (res: Position)
    ensures
        res == Position::DeckContainer(ObjectPositionDeckContainer { owner: owner.spec_value() }),
{
    Position::DeckContainer(ObjectPositionDeckContainer { owner: owner.into() })
}

/// The discard pile of the player with the given name.
pub fn discard(owner: PlayerName) -> (res: Position)
    ensures
        res == Position::DiscardPile(ObjectPositionDiscardPile { owner: owner.spec_value() }),
{
    Position::DiscardPile(ObjectPositionDiscardPile { owner: owner.into() })
}

/// The container holding the discard pile of the player with the given name.
pub fn discard_container(owner: PlayerName) -> (res: Position)
    ensures
        res == Position::DiscardPileContainer(
            ObjectPositionDiscardPileContainer { owner: owner.spec_value() },
        ),
{
    Position::DiscardPileContainer(ObjectPositionDiscardPileContainer { owner: owner.into() })
}

/// The character of the player with the given name.
pub fn character(owner: PlayerName) -> (res: Position)
    ensures
        res == Position::Character(ObjectPositionCharacter { owner: owner.spec_value() }),
{
    Position::Character(ObjectPositionCharacter { owner: owner.into() })
}

/// The shelf displaying the identity cards of the player with the given
/// name.
pub fn display_shelf(owner: PlayerName) -> (res: Position)
    ensures
        res == Position::Riftcaller(ObjectPositionRiftcallers { owner: owner.spec_value() }),
{
    Position::Riftcaller(ObjectPositionRiftcallers { owner: owner.into() })
}

/// The container holding the character of the player with the given name.
pub fn character_container(owner: PlayerName) -> (res: Position)
    ensures
        res == Position::CharacterContainer(
            ObjectPositionCharacterContainer { owner: owner.spec_value() },
        ),
{
    Position::CharacterContainer(ObjectPositionCharacterContainer { owner: owner.into() })
}

/// The area where cards being scored are shown.
pub fn scoring() -> (res: Position)
    ensures
        res == Position::Scoring(ObjectPositionScoring {}),
{
    Position::Scoring(ObjectPositionScoring {})
}

/// The browser showing the cards a prompt's choices are anchored to.
pub fn card_choice_browser() -> (res: Position)
    ensures
        res == Position::CardChoiceBrowser(ObjectPositionCardChoiceBrowser {}),
{
    Position::CardChoiceBrowser(ObjectPositionCardChoiceBrowser {})
}

/// Where the user's hand is set aside while a prompt is shown.
pub fn hand_storage() -> (res: Position)
    ensures
        res == Position::HandStorage(ObjectPositionHandStorage {}),
{
    Position::HandStorage(ObjectPositionHandStorage {})
}

/// The spot onto which cards are dragged out of a card browser.
pub fn card_browser_target_position() -> (res: Position)
    ensures
        res == Position::BrowserDragTarget(ObjectPositionBrowserDragTarget {}),
{
    Position::BrowserDragTarget(ObjectPositionBrowserDragTarget {})
}

/// The raid display.
pub fn raid() -> (res: Position)
    ensures
        res == Position::Raid(ObjectPositionRaid {}),
{
    Position::Raid(ObjectPositionRaid {})
}

/// The position of `id` within a browser listing objects in display order:
/// at the browser's position, sorted by its first index in the list. `None`
/// when the browser does not list it.
pub fn browser_position(id: GameObjectId, position: Position, browser: &[GameObjectId]) -> (res:
    Option<ObjectPosition>)
    requires
        browser@.len() <= u32::MAX,
    ensures
        match res {
            Some(p) => exists|i: int|
                0 <= i < browser@.len() && browser@[i] == id && (forall|j: int|
                    0 <= j < i ==> browser@[j] != id) && p == (ObjectPosition {
                    sorting_key: i as u32,
                    sorting_subkey: 0,
                    position: Some(position),
                }),
            None => !browser@.contains(id),
        },
{
    let n = browser.len();
    let mut i: usize = 0;
    while i < n
        invariant
            n == browser@.len(),
            n <= u32::MAX,
            i <= n,
            forall|j: int| 0 <= j < i ==> browser@[j] != id,
        decreases n - i,
    {
        if browser[i] == id {
            return Some(
                ObjectPosition { sorting_key: i as u32, sorting_subkey: 0, position: Some(position) },
            );
        }
        i = i + 1;
    }
    None
}

} // verus!
