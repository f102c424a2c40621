//! Custom cards: token cards the client shows for things that are not
//! cards of the game, such as counters on a player, the room selector, and
//! status markers stacked under the cards they affect.
use vstd::prelude::*;

use crate::adventure::Side;
use crate::display::{player_name, spec_player_name};
use crate::positions::CardId;
use crate::protos::game_enums::PlayerName;
use crate::raid_state::RoomId;
use vstd::string::StringExecFns;

verus! {

/// The kinds of custom card.
#[derive(Clone, Copy, Debug, PartialEq, Eq, Structural)]
pub enum CustomCardIdentifier {
    Curse,
    Dispel,
    Wound,
    Leyline,
    RoomSelector,
    StatusMarker,
}

/// Where a custom card is shown.
#[derive(Clone, Copy, Debug, PartialEq, Eq, Structural)]
pub enum CustomCardPosition {
    /// The shelf displaying the named player's identity cards.
    DisplayShelf(PlayerName),
    /// The named player's character.
    Character(PlayerName),
    /// The named player's hand.
    Hand(PlayerName),
    /// Stacked behind the given card.
    StackedBehind(CardId),
}

/// A custom card's place: where it is shown, sorted among the custom cards
/// there by its kind.
#[derive(Clone, Copy, Debug, PartialEq, Eq, Structural)]
pub struct CustomPlacement {
    pub at: CustomCardPosition,
    pub kind: CustomCardIdentifier,
}

/// How a custom card is identified to the client.
#[derive(Clone, Copy, Debug, PartialEq, Eq, Structural)]
pub enum CustomCardIdentity {
    /// A custom card of the given kind, with the given number among cards of
    /// that kind.
    Custom(CustomCardIdentifier, u32),
    /// A status marker placed by the ability with index `ability_index` of a
    /// card of the player on `side`, on the card with index `index`.
    StatusMarker { side: Side, index: usize, ability_index: usize },
}

/// A custom card to show.
#[derive(Debug)]
pub struct CustomCardView {
    pub identity: CustomCardIdentity,
    pub position: CustomPlacement,
    pub revealed_to_viewer: bool,
    pub is_face_up: bool,
    /// The count shown on the card's arena icon, if any.
    pub quantity_icon: Option<u32>,
    pub owner: PlayerName,
    pub image: String,
    pub title: String,
    pub rules_text: String,
    /// The rooms the card may be dragged to, if it targets rooms.
    pub valid_rooms: Option<Vec<RoomId>>,
    /// Where the card goes when released, if it goes anywhere.
    pub on_release_position: Option<CustomPlacement>,
    /// Where the card is created from, if it is animated in.
    pub create_position: Option<CustomPlacement>,
    /// Where the card goes when it is removed, if anywhere.
    pub destroy_position: Option<CustomPlacement>,
}

/// A counter on a player, shown as a custom card.
#[derive(Debug)]
pub struct CounterCard {
    pub identifier: CustomCardIdentifier,
    pub counters: u32,
    pub image: String,
    pub title: String,
    pub text: String,
}

/// Shows a counter held by the player on `side` to the player on
/// `user_side`: a face-up token on that player's display shelf, numbered 0
/// among cards of its kind, created from and removed to the player's
/// character, with the count on its icon when there is more than one.
pub fn counter_card_view(user_side: Side, side: Side, card: CounterCard) -> (res: CustomCardView)
    ensures
        ({
            let owner = spec_player_name(user_side, side);
            let at_character = CustomPlacement {
                at: CustomCardPosition::Character(owner),
                kind: card.identifier,
            };
            &&& res.identity == CustomCardIdentity::Custom(card.identifier, 0)
            &&& res.position == (CustomPlacement {
                at: CustomCardPosition::DisplayShelf(owner),
                kind: card.identifier,
            })
            &&& res.revealed_to_viewer
            &&& res.is_face_up
            &&& res.quantity_icon == (if card.counters > 1 {
                Some(card.counters)
            } else {
                None
            })
            &&& res.owner == owner
            &&& res.image == card.image
            &&& res.title == card.title
            &&& res.rules_text == card.text
            &&& res.valid_rooms is None
            &&& res.on_release_position is None
            &&& res.create_position == Some(at_character)
            &&& res.destroy_position == Some(at_character)
        }),
{
    let owner = player_name(user_side, side);
    let at_character = CustomPlacement { at: CustomCardPosition::Character(owner), kind: card.identifier };
    CustomCardView {
        identity: CustomCardIdentity::Custom(card.identifier, 0),
        position: CustomPlacement { at: CustomCardPosition::DisplayShelf(owner), kind: card.identifier },
        revealed_to_viewer: true,
        is_face_up: true,
        quantity_icon: if card.counters > 1 {
            Some(card.counters)
        } else {
            None
        },
        owner,
        image: card.image,
        title: card.title,
        rules_text: card.text,
        valid_rooms: None,
        on_release_position: None,
        create_position: Some(at_character),
        destroy_position: Some(at_character),
    }
}

/// The wounds of the Riftcaller, as a counter card.
pub fn wound_card_view(user_side: Side, count: u32) -> (res: CustomCardView)
    ensures
        res.identity == CustomCardIdentity::Custom(CustomCardIdentifier::Wound, 0),
        res.owner == spec_player_name(user_side, Side::Riftcaller),
        res.quantity_icon == (if count > 1 {
            Some(count)
        } else {
            None
        }),
        res.image@ == "wound"@,
        res.title@ == "Wound"@,
        res.rules_text@ == "-1 maximum hand size."@,
{
    counter_card_view(
        user_side,
        Side::Riftcaller,
        CounterCard {
            identifier: CustomCardIdentifier::Wound,
            counters: count,
            image: String::from_str("wound"),
            title: String::from_str("Wound"),
            text: String::from_str("-1 maximum hand size."),
        },
    )
}

/// The leylines of the Riftcaller, as a counter card; `mana_icon` is the
/// glyph of the mana icon.
pub fn leyline_card_view(user_side: Side, count: u32, mana_icon: &str) -> (res: CustomCardView)
    ensures
        res.identity == CustomCardIdentity::Custom(CustomCardIdentifier::Leyline, 0),
        res.owner == spec_player_name(user_side, Side::Riftcaller),
        res.quantity_icon == (if count > 1 {
            Some(count)
        } else {
            None
        }),
        res.image@ == "leyline"@,
        res.title@ == "Leyline"@,
        res.rules_text@ == "Gain 1"@ + mana_icon@ + " to use during each raid."@,
{
    let mut text = String::from_str("Gain 1");
    text.append(mana_icon);
    text.append(" to use during each raid.");
    counter_card_view(
        user_side,
        Side::Riftcaller,
        CounterCard {
            identifier: CustomCardIdentifier::Leyline,
            counters: count,
            image: String::from_str("leyline"),
            title: String::from_str("Leyline"),
            text,
        },
    )
}

/// The card with which the player on `definition_side` selects a room, as
/// shown to the player on `user_side`: a face-down token numbered 1 among
/// room selectors, in its player's hand, titled with the card that asked
/// for the room, pointing at the valid rooms in order. Released, created
/// (only when updates are animated) and removed at its player's character.
pub fn room_selector(
    user_side: Side,
    definition_side: Side,
    image: String,
    title: String,
    valid_rooms: Vec<RoomId>,
    animate: bool,
) -> (res: CustomCardView)
    ensures
        ({
            let owner = spec_player_name(user_side, definition_side);
            let at_character = CustomPlacement {
                at: CustomCardPosition::Character(owner),
                kind: CustomCardIdentifier::RoomSelector,
            };
            &&& res.identity == CustomCardIdentity::Custom(CustomCardIdentifier::RoomSelector, 1)
            &&& res.position == (CustomPlacement {
                at: CustomCardPosition::Hand(owner),
                kind: CustomCardIdentifier::RoomSelector,
            })
            &&& res.revealed_to_viewer
            &&& !res.is_face_up
            &&& res.quantity_icon is None
            &&& res.owner == owner
            &&& res.image == image
            &&& res.title == title
            &&& res.rules_text@ == "Select target room"@
            &&& res.valid_rooms == Some(valid_rooms)
            &&& res.on_release_position == Some(at_character)
            &&& res.create_position == (if animate {
                Some(at_character)
            } else {
                None
            })
            &&& res.destroy_position == Some(at_character)
        }),
{
    let owner = player_name(user_side, definition_side);
    let at_character = CustomPlacement {
        at: CustomCardPosition::Character(owner),
        kind: CustomCardIdentifier::RoomSelector,
    };
    CustomCardView {
        identity: CustomCardIdentity::Custom(CustomCardIdentifier::RoomSelector, 1),
        position: CustomPlacement {
            at: CustomCardPosition::Hand(owner),
            kind: CustomCardIdentifier::RoomSelector,
        },
        revealed_to_viewer: true,
        is_face_up: false,
        quantity_icon: None,
        owner,
        image,
        title,
        rules_text: String::from_str("Select target room"),
        valid_rooms: Some(valid_rooms),
        on_release_position: Some(at_character),
        create_position: if animate {
            Some(at_character)
        } else {
            None
        },
        destroy_position: Some(at_character),
    }
}

/// A status marker which the ability with index `ability_index` of a card
/// of the player on `source_side` places on `target`, as shown to the
/// player on `user_side`: a face-up token identified by the source's side,
/// the target's index and the ability's index, stacked behind the target
/// and owned by the source's player. Its title is the source card's name
/// and its text describes the marker.
pub fn marker_card(
    user_side: Side,
    source_side: Side,
    ability_index: usize,
    target: CardId,
    image: String,
    title: String,
    rules_text: String,
) -> (res: CustomCardView)
    ensures
        res.identity == (CustomCardIdentity::StatusMarker {
            side: source_side,
            index: target.index,
            ability_index,
        }),
        res.position == (CustomPlacement {
            at: CustomCardPosition::StackedBehind(target),
            kind: CustomCardIdentifier::StatusMarker,
        }),
        res.revealed_to_viewer,
        res.is_face_up,
        res.quantity_icon is None,
        res.owner == spec_player_name(user_side, source_side),
        res.image == image,
        res.title == title,
        res.rules_text == rules_text,
        res.valid_rooms is None,
        res.on_release_position is None,
        res.create_position is None,
        res.destroy_position is None,
{
    CustomCardView {
        identity: CustomCardIdentity::StatusMarker { side: source_side, index: target.index, ability_index },
        position: CustomPlacement {
            at: CustomCardPosition::StackedBehind(target),
            kind: CustomCardIdentifier::StatusMarker,
        },
        revealed_to_viewer: true,
        is_face_up: true,
        quantity_icon: None,
        owner: player_name(user_side, source_side),
        image,
        title,
        rules_text,
        valid_rooms: None,
        on_release_position: None,
        create_position: None,
        destroy_position: None,
    }
}

} // verus!
