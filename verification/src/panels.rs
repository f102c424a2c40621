//! What the game's panels offer: the victory panel after a battle, the
//! buttons creating a card for testing, and the debug buttons shown while
//! playing a game.
use vstd::prelude::*;

use crate::adventure::{Coins, Side};
use crate::position_overrides::CardPosition;
use crate::positions::RoomLocation;
use crate::raid_state::RoomId;

verus! {

/// The other player.
pub open spec fn spec_opponent(side: Side) -> Side {
    match side {
        Side::Covenant => Side::Riftcaller,
        Side::Riftcaller => Side::Covenant,
    }
}

/// Returns the other player.
pub fn opponent(side: Side) -> (res: Side)
    ensures
        res == spec_opponent(side),
{
    match side {
        Side::Covenant => Side::Riftcaller,
        Side::Riftcaller => Side::Covenant,
    }
}

/// What the panel shown after winning a battle holds. Its one button
/// closes the panel and leaves the game as a victory.
#[derive(Clone, Copy, Debug, PartialEq, Eq)]
pub struct BattleVictoryView {
    pub title: &'static str,
    /// The coins gained, shown above the button, when the battle was part
    /// of an adventure.
    pub reward: Option<Coins>,
    pub button_label: &'static str,
}

/// The victory panel for a battle with the given reward, if the battle was
/// part of an adventure: titled "Rewards", showing the coins gained, with a
/// "Continue" button; otherwise titled "You Win!" with a "Main Menu" button.
pub fn battle_victory_view(reward: Option<Coins>) -> (res: BattleVictoryView)
    ensures
        res.reward == reward,
        res.title@ == (if reward is Some {
            "Rewards"@
        } else {
            "You Win!"@
        }),
        res.button_label@ == (if reward is Some {
            "Continue"@
        } else {
            "Main Menu"@
        }),
{
    match reward {
        Some(coins) => BattleVictoryView {
            title: "Rewards",
            reward: Some(coins),
            button_label: "Continue",
        },
        None => BattleVictoryView { title: "You Win!", reward: None, button_label: "Main Menu" },
    }
}

/// A button of the panel creating a card for testing: its label, where the
/// card is created, and whether it is turned face up there.
#[derive(Clone, Copy, Debug, PartialEq, Eq)]
pub struct CreateCardButton {
    pub label: &'static str,
    pub position: CardPosition,
    pub turn_face_up: bool,
}

/// The buttons of the card creation panel for the player on `user_side`, in
/// order: label, where the card goes, and whether it is turned face up.
/// Cards go to the user's deck top, hand and discard pile; defending the
/// sanctum, vault, crypts and an outer room face up; defending an outer room
/// face down; occupying an outer room; and among the user's and the
/// opponent's scored cards.
pub open spec fn spec_create_card_buttons(user_side: Side) -> Seq<(Seq<char>, CardPosition, bool)> {
    seq![
        ("User Deck Top"@, CardPosition::DeckTop(user_side), false),
        ("User Hand"@, CardPosition::Hand(user_side), false),
        ("User Discard"@, CardPosition::DiscardPile(user_side), false),
        ("Sanctum Defender"@, CardPosition::Room(RoomId::Sanctum, RoomLocation::Defender), true),
        ("Vault Defender"@, CardPosition::Room(RoomId::Vault, RoomLocation::Defender), true),
        ("Crypt Defender"@, CardPosition::Room(RoomId::Crypts, RoomLocation::Defender), true),
        ("Outer Defender"@, CardPosition::Room(RoomId::RoomA, RoomLocation::Defender), true),
        (
            "Outer Face-Down Defender"@,
            CardPosition::Room(RoomId::RoomA, RoomLocation::Defender),
            false,
        ),
        ("Outer Occupant"@, CardPosition::Room(RoomId::RoomA, RoomLocation::Occupant), false),
        ("User Scored"@, CardPosition::Scored(user_side), false),
        ("Opponent Scored"@, CardPosition::Scored(spec_opponent(user_side)), false),
    ]
}

/// The buttons of the card creation panel, as [spec_create_card_buttons]
/// lists them.
pub fn create_card_buttons(user_side: Side) -> (res: Vec<CreateCardButton>)
    ensures
        res@.len() == spec_create_card_buttons(user_side).len(),
        forall|i: int|
            0 <= i < res@.len() ==> (#[trigger] res@[i]).label@ == spec_create_card_buttons(
                user_side,
            )[i].0 && res@[i].position == spec_create_card_buttons(user_side)[i].1
                && res@[i].turn_face_up == spec_create_card_buttons(user_side)[i].2,
{
    let mut res: Vec<CreateCardButton> = Vec::new();
    let defender = RoomLocation::Defender;
    res.push(
        CreateCardButton {
            label: "User Deck Top",
            position: CardPosition::DeckTop(user_side),
            turn_face_up: false,
        },
    );
    res.push(
        CreateCardButton {
            label: "User Hand",
            position: CardPosition::Hand(user_side),
            turn_face_up: false,
        },
    );
    res.push(
        CreateCardButton {
            label: "User Discard",
            position: CardPosition::DiscardPile(user_side),
            turn_face_up: false,
        },
    );
    res.push(
        CreateCardButton {
            label: "Sanctum Defender",
            position: CardPosition::Room(RoomId::Sanctum, defender),
            turn_face_up: true,
        },
    );
    res.push(
        CreateCardButton {
            label: "Vault Defender",
            position: CardPosition::Room(RoomId::Vault, defender),
            turn_face_up: true,
        },
    );
    res.push(
        CreateCardButton {
            label: "Crypt Defender",
            position: CardPosition::Room(RoomId::Crypts, defender),
            turn_face_up: true,
        },
    );
    res.push(
        CreateCardButton {
            label: "Outer Defender",
            position: CardPosition::Room(RoomId::RoomA, defender),
            turn_face_up: true,
        },
    );
    res.push(
        CreateCardButton {
            label: "Outer Face-Down Defender",
            position: CardPosition::Room(RoomId::RoomA, defender),
            turn_face_up: false,
        },
    );
    res.push(
        CreateCardButton {
            label: "Outer Occupant",
            position: CardPosition::Room(RoomId::RoomA, RoomLocation::Occupant),
            turn_face_up: false,
        },
    );
    res.push(
        CreateCardButton {
            label: "User Scored",
            position: CardPosition::Scored(user_side),
            turn_face_up: false,
        },
    );
    res.push(
        CreateCardButton {
            label: "Opponent Scored",
            position: CardPosition::Scored(opponent(user_side)),
            turn_face_up: false,
        },
    );
    res
}

/// What a debug button does while a game is played.
#[derive(Clone, Copy, Debug, PartialEq, Eq, Structural)]
pub enum DebugGameButton {
    NewGame(Side),
    JoinGame(Side),
    /// Closes the debug panel and shows the logs.
    ShowLogs,
    AddMana(u32),
    RemoveMana(u32),
    AddActionPoints(u32),
    AddScore(u32),
    AddCurses(u32),
    RemoveCurses(u32),
    AddWounds(u32),
    RemoveWounds(u32),
    FlipViewpoint,
    SaveGameState(u32),
    LoadGameState(u32),
    /// Opens the panel creating a card for this player, upgraded or not,
    /// closing the debug panel.
    CreateCard(Side, bool),
    /// Opens the scenario panel, closing the debug panel.
    ApplyScenario,
    /// Opens the panel naming the player of this side, closing the debug
    /// panel.
    SetPlayerName(Side),
    DebugUndo,
}

/// The debug buttons offered to the player on `user_side` while a game is
/// played, in order: new and joined games as either side, the logs, ten
/// mana more and less, an action point, ten points of score, a curse and a
/// wound more and less, flipping the viewpoint, saving and loading the game
/// in slots one to three, creating a card and an upgraded card, applying a
/// scenario, naming the Covenant and the Riftcaller players, and undo.
pub open spec fn spec_game_mode_buttons(user_side: Side) -> Seq<DebugGameButton> {
    seq![
        DebugGameButton::NewGame(Side::Covenant),
        DebugGameButton::NewGame(Side::Riftcaller),
        DebugGameButton::JoinGame(Side::Covenant),
        DebugGameButton::JoinGame(Side::Riftcaller),
        DebugGameButton::ShowLogs,
        DebugGameButton::AddMana(10),
        DebugGameButton::RemoveMana(10),
        DebugGameButton::AddActionPoints(1),
        DebugGameButton::AddScore(10),
        DebugGameButton::AddCurses(1),
        DebugGameButton::RemoveCurses(1),
        DebugGameButton::AddWounds(1),
        DebugGameButton::RemoveWounds(1),
        DebugGameButton::FlipViewpoint,
        DebugGameButton::SaveGameState(1),
        DebugGameButton::LoadGameState(1),
        DebugGameButton::SaveGameState(2),
        DebugGameButton::LoadGameState(2),
        DebugGameButton::SaveGameState(3),
        DebugGameButton::LoadGameState(3),
        DebugGameButton::CreateCard(user_side, false),
        DebugGameButton::CreateCard(user_side, true),
        DebugGameButton::ApplyScenario,
        DebugGameButton::SetPlayerName(Side::Covenant),
        DebugGameButton::SetPlayerName(Side::Riftcaller),
        DebugGameButton::DebugUndo,
    ]
}

/// The debug buttons offered while a game is played, as
/// [spec_game_mode_buttons] lists them.
pub fn game_mode_buttons(user_side: Side) -> (res: Vec<DebugGameButton>)
    ensures
        res@ == spec_game_mode_buttons(user_side),
{
    let mut res: Vec<DebugGameButton> = Vec::new();
    res.push(DebugGameButton::NewGame(Side::Covenant));
    res.push(DebugGameButton::NewGame(Side::Riftcaller));
    res.push(DebugGameButton::JoinGame(Side::Covenant));
    res.push(DebugGameButton::JoinGame(Side::Riftcaller));
    res.push(DebugGameButton::ShowLogs);
    res.push(DebugGameButton::AddMana(10));
    res.push(DebugGameButton::RemoveMana(10));
    res.push(DebugGameButton::AddActionPoints(1));
    res.push(DebugGameButton::AddScore(10));
    res.push(DebugGameButton::AddCurses(1));
    res.push(DebugGameButton::RemoveCurses(1));
    res.push(DebugGameButton::AddWounds(1));
    res.push(DebugGameButton::RemoveWounds(1));
    res.push(DebugGameButton::FlipViewpoint);
    res.push(DebugGameButton::SaveGameState(1));
    res.push(DebugGameButton::LoadGameState(1));
    res.push(DebugGameButton::SaveGameState(2));
    res.push(DebugGameButton::LoadGameState(2));
    res.push(DebugGameButton::SaveGameState(3));
    res.push(DebugGameButton::LoadGameState(3));
    res.push(DebugGameButton::CreateCard(user_side, false));
    res.push(DebugGameButton::CreateCard(user_side, true));
    res.push(DebugGameButton::ApplyScenario);
    res.push(DebugGameButton::SetPlayerName(Side::Covenant));
    res.push(DebugGameButton::SetPlayerName(Side::Riftcaller));
    res.push(DebugGameButton::DebugUndo);
    assert(res@ =~= spec_game_mode_buttons(user_side));
    res
}

} // verus!
