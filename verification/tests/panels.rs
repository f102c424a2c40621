use spelldawn::adventure::{Coins, Side};
use spelldawn::panels::{
    battle_victory_view, create_card_buttons, game_mode_buttons, opponent, DebugGameButton,
};
use spelldawn::position_overrides::CardPosition;
use spelldawn::positions::RoomLocation;
use spelldawn::raid_state::RoomId;

#[test]
fn victory_panel_shows_rewards_of_an_adventure() {
    let view = battle_victory_view(Some(Coins(250)));
    assert_eq!(view.title, "Rewards");
    assert_eq!(view.reward, Some(Coins(250)));
    assert_eq!(view.button_label, "Continue");
    let view = battle_victory_view(None);
    assert_eq!(view.title, "You Win!");
    assert_eq!(view.reward, None);
    assert_eq!(view.button_label, "Main Menu");
}

#[test]
fn create_card_buttons_place_cards_for_the_user() {
    let buttons = create_card_buttons(Side::Riftcaller);
    assert_eq!(buttons.len(), 11);
    assert_eq!(buttons[0].label, "User Deck Top");
    assert_eq!(buttons[0].position, CardPosition::DeckTop(Side::Riftcaller));
    assert!(!buttons[0].turn_face_up);
    assert_eq!(buttons[3].label, "Sanctum Defender");
    assert_eq!(buttons[3].position, CardPosition::Room(RoomId::Sanctum, RoomLocation::Defender));
    assert!(buttons[3].turn_face_up);
    assert_eq!(buttons[7].label, "Outer Face-Down Defender");
    assert!(!buttons[7].turn_face_up);
    assert_eq!(buttons[8].position, CardPosition::Room(RoomId::RoomA, RoomLocation::Occupant));
    assert_eq!(buttons[10].label, "Opponent Scored");
    assert_eq!(buttons[10].position, CardPosition::Scored(Side::Covenant));
    assert_eq!(opponent(Side::Covenant), Side::Riftcaller);
}

#[test]
fn debug_buttons_while_playing() {
    let buttons = game_mode_buttons(Side::Covenant);
    assert_eq!(buttons.len(), 26);
    assert_eq!(buttons[0], DebugGameButton::NewGame(Side::Covenant));
    assert_eq!(buttons[4], DebugGameButton::ShowLogs);
    assert_eq!(buttons[5], DebugGameButton::AddMana(10));
    assert_eq!(buttons[14], DebugGameButton::SaveGameState(1));
    assert_eq!(buttons[19], DebugGameButton::LoadGameState(3));
    assert_eq!(buttons[20], DebugGameButton::CreateCard(Side::Covenant, false));
    assert_eq!(buttons[21], DebugGameButton::CreateCard(Side::Covenant, true));
    assert_eq!(buttons[25], DebugGameButton::DebugUndo);
}
