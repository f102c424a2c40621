use spelldawn::adventure::Side;
use spelldawn::display::DisplayPreference;
use spelldawn::position_overrides::{
    adapt_position, calculate, CardPosition,
    ability_card_position, character_facing_direction_for_side, has_position_override, move_target,
    non_card_position_override, opening_hand_position_override, opponent_prompt_position_override,
    overrides_disabled, played_position, position_override, prompt_position_override,
    raid_access_browser, raid_browser, raid_position_override, ButtonPromptCards,
    CardSelectorCards, CurrentPrompt, PhaseView, RaidDisplayState, RaidScene, SelectorPromptTarget,
};
use spelldawn::positions::{
    card_browser, card_browser_target_position, card_choice_browser, hand, hand_storage, raid,
    revealed_cards, staging, CardId, GameObjectId,
};
use spelldawn::protos::game_enums::{GameCharacterFacingDirection, PlayerName};
use spelldawn::positions::{
    character, character_container, deck, deck_container, discard, discard_container, display_shelf,
    offscreen, room, scoring, RoomLocation,
};
use spelldawn::protos::messages::{
    ObjectPosition, ObjectPositionCharacter, ObjectPositionDeck, ObjectPositionDiscardPileContainer,
    ObjectPositionRiftcallers, ObjectPositionRoom, ObjectPositionScoring, Position,
};
use spelldawn::raid_state::RoomId;

fn card(index: usize) -> CardId {
    CardId { side: Side::Covenant, index }
}

fn at(sorting_key: u32, position: Position) -> Option<ObjectPosition> {
    Some(ObjectPosition { sorting_key, sorting_subkey: 0, position: Some(position) })
}

fn button_prompt(context: Option<CardId>, anchors: Vec<Option<CardId>>) -> Option<CurrentPrompt> {
    Some(CurrentPrompt::ButtonPrompt(ButtonPromptCards { context_card: context, anchor_cards: anchors }))
}

fn selector(target: SelectorPromptTarget, unchosen: Vec<CardId>, chosen: Vec<CardId>) -> Option<CurrentPrompt> {
    Some(CurrentPrompt::CardSelector(CardSelectorCards {
        target,
        unchosen_subjects: unchosen,
        chosen_subjects: chosen,
    }))
}

fn scene(target: RoomId, display: RaidDisplayState) -> RaidScene {
    RaidScene {
        target,
        display,
        occupants: vec![card(20)],
        covenant_hand: vec![card(30), card(31)],
        covenant_discard: vec![card(40)],
        accessed: vec![card(50)],
    }
}

#[test]
fn overrides_are_disabled_by_arena_view_and_some_prompts() {
    assert!(overrides_disabled(Some(DisplayPreference::ShowArenaView(true)), &None));
    assert!(!overrides_disabled(Some(DisplayPreference::ShowArenaView(false)), &None));
    assert!(overrides_disabled(None, &Some(CurrentPrompt::RoomSelector)));
    assert!(overrides_disabled(None, &Some(CurrentPrompt::PlayCardBrowser(vec![]))));
    assert!(!overrides_disabled(None, &Some(CurrentPrompt::PriorityPrompt)));
}

#[test]
fn button_prompt_shows_its_cards() {
    let prompt = button_prompt(Some(card(1)), vec![None, Some(card(2))]);
    assert_eq!(
        prompt_position_override(&prompt, None, card(1), 7, false, PlayerName::User),
        at(8, card_browser())
    );
    assert_eq!(
        prompt_position_override(&prompt, None, card(2), 7, false, PlayerName::User),
        at(8, card_choice_browser())
    );
    assert_eq!(prompt_position_override(&prompt, None, card(3), 7, true, PlayerName::User), None);
    assert_eq!(
        prompt_position_override(
            &prompt,
            Some(DisplayPreference::ShowArenaView(true)),
            card(1),
            7,
            false,
            PlayerName::User
        ),
        None
    );
}

#[test]
fn card_selector_lines_up_its_subjects() {
    let prompt = selector(SelectorPromptTarget::DeckTop, vec![card(4), card(5)], vec![card(6)]);
    assert_eq!(
        prompt_position_override(&prompt, None, card(5), 0, false, PlayerName::User),
        at(11, card_browser())
    );
    assert_eq!(
        prompt_position_override(&prompt, None, card(6), 0, false, PlayerName::User),
        at(10, card_browser_target_position())
    );
    assert_eq!(
        prompt_position_override(&prompt, None, card(9), 3, true, PlayerName::User),
        at(4, hand_storage())
    );
    assert_eq!(prompt_position_override(&prompt, None, card(9), 3, false, PlayerName::User), None);
}

#[test]
fn play_card_browser_keeps_playable_cards_in_hand() {
    let prompt = Some(CurrentPrompt::PlayCardBrowser(vec![card(1)]));
    assert_eq!(
        prompt_position_override(&prompt, None, card(1), 2, true, PlayerName::Opponent),
        at(3, hand(PlayerName::Opponent))
    );
    assert_eq!(
        prompt_position_override(&prompt, None, card(2), 2, true, PlayerName::User),
        at(3, hand_storage())
    );
    let rooms = Some(CurrentPrompt::RoomSelector);
    assert_eq!(
        prompt_position_override(&rooms, None, card(2), 2, true, PlayerName::User),
        at(3, hand_storage())
    );
    assert_eq!(
        prompt_position_override(&Some(CurrentPrompt::PriorityPrompt), None, card(2), 2, true, PlayerName::User),
        None
    );
}

#[test]
fn opponent_prompt_shows_its_card() {
    let prompt = button_prompt(Some(card(1)), vec![Some(card(2))]);
    assert_eq!(opponent_prompt_position_override(&prompt, card(1), 0), at(1, card_browser()));
    assert_eq!(opponent_prompt_position_override(&prompt, card(2), 0), None);
}

#[test]
fn raid_browsers_list_the_room() {
    let browser = raid_browser(RoomId::Vault, &vec![card(20)], &vec![card(21), card(22)]);
    assert_eq!(
        browser,
        vec![
            GameObjectId::Deck(Side::Covenant),
            GameObjectId::CardId(card(20)),
            GameObjectId::CardId(card(21)),
            GameObjectId::CardId(card(22)),
            GameObjectId::Character(Side::Riftcaller),
        ]
    );
    let browser = raid_browser(RoomId::RoomB, &vec![], &vec![card(21)]);
    assert_eq!(browser, vec![GameObjectId::CardId(card(21)), GameObjectId::Character(Side::Riftcaller)]);
    assert_eq!(
        raid_access_browser(&scene(RoomId::Sanctum, RaidDisplayState::Access)),
        vec![GameObjectId::CardId(card(30)), GameObjectId::CardId(card(31))]
    );
    assert_eq!(
        raid_access_browser(&scene(RoomId::Crypts, RaidDisplayState::Access)),
        vec![GameObjectId::CardId(card(40))]
    );
    assert_eq!(
        raid_access_browser(&scene(RoomId::RoomC, RaidDisplayState::Access)),
        vec![GameObjectId::CardId(card(50))]
    );
}

#[test]
fn raid_positions_follow_the_browser() {
    let defenders = Some(scene(RoomId::Sanctum, RaidDisplayState::Defenders(vec![card(21)])));
    assert_eq!(
        raid_position_override(&defenders, GameObjectId::Character(Side::Covenant)),
        at(0, raid())
    );
    assert_eq!(raid_position_override(&defenders, GameObjectId::CardId(card(21))), at(2, raid()));
    assert_eq!(raid_position_override(&defenders, GameObjectId::CardId(card(9))), None);
    let access = Some(scene(RoomId::Sanctum, RaidDisplayState::Access));
    assert_eq!(raid_position_override(&access, GameObjectId::CardId(card(31))), at(1, card_browser()));
    let hidden = Some(scene(RoomId::Sanctum, RaidDisplayState::NoDisplay));
    assert_eq!(raid_position_override(&hidden, GameObjectId::CardId(card(31))), None);
    assert_eq!(raid_position_override(&None, GameObjectId::CardId(card(31))), None);
}

#[test]
fn selector_target_pile_is_the_drag_target() {
    let prompt = selector(SelectorPromptTarget::DiscardPile, vec![], vec![]);
    assert_eq!(
        non_card_position_override(&prompt, Side::Riftcaller, &None, GameObjectId::DiscardPile(Side::Riftcaller)),
        at(1, card_browser_target_position())
    );
    assert_eq!(
        non_card_position_override(&prompt, Side::Riftcaller, &None, GameObjectId::Deck(Side::Riftcaller)),
        None
    );
    let shuffled = selector(SelectorPromptTarget::DeckShuffled, vec![], vec![]);
    assert_eq!(
        non_card_position_override(&shuffled, Side::Covenant, &None, GameObjectId::Deck(Side::Covenant)),
        at(1, card_browser_target_position())
    );
    let defenders = Some(scene(RoomId::Vault, RaidDisplayState::Defenders(vec![])));
    assert_eq!(
        non_card_position_override(&None, Side::Covenant, &defenders, GameObjectId::Deck(Side::Covenant)),
        at(0, raid())
    );
}

#[test]
fn opening_hand_is_revealed_until_decided() {
    assert_eq!(opening_hand_position_override(false, true, 4), at(5, revealed_cards(true)));
    assert_eq!(opening_hand_position_override(true, true, 4), None);
    assert_eq!(opening_hand_position_override(false, false, 4), None);
}

#[test]
fn position_override_takes_the_first_that_applies() {
    let none = None;
    let mulligans = PhaseView::ResolveMulligans { user_has_decided: false };
    assert_eq!(
        position_override(&none, &none, None, mulligans, &None, card(1), 0, true, PlayerName::User),
        at(1, revealed_cards(true))
    );
    let opponent = button_prompt(Some(card(1)), vec![]);
    assert_eq!(
        position_override(&none, &opponent, None, mulligans, &None, card(1), 0, true, PlayerName::User),
        at(1, card_browser())
    );
    let rooms = Some(CurrentPrompt::RoomSelector);
    assert_eq!(
        position_override(&rooms, &opponent, None, mulligans, &None, card(1), 0, false, PlayerName::User),
        None
    );
    let access = Some(scene(RoomId::RoomA, RaidDisplayState::Access));
    assert_eq!(
        position_override(&none, &none, None, PhaseView::Play, &access, card(50), 0, false, PlayerName::User),
        at(0, card_browser())
    );
    assert_eq!(
        position_override(&none, &none, None, PhaseView::GameOver, &access, card(50), 0, false, PlayerName::User),
        None
    );
}

#[test]
fn characters_face_the_raid() {
    let defenders = Some(scene(RoomId::Sanctum, RaidDisplayState::Defenders(vec![])));
    assert_eq!(
        character_facing_direction_for_side(&defenders, None, Side::Covenant, Side::Riftcaller),
        GameCharacterFacingDirection::Right
    );
    assert_eq!(
        character_facing_direction_for_side(&defenders, None, Side::Covenant, Side::Covenant),
        GameCharacterFacingDirection::Left
    );
    let vault = Some(scene(RoomId::Vault, RaidDisplayState::Defenders(vec![])));
    assert_eq!(
        character_facing_direction_for_side(&vault, None, Side::Covenant, Side::Covenant),
        GameCharacterFacingDirection::Up
    );
    assert_eq!(
        character_facing_direction_for_side(
            &defenders,
            Some(DisplayPreference::ShowArenaView(true)),
            Side::Covenant,
            Side::Riftcaller
        ),
        GameCharacterFacingDirection::Down
    );
    assert_eq!(
        character_facing_direction_for_side(&None, None, Side::Riftcaller, Side::Riftcaller),
        GameCharacterFacingDirection::Up
    );
}

#[test]
fn played_cards_and_abilities() {
    assert_eq!(played_position(Side::Covenant, Side::Riftcaller, false, Some(raid())), Some(staging()));
    assert_eq!(played_position(Side::Covenant, Side::Covenant, true, Some(raid())), Some(staging()));
    assert_eq!(played_position(Side::Covenant, Side::Covenant, false, Some(raid())), Some(raid()));
    assert_eq!(played_position(Side::Covenant, Side::Covenant, false, None), None);
    let active = ability_card_position(true, 4, 1, PlayerName::User);
    assert_eq!(active, ObjectPosition { sorting_key: 5, sorting_subkey: 3, position: Some(staging()) });
    let idle = ability_card_position(false, 4, 0, PlayerName::Opponent);
    assert_eq!(idle.position, Some(hand(PlayerName::Opponent)));
    assert_eq!(idle.sorting_subkey, 2);
}

#[test]
fn selector_cards_move_between_browsers() {
    let prompt = selector(SelectorPromptTarget::DeckTop, vec![card(1)], vec![card(2)]);
    assert_eq!(move_target(&prompt, card(1), 0), at(1, card_browser_target_position()));
    assert_eq!(move_target(&prompt, card(2), 0), at(1, revealed_cards(true)));
    assert_eq!(move_target(&prompt, card(3), 0), None);
    assert_eq!(move_target(&None, card(1), 0), None);
}

#[test]
fn overridden_cards_are_reported() {
    let access = Some(scene(RoomId::RoomA, RaidDisplayState::Access));
    assert!(has_position_override(&None, &None, None, PhaseView::Play, &access, card(50), 0, false, PlayerName::User));
    assert!(!has_position_override(&None, &None, None, PhaseView::Play, &access, card(51), 0, false, PlayerName::User));
}

#[test]
fn pile_positions_name_their_owner() {
    assert_eq!(deck(PlayerName::User), Position::Deck(ObjectPositionDeck { owner: 1 }));
    assert_eq!(character(PlayerName::Opponent), Position::Character(ObjectPositionCharacter { owner: 2 }));
    assert_eq!(
        discard_container(PlayerName::User),
        Position::DiscardPileContainer(ObjectPositionDiscardPileContainer { owner: 1 })
    );
    assert_eq!(display_shelf(PlayerName::Opponent), Position::Riftcaller(ObjectPositionRiftcallers { owner: 2 }));
    assert_eq!(scoring(), Position::Scoring(ObjectPositionScoring {}));
    assert_ne!(deck_container(PlayerName::User), deck(PlayerName::User));
    assert_ne!(discard(PlayerName::User), discard_container(PlayerName::User));
    assert_ne!(character_container(PlayerName::User), character(PlayerName::User));
}

#[test]
fn card_positions_adapt_to_the_viewer() {
    assert_eq!(
        adapt_position(Side::Covenant, CardPosition::Hand(Side::Riftcaller), None, None),
        Some(hand(PlayerName::Opponent))
    );
    assert_eq!(adapt_position(Side::Covenant, CardPosition::DeckTop(Side::Covenant), None, None), Some(deck(PlayerName::User)));
    assert_eq!(adapt_position(Side::Covenant, CardPosition::Scored(Side::Covenant), None, None), Some(character(PlayerName::User)));
    assert_eq!(adapt_position(Side::Covenant, CardPosition::Sigil(Side::Riftcaller), None, None), Some(display_shelf(PlayerName::Opponent)));
    assert_eq!(adapt_position(Side::Covenant, CardPosition::DeckUnknown, None, None), None);
    assert_eq!(adapt_position(Side::Covenant, CardPosition::Banished, None, None), Some(offscreen()));
    assert_eq!(adapt_position(Side::Covenant, CardPosition::Banished, None, Some(raid())), Some(raid()));
    assert_eq!(adapt_position(Side::Covenant, CardPosition::Played(Side::Covenant), Some(staging()), None), Some(staging()));
    assert_eq!(adapt_position(Side::Covenant, CardPosition::Scoring, None, None), Some(scoring()));
    assert_eq!(
        adapt_position(Side::Covenant, CardPosition::Room(RoomId::Crypts, RoomLocation::Defender), None, None),
        Some(room(RoomId::Crypts, RoomLocation::Defender))
    );
    assert_eq!(
        room(RoomId::Crypts, RoomLocation::Occupant),
        Position::Room(ObjectPositionRoom { room_id: 3, room_location: 1 })
    );
    assert_eq!(calculate(None, 7, Some(raid())), ObjectPosition { sorting_key: 7, sorting_subkey: 0, position: Some(raid()) });
    assert_eq!(calculate(at(2, staging()), 7, Some(raid())), at(2, staging()).unwrap());
}
