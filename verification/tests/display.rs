use spelldawn::adventure::Side;
use spelldawn::delegates::AbilityId;
use spelldawn::display::{
    check_game_over, GameOverCommand, GameOverData, player_name, render_effect, render_tutorial, BubbleAnchor, BubbleStyle, SpeechBubble, Toast, Tooltip,
    TutorialDisplay, TutorialEffectType,
    activated_ability_cards, animation_steps, card_targeting, display_preference_button, rooms_where, game_over_message, in_display_position,
    main_controls, show_cards, show_cards_layout, shows_card, start_turn_message,
    tooltip_arrow_corner, AbilityCard, AnimationStep, DisplayPreference, GameAnimation, InterfaceState,
    MainControls, PromptKind, ShowCards, TargetRequirement, Targeting, TooltipAnchor,
};
use spelldawn::positions::{
    browser_position, card_browser, for_ability, for_card, for_sorting_key,
    for_summon_project_card, item, offscreen, raid, revealed_cards, staging, unspecified_room,
    CardId, GameObjectId, ItemLocation, RoomLocation, RELEASE_SORTING_KEY,
};
use spelldawn::protos::client_enums::GameMessageType;
use spelldawn::protos::game_enums::{
    ArrowBubbleCorner, ClientItemLocation, PlayerName, ClientRoomLocation, RevealedCardsBrowserSize,
    RoomIdentifier,
};
use spelldawn::protos::messages::{
    TimeValue,
    ObjectPosition, ObjectPositionBrowser, ObjectPositionItem, ObjectPositionOffscreen,
    ObjectPositionRaid, ObjectPositionRevealedCards, ObjectPositionRoom, ObjectPositionStaging,
    Position,
};
use spelldawn::raid_state::RoomId;

#[test]
fn turn_and_game_over_messages() {
    assert_eq!(start_turn_message(Side::Covenant), GameMessageType::Dusk);
    assert_eq!(start_turn_message(Side::Riftcaller), GameMessageType::Dawn);
    assert_eq!(game_over_message(Side::Covenant, Side::Covenant), GameMessageType::Victory);
    assert_eq!(game_over_message(Side::Covenant, Side::Riftcaller), GameMessageType::Defeat);
}

#[test]
fn display_preference_toggles_arena_view() {
    assert_eq!(display_preference_button(false, None, true), None);
    assert_eq!(
        display_preference_button(true, Some(DisplayPreference::ShowArenaView(true)), false),
        Some(DisplayPreference::ShowArenaView(false))
    );
    assert_eq!(
        display_preference_button(true, None, true),
        Some(DisplayPreference::ShowArenaView(true))
    );
    assert_eq!(
        display_preference_button(true, Some(DisplayPreference::ShowArenaView(false)), true),
        Some(DisplayPreference::ShowArenaView(true))
    );
    assert_eq!(display_preference_button(true, None, false), None);
}

#[test]
fn show_cards_layout_depends_on_count() {
    let options = ShowCards::default();
    assert_eq!(options, ShowCards { show_if_prominent: false, milliseconds: None, large_browser: false });
    assert_eq!(show_cards_layout(2, options), (false, 1000));
    assert_eq!(show_cards_layout(3, options), (false, 1000));
    assert_eq!(show_cards_layout(4, options), (true, 2000));
    let custom = ShowCards { show_if_prominent: true, milliseconds: Some(500), large_browser: true };
    assert_eq!(show_cards_layout(1, custom), (true, 500));
    assert!(shows_card(false, options));
    assert!(!shows_card(true, options));
    assert!(shows_card(true, custom));
}

#[test]
fn tooltip_corners() {
    assert_eq!(tooltip_arrow_corner(TooltipAnchor::GainMana), ArrowBubbleCorner::BottomRight);
    assert_eq!(
        tooltip_arrow_corner(TooltipAnchor::RaidRoom(RoomId::Vault)),
        ArrowBubbleCorner::BottomRight
    );
    assert_eq!(
        tooltip_arrow_corner(TooltipAnchor::RaidRoom(RoomId::Sanctum)),
        ArrowBubbleCorner::BottomLeft
    );
    assert_eq!(tooltip_arrow_corner(TooltipAnchor::DrawCard), ArrowBubbleCorner::BottomLeft);
}

fn idle() -> InterfaceState {
    InterfaceState {
        shows_arena_view: false,
        user_prompt: None,
        opponent_has_prompt: false,
        raid_active: false,
        resolving_mulligans: false,
        can_make_mulligan_decision: false,
        can_start_turn: false,
        can_end_turn: false,
    }
}

#[test]
fn main_controls_follow_priority() {
    assert_eq!(main_controls(&idle()), None);
    let mut state = idle();
    state.can_end_turn = true;
    assert_eq!(main_controls(&state), Some(MainControls::EndTurn));
    state.can_start_turn = true;
    assert_eq!(main_controls(&state), Some(MainControls::StartTurn));
    state.resolving_mulligans = true;
    assert_eq!(main_controls(&state), None);
    state.can_make_mulligan_decision = true;
    assert_eq!(main_controls(&state), Some(MainControls::MulliganDecision));
    state.raid_active = true;
    assert_eq!(main_controls(&state), Some(MainControls::Raid));
    state.opponent_has_prompt = true;
    assert_eq!(main_controls(&state), None);
    state.user_prompt = Some(PromptKind::CardSelector);
    assert_eq!(main_controls(&state), Some(MainControls::Prompt(PromptKind::CardSelector)));
    state.shows_arena_view = true;
    assert_eq!(main_controls(&state), None);
}

#[test]
fn sorting_keys_are_offset_by_one() {
    assert_eq!(RELEASE_SORTING_KEY, 100);
    assert_eq!(
        for_card(4, staging()),
        ObjectPosition {
            sorting_key: 5,
            sorting_subkey: 0,
            position: Some(Position::Staging(ObjectPositionStaging {}))
        }
    );
    assert_eq!(for_summon_project_card(4, raid()).sorting_subkey, 1);
    assert_eq!(for_summon_project_card(4, raid()).sorting_key, 5);
    let ability = for_ability(9, 3, offscreen());
    assert_eq!(ability.sorting_key, 10);
    assert_eq!(ability.sorting_subkey, 5);
    assert_eq!(ability.position, Some(Position::Offscreen(ObjectPositionOffscreen {})));
    assert_eq!(for_sorting_key(0, card_browser()).sorting_key, 1);
    assert_eq!(
        for_sorting_key(0, card_browser()).position,
        Some(Position::Browser(ObjectPositionBrowser {}))
    );
}

#[test]
fn rooms_and_items_map_to_client_locations() {
    assert_eq!(
        unspecified_room(RoomLocation::Defender),
        Position::Room(ObjectPositionRoom {
            room_id: i32::from(RoomIdentifier::Unspecified),
            room_location: i32::from(ClientRoomLocation::Front),
        })
    );
    assert_eq!(
        unspecified_room(RoomLocation::Occupant),
        Position::Room(ObjectPositionRoom { room_id: 0, room_location: i32::from(ClientRoomLocation::Back) })
    );
    assert_eq!(
        item(ItemLocation::Artifacts),
        Position::Item(ObjectPositionItem { item_location: i32::from(ClientItemLocation::Left) })
    );
    assert_eq!(item(ItemLocation::Allies), item(ItemLocation::Evocations));
    assert_eq!(
        item(ItemLocation::Allies),
        Position::Item(ObjectPositionItem { item_location: i32::from(ClientItemLocation::Right) })
    );
    assert_eq!(raid(), Position::Raid(ObjectPositionRaid {}));
}

#[test]
fn revealed_cards_browser_size() {
    assert_eq!(
        revealed_cards(true),
        Position::Revealed(ObjectPositionRevealedCards {
            size: i32::from(RevealedCardsBrowserSize::Large)
        })
    );
    assert_eq!(
        revealed_cards(false),
        Position::Revealed(ObjectPositionRevealedCards {
            size: i32::from(RevealedCardsBrowserSize::Small)
        })
    );
}

#[test]
fn browser_position_uses_first_index() {
    let a = GameObjectId::CardId(CardId { side: Side::Covenant, index: 1 });
    let b = GameObjectId::Deck(Side::Riftcaller);
    let c = GameObjectId::Character(Side::Covenant);
    let browser = [a, b, a];
    assert_eq!(
        browser_position(a, raid(), &browser),
        Some(ObjectPosition { sorting_key: 0, sorting_subkey: 0, position: Some(raid()) })
    );
    assert_eq!(browser_position(b, raid(), &browser).map(|p| p.sorting_key), Some(1));
    assert_eq!(browser_position(c, raid(), &browser), None);
    assert_eq!(browser_position(c, raid(), &[]), None);
}

fn card(index: usize) -> CardId {
    CardId { side: Side::Covenant, index }
}

#[test]
fn display_positions_are_prominent() {
    assert!(in_display_position(Some(staging())));
    assert!(in_display_position(Some(raid())));
    assert!(in_display_position(Some(card_browser())));
    assert!(in_display_position(Some(revealed_cards(false))));
    assert!(!in_display_position(Some(offscreen())));
    assert!(!in_display_position(None));
}

#[test]
fn shown_cards_skip_prominent_ones_and_count_from_one() {
    let cards = vec![(card(1), false), (card(2), true), (card(3), false)];
    let (moves, delay) = show_cards(&cards, ShowCards::default());
    assert_eq!(delay, 1000);
    assert_eq!(
        moves,
        vec![
            (card(1), ObjectPosition { sorting_key: 1, sorting_subkey: 0, position: Some(revealed_cards(false)) }),
            (card(3), ObjectPosition { sorting_key: 2, sorting_subkey: 0, position: Some(revealed_cards(false)) }),
        ]
    );
    let options = ShowCards { show_if_prominent: true, milliseconds: Some(250), large_browser: false };
    let many = vec![(card(1), true), (card(2), true), (card(3), true), (card(4), true)];
    let (moves, delay) = show_cards(&many, options);
    assert_eq!(delay, 250);
    assert_eq!(moves.len(), 4);
    assert_eq!(moves[3], (card(4), ObjectPosition { sorting_key: 4, sorting_subkey: 0, position: Some(revealed_cards(true)) }));
}

#[test]
fn animations_shown_to_each_side() {
    let ability = AbilityId::new(card(5), 1);
    assert_eq!(
        animation_steps(&GameAnimation::StartTurn(Side::Riftcaller), Side::Covenant),
        vec![AnimationStep::DisplayGameMessage(GameMessageType::Dawn)]
    );
    assert_eq!(
        animation_steps(&GameAnimation::PlayCard(Side::Covenant, card(1)), Side::Riftcaller),
        vec![AnimationStep::ShowCards(vec![card(1)], ShowCards::default())]
    );
    assert!(animation_steps(&GameAnimation::PlayCard(Side::Covenant, card(1)), Side::Covenant).is_empty());
    assert_eq!(
        animation_steps(&GameAnimation::AbilityTriggered(ability), Side::Covenant),
        vec![AnimationStep::ShowAbility(ability), AnimationStep::PlaySpecialEffects]
    );
    assert!(animation_steps(&GameAnimation::AbilityActivated(Side::Covenant, ability), Side::Covenant).is_empty());
    assert_eq!(
        animation_steps(&GameAnimation::DrawCards(Side::Covenant, vec![card(1), card(6)]), Side::Covenant),
        vec![AnimationStep::ShowCards(vec![card(1), card(6)], ShowCards::default())]
    );
    let prominent = ShowCards { show_if_prominent: true, milliseconds: None, large_browser: false };
    assert_eq!(
        animation_steps(&GameAnimation::SummonMinion(card(2)), Side::Riftcaller),
        vec![AnimationStep::ShowCards(vec![card(2)], prominent)]
    );
    assert!(animation_steps(&GameAnimation::SummonMinion(card(2)), Side::Covenant).is_empty());
    assert!(animation_steps(&GameAnimation::LevelUpRoom(RoomId::RoomA, false), Side::Covenant).is_empty());
    assert_eq!(
        animation_steps(&GameAnimation::LevelUpRoom(RoomId::RoomA, true), Side::Covenant),
        vec![AnimationStep::LevelUpRoom(RoomId::RoomA)]
    );
    assert!(animation_steps(&GameAnimation::InitiateRaid(RoomId::Vault, false), Side::Riftcaller).is_empty());
    assert_eq!(
        animation_steps(&GameAnimation::InitiateRaid(RoomId::Vault, false), Side::Covenant),
        vec![AnimationStep::InitiateRaid(RoomId::Vault)]
    );
    assert_eq!(
        animation_steps(&GameAnimation::ScoreCard(Side::Riftcaller, card(3)), Side::Covenant),
        vec![AnimationStep::ScoreCard(card(3))]
    );
    assert_eq!(
        animation_steps(&GameAnimation::UnveilCard(card(7)), Side::Covenant),
        vec![AnimationStep::ShowCards(vec![card(7)], prominent)]
    );
    assert_eq!(
        animation_steps(&GameAnimation::AccessSanctumCards(vec![card(8), card(9)]), Side::Riftcaller),
        vec![AnimationStep::AccessSanctumCards(vec![card(8), card(9)])]
    );
    assert!(animation_steps(&GameAnimation::GameOver, Side::Covenant).is_empty());
}

#[test]
fn ability_cards_beside_a_card() {
    let activated = vec![true, false, true];
    assert_eq!(
        activated_ability_cards(Side::Riftcaller, Side::Riftcaller, true, false, false, false, &activated),
        vec![AbilityCard::Activated(0), AbilityCard::Activated(2)]
    );
    assert!(activated_ability_cards(Side::Riftcaller, Side::Covenant, true, false, false, false, &activated).is_empty());
    assert!(activated_ability_cards(Side::Riftcaller, Side::Riftcaller, false, false, false, false, &activated).is_empty());
    assert_eq!(
        activated_ability_cards(Side::Covenant, Side::Covenant, true, true, true, true, &activated),
        vec![AbilityCard::Unveil]
    );
    assert!(activated_ability_cards(Side::Covenant, Side::Covenant, true, true, true, false, &activated).is_empty());
    assert!(activated_ability_cards(Side::Riftcaller, Side::Riftcaller, true, true, true, true, &activated).is_empty());
}

#[test]
fn targeting_lists_playable_rooms() {
    let rooms = vec![true, false, true, false, false, false, false, true];
    match card_targeting(None, false, true, &rooms) {
        Targeting::NoTargeting { can_play } => assert!(can_play),
        other => panic!("unexpected {:?}", other),
    }
    match card_targeting(Some(TargetRequirement::NoTarget), true, false, &rooms) {
        Targeting::NoTargeting { can_play } => assert!(!can_play),
        other => panic!("unexpected {:?}", other),
    }
    match card_targeting(None, true, true, &rooms) {
        Targeting::PlayInRoom { valid_rooms } => {
            assert_eq!(valid_rooms, vec![RoomId::Vault, RoomId::Crypts, RoomId::RoomE])
        }
        other => panic!("unexpected {:?}", other),
    }
    match card_targeting(Some(TargetRequirement::TargetRoom), false, true, &rooms) {
        Targeting::ArrowTargetRoom { valid_rooms } => {
            assert_eq!(valid_rooms, vec![RoomId::Vault, RoomId::Crypts, RoomId::RoomE])
        }
        other => panic!("unexpected {:?}", other),
    }
}

#[test]
fn rooms_to_visit() {
    let flags = vec![false, true, false, false, false, false, true, false];
    assert_eq!(rooms_where(&flags), vec![RoomId::Sanctum, RoomId::RoomD]);
    assert!(rooms_where(&vec![false; 8]).is_empty());
    assert_eq!(rooms_where(&vec![true; 8]).len(), 8);
}

#[test]
fn tutorial_tooltips_point_at_their_anchor() {
    let tooltip = TutorialDisplay::Tooltip(Tooltip { text: "Gain mana".to_string(), anchor: TooltipAnchor::GainMana, delay: 300 });
    match render_effect(Side::Covenant, tooltip) {
        TutorialEffectType::ArrowBubble(b) => {
            assert_eq!(b.text, "Gain mana");
            assert_eq!(b.style, BubbleStyle::Tooltip);
            assert_eq!(b.anchor, BubbleAnchor::PlayerMana(PlayerName::User));
            assert_eq!(b.arrow_corner, ArrowBubbleCorner::BottomRight);
            assert_eq!(b.idle_timer, TimeValue { milliseconds: 300 });
            assert_eq!(b.hide_time, None);
        }
        other => panic!("unexpected {:?}", other),
    }
    let room = TutorialDisplay::Tooltip(Tooltip { text: "Raid".to_string(), anchor: TooltipAnchor::RaidRoom(RoomId::Sanctum), delay: 0 });
    match render_effect(Side::Covenant, room) {
        TutorialEffectType::ArrowBubble(b) => {
            assert_eq!(b.anchor, BubbleAnchor::Room(RoomId::Sanctum));
            assert_eq!(b.arrow_corner, ArrowBubbleCorner::BottomLeft);
        }
        other => panic!("unexpected {:?}", other),
    }
}

#[test]
fn tutorial_speech_bubbles_and_toasts() {
    let bubble = TutorialDisplay::SpeechBubble(SpeechBubble { text: "Hi".to_string(), side: Side::Riftcaller, delay: 100, recurring: false });
    match render_effect(Side::Covenant, bubble) {
        TutorialEffectType::ArrowBubble(b) => {
            assert_eq!(b.style, BubbleStyle::SpeechBubble);
            assert_eq!(b.anchor, BubbleAnchor::Player(PlayerName::Opponent));
            assert_eq!(b.idle_timer, TimeValue { milliseconds: 100 });
            assert_eq!(b.hide_time, Some(TimeValue { milliseconds: 4000 }));
        }
        other => panic!("unexpected {:?}", other),
    }
    let effects = render_tutorial(
        Side::Covenant,
        vec![
            TutorialDisplay::Toast(Toast { text: "Welcome".to_string(), delay: 5, hide_after: Some(900) }),
            TutorialDisplay::Toast(Toast { text: "Stay".to_string(), delay: 6, hide_after: None }),
        ],
    );
    assert_eq!(effects.len(), 2);
    match &effects[0] {
        TutorialEffectType::ShowToast(t) => {
            assert_eq!(t.text, "Welcome");
            assert_eq!(t.idle_timer, TimeValue { milliseconds: 5 });
            assert_eq!(t.hide_time, Some(TimeValue { milliseconds: 900 }));
        }
        other => panic!("unexpected {:?}", other),
    }
    match &effects[1] {
        TutorialEffectType::ShowToast(t) => assert_eq!(t.hide_time, None),
        other => panic!("unexpected {:?}", other),
    }
    assert_eq!(player_name(Side::Riftcaller, Side::Riftcaller), PlayerName::User);
}

#[test]
fn game_over_commands_in_order() {
    assert!(check_game_over(None, Side::Covenant, 7).is_empty());
    let data = GameOverData { game_id: 7, winner: Side::Covenant };
    assert_eq!(
        check_game_over(Some(Side::Covenant), Side::Covenant, 7),
        vec![
            GameOverCommand::SetGameObjectsEnabled(false),
            GameOverCommand::DisplayGameMessage(GameMessageType::Victory),
            GameOverCommand::UpdateGameOverPanel(data),
            GameOverCommand::OpenGameOverPanel(data),
        ]
    );
    assert_eq!(
        check_game_over(Some(Side::Covenant), Side::Riftcaller, 7)[1],
        GameOverCommand::DisplayGameMessage(GameMessageType::Defeat)
    );
}
