use spelldawn::adventure::Side;
use spelldawn::custom_cards::{
    counter_card_view, leyline_card_view, marker_card, room_selector, wound_card_view, CounterCard,
    CustomCardIdentifier, CustomCardIdentity, CustomCardPosition, CustomPlacement,
};
use spelldawn::positions::CardId;
use spelldawn::protos::game_enums::PlayerName;
use spelldawn::raid_state::RoomId;

#[test]
fn counters_sit_on_the_display_shelf() {
    let card = CounterCard {
        identifier: CustomCardIdentifier::Curse,
        counters: 3,
        image: "curse".to_string(),
        title: "Curse".to_string(),
        text: "Cursed.".to_string(),
    };
    let view = counter_card_view(Side::Covenant, Side::Riftcaller, card);
    assert_eq!(view.identity, CustomCardIdentity::Custom(CustomCardIdentifier::Curse, 0));
    assert_eq!(
        view.position,
        CustomPlacement { at: CustomCardPosition::DisplayShelf(PlayerName::Opponent), kind: CustomCardIdentifier::Curse }
    );
    assert_eq!(view.quantity_icon, Some(3));
    assert!(view.is_face_up);
    assert_eq!(view.owner, PlayerName::Opponent);
    let at_character =
        CustomPlacement { at: CustomCardPosition::Character(PlayerName::Opponent), kind: CustomCardIdentifier::Curse };
    assert_eq!(view.create_position, Some(at_character));
    assert_eq!(view.destroy_position, Some(at_character));
    assert_eq!(view.title, "Curse");
    assert_eq!(view.rules_text, "Cursed.");
}

#[test]
fn single_counters_show_no_count() {
    let view = wound_card_view(Side::Riftcaller, 1);
    assert_eq!(view.quantity_icon, None);
    assert_eq!(view.owner, PlayerName::User);
    assert_eq!(view.rules_text, "-1 maximum hand size.");
    let view = leyline_card_view(Side::Covenant, 2, "$");
    assert_eq!(view.quantity_icon, Some(2));
    assert_eq!(view.rules_text, "Gain 1$ to use during each raid.");
    assert_eq!(view.identity, CustomCardIdentity::Custom(CustomCardIdentifier::Leyline, 0));
}

#[test]
fn room_selector_points_at_valid_rooms() {
    let rooms = vec![RoomId::Vault, RoomId::RoomB];
    let view = room_selector(Side::Riftcaller, Side::Riftcaller, "img".to_string(), "Raid".to_string(), rooms.clone(), false);
    assert_eq!(view.identity, CustomCardIdentity::Custom(CustomCardIdentifier::RoomSelector, 1));
    assert!(!view.is_face_up);
    assert_eq!(view.valid_rooms, Some(rooms));
    assert_eq!(view.create_position, None);
    assert_eq!(view.on_release_position, view.destroy_position);
    assert_eq!(view.rules_text, "Select target room");
    let animated = room_selector(Side::Riftcaller, Side::Riftcaller, "img".to_string(), "Raid".to_string(), vec![], true);
    assert_eq!(animated.create_position, animated.destroy_position);
    assert_eq!(
        animated.position,
        CustomPlacement { at: CustomCardPosition::Hand(PlayerName::User), kind: CustomCardIdentifier::RoomSelector }
    );
}

#[test]
fn markers_stack_behind_their_target() {
    let target = CardId { side: Side::Riftcaller, index: 9 };
    let view = marker_card(Side::Riftcaller, Side::Covenant, 2, target, "i".to_string(), "Source".to_string(), "Marked.".to_string());
    assert_eq!(view.identity, CustomCardIdentity::StatusMarker { side: Side::Covenant, index: 9, ability_index: 2 });
    assert_eq!(
        view.position,
        CustomPlacement { at: CustomCardPosition::StackedBehind(target), kind: CustomCardIdentifier::StatusMarker }
    );
    assert_eq!(view.owner, PlayerName::Opponent);
    assert!(view.is_face_up);
    assert_eq!(view.create_position, None);
}
