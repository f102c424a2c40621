use spelldawn::element_names::{
    buy_card, card_list, card_list_card_name, card_list_card_quantity, collection_browser,
    deck_button, deck_card, deck_card_slot, deck_card_slot_overlay, draft_card, feedback_button,
    global, menu_button, CurrentDraggable, ElementNameSelector, TargetName,
};
use spelldawn::logging::{shows_target, tag_icon, LogLevel, LoggingType};
use spelldawn::panel_address::CollectionBrowserFilters;
use spelldawn::protos::client_enums::{GameMessageType, MusicState};
use spelldawn::protos::game_enums::{ClientRoomLocation, PlayerName, RoomIdentifier};
use spelldawn::protos::layout_enums::{DimensionUnit, FlexAlign, FlexDisplayStyle};
use spelldawn::protos::messages::{ElementSelector, Selector};
use spelldawn::protos::text_enums::{EasingMode, TextAlign};
use spelldawn::text::{decimal_string, push_decimal, str_contains, str_eq};

#[test]
fn element_names_append_their_variant() {
    assert_eq!(deck_card(42).into_string(), "DeckCard42");
    assert_eq!(deck_card_slot(0).into_string(), "DeckCardSlot0");
    assert_eq!(deck_card_slot_overlay(7).into_string(), "DeckCardSlotOverlay7");
    assert_eq!(card_list_card_name(105).into_string(), "CardListCardVariant105");
    assert_eq!(card_list_card_quantity(3).into_string(), "CardListCardQuantity3");
    assert_eq!(buy_card(18446744073709551615).into_string(), "BuyCard18446744073709551615");
    assert_eq!(draft_card(10).into_string(), "DraftCard10");
}

#[test]
fn global_names_have_count_zero() {
    assert_eq!(global("Tag").into_string(), "Tag0");
    assert_eq!(deck_button().into_string(), "DeckButton0");
    assert_eq!(menu_button().into_string(), "MenuButton0");
    assert_eq!(feedback_button().into_string(), "FeedbackButton0");
    assert_eq!(card_list().into_string(), "CardList0");
    assert_eq!(collection_browser().into_string(), "CollectionBrowser0");
}

#[test]
fn selectors_name_their_element() {
    assert_eq!(
        deck_card(2).selector(),
        ElementSelector { selector: Some(Selector::ElementName("DeckCard2".to_string())) }
    );
    assert_eq!(CurrentDraggable.selector(), ElementSelector { selector: Some(Selector::DragIndicator) });
    assert_eq!(
        TargetName(draft_card(5)).selector(),
        ElementSelector { selector: Some(Selector::TargetElement("DraftCard5".to_string())) }
    );
}

#[test]
fn decimal_text() {
    assert_eq!(decimal_string(0), "0");
    assert_eq!(decimal_string(9), "9");
    assert_eq!(decimal_string(10), "10");
    assert_eq!(decimal_string(1234567890), "1234567890");
    let mut s = "x=".to_string();
    push_decimal(&mut s, 305);
    assert_eq!(s, "x=305");
}

#[test]
fn string_search() {
    assert!(str_eq("abc", "abc"));
    assert!(!str_eq("abc", "abd"));
    assert!(!str_eq("abc", "ab"));
    assert!(str_contains("game::raid_state::access", "raid_state"));
    assert!(str_contains("anything", ""));
    assert!(!str_contains("rul", "rules"));
    assert!(!str_contains("server", "servers"));
}

#[test]
fn log_tags() {
    assert_eq!(tag_icon("rules::queries", LogLevel::Error), '🚨');
    assert_eq!(tag_icon("rules::queries", LogLevel::Warn), '🚧');
    assert_eq!(tag_icon("rules::queries", LogLevel::Info), '🎴');
    assert_eq!(tag_icon("tutorial", LogLevel::Debug), '🎓');
    assert_eq!(tag_icon("server::requests", LogLevel::Info), '💻');
    assert_eq!(tag_icon("actions", LogLevel::Trace), '🎬');
    assert_eq!(tag_icon("raid_state::access", LogLevel::Info), '🔪');
    assert_eq!(tag_icon("display", LogLevel::Trace), '📍');
    assert_eq!(tag_icon("display", LogLevel::Debug), '📝');
    assert_eq!(tag_icon("display", LogLevel::Info), '💡');
    assert!(shows_target('💡'));
    assert!(shows_target('📝'));
    assert!(shows_target('📍'));
    assert!(!shows_target('🎴'));
    assert!(!shows_target('🚨'));
}

#[test]
fn logging_type_names() {
    assert_eq!(LoggingType::Forest.into_string(), "forest");
    assert_eq!(LoggingType::Stackdriver.into_string(), "stackdriver");
}

#[test]
fn collection_browser_starts_at_offset_zero() {
    assert_eq!(CollectionBrowserFilters::default(), CollectionBrowserFilters { offset: 0 });
}

#[test]
fn enum_names_round_trip() {
    assert_eq!(FlexAlign::Auto.as_str_name(), "FLEX_ALIGN_AUTO");
    assert_eq!(FlexAlign::from_str_name("FLEX_ALIGN_STRETCH"), Some(FlexAlign::Stretch));
    assert_eq!(FlexAlign::from_str_name("FLEX_ALIGN_SIDEWAYS"), None);
    assert_eq!(FlexDisplayStyle::DisplayNone.as_str_name(), "FLEX_DISPLAY_STYLE_NONE");
    assert_eq!(
        FlexDisplayStyle::from_str_name("FLEX_DISPLAY_STYLE_NONE"),
        Some(FlexDisplayStyle::DisplayNone)
    );
    assert_eq!(TextAlign::LowerCenter.as_str_name(), "TEXT_ALIGN_LOWER_CENTER");
    assert_eq!(TextAlign::from_str_name(TextAlign::MiddleRight.as_str_name()), Some(TextAlign::MiddleRight));
    assert_eq!(EasingMode::from_str_name(EasingMode::EaseInOut.as_str_name()), Some(EasingMode::EaseInOut));
    assert_eq!(MusicState::from_str_name("MUSIC_STATE_MAIN_MENU"), Some(MusicState::MainMenu));
    assert_eq!(RoomIdentifier::from_str_name("ROOM_IDENTIFIER_ROOM_C"), Some(RoomIdentifier::RoomC));
    assert_eq!(RoomIdentifier::from_str_name(""), None);
}

#[test]
fn enum_numbers_round_trip() {
    assert_eq!(i32::from(FlexAlign::Stretch), 5);
    assert_eq!(FlexAlign::from_i32(3), Some(FlexAlign::Center));
    assert_eq!(FlexAlign::from_i32(6), None);
    assert_eq!(FlexAlign::from_i32(-1), None);
    assert!(FlexAlign::is_valid(0));
    assert!(!FlexAlign::is_valid(6));
    assert_eq!(i32::from(FlexDisplayStyle::DisplayNone), 2);
    assert_eq!(i32::from(GameMessageType::Victory), 3);
    assert_eq!(GameMessageType::from_i32(4), Some(GameMessageType::Defeat));
    assert_eq!(i32::from(ClientRoomLocation::Front), 2);
    assert_eq!(i32::from(PlayerName::Opponent), 2);
    assert_eq!(i32::from(RoomIdentifier::RoomE), 8);
    assert_eq!(i32::from(DimensionUnit::ViewportHeight), 4);
    assert_eq!(DimensionUnit::from_i32(i32::from(DimensionUnit::Pixels)), Some(DimensionUnit::Pixels));
}

#[test]
fn enum_defaults_are_unspecified() {
    assert_eq!(FlexAlign::default(), FlexAlign::Unspecified);
    assert_eq!(MusicState::default(), MusicState::Unspecified);
    assert_eq!(i32::from(TextAlign::default()), 0);
}
