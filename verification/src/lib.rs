//! Client-side logic of the Spelldawn card game: protocol enumerations,
//! interface element names, game table construction, deck editing, the raid
//! state machine's decisions, the registry of card delegates, and what the
//! client displays -- positions, animations, controls and prompt text.
#![allow(unused_imports)]

pub mod text;
pub mod protos;
pub mod adventure;
pub mod game_tables;
pub mod element_names;
pub mod deck_editor;
pub mod positions;
pub mod panel_address;
pub mod logging;
pub mod raid_state;
pub mod display;
pub mod position_overrides;
pub mod prompt_labels;
pub mod delegates;
pub mod custom_cards;
pub mod deck_list;
pub mod panels;
