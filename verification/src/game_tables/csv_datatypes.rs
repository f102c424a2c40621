//! Rows of the game's data tables.
use vstd::prelude::*;

use crate::adventure::{
    AdventureEffectKind, CardFilterCategoryOperator, CardName, DeckCardAction, Skill,
};

verus! {

/// The role of a row describing a narrative event.
#[derive(Clone, Copy, Debug, PartialEq, Eq, Structural, Hash)]
pub enum NarrativeEventEntryKind {
    Introduction,
    Choice,
    Outcome,
    Reward,
    Cost,
}

/// A row of the narrative events table.
#[derive(Debug)]
pub struct NarrativeEventRow {
    pub id: u32,
    pub image_path: String,
}

impl Clone for NarrativeEventRow {
    fn clone(&self) -> (res: NarrativeEventRow)
        ensures
            res == *self,
    {
        NarrativeEventRow { id: self.id, image_path: self.image_path.clone() }
    }
}

/// A row of the narrative event details table: one entry of the event with
/// the given `id`.
#[derive(Debug)]
pub struct NarrativeEventDetailsRow {
    pub id: u32,
    pub entry_kind: NarrativeEventEntryKind,
    pub choice_id: Option<u32>,
    pub description: String,
    pub required_skill: Option<Skill>,
    pub effect_kind: Option<AdventureEffectKind>,
    pub quantity: Option<u32>,
    pub card_filter_id: Option<u32>,
    pub deck_card_action: Option<DeckCardAction>,
    pub card_name: Option<CardName>,
}

impl Clone for NarrativeEventDetailsRow {
    fn clone(&self) -> (res: NarrativeEventDetailsRow)
        ensures
            res == *self,
    {
        NarrativeEventDetailsRow {
            id: self.id,
            entry_kind: self.entry_kind,
            choice_id: self.choice_id,
            description: self.description.clone(),
            required_skill: self.required_skill,
            effect_kind: self.effect_kind,
            quantity: self.quantity,
            card_filter_id: self.card_filter_id,
            deck_card_action: self.deck_card_action,
            card_name: self.card_name,
        }
    }
}

/// A row of the card filters table: the categories a filter selects, one
/// column per attribute value.
#[derive(Debug)]
pub struct CardFilterRow {
    pub id: u32,
    pub category_operator: CardFilterCategoryOperator,
    pub name: String,
    pub upgraded_no: bool,
    pub upgraded_yes: bool,
    pub rarity_common: bool,
    pub rarity_uncommon: bool,
    pub rarity_rare: bool,
    pub rarity_basic: bool,
    pub rarity_identity: bool,
    pub rarity_none: bool,
    pub type_riftcaller: bool,
    pub type_chapter: bool,
    pub type_game_modifier: bool,
    pub type_sigil: bool,
    pub type_scheme: bool,
    pub type_spell: bool,
    pub type_ritual: bool,
    pub type_evocation: bool,
    pub type_ally: bool,
    pub type_project: bool,
    pub type_artifact: bool,
    pub type_minion: bool,
    pub side_covenant: bool,
    pub side_riftcaller: bool,
    pub subtype_weapon: bool,
}


} // verus!
