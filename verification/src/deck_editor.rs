//! Handles the player's edits to their adventure deck.
use std::collections::HashMap;
use vstd::prelude::*;

use crate::adventure::{CardName, DeckCardAction, DeckCardEffect};
use crate::text::{decimal, push_decimal};
use vstd::string::StringExecFns;

verus! {

broadcast use vstd::std_specs::hash::group_hash_axioms;

/// Requests made from the deck editor.
#[derive(Clone, Copy, Debug, PartialEq, Eq, Structural)]
pub enum DeckEditorAction {
    /// The player has seen the deck editor prompt.
    ViewedPrompt,
    /// Add one copy of a card from the collection to the deck.
    AddToDeck(CardName),
    /// Remove one copy of a card from the deck.
    RemoveFromDeck(CardName),
}

/// Why a deck editor request was refused.
#[derive(Clone, Copy, Debug, PartialEq, Eq, Structural)]
pub enum DeckEditorError {
    /// The player has no adventure in progress.
    NoAdventure,
    /// Every copy of the card in the collection is already in the deck.
    InsufficientCopies,
    /// The card is not in the deck.
    CardNotPresent,
    /// The deck records zero copies of the card.
    CardCountIsZero,
}

/// The cards of an adventure: those collected and those in the deck, each as
/// a count of copies keyed by card.
pub struct AdventureState {
    pub collection: HashMap<u32, u32>,
    pub deck: HashMap<u32, u32>,
}

/// The part of a player's state which the deck editor reads and changes.
pub struct PlayerState {
    /// Whether the player has seen the deck editor tutorial prompt.
    pub deck_editor_prompt_seen: bool,
    /// The adventure in progress, if any.
    pub adventure: Option<AdventureState>,
}

/// The number of copies of `card` recorded in `cards`, zero when absent.
pub open spec fn count_of(cards: Map<u32, u32>, card: u32) -> nat {
    if cards.contains_key(card) {
        cards[card] as nat
    } else {
        0
    }
}

/// Whether no entry of `cards` records zero copies.
pub open spec fn no_zero_counts(cards: Map<u32, u32>) -> bool {
    forall|card: u32| #[trigger] cards.contains_key(card) ==> cards[card] > 0
}

/// Whether the deck holds no more copies of any card than the collection.
pub open spec fn deck_within_collection(adventure: AdventureState) -> bool {
    forall|card: u32|
        #[trigger] count_of(adventure.deck@, card) <= count_of(adventure.collection@, card)
}

/// The deck after adding one copy of `card`.
pub open spec fn deck_with_added(deck: Map<u32, u32>, card: u32) -> Map<u32, u32> {
    deck.insert(card, (count_of(deck, card) + 1) as u32)
}

/// The deck after removing one copy of `card`, which it holds at least once.
pub open spec fn deck_with_removed(deck: Map<u32, u32>, card: u32) -> Map<u32, u32> {
    if deck[card] == 1 {
        deck.remove(card)
    } else {
        deck.insert(card, (deck[card] - 1) as u32)
    }
}

/// The outcome of handling `action` for a player: the error, if the request
/// is refused, and otherwise the new deck (or, for a prompt being seen,
/// nothing).
pub open spec fn handle_outcome(adventure: Option<AdventureState>, action: DeckEditorAction) -> Result<Option<Map<u32, u32>>, DeckEditorError> {
    match action {
        DeckEditorAction::ViewedPrompt => Ok(None),
        DeckEditorAction::AddToDeck(name) => match adventure {
            None => Err(DeckEditorError::NoAdventure),
            Some(a) => if count_of(a.collection@, name.0) > count_of(a.deck@, name.0) {
                Ok(Some(deck_with_added(a.deck@, name.0)))
            } else {
                Err(DeckEditorError::InsufficientCopies)
            },
        },
        DeckEditorAction::RemoveFromDeck(name) => match adventure {
            None => Err(DeckEditorError::NoAdventure),
            Some(a) => if !a.deck@.contains_key(name.0) {
                Err(DeckEditorError::CardNotPresent)
            } else if a.deck@[name.0] == 0 {
                Err(DeckEditorError::CardCountIsZero)
            } else {
                Ok(Some(deck_with_removed(a.deck@, name.0)))
            },
        },
    }
}

/// Handles a deck editor request. A refused request changes nothing; a
/// request that succeeds changes only the deck, or for a viewed prompt only
/// the prompt's seen flag.
pub fn handle(player: &mut PlayerState, action: &DeckEditorAction) -> (res: Result<
    (),
    DeckEditorError,
>)
    ensures
        match handle_outcome(old(player).adventure, *action) {
            Err(e) => res == Err::<(), DeckEditorError>(e) && *final(player) == *old(player),
            Ok(None) => {
                &&& res is Ok
                &&& final(player).deck_editor_prompt_seen
                &&& final(player).adventure == old(player).adventure
            },
            Ok(Some(deck)) => {
                &&& res is Ok
                &&& final(player).deck_editor_prompt_seen == old(player).deck_editor_prompt_seen
                &&& final(player).adventure matches Some(after) && after.deck@ == deck
                    && after.collection == old(player).adventure.unwrap().collection
            },
        },
{
    match action {
        DeckEditorAction::ViewedPrompt => {
            player.deck_editor_prompt_seen = true;
            Ok(())
        },
        DeckEditorAction::AddToDeck(card_name) => {
            let adventure = match &mut player.adventure {
                Some(a) => a,
                None => {
                    return Err(DeckEditorError::NoAdventure);
                },
            };
            let collected: u32 = match adventure.collection.get(&card_name.0) {
                Some(c) => *c,
                None => 0,
            };
            let in_deck: u32 = match adventure.deck.get(&card_name.0) {
                Some(c) => *c,
                None => 0,
            };
            if !(collected > in_deck) {
                return Err(DeckEditorError::InsufficientCopies);
            }
            adventure.deck.insert(card_name.0, in_deck + 1);
            Ok(())
        },
        DeckEditorAction::RemoveFromDeck(card_name) => {
            let adventure = match &mut player.adventure {
                Some(a) => a,
                None => {
                    return Err(DeckEditorError::NoAdventure);
                },
            };
            let count: u32 = match adventure.deck.get(&card_name.0) {
                Some(c) => *c,
                None => {
                    return Err(DeckEditorError::CardNotPresent);
                },
            };
            if count == 0 {
                return Err(DeckEditorError::CardCountIsZero);
            } else if count == 1 {
                adventure.deck.remove(&card_name.0);
            } else {
                adventure.deck.insert(card_name.0, count - 1);
            }
            Ok(())
        },
    }
}

/// Removing a copy of a card just added to a deck gives back the deck, for
/// decks which record no zero counts.
pub proof fn lemma_add_then_remove(deck: Map<u32, u32>, card: u32)
    requires
        no_zero_counts(deck),
        count_of(deck, card) < u32::MAX,
    ensures
        deck_with_removed(deck_with_added(deck, card), card) == deck,
{
    let added = deck_with_added(deck, card);
    if deck.contains_key(card) {
        assert(deck[card] > 0);
        assert(added.insert(card, (added[card] - 1) as u32) =~= deck);
    } else {
        assert(added.remove(card) =~= deck);
    }
}

/// Adding a copy of a card just removed from a deck gives back the deck.
pub proof fn lemma_remove_then_add(deck: Map<u32, u32>, card: u32)
    requires
        deck.contains_key(card),
        deck[card] > 0,
    ensures
        deck_with_added(deck_with_removed(deck, card), card) == deck,
{
    let removed = deck_with_removed(deck, card);
    assert(deck_with_added(removed, card) =~= deck);
}

/// A successful request keeps every deck entry above zero.
pub proof fn lemma_handle_keeps_no_zero_counts(
    adventure: AdventureState,
    action: DeckEditorAction,
)
    requires
        no_zero_counts(adventure.deck@),
    ensures
        handle_outcome(Some(adventure), action) matches Ok(Some(deck)) ==> no_zero_counts(
            deck,
        ),
{
    match handle_outcome(Some(adventure), action) {
        Ok(Some(deck)) => {
            assert forall|card: u32| #[trigger] deck.contains_key(card) implies deck[card] > 0 by {
                if adventure.deck@.contains_key(card) {
                    assert(adventure.deck@[card] > 0);
                }
            }
        },
        _ => {},
    }
}

/// A successful request never puts more copies of a card in the deck than
/// the collection holds.
pub proof fn lemma_handle_keeps_deck_within_collection(
    adventure: AdventureState,
    action: DeckEditorAction,
)
    requires
        deck_within_collection(adventure),
    ensures
        handle_outcome(Some(adventure), action) matches Ok(Some(deck)) ==> forall|card: u32|
            #[trigger] count_of(deck, card) <= count_of(adventure.collection@, card),
{
    match handle_outcome(Some(adventure), action) {
        Ok(Some(deck)) => {
            assert forall|card: u32| #[trigger]
                count_of(deck, card) <= count_of(adventure.collection@, card) by {
                assert(count_of(adventure.deck@, card) <= count_of(adventure.collection@, card));
            }
        },
        _ => {},
    }
}

/// The deck editor panel, optionally offering an effect to apply to a card
/// picked from the deck.
pub struct DeckEditorPanel {
    pub effect: Option<DeckCardEffect>,
}

/// The label of the button applying `action` to a card.
pub open spec fn spec_action_label(action: DeckCardAction) -> Seq<char> {
    match action {
        DeckCardAction::DuplicateTo3Copies => "Duplicate"@,
        DeckCardAction::TransmuteAllCopies => "Transmute"@,
        DeckCardAction::UpgradeAllCopies => "Upgrade"@,
        DeckCardAction::RemoveOne => "Remove"@,
    }
}

/// The panel title for an effect.
pub open spec fn spec_effect_title(action: DeckCardAction) -> Seq<char> {
    match action {
        DeckCardAction::DuplicateTo3Copies => "Duplication"@,
        DeckCardAction::TransmuteAllCopies => "Transmutation"@,
        DeckCardAction::UpgradeAllCopies => "Upgrade"@,
        DeckCardAction::RemoveOne => "Removal"@,
    }
}

/// The instructions shown for an effect.
pub open spec fn spec_effect_message(action: DeckCardAction) -> Seq<char> {
    match action {
        DeckCardAction::DuplicateTo3Copies => "Pick a card to have three copies of."@,
        DeckCardAction::TransmuteAllCopies => "Pick a card to transform all copies into a random card of a higher rarity."@,
        DeckCardAction::UpgradeAllCopies => "Pick a card to upgrade all copies."@,
        DeckCardAction::RemoveOne => "Pick a card to remove one copy from your deck."@,
    }
}

/// The instructions shown for an effect applied `times` more times: the
/// effect's message, followed by the number of choices remaining when more
/// than one remains.
pub open spec fn spec_effect_instructions(action: DeckCardAction, times: u32) -> Seq<char> {
    if times > 1 {
        spec_effect_message(action) + " Choices remaining: "@ + decimal(times as nat) + "."@
    } else {
        spec_effect_message(action)
    }
}

/// The label of the button applying `action` to a card.
pub fn action_label(action: DeckCardAction) -> (res: &'static str)
    ensures
        res@ == spec_action_label(action),
{
    match action {
        DeckCardAction::DuplicateTo3Copies => "Duplicate",
        DeckCardAction::TransmuteAllCopies => "Transmute",
        DeckCardAction::UpgradeAllCopies => "Upgrade",
        DeckCardAction::RemoveOne => "Remove",
    }
}

impl DeckEditorPanel {
    /// The effect which can be applied to a card of which the deck holds
    /// `quantity` copies: none when the panel offers none or its filter
    /// excludes the card, nor when the effect would duplicate a card of which
    /// there are already three copies.
    pub fn deck_card_effect(&self, filter_admits_card: bool, quantity: Option<u32>) -> (res: Option<
        DeckCardEffect,
    >)
        ensures
            res == (if !filter_admits_card {
                None
            } else {
                match self.effect {
                    Some(effect) => if effect.action == DeckCardAction::DuplicateTo3Copies && (
                    match quantity {
                        Some(q) => q,
                        None => 0,
                    }) >= 3 {
                        None
                    } else {
                        Some(effect)
                    },
                    None => None,
                }
            }),
    {
        if !filter_admits_card {
            return None;
        }
        match self.effect {
            Some(effect) => {
                let held = match quantity {
                    Some(q) => q,
                    None => 0,
                };
                if effect.action == DeckCardAction::DuplicateTo3Copies && held >= 3 {
                    None
                } else {
                    Some(effect)
                }
            },
            None => None,
        }
    }

    /// The panel's title, and the instructions shown below it when the panel
    /// offers an effect.
    pub fn title(&self) -> (res: (&'static str, Option<String>))
        ensures
            match self.effect {
                Some(effect) => {
                    &&& res.0@ == spec_effect_title(effect.action)
                    &&& res.1 matches Some(m) && m@ == spec_effect_instructions(
                        effect.action,
                        effect.times,
                    )
                },
                None => res.0@ == "Deck"@ && res.1 is None,
            },
    {
        match self.effect {
            Some(effect) => {
                let (title, message) = match effect.action {
                    DeckCardAction::DuplicateTo3Copies => (
                        "Duplication",
                        "Pick a card to have three copies of.",
                    ),
                    DeckCardAction::TransmuteAllCopies => (
                        "Transmutation",
                        "Pick a card to transform all copies into a random card of a higher rarity.",
                    ),
                    DeckCardAction::UpgradeAllCopies => (
                        "Upgrade",
                        "Pick a card to upgrade all copies.",
                    ),
                    DeckCardAction::RemoveOne => (
                        "Removal",
                        "Pick a card to remove one copy from your deck.",
                    ),
                };
                let mut text = String::from_str(message);
                if effect.times > 1 {
                    text.append(" Choices remaining: ");
                    push_decimal(&mut text, effect.times as u64);
                    text.append(".");
                }
                (title, Some(text))
            },
            None => ("Deck", None),
        }
    }
}

} // verus!
