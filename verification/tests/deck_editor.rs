use std::collections::HashMap;

use spelldawn::adventure::{CardName, Coins, DeckCardAction, DeckCardEffect};
use spelldawn::deck_editor::{
    action_label, handle, AdventureState, DeckEditorAction, DeckEditorError, DeckEditorPanel,
    PlayerState,
};

fn player(collection: &[(u32, u32)], deck: &[(u32, u32)]) -> PlayerState {
    PlayerState {
        deck_editor_prompt_seen: false,
        adventure: Some(AdventureState {
            collection: collection.iter().copied().collect::<HashMap<u32, u32>>(),
            deck: deck.iter().copied().collect::<HashMap<u32, u32>>(),
        }),
    }
}

fn deck_of(player: &PlayerState) -> &HashMap<u32, u32> {
    &player.adventure.as_ref().unwrap().deck
}

#[test]
fn viewing_the_prompt_marks_it_seen() {
    let mut p = player(&[(1, 2)], &[]);
    assert_eq!(handle(&mut p, &DeckEditorAction::ViewedPrompt), Ok(()));
    assert!(p.deck_editor_prompt_seen);
    assert!(deck_of(&p).is_empty());

    let mut no_adventure = PlayerState { deck_editor_prompt_seen: false, adventure: None };
    assert_eq!(handle(&mut no_adventure, &DeckEditorAction::ViewedPrompt), Ok(()));
    assert!(no_adventure.deck_editor_prompt_seen);
}

#[test]
fn adding_takes_one_copy_from_the_collection() {
    let mut p = player(&[(1, 2)], &[]);
    assert_eq!(handle(&mut p, &DeckEditorAction::AddToDeck(CardName(1))), Ok(()));
    assert_eq!(deck_of(&p).get(&1), Some(&1));
    assert_eq!(handle(&mut p, &DeckEditorAction::AddToDeck(CardName(1))), Ok(()));
    assert_eq!(deck_of(&p).get(&1), Some(&2));
    assert_eq!(
        handle(&mut p, &DeckEditorAction::AddToDeck(CardName(1))),
        Err(DeckEditorError::InsufficientCopies)
    );
    assert_eq!(deck_of(&p).get(&1), Some(&2));
    assert_eq!(p.adventure.as_ref().unwrap().collection.get(&1), Some(&2));
    assert!(!p.deck_editor_prompt_seen);
}

#[test]
fn adding_a_card_not_collected_is_refused() {
    let mut p = player(&[(1, 2)], &[]);
    assert_eq!(
        handle(&mut p, &DeckEditorAction::AddToDeck(CardName(9))),
        Err(DeckEditorError::InsufficientCopies)
    );
    assert!(deck_of(&p).is_empty());
}

#[test]
fn removing_drops_the_entry_at_zero() {
    let mut p = player(&[(4, 3)], &[(4, 2)]);
    assert_eq!(handle(&mut p, &DeckEditorAction::RemoveFromDeck(CardName(4))), Ok(()));
    assert_eq!(deck_of(&p).get(&4), Some(&1));
    assert_eq!(handle(&mut p, &DeckEditorAction::RemoveFromDeck(CardName(4))), Ok(()));
    assert_eq!(deck_of(&p).get(&4), None);
    assert_eq!(
        handle(&mut p, &DeckEditorAction::RemoveFromDeck(CardName(4))),
        Err(DeckEditorError::CardNotPresent)
    );
}

#[test]
fn removing_a_zero_count_entry_is_refused() {
    let mut p = player(&[(4, 3)], &[(4, 0)]);
    assert_eq!(
        handle(&mut p, &DeckEditorAction::RemoveFromDeck(CardName(4))),
        Err(DeckEditorError::CardCountIsZero)
    );
    assert_eq!(deck_of(&p).get(&4), Some(&0));
}

#[test]
fn edits_without_adventure_are_refused() {
    let mut p = PlayerState { deck_editor_prompt_seen: false, adventure: None };
    assert_eq!(
        handle(&mut p, &DeckEditorAction::AddToDeck(CardName(1))),
        Err(DeckEditorError::NoAdventure)
    );
    assert_eq!(
        handle(&mut p, &DeckEditorAction::RemoveFromDeck(CardName(1))),
        Err(DeckEditorError::NoAdventure)
    );
    assert!(p.adventure.is_none());
    assert!(!p.deck_editor_prompt_seen);
}

#[test]
fn add_then_remove_restores_the_deck() {
    let mut p = player(&[(1, 3), (2, 1)], &[(1, 1), (2, 1)]);
    let before = deck_of(&p).clone();
    assert_eq!(handle(&mut p, &DeckEditorAction::AddToDeck(CardName(1))), Ok(()));
    assert_eq!(handle(&mut p, &DeckEditorAction::RemoveFromDeck(CardName(1))), Ok(()));
    assert_eq!(deck_of(&p), &before);

    let mut q = player(&[(5, 1)], &[]);
    assert_eq!(handle(&mut q, &DeckEditorAction::AddToDeck(CardName(5))), Ok(()));
    assert_eq!(handle(&mut q, &DeckEditorAction::RemoveFromDeck(CardName(5))), Ok(()));
    assert!(deck_of(&q).is_empty());
}

#[test]
fn remove_then_add_restores_the_deck() {
    let mut p = player(&[(1, 3)], &[(1, 2)]);
    let before = deck_of(&p).clone();
    assert_eq!(handle(&mut p, &DeckEditorAction::RemoveFromDeck(CardName(1))), Ok(()));
    assert_eq!(handle(&mut p, &DeckEditorAction::AddToDeck(CardName(1))), Ok(()));
    assert_eq!(deck_of(&p), &before);
}

#[test]
fn action_labels() {
    assert_eq!(action_label(DeckCardAction::DuplicateTo3Copies), "Duplicate");
    assert_eq!(action_label(DeckCardAction::TransmuteAllCopies), "Transmute");
    assert_eq!(action_label(DeckCardAction::UpgradeAllCopies), "Upgrade");
    assert_eq!(action_label(DeckCardAction::RemoveOne), "Remove");
}

fn effect(action: DeckCardAction, times: u32) -> DeckCardEffect {
    DeckCardEffect { action, cost: None, times }
}

#[test]
fn panel_title_without_effect() {
    let panel = DeckEditorPanel { effect: None };
    assert_eq!(panel.title(), ("Deck", None));
}

#[test]
fn panel_title_counts_remaining_choices() {
    let panel = DeckEditorPanel { effect: Some(effect(DeckCardAction::RemoveOne, 3)) };
    assert_eq!(
        panel.title(),
        ("Removal", Some("Pick a card to remove one copy from your deck. Choices remaining: 3.".to_string()))
    );
    let panel = DeckEditorPanel { effect: Some(effect(DeckCardAction::UpgradeAllCopies, 12)) };
    assert_eq!(
        panel.title(),
        ("Upgrade", Some("Pick a card to upgrade all copies. Choices remaining: 12.".to_string()))
    );
    let panel = DeckEditorPanel { effect: Some(effect(DeckCardAction::DuplicateTo3Copies, 1)) };
    assert_eq!(panel.title(), ("Duplication", Some("Pick a card to have three copies of.".to_string())));
    let panel = DeckEditorPanel { effect: Some(effect(DeckCardAction::TransmuteAllCopies, 0)) };
    assert_eq!(
        panel.title(),
        (
            "Transmutation",
            Some("Pick a card to transform all copies into a random card of a higher rarity.".to_string())
        )
    );
}

#[test]
fn deck_card_effect_respects_filter_and_copies() {
    let duplicate = effect(DeckCardAction::DuplicateTo3Copies, 1);
    let panel = DeckEditorPanel { effect: Some(duplicate) };
    assert_eq!(panel.deck_card_effect(true, Some(2)), Some(duplicate));
    assert_eq!(panel.deck_card_effect(true, None), Some(duplicate));
    assert_eq!(panel.deck_card_effect(true, Some(3)), None);
    assert_eq!(panel.deck_card_effect(false, Some(1)), None);

    let remove = DeckCardEffect { action: DeckCardAction::RemoveOne, cost: Some(Coins(25)), times: 1 };
    let panel = DeckEditorPanel { effect: Some(remove) };
    assert_eq!(panel.deck_card_effect(true, Some(5)), Some(remove));
    assert_eq!(DeckEditorPanel { effect: None }.deck_card_effect(true, Some(1)), None);
}
