use spelldawn::adventure::{
    AdventureEffect, AdventureEffectKind, CardFilterCategoryOperator, CardFilterId, CardName,
    CardSubtype, CardType, Coins, DeckCardAction, DeckCardEffect, FlagSet, NarrativeChoiceId,
    NarrativeEventId, Rarity, Side, Skill, UpgradedStatus,
};
use spelldawn::game_tables::card_filters_table::{build_filter, insert, CardFilterTable};
use spelldawn::game_tables::csv_datatypes::{
    CardFilterRow, NarrativeEventDetailsRow, NarrativeEventEntryKind, NarrativeEventRow,
};
use spelldawn::game_tables::narrative_events_table::{
    all_choice_ids, build, build_choice, build_effect, effect_list, find_choice_entry,
    find_details, find_entry, resolve_card_filter, resolve_card_name, resolve_deck_card_action,
    resolve_quantity,
};
use spelldawn::game_tables::{GameTables, TableError};

fn row(id: u32, kind: NarrativeEventEntryKind, choice: Option<u32>, text: &str) -> NarrativeEventDetailsRow {
    NarrativeEventDetailsRow {
        id,
        entry_kind: kind,
        choice_id: choice,
        description: text.to_string(),
        required_skill: None,
        effect_kind: None,
        quantity: None,
        card_filter_id: None,
        deck_card_action: None,
        card_name: None,
    }
}

fn effect_row(
    id: u32,
    kind: NarrativeEventEntryKind,
    choice: u32,
    effect: AdventureEffectKind,
) -> NarrativeEventDetailsRow {
    let mut r = row(id, kind, Some(choice), "effect");
    r.effect_kind = Some(effect);
    r
}

fn empty_filter_row(id: u32) -> CardFilterRow {
    CardFilterRow {
        id,
        category_operator: CardFilterCategoryOperator::And,
        name: "filter".to_string(),
        upgraded_no: false,
        upgraded_yes: false,
        rarity_common: false,
        rarity_uncommon: false,
        rarity_rare: false,
        rarity_basic: false,
        rarity_identity: false,
        rarity_none: false,
        type_riftcaller: false,
        type_chapter: false,
        type_game_modifier: false,
        type_sigil: false,
        type_scheme: false,
        type_spell: false,
        type_ritual: false,
        type_evocation: false,
        type_ally: false,
        type_project: false,
        type_artifact: false,
        type_minion: false,
        side_covenant: false,
        side_riftcaller: false,
        subtype_weapon: false,
    }
}

/// A complete event with id 5: an introduction and two choices, numbered 2
/// and 1, the first with a cost and a reward.
fn sample_details() -> Vec<NarrativeEventDetailsRow> {
    let mut choice_one = row(5, NarrativeEventEntryKind::Choice, Some(1), "Pay the toll");
    choice_one.required_skill = Some(Skill(3));
    let mut cost = effect_row(5, NarrativeEventEntryKind::Cost, 1, AdventureEffectKind::LoseCoins);
    cost.quantity = Some(50);
    cost.description = "Lose 50 coins".to_string();
    let mut reward = effect_row(5, NarrativeEventEntryKind::Reward, 1, AdventureEffectKind::Draft);
    reward.card_filter_id = Some(7);
    reward.description = "Draft a card".to_string();
    vec![
        row(5, NarrativeEventEntryKind::Introduction, None, "A toll bridge"),
        row(5, NarrativeEventEntryKind::Choice, Some(2), "Turn back"),
        row(5, NarrativeEventEntryKind::Outcome, Some(2), "You leave"),
        choice_one,
        row(5, NarrativeEventEntryKind::Outcome, Some(1), "You cross"),
        cost,
        reward,
        row(9, NarrativeEventEntryKind::Introduction, None, "Another event"),
    ]
}

fn sample_event_rows() -> Vec<NarrativeEventRow> {
    vec![NarrativeEventRow { id: 5, image_path: "Images/Bridge".to_string() }]
}

#[test]
fn narrative_event_is_built_from_its_rows() {
    let events = build(sample_event_rows(), sample_details()).unwrap();
    assert_eq!(events.len(), 1);
    let event = &events[&5];
    assert_eq!(event.image.address, "Images/Bridge");
    assert_eq!(event.description, "A toll bridge");
    assert_eq!(event.choices.len(), 2);

    let first = &event.choices[&1];
    assert_eq!(first.choice_description, "Pay the toll");
    assert_eq!(first.result_description, "You cross");
    assert_eq!(first.skill, Some(Skill(3)));
    assert_eq!(first.costs.len(), 1);
    assert_eq!(first.costs[0].effect, AdventureEffect::LoseCoins(Coins(50)));
    assert_eq!(first.costs[0].description, "Lose 50 coins");
    assert_eq!(first.rewards.len(), 1);
    assert_eq!(first.rewards[0].effect, AdventureEffect::Draft(CardFilterId::new(7)));

    let second = &event.choices[&2];
    assert_eq!(second.choice_description, "Turn back");
    assert_eq!(second.result_description, "You leave");
    assert_eq!(second.skill, None);
    assert!(second.costs.is_empty());
    assert!(second.rewards.is_empty());
}

#[test]
fn narrative_event_without_introduction_is_refused() {
    let details = vec![row(5, NarrativeEventEntryKind::Choice, Some(1), "Go")];
    let result = build(sample_event_rows(), details);
    assert_eq!(
        result.err(),
        Some(TableError::WrongEntryCount { kind: NarrativeEventEntryKind::Introduction, count: 0 })
    );
}

#[test]
fn narrative_event_with_two_introductions_is_refused() {
    let details = vec![
        row(5, NarrativeEventEntryKind::Introduction, None, "One"),
        row(5, NarrativeEventEntryKind::Introduction, None, "Two"),
    ];
    let result = build(sample_event_rows(), details);
    assert_eq!(
        result.err(),
        Some(TableError::WrongEntryCount { kind: NarrativeEventEntryKind::Introduction, count: 2 })
    );
}

#[test]
fn choice_without_outcome_is_refused() {
    let details = vec![
        row(5, NarrativeEventEntryKind::Introduction, None, "Intro"),
        row(5, NarrativeEventEntryKind::Choice, Some(1), "Go"),
    ];
    let result = build(sample_event_rows(), details);
    assert_eq!(
        result.err(),
        Some(TableError::WrongEntryCount { kind: NarrativeEventEntryKind::Outcome, count: 0 })
    );
}

#[test]
fn event_without_choices_has_none() {
    let details = vec![row(5, NarrativeEventEntryKind::Introduction, None, "Quiet")];
    let events = build(sample_event_rows(), details).unwrap();
    assert!(events[&5].choices.is_empty());
}

#[test]
fn later_event_row_with_same_id_wins() {
    let rows = vec![
        NarrativeEventRow { id: 5, image_path: "First".to_string() },
        NarrativeEventRow { id: 5, image_path: "Second".to_string() },
    ];
    let events = build(rows, sample_details()).unwrap();
    assert_eq!(events.len(), 1);
    assert_eq!(events[&5].image.address, "Second");
}

#[test]
fn resolvers_report_missing_columns() {
    assert_eq!(resolve_quantity(Some(4)), Ok(4));
    assert_eq!(resolve_quantity(None), Err(TableError::MissingQuantity));
    assert_eq!(
        resolve_deck_card_action(Some(DeckCardAction::RemoveOne)),
        Ok(DeckCardAction::RemoveOne)
    );
    assert_eq!(resolve_deck_card_action(None), Err(TableError::MissingDeckCardAction));
    assert_eq!(resolve_card_filter(Some(12)), Ok(CardFilterId::new(12)));
    assert_eq!(resolve_card_filter(None), Err(TableError::MissingCardFilterId));
    assert_eq!(resolve_card_name(Some(CardName(3))), Ok(CardName(3)));
    assert_eq!(resolve_card_name(None), Err(TableError::MissingCardName));
}

#[test]
fn effect_needing_quantity_fails_without_it() {
    let r = effect_row(1, NarrativeEventEntryKind::Reward, 1, AdventureEffectKind::GainCoins);
    assert_eq!(build_effect(&r, AdventureEffectKind::GainCoins).err(), Some(TableError::MissingQuantity));
}

#[test]
fn effect_needing_action_fails_without_it() {
    let mut r = effect_row(1, NarrativeEventEntryKind::Reward, 1, AdventureEffectKind::PickCardForEffect);
    r.card_filter_id = Some(2);
    assert_eq!(
        build_effect(&r, AdventureEffectKind::PickCardForEffect).err(),
        Some(TableError::MissingDeckCardAction)
    );
}

#[test]
fn effect_checks_filter_before_action() {
    let r = effect_row(1, NarrativeEventEntryKind::Reward, 1, AdventureEffectKind::KnownRandomCardEffect);
    assert_eq!(
        build_effect(&r, AdventureEffectKind::KnownRandomCardEffect).err(),
        Some(TableError::MissingCardFilterId)
    );
}

#[test]
fn effect_needing_card_name_fails_without_it() {
    let r = effect_row(1, NarrativeEventEntryKind::Reward, 1, AdventureEffectKind::GainKnownFixedCard);
    assert_eq!(
        build_effect(&r, AdventureEffectKind::GainKnownFixedCard).err(),
        Some(TableError::MissingCardName)
    );
}

#[test]
fn narrative_event_effect_is_unsupported() {
    let r = effect_row(1, NarrativeEventEntryKind::Reward, 1, AdventureEffectKind::NarrativeEvent);
    assert_eq!(
        build_effect(&r, AdventureEffectKind::NarrativeEvent).err(),
        Some(TableError::UnsupportedEffect)
    );
}

#[test]
fn effects_without_columns_are_built() {
    let r = effect_row(1, NarrativeEventEntryKind::Reward, 1, AdventureEffectKind::Battle);
    assert_eq!(build_effect(&r, AdventureEffectKind::Battle).unwrap().effect, AdventureEffect::Battle);
    assert_eq!(
        build_effect(&r, AdventureEffectKind::LoseAllCoins).unwrap().effect,
        AdventureEffect::LoseAllCoins
    );
}

#[test]
fn pick_card_effect_defaults_to_one_time() {
    let mut r = effect_row(1, NarrativeEventEntryKind::Reward, 1, AdventureEffectKind::PickCardForEffect);
    r.card_filter_id = Some(2);
    r.deck_card_action = Some(DeckCardAction::UpgradeAllCopies);
    let built = build_effect(&r, AdventureEffectKind::PickCardForEffect).unwrap();
    assert_eq!(
        built.effect,
        AdventureEffect::PickCardForEffect(
            CardFilterId::new(2),
            DeckCardEffect { action: DeckCardAction::UpgradeAllCopies, cost: None, times: 1 }
        )
    );
    r.quantity = Some(3);
    let built = build_effect(&r, AdventureEffectKind::PickCardForEffect).unwrap();
    assert_eq!(
        built.effect,
        AdventureEffect::PickCardForEffect(
            CardFilterId::new(2),
            DeckCardEffect { action: DeckCardAction::UpgradeAllCopies, cost: None, times: 3 }
        )
    );
}

#[test]
fn card_effects_carry_quantity_as_count() {
    let mut r = effect_row(1, NarrativeEventEntryKind::Reward, 1, AdventureEffectKind::GainKnownFixedCard);
    r.card_name = Some(CardName(44));
    r.quantity = Some(2);
    assert_eq!(
        build_effect(&r, AdventureEffectKind::GainKnownFixedCard).unwrap().effect,
        AdventureEffect::GainKnownFixedCard(CardName(44), 2)
    );
    r.card_filter_id = Some(8);
    assert_eq!(
        build_effect(&r, AdventureEffectKind::LoseUnknownRandomCard).unwrap().effect,
        AdventureEffect::LoseUnknownRandomCard(CardFilterId::new(8), 2)
    );
}

#[test]
fn effect_list_keeps_table_order_and_reports_first_error() {
    let mut a = effect_row(1, NarrativeEventEntryKind::Reward, 1, AdventureEffectKind::AddMapTiles);
    a.quantity = Some(2);
    let mut b = effect_row(1, NarrativeEventEntryKind::Reward, 1, AdventureEffectKind::GainArcanite);
    b.quantity = Some(9);
    let other_choice = effect_row(1, NarrativeEventEntryKind::Reward, 2, AdventureEffectKind::GainCoins);
    let list = effect_list(&[a.clone(), other_choice, b.clone()], 1, NarrativeEventEntryKind::Reward).unwrap();
    assert_eq!(list.len(), 2);
    assert_eq!(list[0].effect, AdventureEffect::AddMapTiles(2));
    assert_eq!(list[1].effect, AdventureEffect::GainArcanite(9));

    let broken = effect_row(1, NarrativeEventEntryKind::Reward, 1, AdventureEffectKind::Shop);
    let result = effect_list(&[a, broken, b], 1, NarrativeEventEntryKind::Reward);
    assert_eq!(result.err(), Some(TableError::MissingCardFilterId));
}

#[test]
fn choice_ids_are_sorted_without_repeats() {
    let details = vec![
        row(1, NarrativeEventEntryKind::Choice, Some(3), "c"),
        row(1, NarrativeEventEntryKind::Introduction, None, "i"),
        row(1, NarrativeEventEntryKind::Outcome, Some(1), "o"),
        row(1, NarrativeEventEntryKind::Outcome, Some(3), "o"),
        row(1, NarrativeEventEntryKind::Choice, Some(2), "c"),
    ];
    assert_eq!(all_choice_ids(&details), vec![1, 2, 3]);
    assert!(all_choice_ids(&[]).is_empty());
}

#[test]
fn details_are_found_by_event() {
    let details = sample_details();
    let found = find_details(&details, NarrativeEventId::new(9));
    assert_eq!(found.len(), 1);
    assert_eq!(found[0].description, "Another event");
    assert_eq!(find_details(&details, NarrativeEventId::new(5)).len(), 7);
    assert!(find_details(&details, NarrativeEventId::new(6)).is_empty());
}

#[test]
fn single_entries_are_found() {
    let details = find_details(&sample_details(), NarrativeEventId::new(5));
    let intro = find_entry(&details, NarrativeEventEntryKind::Introduction).unwrap();
    assert_eq!(intro.description, "A toll bridge");
    assert_eq!(
        find_entry(&details, NarrativeEventEntryKind::Choice).err(),
        Some(TableError::WrongEntryCount { kind: NarrativeEventEntryKind::Choice, count: 2 })
    );
    let outcome =
        find_choice_entry(&details, NarrativeEventEntryKind::Outcome, NarrativeChoiceId::new(2)).unwrap();
    assert_eq!(outcome.description, "You leave");
    assert_eq!(
        find_choice_entry(&details, NarrativeEventEntryKind::Outcome, NarrativeChoiceId::new(4)).err(),
        Some(TableError::WrongEntryCount { kind: NarrativeEventEntryKind::Outcome, count: 0 })
    );
}

#[test]
fn choice_is_built_with_its_id() {
    let details = find_details(&sample_details(), NarrativeEventId::new(5));
    let (id, choice) = build_choice(&details, 1).unwrap();
    assert_eq!(id, NarrativeChoiceId::new(1));
    assert_eq!(choice.choice_description, "Pay the toll");
    assert_eq!(choice.costs.len(), 1);
}

#[test]
fn card_filter_holds_the_selected_columns() {
    let mut r = empty_filter_row(3);
    r.category_operator = CardFilterCategoryOperator::Or;
    r.upgraded_yes = true;
    r.rarity_rare = true;
    r.rarity_none = true;
    r.type_minion = true;
    r.side_covenant = true;
    r.subtype_weapon = true;
    let filter = build_filter(&r);
    assert_eq!(filter.category_operator, CardFilterCategoryOperator::Or);
    assert!(filter.upgraded.contains(UpgradedStatus::Upgraded));
    assert!(!filter.upgraded.contains(UpgradedStatus::Default));
    assert!(filter.rarity.contains(Rarity::Rare));
    assert!(filter.rarity.contains(Rarity::NoRarity));
    assert!(!filter.rarity.contains(Rarity::Common));
    assert!(filter.card_types.contains(CardType::Minion));
    assert!(!filter.card_types.contains(CardType::Spell));
    assert!(filter.sides.contains(Side::Covenant));
    assert!(!filter.sides.contains(Side::Riftcaller));
    assert!(filter.card_subtypes.contains(CardSubtype::Weapon));
}

#[test]
fn flag_insert_respects_the_column() {
    let mut set: FlagSet<Side> = FlagSet::new();
    insert(&mut set, false, Side::Covenant);
    assert!(!set.contains(Side::Covenant));
    insert(&mut set, true, Side::Riftcaller);
    insert(&mut set, true, Side::Riftcaller);
    assert!(set.contains(Side::Riftcaller));
    assert!(!set.contains(Side::Covenant));
}

#[test]
fn card_filter_table_builds_by_id_last_row_winning() {
    let mut table = CardFilterTable::new();
    let mut first = empty_filter_row(1);
    first.side_covenant = true;
    let mut second = empty_filter_row(1);
    second.side_riftcaller = true;
    table.import_row(first);
    table.import_row(empty_filter_row(2));
    table.import_row(second);
    let filters = table.build().unwrap();
    assert_eq!(filters.len(), 2);
    assert!(filters[&1].sides.contains(Side::Riftcaller));
    assert!(!filters[&1].sides.contains(Side::Covenant));
    table.clear();
    assert!(table.build().unwrap().is_empty());
}

#[test]
fn game_tables_are_initialized_from_all_rows() {
    let mut filter = empty_filter_row(7);
    filter.type_spell = true;
    let tables = GameTables::initialize(vec![filter], sample_event_rows(), sample_details()).unwrap();
    assert!(tables.card_filter(CardFilterId::new(7)).card_types.contains(CardType::Spell));
    assert_eq!(tables.narrative_event(NarrativeEventId::new(5)).description, "A toll bridge");
}

#[test]
fn game_tables_report_event_errors() {
    let details = vec![row(5, NarrativeEventEntryKind::Outcome, Some(1), "o")];
    let result = GameTables::initialize(vec![], sample_event_rows(), details);
    assert_eq!(
        result.err(),
        Some(TableError::WrongEntryCount { kind: NarrativeEventEntryKind::Introduction, count: 0 })
    );
}
