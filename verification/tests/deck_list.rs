use spelldawn::adventure::CardName;
use spelldawn::deck_list::{entry_less, position_for_card, sorted_deck, text_less, DeckListEntry};

fn entry(card: u32, type_rank: u32, cost: u32, name: &str) -> DeckListEntry {
    DeckListEntry { card: CardName(card), count: 1, type_rank, cost, name: name.to_string() }
}

#[test]
fn strings_compare_character_by_character() {
    assert!(text_less("Axe", "Bow"));
    assert!(text_less("Bow", "Bowl"));
    assert!(!text_less("Bowl", "Bow"));
    assert!(!text_less("Same", "Same"));
    assert!(text_less("", "a"));
    assert!(!text_less("b", "a"));
    assert!(text_less("Zeta", "alpha"));
}

#[test]
fn entries_order_by_type_then_cost_then_name() {
    assert!(entry_less(&entry(1, 0, 9, "Z"), &entry(2, 1, 0, "A")));
    assert!(entry_less(&entry(1, 1, 2, "Z"), &entry(2, 1, 3, "A")));
    assert!(entry_less(&entry(1, 1, 3, "A"), &entry(2, 1, 3, "B")));
    assert!(!entry_less(&entry(1, 1, 3, "B"), &entry(2, 1, 3, "A")));
}

#[test]
fn deck_is_listed_in_order() {
    let sorted = sorted_deck(vec![
        entry(1, 2, 1, "Crab"),
        entry(2, 0, 3, "Spear"),
        entry(3, 2, 0, "Frog"),
        entry(4, 0, 3, "Axe"),
        entry(5, 1, 5, "Leyline"),
    ]);
    let cards: Vec<u32> = sorted.iter().map(|e| e.card.0).collect();
    assert_eq!(cards, vec![4, 2, 5, 3, 1]);
    assert!(sorted_deck(vec![]).is_empty());
}

#[test]
fn card_position_counts_those_before_it() {
    let entries = vec![entry(1, 2, 1, "Crab"), entry(2, 0, 3, "Spear"), entry(3, 2, 0, "Frog")];
    assert_eq!(position_for_card(&entries, &entry(1, 2, 1, "Crab")), 2);
    assert_eq!(position_for_card(&entries, &entry(2, 0, 3, "Spear")), 0);
    assert_eq!(position_for_card(&entries, &entry(9, 1, 0, "New")), 1);
    assert_eq!(position_for_card(&entries, &entry(9, 9, 0, "Last")), 3);
}

#[test]
fn card_position_matches_the_sorted_deck() {
    let make = || {
        vec![
            entry(1, 2, 1, "Crab"),
            entry(2, 0, 3, "Spear"),
            entry(3, 2, 0, "Frog"),
            entry(4, 0, 3, "Axe"),
            entry(5, 1, 5, "Leyline"),
        ]
    };
    let entries = make();
    let sorted = sorted_deck(make());
    for e in entries.iter() {
        let position = position_for_card(&entries, e);
        assert_eq!(sorted[position].card, e.card);
    }
    let added = entry(9, 1, 0, "New");
    let position = position_for_card(&entries, &added);
    let mut with_added = make();
    with_added.push(entry(9, 1, 0, "New"));
    let sorted = sorted_deck(with_added);
    assert_eq!(sorted[position].card, added.card);
    assert_eq!(position, 2);
}
