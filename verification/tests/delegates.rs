use spelldawn::adventure::Side;
use spelldawn::delegates::{
    add_card_to_delegate_map, invoke_event_of_kind, perform_query, perform_query_of_kind,
    populate_delegate_map, remove_card_from_delegate_map, Ability, AbilityId, CardDelegates,
    Delegate, DelegateContext, GameDelegateMap,
};
use spelldawn::positions::CardId;

fn card(index: usize) -> CardId {
    CardId { side: Side::Covenant, index }
}

/// Two abilities: the first responds to kinds 1 and 2, the second to kind 1
/// and has a delegate of another sort.
fn abilities(tag: char) -> Vec<Ability<char>> {
    vec![
        Ability { delegates: vec![Delegate::GameDelegate(1, tag), Delegate::GameDelegate(2, tag)] },
        Ability { delegates: vec![Delegate::Other, Delegate::GameDelegate(1, tag)] },
    ]
}

fn contents(map: &GameDelegateMap<char, u8>, kind: u32) -> Vec<(char, AbilityId)> {
    map.lookup
        .get(&kind)
        .map(|list| list.iter().map(|c| (c.delegate, c.scope.ability_id)).collect())
        .unwrap_or_default()
}

#[test]
fn delegates_are_added_by_kind_in_order() {
    let mut map: GameDelegateMap<char, u8> = GameDelegateMap::new();
    add_card_to_delegate_map(&mut map, &abilities('a'), card(1), 0);
    add_card_to_delegate_map(&mut map, &abilities('b'), card(2), 0);
    assert_eq!(
        contents(&map, 1),
        vec![
            ('a', AbilityId::new(card(1), 0)),
            ('a', AbilityId::new(card(1), 1)),
            ('b', AbilityId::new(card(2), 0)),
            ('b', AbilityId::new(card(2), 1)),
        ]
    );
    assert_eq!(contents(&map, 2), vec![('a', AbilityId::new(card(1), 0)), ('b', AbilityId::new(card(2), 0))]);
    assert_eq!(map.lookup.len(), 2);
    assert_eq!(map.lookup[&1][0].scope.metadata, 0);
}

#[test]
fn removing_a_card_keeps_the_others() {
    let mut map: GameDelegateMap<char, u8> = GameDelegateMap::new();
    add_card_to_delegate_map(&mut map, &abilities('a'), card(1), 0);
    add_card_to_delegate_map(&mut map, &abilities('b'), card(2), 0);
    remove_card_from_delegate_map(&mut map, &abilities('a'), card(1));
    assert_eq!(contents(&map, 1), vec![('b', AbilityId::new(card(2), 0)), ('b', AbilityId::new(card(2), 1))]);
    assert_eq!(contents(&map, 2), vec![('b', AbilityId::new(card(2), 0))]);
}

#[test]
fn remove_undoes_add() {
    let mut map: GameDelegateMap<char, u8> = GameDelegateMap::new();
    add_card_to_delegate_map(&mut map, &abilities('b'), card(2), 7);
    let before_one = contents(&map, 1);
    let before_two = contents(&map, 2);
    let extra = vec![Ability { delegates: vec![Delegate::GameDelegate(9, 'c')] }];
    add_card_to_delegate_map(&mut map, &extra, card(3), 7);
    add_card_to_delegate_map(&mut map, &abilities('a'), card(1), 7);
    remove_card_from_delegate_map(&mut map, &abilities('a'), card(1));
    remove_card_from_delegate_map(&mut map, &extra, card(3));
    assert_eq!(contents(&map, 1), before_one);
    assert_eq!(contents(&map, 2), before_two);
    assert_eq!(map.lookup.get(&9).map(|l| l.len()), Some(0));
}

#[test]
fn removing_from_an_absent_kind_changes_nothing() {
    let mut map: GameDelegateMap<char, u8> = GameDelegateMap::new();
    remove_card_from_delegate_map(&mut map, &abilities('a'), card(1));
    assert!(map.lookup.is_empty());
}

#[test]
fn registry_is_populated_card_by_card() {
    let cards = vec![
        CardDelegates { card_id: card(1), abilities: abilities('a'), metadata: 1u8 },
        CardDelegates { card_id: card(2), abilities: vec![], metadata: 2u8 },
        CardDelegates { card_id: card(3), abilities: abilities('c'), metadata: 3u8 },
    ];
    let map = populate_delegate_map(&cards);
    assert_eq!(
        contents(&map, 2),
        vec![('a', AbilityId::new(card(1), 0)), ('c', AbilityId::new(card(3), 0))]
    );
    assert_eq!(map.lookup[&2][1].scope.metadata, 3);
    assert_eq!(contents(&map, 1).len(), 4);
}

#[test]
fn queries_fold_through_matching_delegates() {
    let mut map: GameDelegateMap<char, u8> = GameDelegateMap::new();
    add_card_to_delegate_map(&mut map, &abilities('a'), card(1), 0);
    add_card_to_delegate_map(&mut map, &abilities('b'), card(2), 0);
    let list = map.lookup[&1].clone();
    let total = perform_query(&list, 1u32, |c: DelegateContext<char, u8>| c.delegate == 'b', |_c: DelegateContext<char, u8>, v: u32| v * 10);
    assert_eq!(total, 100);
    let kept = perform_query_of_kind(&map, 2, String::new(), |_c: DelegateContext<char, u8>| true, |c: DelegateContext<char, u8>, mut v: String| {
        v.push(c.delegate);
        v
    });
    assert_eq!(kept, "ab");
    assert_eq!(perform_query_of_kind(&map, 77, 5u32, |_c: DelegateContext<char, u8>| true, |_c: DelegateContext<char, u8>, v: u32| v + 1), 5);
}

#[test]
fn events_mutate_until_a_failure() {
    let mut map: GameDelegateMap<char, u8> = GameDelegateMap::new();
    add_card_to_delegate_map(&mut map, &abilities('a'), card(1), 0);
    add_card_to_delegate_map(&mut map, &abilities('b'), card(2), 0);
    let log = invoke_event_of_kind(
        &map,
        1,
        Vec::<char>::new(),
        |_s: &Vec<char>, c: DelegateContext<char, u8>| c.scope.ability_id.index == 0,
        |mut s: Vec<char>, c: DelegateContext<char, u8>| -> Result<Vec<char>, (Vec<char>, &'static str)> {
            s.push(c.delegate);
            Ok(s)
        },
    );
    assert_eq!(log, Ok(vec!['a', 'b']));
    let failed = invoke_event_of_kind(
        &map,
        1,
        0u32,
        |_s: &u32, _c: DelegateContext<char, u8>| true,
        |s: u32, c: DelegateContext<char, u8>| -> Result<u32, (u32, &'static str)> {
            if c.delegate == 'b' {
                Err((s, "refused"))
            } else {
                Ok(s + 1)
            }
        },
    );
    assert_eq!(failed, Err((2, "refused")));
    assert_eq!(
        invoke_event_of_kind(&map, 9, 3u32, |_s: &u32, _c: DelegateContext<char, u8>| true, |s: u32, _c: DelegateContext<char, u8>| -> Result<u32, (u32, ())> { Ok(s + 1) }),
        Ok(3)
    );
}
