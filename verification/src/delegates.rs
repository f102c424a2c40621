//! The registry of the game delegates of the cards in a game: for each kind
//! of game event or query, the delegates which respond to it, in the order
//! they were added, each with the ability it belongs to.
use std::collections::HashMap;
use vstd::prelude::*;

use crate::positions::CardId;

verus! {

broadcast use vstd::std_specs::hash::group_hash_axioms;

/// Identifies an ability: the card it belongs to and its index among the
/// card's abilities.
#[derive(Clone, Copy, Debug, PartialEq, Eq, Structural)]
pub struct AbilityId {
    pub card_id: CardId,
    pub index: usize,
}

impl AbilityId {
    pub fn new(card_id: CardId, index: usize) -> (res: AbilityId)
        ensures
            res == (AbilityId { card_id, index }),
    {
        AbilityId { card_id, index }
    }
}

/// Where a delegate applies: the ability it belongs to, and the metadata of
/// that ability's card.
#[derive(Clone, Copy, Debug)]
pub struct Scope<M> {
    pub ability_id: AbilityId,
    pub metadata: M,
}

/// A delegate of a card ability. A game delegate responds to the game event
/// or query of the given kind; delegates of other sorts are not held by the
/// registry.
#[derive(Clone, Copy, Debug)]
pub enum Delegate<D> {
    GameDelegate(u32, D),
    Other,
}

/// A card ability, with its delegates in order.
#[derive(Debug)]
pub struct Ability<D> {
    pub delegates: Vec<Delegate<D>>,
}

/// A game delegate held by the registry, with where it applies.
#[derive(Clone, Copy, Debug)]
pub struct DelegateContext<D, M> {
    pub delegate: D,
    pub scope: Scope<M>,
}

/// The registry: for each kind, the delegates responding to it.
#[derive(Debug)]
pub struct GameDelegateMap<D, M> {
    pub lookup: HashMap<u32, Vec<DelegateContext<D, M>>>,
}

impl<D, M> View for GameDelegateMap<D, M> {
    type V = Map<u32, Seq<DelegateContext<D, M>>>;

    open spec fn view(&self) -> Map<u32, Seq<DelegateContext<D, M>>> {
        self.lookup@.map_values(|list: Vec<DelegateContext<D, M>>| list@)
    }
}

impl<D, M> GameDelegateMap<D, M> {
    /// A registry holding no delegates.
    pub fn new() -> (res: GameDelegateMap<D, M>)
        ensures
            res@ == Map::<u32, Seq<DelegateContext<D, M>>>::empty(),
    {
        let res = GameDelegateMap { lookup: HashMap::new() };
        assert(res@ =~= Map::<u32, Seq<DelegateContext<D, M>>>::empty());
        res
    }
}

/// The game delegates of an ability, in order, each paired with its kind.
pub open spec fn ability_entries<D, M>(delegates: Seq<Delegate<D>>, scope: Scope<M>) -> Seq<
    (u32, DelegateContext<D, M>),
>
    decreases delegates.len(),
{
    if delegates.len() == 0 {
        Seq::empty()
    } else {
        let before = ability_entries(delegates.drop_last(), scope);
        match delegates.last() {
            Delegate::GameDelegate(kind, delegate) => before.push(
                (kind, DelegateContext { delegate, scope }),
            ),
            Delegate::Other => before,
        }
    }
}

/// The scope of the ability with index `index` of a card.
pub open spec fn scope_of<M>(card_id: CardId, index: int, metadata: M) -> Scope<M> {
    Scope { ability_id: AbilityId { card_id, index: index as usize }, metadata }
}

/// The game delegates of a card, ability by ability, each paired with its
/// kind.
pub open spec fn card_entries<D, M>(abilities: Seq<Ability<D>>, card_id: CardId, metadata: M) -> Seq<
    (u32, DelegateContext<D, M>),
>
    decreases abilities.len(),
{
    if abilities.len() == 0 {
        Seq::empty()
    } else {
        card_entries(abilities.drop_last(), card_id, metadata) + ability_entries(
            abilities.last().delegates@,
            scope_of(card_id, abilities.len() - 1, metadata),
        )
    }
}

/// The delegates of `kind` in `lists`, none when it has no list.
pub open spec fn list_of<D, M>(lists: Map<u32, Seq<DelegateContext<D, M>>>, kind: u32) -> Seq<
    DelegateContext<D, M>,
> {
    if lists.contains_key(kind) {
        lists[kind]
    } else {
        Seq::empty()
    }
}

/// The lists after appending each entry, in order, to the list of its kind.
pub open spec fn with_entries<D, M>(
    lists: Map<u32, Seq<DelegateContext<D, M>>>,
    entries: Seq<(u32, DelegateContext<D, M>)>,
) -> Map<u32, Seq<DelegateContext<D, M>>>
    decreases entries.len(),
{
    if entries.len() == 0 {
        lists
    } else {
        let before = with_entries(lists, entries.drop_last());
        let (kind, context) = entries.last();
        before.insert(kind, list_of(before, kind).push(context))
    }
}

/// The kinds of the game delegates among `delegates`.
pub open spec fn delegate_kinds<D>(delegates: Seq<Delegate<D>>) -> Set<u32>
    decreases delegates.len(),
{
    if delegates.len() == 0 {
        Set::empty()
    } else {
        let before = delegate_kinds(delegates.drop_last());
        match delegates.last() {
            Delegate::GameDelegate(kind, _) => before.insert(kind),
            Delegate::Other => before,
        }
    }
}

/// The kinds of the game delegates of a card's abilities.
pub open spec fn card_kinds<D>(abilities: Seq<Ability<D>>) -> Set<u32>
    decreases abilities.len(),
{
    if abilities.len() == 0 {
        Set::empty()
    } else {
        card_kinds(abilities.drop_last()).union(delegate_kinds(abilities.last().delegates@))
    }
}

/// Selects the delegates not belonging to the card.
pub open spec fn not_of_card<D, M>(card_id: CardId) -> spec_fn(DelegateContext<D, M>) -> bool {
    |c: DelegateContext<D, M>| c.scope.ability_id.card_id != card_id
}

/// The lists after removing the card's delegates from the list of each of
/// the given kinds; kinds without a list keep none.
pub open spec fn without_card<D, M>(
    lists: Map<u32, Seq<DelegateContext<D, M>>>,
    card_id: CardId,
    kinds: Set<u32>,
) -> Map<u32, Seq<DelegateContext<D, M>>> {
    Map::new(
        |kind: u32| lists.contains_key(kind),
        |kind: u32|
            if kinds.contains(kind) {
                lists[kind].filter(not_of_card(card_id))
            } else {
                lists[kind]
            },
    )
}

/// Appends a delegate to the list of its kind, creating the list if there
/// is none.
fn push_delegate<D, M>(map: &mut GameDelegateMap<D, M>, kind: u32, context: DelegateContext<D, M>)
    ensures
        final(map)@ == old(map)@.insert(kind, list_of(old(map)@, kind).push(context)),
{
    let mut list = match map.lookup.remove(&kind) {
        Some(list) => list,
        None => Vec::new(),
    };
    list.push(context);
    map.lookup.insert(kind, list);
    assert(map@ =~= old(map)@.insert(kind, list_of(old(map)@, kind).push(context)));
}

/// Adds the game delegates of a card's abilities to the registry, each
/// appended to the list of its kind, ability by ability and in order within
/// each ability.
pub fn add_card_to_delegate_map<D: Copy, M: Copy>(
    map: &mut GameDelegateMap<D, M>,
    abilities: &Vec<Ability<D>>,
    card_id: CardId,
    metadata: M,
)
    ensures
        final(map)@ == with_entries(old(map)@, card_entries(abilities@, card_id, metadata)),
{
    let ghost start = map@;
    let n = abilities.len();
    let mut index: usize = 0;
    while index < n
        invariant
            n == abilities@.len(),
            index <= n,
            map@ == with_entries(start, card_entries(abilities@.take(index as int), card_id, metadata)),
        decreases n - index,
    {
        let scope = Scope { ability_id: AbilityId::new(card_id, index), metadata };
        let delegates = &abilities[index].delegates;
        let ghost done = card_entries(abilities@.take(index as int), card_id, metadata);
        let m = delegates.len();
        let mut j: usize = 0;
        assert(done + ability_entries(delegates@.take(0), scope) =~= done);
        while j < m
            invariant
                m == delegates@.len(),
                j <= m,
                map@ == with_entries(start, done + ability_entries(delegates@.take(j as int), scope)),
            decreases m - j,
        {
            proof {
                assert(delegates@.take(j + 1).drop_last() =~= delegates@.take(j as int));
            }
            match delegates[j] {
                Delegate::GameDelegate(kind, delegate) => {
                    let context = DelegateContext { delegate, scope };
                    let ghost before = done + ability_entries(delegates@.take(j as int), scope);
                    push_delegate(map, kind, context);
                    proof {
                        let after = done + ability_entries(delegates@.take(j + 1), scope);
                        assert(after =~= before.push((kind, context)));
                        assert(after.drop_last() =~= before);
                    }
                },
                Delegate::Other => {
                    proof {
                        assert(done + ability_entries(delegates@.take(j + 1), scope) =~= done
                            + ability_entries(delegates@.take(j as int), scope));
                    }
                },
            }
            j = j + 1;
        }
        proof {
            assert(delegates@.take(m as int) =~= delegates@);
            assert(abilities@.take(index + 1).drop_last() =~= abilities@.take(index as int));
            assert(scope == scope_of(card_id, index as int, metadata));
        }
        index = index + 1;
    }
    assert(abilities@.take(n as int) =~= abilities@);
}

/// Appending two runs of entries one after the other appends their
/// concatenation.
proof fn lemma_with_entries_add<D, M>(
    lists: Map<u32, Seq<DelegateContext<D, M>>>,
    a: Seq<(u32, DelegateContext<D, M>)>,
    b: Seq<(u32, DelegateContext<D, M>)>,
)
    ensures
        with_entries(with_entries(lists, a), b) == with_entries(lists, a + b),
    decreases b.len(),
{
    if b.len() == 0 {
        assert(a + b =~= a);
    } else {
        lemma_with_entries_add(lists, a, b.drop_last());
        assert((a + b).drop_last() =~= a + b.drop_last());
        assert((a + b).last() == b.last());
    }
}

/// A card of a game, with its abilities and metadata.
#[derive(Debug)]
pub struct CardDelegates<D, M> {
    pub card_id: CardId,
    pub abilities: Vec<Ability<D>>,
    pub metadata: M,
}

/// The game delegates of the cards, card by card.
pub open spec fn game_entries<D, M>(cards: Seq<CardDelegates<D, M>>) -> Seq<(u32, DelegateContext<D, M>)>
    decreases cards.len(),
{
    if cards.len() == 0 {
        Seq::empty()
    } else {
        game_entries(cards.drop_last()) + card_entries(
            cards.last().abilities@,
            cards.last().card_id,
            cards.last().metadata,
        )
    }
}

/// Builds the registry of a game's cards: the game delegates of each card,
/// added card by card.
pub fn populate_delegate_map<D: Copy, M: Copy>(cards: &Vec<CardDelegates<D, M>>) -> (res:
    GameDelegateMap<D, M>)
    ensures
        res@ == with_entries(Map::empty(), game_entries(cards@)),
{
    let mut result = GameDelegateMap::new();
    let n = cards.len();
    let mut i: usize = 0;
    while i < n
        invariant
            n == cards@.len(),
            i <= n,
            result@ == with_entries(
                Map::<u32, Seq<DelegateContext<D, M>>>::empty(),
                game_entries(cards@.take(i as int)),
            ),
        decreases n - i,
    {
        let card = &cards[i];
        add_card_to_delegate_map(&mut result, &card.abilities, card.card_id, card.metadata);
        proof {
            assert(cards@.take(i + 1).drop_last() =~= cards@.take(i as int));
            lemma_with_entries_add(
                Map::<u32, Seq<DelegateContext<D, M>>>::empty(),
                game_entries(cards@.take(i as int)),
                card_entries(card.abilities@, card.card_id, card.metadata),
            );
        }
        i = i + 1;
    }
    assert(cards@.take(n as int) =~= cards@);
    result
}

/// Filtering twice by the same predicate keeps what filtering once keeps.
proof fn lemma_filter_twice<A>(s: Seq<A>, pred: spec_fn(A) -> bool)
    ensures
        s.filter(pred).filter(pred) == s.filter(pred),
    decreases s.len(),
{
    reveal(Seq::filter);
    if s.len() > 0 {
        let rest = s.drop_last();
        let x = s.last();
        assert(s =~= rest.push(x));
        rest.lemma_filter_push(x, pred);
        lemma_filter_twice(rest, pred);
        if pred(x) {
            rest.filter(pred).lemma_filter_push(x, pred);
        }
    }
}

/// Removes the card's delegates from the list of `kind`, if there is one.
fn remove_card_from_list<D: Copy, M: Copy>(map: &mut GameDelegateMap<D, M>, kind: u32, card_id: CardId)
    ensures
        final(map)@ == if old(map)@.contains_key(kind) {
            old(map)@.insert(kind, old(map)@[kind].filter(not_of_card(card_id)))
        } else {
            old(map)@
        },
{
    let list = match map.lookup.remove(&kind) {
        Some(list) => list,
        None => {
            return;
        },
    };
    let ghost pred = not_of_card::<D, M>(card_id);
    let mut kept: Vec<DelegateContext<D, M>> = Vec::new();
    let n = list.len();
    let mut i: usize = 0;
    while i < n
        invariant
            n == list@.len(),
            i <= n,
            pred == not_of_card::<D, M>(card_id),
            kept@ == list@.take(i as int).filter(pred),
        decreases n - i,
    {
        let context = list[i];
        if context.scope.ability_id.card_id != card_id {
            kept.push(context);
        }
        proof {
            assert(list@.take(i + 1) =~= list@.take(i as int).push(context));
            list@.take(i as int).lemma_filter_push(context, pred);
        }
        i = i + 1;
    }
    assert(list@.take(n as int) =~= list@);
    map.lookup.insert(kind, kept);
    assert(map@ =~= old(map)@.insert(kind, old(map)@[kind].filter(not_of_card(card_id))));
}

/// Removing the card's delegates from one more kind's list.
proof fn lemma_without_card_insert<D, M>(
    lists: Map<u32, Seq<DelegateContext<D, M>>>,
    card_id: CardId,
    kinds: Set<u32>,
    kind: u32,
)
    ensures
        ({
            let current = without_card(lists, card_id, kinds);
            without_card(lists, card_id, kinds.insert(kind)) == if current.contains_key(kind) {
                current.insert(kind, current[kind].filter(not_of_card(card_id)))
            } else {
                current
            }
        }),
{
    let current = without_card(lists, card_id, kinds);
    let next = without_card(lists, card_id, kinds.insert(kind));
    if current.contains_key(kind) {
        lemma_filter_twice(lists[kind], not_of_card(card_id));
        assert(next =~= current.insert(kind, current[kind].filter(not_of_card(card_id))));
    } else {
        assert(next =~= current);
    }
}

/// Removes every delegate of the card from the lists of the kinds its
/// abilities have game delegates of.
pub fn remove_card_from_delegate_map<D: Copy, M: Copy>(
    map: &mut GameDelegateMap<D, M>,
    abilities: &Vec<Ability<D>>,
    card_id: CardId,
)
    ensures
        final(map)@ == without_card(old(map)@, card_id, card_kinds(abilities@)),
{
    let ghost start = map@;
    let n = abilities.len();
    let mut index: usize = 0;
    assert(without_card(start, card_id, Set::empty()) =~= start);
    while index < n
        invariant
            n == abilities@.len(),
            index <= n,
            map@ == without_card(start, card_id, card_kinds(abilities@.take(index as int))),
        decreases n - index,
    {
        let delegates = &abilities[index].delegates;
        let ghost done = card_kinds(abilities@.take(index as int));
        let m = delegates.len();
        let mut j: usize = 0;
        assert(done.union(delegate_kinds(delegates@.take(0))) =~= done);
        while j < m
            invariant
                m == delegates@.len(),
                j <= m,
                map@ == without_card(start, card_id, done.union(delegate_kinds(delegates@.take(j as int)))),
            decreases m - j,
        {
            proof {
                assert(delegates@.take(j + 1).drop_last() =~= delegates@.take(j as int));
            }
            match delegates[j] {
                Delegate::GameDelegate(kind, _) => {
                    let ghost kinds = done.union(delegate_kinds(delegates@.take(j as int)));
                    proof {
                        lemma_without_card_insert(start, card_id, kinds, kind);
                    }
                    remove_card_from_list(map, kind, card_id);
                    proof {
                        assert(done.union(delegate_kinds(delegates@.take(j + 1))) =~= kinds.insert(
                            kind,
                        ));
                    }
                },
                Delegate::Other => {
                    proof {
                        assert(done.union(delegate_kinds(delegates@.take(j + 1))) =~= done.union(
                            delegate_kinds(delegates@.take(j as int)),
                        ));
                    }
                },
            }
            j = j + 1;
        }
        proof {
            assert(delegates@.take(m as int) =~= delegates@);
            assert(abilities@.take(index + 1).drop_last() =~= abilities@.take(index as int));
        }
        index = index + 1;
    }
    assert(abilities@.take(n as int) =~= abilities@);
}

/// The kinds of the entries.
pub open spec fn entry_kinds<D, M>(entries: Seq<(u32, DelegateContext<D, M>)>) -> Set<u32>
    decreases entries.len(),
{
    if entries.len() == 0 {
        Set::empty()
    } else {
        entry_kinds(entries.drop_last()).insert(entries.last().0)
    }
}

/// The delegates of the entries of the given kind, in order.
pub open spec fn entries_for<D, M>(entries: Seq<(u32, DelegateContext<D, M>)>, kind: u32) -> Seq<
    DelegateContext<D, M>,
>
    decreases entries.len(),
{
    if entries.len() == 0 {
        Seq::empty()
    } else {
        let before = entries_for(entries.drop_last(), kind);
        if entries.last().0 == kind {
            before.push(entries.last().1)
        } else {
            before
        }
    }
}

/// Appending entries adds each kind's entries to the end of its list.
proof fn lemma_with_entries_at<D, M>(
    lists: Map<u32, Seq<DelegateContext<D, M>>>,
    entries: Seq<(u32, DelegateContext<D, M>)>,
    kind: u32,
)
    ensures
        with_entries(lists, entries).contains_key(kind) == (lists.contains_key(kind) || entry_kinds(
            entries,
        ).contains(kind)),
        with_entries(lists, entries).contains_key(kind) ==> with_entries(lists, entries)[kind]
            == list_of(lists, kind) + entries_for(entries, kind),
        !entry_kinds(entries).contains(kind) ==> entries_for(entries, kind) == Seq::<
            DelegateContext<D, M>,
        >::empty(),
    decreases entries.len(),
{
    if entries.len() == 0 {
        assert(list_of(lists, kind) + Seq::<DelegateContext<D, M>>::empty() =~= list_of(lists, kind));
    } else {
        let rest = entries.drop_last();
        lemma_with_entries_at(lists, rest, kind);
        let before = with_entries(lists, rest);
        let (k, c) = entries.last();
        if k == kind {
            assert(list_of(before, kind) == list_of(lists, kind) + entries_for(rest, kind));
            assert((list_of(lists, kind) + entries_for(rest, kind)).push(c) =~= list_of(lists, kind)
                + entries_for(rest, kind).push(c));
        }
    }
}

/// The kinds of two runs of entries together.
proof fn lemma_entry_kinds_add<D, M>(
    a: Seq<(u32, DelegateContext<D, M>)>,
    b: Seq<(u32, DelegateContext<D, M>)>,
)
    ensures
        entry_kinds(a + b) == entry_kinds(a).union(entry_kinds(b)),
    decreases b.len(),
{
    if b.len() == 0 {
        assert(a + b =~= a);
        assert(entry_kinds(a).union(entry_kinds(b)) =~= entry_kinds(a));
    } else {
        lemma_entry_kinds_add(a, b.drop_last());
        assert((a + b).drop_last() =~= a + b.drop_last());
        assert(entry_kinds(a + b) =~= entry_kinds(a).union(entry_kinds(b)));
    }
}

/// The kinds of an ability's entries are those of its game delegates, and
/// every entry has the ability's scope.
proof fn lemma_ability_entries<D, M>(delegates: Seq<Delegate<D>>, scope: Scope<M>)
    ensures
        entry_kinds(ability_entries(delegates, scope)) == delegate_kinds(delegates),
        forall|i: int|
            0 <= i < ability_entries(delegates, scope).len() ==> #[trigger] ability_entries(
                delegates,
                scope,
            )[i].1.scope == scope,
    decreases delegates.len(),
{
    if delegates.len() > 0 {
        let rest = delegates.drop_last();
        lemma_ability_entries(rest, scope);
        let before = ability_entries(rest, scope);
        match delegates.last() {
            Delegate::GameDelegate(kind, delegate) => {
                let entry = (kind, DelegateContext { delegate, scope });
                assert(before.push(entry).drop_last() =~= before);
                assert(entry_kinds(before.push(entry)) == entry_kinds(before).insert(kind));
            },
            Delegate::Other => {},
        }
    }
}

/// The kinds of a card's entries are those of its abilities' game
/// delegates, and every entry belongs to the card.
proof fn lemma_card_entries<D, M>(abilities: Seq<Ability<D>>, card_id: CardId, metadata: M)
    ensures
        entry_kinds(card_entries(abilities, card_id, metadata)) == card_kinds(abilities),
        forall|i: int|
            0 <= i < card_entries(abilities, card_id, metadata).len() ==> (#[trigger] card_entries(
                abilities,
                card_id,
                metadata,
            )[i]).1.scope.ability_id.card_id == card_id,
    decreases abilities.len(),
{
    if abilities.len() > 0 {
        let rest = abilities.drop_last();
        let scope = scope_of(card_id, abilities.len() - 1, metadata);
        let tail = ability_entries(abilities.last().delegates@, scope);
        lemma_card_entries(rest, card_id, metadata);
        lemma_ability_entries(abilities.last().delegates@, scope);
        lemma_entry_kinds_add(card_entries(rest, card_id, metadata), tail);
        let all = card_entries(abilities, card_id, metadata);
        assert forall|i: int| 0 <= i < all.len() implies (#[trigger] all[i]).1.scope.ability_id.card_id
            == card_id by {
            let head = card_entries(rest, card_id, metadata);
            if i >= head.len() {
                assert(all[i] == tail[i - head.len()]);
            }
        }
    }
}

/// The entries of one kind come from the entries, so they belong to the
/// card when all the entries do.
proof fn lemma_entries_for_card<D, M>(
    entries: Seq<(u32, DelegateContext<D, M>)>,
    kind: u32,
    card_id: CardId,
)
    requires
        forall|i: int|
            0 <= i < entries.len() ==> (#[trigger] entries[i]).1.scope.ability_id.card_id == card_id,
    ensures
        forall|j: int|
            0 <= j < entries_for(entries, kind).len() ==> (#[trigger] entries_for(entries, kind)[j]).scope.ability_id.card_id
                == card_id,
    decreases entries.len(),
{
    if entries.len() > 0 {
        let rest = entries.drop_last();
        assert forall|i: int| 0 <= i < rest.len() implies (#[trigger] rest[i]).1.scope.ability_id.card_id
            == card_id by {
            assert(rest[i] == entries[i]);
        }
        lemma_entries_for_card(rest, kind, card_id);
        assert(entries.last() == entries[entries.len() - 1]);
    }
}

/// Filtering keeps nothing when nothing satisfies the predicate.
proof fn lemma_filter_none<A>(s: Seq<A>, pred: spec_fn(A) -> bool)
    requires
        forall|i: int| 0 <= i < s.len() ==> !pred(#[trigger] s[i]),
    ensures
        s.filter(pred) == Seq::<A>::empty(),
    decreases s.len(),
{
    reveal(Seq::filter);
    if s.len() > 0 {
        let rest = s.drop_last();
        assert forall|i: int| 0 <= i < rest.len() implies !pred(#[trigger] rest[i]) by {
            assert(rest[i] == s[i]);
        }
        lemma_filter_none(rest, pred);
        assert(!pred(s[s.len() - 1]));
    }
}

/// Filtering keeps everything when everything satisfies the predicate.
proof fn lemma_filter_all<A>(s: Seq<A>, pred: spec_fn(A) -> bool)
    requires
        forall|i: int| 0 <= i < s.len() ==> pred(#[trigger] s[i]),
    ensures
        s.filter(pred) == s,
    decreases s.len(),
{
    reveal(Seq::filter);
    if s.len() > 0 {
        let rest = s.drop_last();
        assert forall|i: int| 0 <= i < rest.len() implies pred(#[trigger] rest[i]) by {
            assert(rest[i] == s[i]);
        }
        lemma_filter_all(rest, pred);
        assert(pred(s[s.len() - 1]));
        assert(rest.push(s.last()) =~= s);
    }
}

/// Removing a card's delegates undoes adding them: when the registry holds
/// no delegate of the card, adding the game delegates of the card's
/// abilities and then removing the card's delegates leaves the list of
/// every kind the registry had as it was, and an empty list for each kind
/// the card's delegates brought in.
pub proof fn lemma_remove_undoes_add<D, M>(
    lists: Map<u32, Seq<DelegateContext<D, M>>>,
    abilities: Seq<Ability<D>>,
    card_id: CardId,
    metadata: M,
)
    requires
        forall|kind: u32, i: int|
            lists.contains_key(kind) && 0 <= i < lists[kind].len() ==> (#[trigger] lists[kind][i]).scope.ability_id.card_id
                != card_id,
    ensures
        without_card(
            with_entries(lists, card_entries(abilities, card_id, metadata)),
            card_id,
            card_kinds(abilities),
        ) == Map::new(
            |kind: u32| lists.contains_key(kind) || card_kinds(abilities).contains(kind),
            |kind: u32| list_of(lists, kind),
        ),
{
    let entries = card_entries(abilities, card_id, metadata);
    let kinds = card_kinds(abilities);
    let added = with_entries(lists, entries);
    let removed = without_card(added, card_id, kinds);
    let expected = Map::new(
        |kind: u32| lists.contains_key(kind) || kinds.contains(kind),
        |kind: u32| list_of(lists, kind),
    );
    let pred = not_of_card::<D, M>(card_id);
    lemma_card_entries(abilities, card_id, metadata);
    assert forall|kind: u32| #[trigger] removed.contains_key(kind) == expected.contains_key(kind) by {
        lemma_with_entries_at(lists, entries, kind);
    }
    assert forall|kind: u32| #[trigger] removed.contains_key(kind) implies removed[kind]
        == expected[kind] by {
        lemma_with_entries_at(lists, entries, kind);
        let own = list_of(lists, kind);
        let theirs = entries_for(entries, kind);
        if kinds.contains(kind) {
            lemma_entries_for_card(entries, kind, card_id);
            lemma_filter_none(theirs, pred);
            assert forall|i: int| 0 <= i < own.len() implies pred(#[trigger] own[i]) by {
                assert(own[i] == lists[kind][i]);
            }
            lemma_filter_all(own, pred);
            Seq::filter_distributes_over_add(own, theirs, pred);
            assert(own + Seq::<DelegateContext<D, M>>::empty() =~= own);
        } else {
            assert(own + Seq::<DelegateContext<D, M>>::empty() =~= own);
        }
    }
    assert(removed =~= expected);
}

/// Whether `values` and `taken` trace a query over `contexts` starting at
/// `initial`: for each delegate in turn, `taken` holds what its requirement
/// answered, and the value passes through its transformation when it
/// answered yes and stays the same otherwise.
pub open spec fn query_trace<D, M, V, R: Fn(DelegateContext<D, M>) -> bool, T: Fn(DelegateContext<D, M>, V) -> V>(
    requirement: R,
    transformation: T,
    contexts: Seq<DelegateContext<D, M>>,
    initial: V,
    values: Seq<V>,
    taken: Seq<bool>,
) -> bool {
    &&& values.len() == contexts.len() + 1
    &&& taken.len() == contexts.len()
    &&& values[0] == initial
    &&& forall|i: int|
        0 <= i < contexts.len() ==> {
            &&& call_ensures(requirement, (contexts[i],), #[trigger] taken[i])
            &&& taken[i] ==> call_ensures(transformation, (contexts[i], values[i]), values[i + 1])
            &&& !taken[i] ==> values[i + 1] == values[i]
        }
}

/// Answers a query through the delegates responding to it, in order:
/// starting from `initial`, each delegate whose requirement holds
/// transforms the value. The result is the last value of such a trace.
pub fn perform_query<D: Copy, M: Copy, V, R: Fn(DelegateContext<D, M>) -> bool, T: Fn(DelegateContext<D, M>, V) -> V>(
    contexts: &Vec<DelegateContext<D, M>>,
    initial: V,
    requirement: R,
    transformation: T,
) -> (res: V)
    requires
        forall|c: DelegateContext<D, M>| #[trigger] requirement.requires((c,)),
        forall|c: DelegateContext<D, M>, v: V| #[trigger] transformation.requires((c, v)),
    ensures
        exists|values: Seq<V>, taken: Seq<bool>|
            #[trigger] query_trace(requirement, transformation, contexts@, initial, values, taken)
                && values.last() == res,
{
    let ghost start = initial;
    let mut result = initial;
    let ghost mut values: Seq<V> = seq![start];
    let ghost mut taken: Seq<bool> = Seq::empty();
    let n = contexts.len();
    let mut i: usize = 0;
    while i < n
        invariant
            n == contexts@.len(),
            i <= n,
            forall|c: DelegateContext<D, M>| #[trigger] requirement.requires((c,)),
            forall|c: DelegateContext<D, M>, v: V| #[trigger] transformation.requires((c, v)),
            query_trace(requirement, transformation, contexts@.take(i as int), start, values, taken),
            values.last() == result,
        decreases n - i,
    {
        let context = contexts[i];
        let applies = requirement(context);
        if applies {
            result = transformation(context, result);
        }
        proof {
            let prefix = contexts@.take(i + 1);
            assert(prefix.len() == i + 1);
            let old_values = values;
            let old_taken = taken;
            values = values.push(result);
            taken = taken.push(applies);
            assert forall|j: int| 0 <= j < prefix.len() implies {
                &&& call_ensures(requirement, (prefix[j],), #[trigger] taken[j])
                &&& taken[j] ==> call_ensures(transformation, (prefix[j], values[j]), values[j + 1])
                &&& !taken[j] ==> values[j + 1] == values[j]
            } by {
                if j < i {
                    assert(prefix[j] == contexts@.take(i as int)[j]);
                    assert(taken[j] == old_taken[j]);
                    assert(values[j] == old_values[j]);
                    assert(values[j + 1] == old_values[j + 1]);
                } else {
                    assert(prefix[j] == context);
                }
            }
        }
        i = i + 1;
    }
    assert(contexts@.take(n as int) =~= contexts@);
    result
}

/// Answers a query through the delegates of `kind` in the registry, as
/// [perform_query] does over their list (none when the kind has no list).
pub fn perform_query_of_kind<D: Copy, M: Copy, V, R: Fn(DelegateContext<D, M>) -> bool, T: Fn(DelegateContext<D, M>, V) -> V>(
    map: &GameDelegateMap<D, M>,
    kind: u32,
    initial: V,
    requirement: R,
    transformation: T,
) -> (res: V)
    requires
        forall|c: DelegateContext<D, M>| #[trigger] requirement.requires((c,)),
        forall|c: DelegateContext<D, M>, v: V| #[trigger] transformation.requires((c, v)),
    ensures
        exists|values: Seq<V>, taken: Seq<bool>|
            #[trigger] query_trace(requirement, transformation, list_of(map@, kind), initial, values, taken)
                && values.last() == res,
{
    match map.lookup.get(&kind) {
        Some(list) => {
            assert(list_of(map@, kind) == list@);
            perform_query(list, initial, requirement, transformation)
        },
        None => {
            let ghost values: Seq<V> = seq![initial];
            let ghost taken: Seq<bool> = Seq::empty();
            assert(query_trace(requirement, transformation, list_of(map@, kind), initial, values, taken));
            initial
        },
    }
}

/// Whether `states` and `taken` trace an event handled by the delegates
/// over `contexts`, starting from `initial`, up to the point reached: for
/// each delegate passed, `taken` holds what its requirement answered of the
/// state, and the state passes through its mutation, which succeeded, when
/// it answered yes, and stays the same otherwise.
pub open spec fn event_trace<D, M, S, E, R: Fn(&S, DelegateContext<D, M>) -> bool, U: Fn(S, DelegateContext<D, M>) -> Result<S, (S, E)>>(
    requirement: R,
    mutation: U,
    contexts: Seq<DelegateContext<D, M>>,
    initial: S,
    states: Seq<S>,
    taken: Seq<bool>,
) -> bool {
    &&& states.len() == taken.len() + 1
    &&& taken.len() <= contexts.len()
    &&& states[0] == initial
    &&& forall|i: int|
        0 <= i < taken.len() ==> {
            &&& call_ensures(requirement, (&states[i], contexts[i]), #[trigger] taken[i])
            &&& taken[i] ==> call_ensures(
                mutation,
                (states[i], contexts[i]),
                Ok::<S, (S, E)>(states[i + 1]),
            )
            &&& !taken[i] ==> states[i + 1] == states[i]
        }
}

/// Handles an event through the delegates responding to it, in order: each
/// delegate whose requirement holds of the current state mutates it. A
/// mutation either succeeds with the new state, or fails with the state it
/// left and an error; the first failure stops the handling and is
/// returned, and otherwise the state after every delegate is.
pub fn invoke_event<D: Copy, M: Copy, S, E, R: Fn(&S, DelegateContext<D, M>) -> bool, U: Fn(S, DelegateContext<D, M>) -> Result<S, (S, E)>>(
    contexts: &Vec<DelegateContext<D, M>>,
    state: S,
    requirement: R,
    mutation: U,
) -> (res: Result<S, (S, E)>)
    requires
        forall|s: S, c: DelegateContext<D, M>| #[trigger] requirement.requires((&s, c)),
        forall|s: S, c: DelegateContext<D, M>| #[trigger] mutation.requires((s, c)),
    ensures
        res matches Ok(last) ==> exists|states: Seq<S>, taken: Seq<bool>|
            #[trigger] event_trace(requirement, mutation, contexts@, state, states, taken)
                && taken.len() == contexts@.len() && last == states.last(),
        res matches Err(failure) ==> exists|states: Seq<S>, taken: Seq<bool>|
            #[trigger] event_trace(requirement, mutation, contexts@, state, states, taken)
                && taken.len() < contexts@.len() && call_ensures(
                requirement,
                (&states.last(), contexts@[taken.len() as int]),
                true,
            ) && call_ensures(
                mutation,
                (states.last(), contexts@[taken.len() as int]),
                Err::<S, (S, E)>(failure),
            ),
{
    let ghost start = state;
    let mut current = state;
    let ghost mut states: Seq<S> = seq![start];
    let ghost mut taken: Seq<bool> = Seq::empty();
    let n = contexts.len();
    let mut i: usize = 0;
    while i < n
        invariant
            n == contexts@.len(),
            i <= n,
            forall|s: S, c: DelegateContext<D, M>| #[trigger] requirement.requires((&s, c)),
            forall|s: S, c: DelegateContext<D, M>| #[trigger] mutation.requires((s, c)),
            start == state,
            event_trace(requirement, mutation, contexts@, start, states, taken),
            taken.len() == i,
            states.last() == current,
        decreases n - i,
    {
        let context = contexts[i];
        let applies = requirement(&current, context);
        let ghost before = current;
        if applies {
            let stepped = mutation(current, context);
            assert(call_ensures(mutation, (before, context), stepped));
            match stepped {
                Ok(next) => {
                    current = next;
                },
                Err(failure) => {
                    proof {
                        assert(contexts@[taken.len() as int] == context);
                        assert(states.last() == before);
                    }
                    return Err(failure);
                },
            }
        }
        proof {
            let old_states = states;
            let old_taken = taken;
            states = states.push(current);
            taken = taken.push(applies);
            assert forall|j: int| 0 <= j < taken.len() implies {
                &&& call_ensures(requirement, (&states[j], contexts@[j]), #[trigger] taken[j])
                &&& taken[j] ==> call_ensures(
                    mutation,
                    (states[j], contexts@[j]),
                    Ok::<S, (S, E)>(states[j + 1]),
                )
                &&& !taken[j] ==> states[j + 1] == states[j]
            } by {
                if j < i {
                    assert(taken[j] == old_taken[j]);
                    assert(states[j] == old_states[j]);
                    assert(states[j + 1] == old_states[j + 1]);
                } else {
                    assert(states[j] == before);
                    assert(contexts@[j] == context);
                }
            }
        }
        i = i + 1;
    }
    Ok(current)
}

/// Handles an event through the delegates of `kind` in the registry, as
/// [invoke_event] does over their list (none when the kind has no list, in
/// which case the state is returned as it was).
pub fn invoke_event_of_kind<D: Copy, M: Copy, S, E, R: Fn(&S, DelegateContext<D, M>) -> bool, U: Fn(S, DelegateContext<D, M>) -> Result<S, (S, E)>>(
    map: &GameDelegateMap<D, M>,
    kind: u32,
    state: S,
    requirement: R,
    mutation: U,
) -> (res: Result<S, (S, E)>)
    requires
        forall|s: S, c: DelegateContext<D, M>| #[trigger] requirement.requires((&s, c)),
        forall|s: S, c: DelegateContext<D, M>| #[trigger] mutation.requires((s, c)),
    ensures
        res matches Ok(last) ==> exists|states: Seq<S>, taken: Seq<bool>|
            #[trigger] event_trace(requirement, mutation, list_of(map@, kind), state, states, taken)
                && taken.len() == list_of(map@, kind).len() && last == states.last(),
        res matches Err(failure) ==> exists|states: Seq<S>, taken: Seq<bool>|
            #[trigger] event_trace(requirement, mutation, list_of(map@, kind), state, states, taken)
                && taken.len() < list_of(map@, kind).len() && call_ensures(
                requirement,
                (&states.last(), list_of(map@, kind)[taken.len() as int]),
                true,
            ) && call_ensures(
                mutation,
                (states.last(), list_of(map@, kind)[taken.len() as int]),
                Err::<S, (S, E)>(failure),
            ),
{
    match map.lookup.get(&kind) {
        Some(list) => {
            assert(list_of(map@, kind) == list@);
            invoke_event(list, state, requirement, mutation)
        },
        None => {
            let ghost states: Seq<S> = seq![state];
            let ghost taken: Seq<bool> = Seq::empty();
            assert(event_trace(requirement, mutation, list_of(map@, kind), state, states, taken));
            Ok(state)
        },
    }
}

} // verus!
