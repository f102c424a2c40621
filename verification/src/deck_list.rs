//! The order in which the deck editor lists the cards of a deck: by card
//! type, then mana cost, then displayed name.
use vstd::prelude::*;

use crate::adventure::CardName;
use vstd::string::StrSliceExecFns;

verus! {

broadcast use vstd::seq_lib::to_multiset_insert;

/// A card of a deck with what the deck list sorts it by: the rank of its
/// card type in the order of card types, its mana cost (zero when it has
/// none) and its displayed name.
#[derive(Debug)]
pub struct DeckListEntry {
    pub card: CardName,
    pub count: u32,
    pub type_rank: u32,
    pub cost: u32,
    pub name: String,
}

/// Whether `a` comes before `b` in the order of strings: at the first
/// place where they differ, `a`'s character is the smaller, or `a` ends
/// there and `b` goes on.
pub open spec fn lex_less(a: Seq<char>, b: Seq<char>) -> bool {
    exists|k: int|
        #![trigger a.take(k), b.take(k)]
        0 <= k <= a.len() && k <= b.len() && a.take(k) == b.take(k) && ((k == a.len() && k
            < b.len()) || (k < a.len() && k < b.len() && (a[k] as u32) < (b[k] as u32)))
}

/// The order of strings is transitive.
proof fn lemma_lex_less_transitive(a: Seq<char>, b: Seq<char>, c: Seq<char>)
    requires
        lex_less(a, b),
        lex_less(b, c),
    ensures
        lex_less(a, c),
{
    let k1 = choose|k: int|
        #![trigger a.take(k), b.take(k)]
        0 <= k <= a.len() && k <= b.len() && a.take(k) == b.take(k) && ((k == a.len() && k
            < b.len()) || (k < a.len() && k < b.len() && (a[k] as u32) < (b[k] as u32)));
    let k2 = choose|k: int|
        #![trigger b.take(k), c.take(k)]
        0 <= k <= b.len() && k <= c.len() && b.take(k) == c.take(k) && ((k == b.len() && k
            < c.len()) || (k < b.len() && k < c.len() && (b[k] as u32) < (c[k] as u32)));
    if k1 < k2 {
        assert(b.take(k1) == c.take(k2).take(k1));
        assert(c.take(k1) == c.take(k2).take(k1));
        assert(b[k1] == b.take(k2)[k1]);
        assert(c[k1] == c.take(k2)[k1]);
        assert(a.take(k1) == c.take(k1));
    } else if k2 < k1 {
        assert(a.take(k2) == a.take(k1).take(k2));
        assert(b.take(k2) == b.take(k1).take(k2));
        assert(a[k2] == a.take(k1)[k2]);
        assert(b[k2] == b.take(k1)[k2]);
        assert(a.take(k2) == c.take(k2));
    } else {
        assert(a.take(k1) == c.take(k1));
    }
}

/// Returns whether `a` comes before `b` in the order of strings.
pub fn text_less(a: &str, b: &str) -> (res: bool)
    ensures
        res == lex_less(a@, b@),
{
    let n = a.unicode_len();
    let m = b.unicode_len();
    let mut i: usize = 0;
    while i < n && i < m
        invariant
            n == a@.len(),
            m == b@.len(),
            i <= n,
            i <= m,
            a@.take(i as int) == b@.take(i as int),
        decreases n - i,
    {
        let x = a.get_char(i);
        let y = b.get_char(i);
        if x != y {
            let less = (x as u32) < (y as u32);
            proof {
                if less {
                    assert(a@.take(i as int) == b@.take(i as int));
                } else {
                    assert forall|k: int|
                        0 <= k <= a@.len() && k <= b@.len() && #[trigger] a@.take(k)
                            == #[trigger] b@.take(k) implies !((k == a@.len() && k < b@.len()) || (k
                        < a@.len() && k < b@.len() && (a@[k] as u32) < (b@[k] as u32))) by {
                        if k > i {
                            assert(a@[i as int] == a@.take(k)[i as int]);
                            assert(b@[i as int] == b@.take(k)[i as int]);
                        } else if k < i {
                            assert(a@[k] == a@.take(i as int)[k]);
                            assert(b@[k] == b@.take(i as int)[k]);
                        }
                    }
                }
            }
            return less;
        }
        proof {
            assert(a@.take(i + 1) =~= a@.take(i as int).push(x));
            assert(b@.take(i + 1) =~= b@.take(i as int).push(y));
        }
        i = i + 1;
    }
    let res = i == n && i < m;
    proof {
        if res {
            assert(a@.take(i as int) == b@.take(i as int));
        } else {
            assert forall|k: int|
                0 <= k <= a@.len() && k <= b@.len() && #[trigger] a@.take(k) == #[trigger] b@.take(
                    k,
                ) implies !((k == a@.len() && k < b@.len()) || (k < a@.len() && k < b@.len() && (
            a@[k] as u32) < (b@[k] as u32))) by {
                if k < i {
                    assert(a@[k] == a@.take(i as int)[k]);
                    assert(b@[k] == b@.take(i as int)[k]);
                }
            }
        }
    }
    res
}

/// Whether entry `a` comes before entry `b` in the deck list: by card type,
/// then mana cost, then displayed name.
pub open spec fn key_less(a: DeckListEntry, b: DeckListEntry) -> bool {
    ||| a.type_rank < b.type_rank
    ||| a.type_rank == b.type_rank && a.cost < b.cost
    ||| a.type_rank == b.type_rank && a.cost == b.cost && lex_less(a.name@, b.name@)
}

/// The deck list order is transitive.
proof fn lemma_key_less_transitive(a: DeckListEntry, b: DeckListEntry, c: DeckListEntry)
    requires
        key_less(a, b),
        key_less(b, c),
    ensures
        key_less(a, c),
{
    if a.type_rank == b.type_rank && a.cost == b.cost && lex_less(a.name@, b.name@)
        && b.type_rank == c.type_rank && b.cost == c.cost && lex_less(b.name@, c.name@) {
        lemma_lex_less_transitive(a.name@, b.name@, c.name@);
    }
}

/// Returns whether entry `a` comes before entry `b` in the deck list.
pub fn entry_less(a: &DeckListEntry, b: &DeckListEntry) -> (res: bool)
    ensures
        res == key_less(*a, *b),
{
    if a.type_rank != b.type_rank {
        a.type_rank < b.type_rank
    } else if a.cost != b.cost {
        a.cost < b.cost
    } else {
        text_less(a.name.as_str(), b.name.as_str())
    }
}

/// Whether no entry of `s` comes before an entry placed ahead of it.
pub open spec fn in_list_order(s: Seq<DeckListEntry>) -> bool {
    forall|i: int, j: int| 0 <= i < j < s.len() ==> !key_less(#[trigger] s[j], #[trigger] s[i])
}

/// The entries of a deck in deck list order: the same entries, each once,
/// none coming before an entry placed ahead of it.
pub fn sorted_deck(entries: Vec<DeckListEntry>) -> (res: Vec<DeckListEntry>)
    ensures
        res@.to_multiset() == entries@.to_multiset(),
        in_list_order(res@),
{
    let ghost all = entries@;
    let mut result: Vec<DeckListEntry> = Vec::new();
    assert(all.take(0).to_multiset() =~= result@.to_multiset()) by {
        broadcast use vstd::multiset::group_multiset_axioms;
        assert(all.take(0) =~= Seq::<DeckListEntry>::empty());
        assert(result@ =~= Seq::<DeckListEntry>::empty());
    }
    for entry in iter: entries
        invariant
            iter.seq() == all,
            result@.to_multiset() == all.take(iter.index()).to_multiset(),
            in_list_order(result@),
    {
        let n = result.len();
        let mut p: usize = 0;
        while p < n
            invariant
                n == result@.len(),
                p <= n,
                forall|i: int| 0 <= i < p ==> !key_less(entry, #[trigger] result@[i]),
            ensures
                p <= n,
                forall|i: int| 0 <= i < p ==> !key_less(entry, #[trigger] result@[i]),
                p < n ==> key_less(entry, result@[p as int]),
            decreases n - p,
        {
            if entry_less(&entry, &result[p]) {
                break;
            }
            p = p + 1;
        }
        let ghost before = result@;
        let ghost x = entry;
        proof {
            assert(all.take(iter.index() + 1) =~= all.take(iter.index()).push(x));
            vstd::seq_lib::to_multiset_build(all.take(iter.index()), x);
            if p < n {
                assert forall|j: int| p <= j < n implies !key_less(#[trigger] before[j], x) by {
                    if key_less(before[j], x) {
                        lemma_key_less_transitive(before[j], x, before[p as int]);
                        if j > p {
                            assert(!key_less(before[j], before[p as int]));
                        }
                    }
                }
            }
        }
        result.insert(p, entry);
        proof {
            let after = result@;
            assert(after == before.insert(p as int, x));
            assert forall|i: int, j: int| 0 <= i < j < after.len() implies !key_less(
                #[trigger] after[j],
                #[trigger] after[i],
            ) by {
                if j < p {
                    assert(after[i] == before[i] && after[j] == before[j]);
                } else if j == p {
                    assert(after[i] == before[i]);
                } else if i < p {
                    assert(after[i] == before[i] && after[j] == before[j - 1]);
                } else if i == p {
                    assert(after[j] == before[j - 1]);
                } else {
                    assert(after[i] == before[i - 1] && after[j] == before[j - 1]);
                }
            }
        }
    }
    assert(all.take(all.len() as int) =~= all);
    result
}

/// How many of the entries other than `card`'s own come before `card` in
/// the deck list.
pub open spec fn count_before(entries: Seq<DeckListEntry>, card: DeckListEntry) -> nat
    decreases entries.len(),
{
    if entries.len() == 0 {
        0
    } else {
        let e = entries.last();
        count_before(entries.drop_last(), card) + if e.card != card.card && key_less(e, card) {
            1nat
        } else {
            0nat
        }
    }
}

/// The place `card` takes in the deck list of a deck holding `entries`
/// (with `card` added when the deck lacks it): the number of the other
/// cards that come before it.
pub fn position_for_card(entries: &Vec<DeckListEntry>, card: &DeckListEntry) -> (res: usize)
    ensures
        res == count_before(entries@, *card),
{
    let n = entries.len();
    let mut count: usize = 0;
    let mut i: usize = 0;
    while i < n
        invariant
            n == entries@.len(),
            i <= n,
            count == count_before(entries@.take(i as int), *card),
            count <= i,
        decreases n - i,
    {
        proof {
            assert(entries@.take(i + 1).drop_last() =~= entries@.take(i as int));
        }
        if entries[i].card != card.card && entry_less(&entries[i], card) {
            count = count + 1;
        }
        i = i + 1;
    }
    assert(entries@.take(n as int) =~= entries@);
    count
}


/// Whether two entries share their sort key: card type, cost and name.
pub open spec fn same_key(a: DeckListEntry, b: DeckListEntry) -> bool {
    a.type_rank == b.type_rank && a.cost == b.cost && a.name@ == b.name@
}

/// Whether no two entries are for the same card, as in a deck.
pub open spec fn distinct_cards(s: Seq<DeckListEntry>) -> bool {
    forall|i: int, j: int|
        0 <= i < j < s.len() ==> (#[trigger] s[i]).card != (#[trigger] s[j]).card
}

/// Whether an entry is another card's that comes before `card`.
pub open spec fn comes_before(card: DeckListEntry) -> spec_fn(DeckListEntry) -> bool {
    |e: DeckListEntry| e.card != card.card && key_less(e, card)
}

/// Whether an entry is for the same card as `card`.
pub open spec fn same_card(card: DeckListEntry) -> spec_fn(DeckListEntry) -> bool {
    |e: DeckListEntry| e.card == card.card
}

/// How many entries of `s` satisfy `f`.
pub open spec fn count_where(s: Seq<DeckListEntry>, f: spec_fn(DeckListEntry) -> bool) -> nat
    decreases s.len(),
{
    if s.len() == 0 {
        0
    } else {
        count_where(s.drop_last(), f) + if f(s.last()) {
            1nat
        } else {
            0nat
        }
    }
}

/// Two different strings are ordered one way or the other, from the
/// first `k` characters on, which they share.
proof fn lemma_lex_total_from(a: Seq<char>, b: Seq<char>, k: int)
    requires
        0 <= k <= a.len(),
        k <= b.len(),
        a.take(k) == b.take(k),
        a != b,
    ensures
        lex_less(a, b) || lex_less(b, a),
    decreases a.len() - k,
{
    if k == a.len() && k == b.len() {
        assert(a =~= a.take(k));
        assert(b =~= b.take(k));
    } else if k == a.len() || k == b.len() {
        assert(a.take(k) == b.take(k));
    } else if a[k] != b[k] {
        assert(a.take(k) == b.take(k));
        assert((a[k] as int) != (b[k] as int));
        lemma_char_as_u32(a[k]);
        lemma_char_as_u32(b[k]);
    } else {
        assert(a.take(k + 1) =~= a.take(k).push(a[k]));
        assert(b.take(k + 1) =~= b.take(k).push(b[k]));
        lemma_lex_total_from(a, b, k + 1);
    }
}

/// A character's number as a `u32` is its code point.
proof fn lemma_char_as_u32(c: char)
    ensures
        (c as u32) as int == c as int,
{
}

/// Entries whose sort keys differ are ordered one way or the other.
proof fn lemma_key_total(a: DeckListEntry, b: DeckListEntry)
    requires
        !same_key(a, b),
    ensures
        key_less(a, b) || key_less(b, a),
{
    if a.type_rank == b.type_rank && a.cost == b.cost {
        assert(a.name@.take(0) =~= b.name@.take(0));
        lemma_lex_total_from(a.name@, b.name@, 0);
    }
}

/// An entry never comes before itself.
proof fn lemma_key_irreflexive(a: DeckListEntry)
    ensures
        !key_less(a, a),
{
}

/// Counting entries depends only on which entries there are, not on
/// their order.
proof fn lemma_count_where_multiset(s: Seq<DeckListEntry>, f: spec_fn(DeckListEntry) -> bool)
    ensures
        count_where(s, f) == s.to_multiset().filter(f).len(),
    decreases s.len(),
{
    broadcast use vstd::multiset::group_multiset_axioms;

    s.to_multiset_ensures();
    if s.len() == 0 {
        assert(s.to_multiset() =~= vstd::multiset::Multiset::empty());
        assert(s.to_multiset().filter(f) =~= vstd::multiset::Multiset::empty());
    } else {
        let t = s.drop_last();
        let e = s.last();
        lemma_count_where_multiset(t, f);
        assert(s =~= t.push(e));
        t.to_multiset_ensures();
        let m = t.to_multiset();
        if f(e) {
            assert(m.insert(e).filter(f) =~= m.filter(f).insert(e));
        } else {
            assert(m.insert(e).filter(f) =~= m.filter(f));
        }
    }
}

/// Counting the entries before a card is counting those [comes_before]
/// picks.
proof fn lemma_count_before_where(s: Seq<DeckListEntry>, card: DeckListEntry)
    ensures
        count_before(s, card) == count_where(s, comes_before(card)),
        count_before(s, card) <= s.len(),
    decreases s.len(),
{
    if s.len() > 0 {
        lemma_count_before_where(s.drop_last(), card);
    }
}

/// No entry satisfies `f`: the count is zero.
proof fn lemma_count_none(s: Seq<DeckListEntry>, f: spec_fn(DeckListEntry) -> bool)
    requires
        forall|i: int| 0 <= i < s.len() ==> !f(#[trigger] s[i]),
    ensures
        count_where(s, f) == 0,
    decreases s.len(),
{
    if s.len() > 0 {
        lemma_count_none(s.drop_last(), f);
    }
}

/// Exactly the entry at `k` satisfies `f`: the count is one.
proof fn lemma_count_single(s: Seq<DeckListEntry>, f: spec_fn(DeckListEntry) -> bool, k: int)
    requires
        0 <= k < s.len(),
        f(s[k]),
        forall|i: int| 0 <= i < s.len() && i != k ==> !f(#[trigger] s[i]),
    ensures
        count_where(s, f) == 1,
    decreases s.len(),
{
    let t = s.drop_last();
    if k == s.len() - 1 {
        lemma_count_none(t, f);
    } else {
        lemma_count_single(t, f, k);
    }
}

/// The entry at `i` satisfies `f`: the count is at least one.
proof fn lemma_count_one(s: Seq<DeckListEntry>, f: spec_fn(DeckListEntry) -> bool, i: int)
    requires
        0 <= i < s.len(),
        f(s[i]),
    ensures
        count_where(s, f) >= 1,
    decreases s.len(),
{
    if i < s.len() - 1 {
        lemma_count_one(s.drop_last(), f, i);
    }
}

/// The entries at `i` and `j` satisfy `f`: the count is at least two.
proof fn lemma_count_two(s: Seq<DeckListEntry>, f: spec_fn(DeckListEntry) -> bool, i: int, j: int)
    requires
        0 <= i < j < s.len(),
        f(s[i]),
        f(s[j]),
    ensures
        count_where(s, f) >= 2,
    decreases s.len(),
{
    if j < s.len() - 1 {
        lemma_count_two(s.drop_last(), f, i, j);
    } else {
        lemma_count_one(s.drop_last(), f, i);
    }
}

/// The entries satisfying `f` are exactly the first `p`: the count is `p`.
proof fn lemma_count_prefix(s: Seq<DeckListEntry>, f: spec_fn(DeckListEntry) -> bool, p: int)
    requires
        0 <= p <= s.len(),
        forall|i: int| 0 <= i < p ==> f(#[trigger] s[i]),
        forall|i: int| p <= i < s.len() ==> !f(#[trigger] s[i]),
    ensures
        count_where(s, f) == p,
    decreases s.len(),
{
    if s.len() > 0 {
        let t = s.drop_last();
        if p < s.len() {
            lemma_count_prefix(t, f, p);
        } else {
            lemma_count_prefix(t, f, p - 1);
        }
    }
}

/// The position [position_for_card] gives a card the deck holds is where
/// the card stands in the deck list [sorted_deck] gives, when no other
/// card of the deck shares its sort key: in any arrangement of the deck's
/// entries in list order, the entry at that position is the card's.
pub proof fn lemma_position_in_sorted_deck(
    entries: Seq<DeckListEntry>,
    sorted: Seq<DeckListEntry>,
    card: DeckListEntry,
)
    requires
        sorted.to_multiset() == entries.to_multiset(),
        in_list_order(sorted),
        distinct_cards(entries),
        entries.contains(card),
        forall|i: int|
            0 <= i < entries.len() && (#[trigger] entries[i]).card != card.card ==> !same_key(
                entries[i],
                card,
            ),
    ensures
        count_before(entries, card) < sorted.len(),
        sorted[count_before(entries, card) as int] == card,
{
    entries.to_multiset_ensures();
    sorted.to_multiset_ensures();
    assert(sorted.to_multiset().count(card) > 0);
    let p = choose|p: int| 0 <= p < sorted.len() && sorted[p] == card;
    let k = choose|k: int| 0 <= k < entries.len() && entries[k] == card;
    assert forall|j: int| 0 <= j < sorted.len() implies entries.contains(#[trigger] sorted[j]) by {
        assert(sorted.contains(sorted[j]));
        assert(sorted.to_multiset().count(sorted[j]) > 0);
    }
    // The card is the only one of its name among the sorted entries.
    let same = same_card(card);
    assert forall|i: int| 0 <= i < entries.len() && i != k implies !same(#[trigger] entries[i]) by {
        if i < k {
            assert(entries[i].card != entries[k].card);
        } else {
            assert(entries[k].card != entries[i].card);
        }
    }
    lemma_count_single(entries, same, k);
    lemma_count_where_multiset(entries, same);
    lemma_count_where_multiset(sorted, same);
    assert forall|j: int| 0 <= j < sorted.len() && j != p implies (#[trigger] sorted[j]).card
        != card.card by {
        if sorted[j].card == card.card {
            if j < p {
                lemma_count_two(sorted, same, j, p);
            } else {
                lemma_count_two(sorted, same, p, j);
            }
        }
    }
    // Every other entry comes strictly before or after the card.
    assert forall|j: int| 0 <= j < sorted.len() && j != p implies key_less(#[trigger] sorted[j], card)
        || key_less(card, sorted[j]) by {
        assert(entries.contains(sorted[j]));
        let i = choose|i: int| 0 <= i < entries.len() && entries[i] == sorted[j];
        assert(entries[i].card != card.card);
        lemma_key_total(sorted[j], card);
    }
    let before = comes_before(card);
    assert forall|j: int| 0 <= j < p implies before(#[trigger] sorted[j]) by {
        assert(!key_less(sorted[p], sorted[j]));
    }
    assert forall|j: int| p <= j < sorted.len() implies !before(#[trigger] sorted[j]) by {
        if j > p {
            assert(!key_less(sorted[j], sorted[p]));
        }
    }
    lemma_count_prefix(sorted, before, p);
    lemma_count_where_multiset(entries, before);
    lemma_count_where_multiset(sorted, before);
    lemma_count_before_where(entries, card);
}

/// The position [position_for_card] gives a card the deck lacks is where
/// the card would stand in the deck list once added, when no card of the
/// deck shares its sort key: in any arrangement in list order of the
/// deck's entries with the card's added, the entry at that position is the
/// card's. That position is at most the number of the deck's entries.
pub proof fn lemma_position_of_added_card(
    entries: Seq<DeckListEntry>,
    sorted: Seq<DeckListEntry>,
    card: DeckListEntry,
)
    requires
        sorted.to_multiset() == entries.push(card).to_multiset(),
        in_list_order(sorted),
        distinct_cards(entries),
        forall|i: int| 0 <= i < entries.len() ==> (#[trigger] entries[i]).card != card.card,
        forall|i: int| 0 <= i < entries.len() ==> !same_key(#[trigger] entries[i], card),
    ensures
        count_before(entries, card) <= entries.len(),
        sorted[count_before(entries, card) as int] == card,
{
    let all = entries.push(card);
    assert(all.drop_last() =~= entries);
    assert(all[entries.len() as int] == card);
    assert(distinct_cards(all)) by {
        assert forall|i: int, j: int| 0 <= i < j < all.len() implies (#[trigger] all[i]).card
            != (#[trigger] all[j]).card by {
            if j < entries.len() {
                assert(all[i] == entries[i] && all[j] == entries[j]);
            } else {
                assert(all[i] == entries[i]);
            }
        }
    }
    assert forall|i: int|
        0 <= i < all.len() && (#[trigger] all[i]).card != card.card implies !same_key(
            all[i],
            card,
        ) by {
        if i < entries.len() {
            assert(all[i] == entries[i]);
        }
    }
    lemma_position_in_sorted_deck(all, sorted, card);
    lemma_count_before_where(entries, card);
}

} // verus!
