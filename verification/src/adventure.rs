//! Data describing adventure mode: card filters, adventure effects and
//! narrative events, together with the identifiers and card attributes
//! they refer to.
use vstd::prelude::*;

verus! {

/// The two players of a game.
#[derive(Clone, Copy, Debug, PartialEq, Eq, Structural, Hash)]
pub enum Side {
    Covenant,
    Riftcaller,
}

/// How rare a card is.
#[derive(Clone, Copy, Debug, PartialEq, Eq, Structural, Hash)]
pub enum Rarity {
    Common,
    Uncommon,
    Rare,
    Basic,
    Identity,
    /// Cards which have no rarity, such as tokens.
    NoRarity,
}

/// The types of cards.
#[derive(Clone, Copy, Debug, PartialEq, Eq, Structural, Hash)]
pub enum CardType {
    Riftcaller,
    Chapter,
    GameModifier,
    Sigil,
    Scheme,
    Spell,
    Ritual,
    Evocation,
    Ally,
    Project,
    Artifact,
    Minion,
}

/// Subtypes of cards which card filters can select.
#[derive(Clone, Copy, Debug, PartialEq, Eq, Structural, Hash)]
pub enum CardSubtype {
    Weapon,
}

/// Whether a card has been upgraded.
#[derive(Clone, Copy, Debug, PartialEq, Eq, Structural, Hash)]
pub enum UpgradedStatus {
    Default,
    Upgraded,
}

/// How the categories of a card filter are combined.
#[derive(Clone, Copy, Debug, PartialEq, Eq, Structural, Hash)]
pub enum CardFilterCategoryOperator {
    /// A card must match every category.
    And,
    /// A card must match at least one category.
    Or,
}

/// Identifies a card filter.
#[derive(Clone, Copy, Debug, PartialEq, Eq, Structural, Hash)]
pub struct CardFilterId {
    pub value: u32,
}

impl CardFilterId {
    pub fn new(value: u32) -> (id: CardFilterId)
        ensures
            id.value == value,
    {
        CardFilterId { value }
    }
}

/// Identifies a narrative event.
#[derive(Clone, Copy, Debug, PartialEq, Eq, Structural, Hash)]
pub struct NarrativeEventId {
    pub value: u32,
}

impl NarrativeEventId {
    pub fn new(value: u32) -> (id: NarrativeEventId)
        ensures
            id.value == value,
    {
        NarrativeEventId { value }
    }
}

/// Identifies one choice within a narrative event.
#[derive(Clone, Copy, Debug, PartialEq, Eq, Structural, Hash)]
pub struct NarrativeChoiceId {
    pub value: u32,
}

impl NarrativeChoiceId {
    pub fn new(value: u32) -> (id: NarrativeChoiceId)
        ensures
            id.value == value,
    {
        NarrativeChoiceId { value }
    }
}

/// An amount of the adventure currency.
#[derive(Clone, Copy, Debug, PartialEq, Eq, Structural, Hash)]
pub struct Coins(pub u32);

/// A skill which a narrative event choice can require, by its number in the
/// game's list of skills.
#[derive(Clone, Copy, Debug, PartialEq, Eq, Structural, Hash)]
pub struct Skill(pub u32);

/// A card, by its number in the game's card catalogue.
#[derive(Clone, Copy, Debug, PartialEq, Eq, Structural, Hash)]
pub struct CardName(pub u32);

/// An action to apply to a card in the player's deck.
#[derive(Clone, Copy, Debug, PartialEq, Eq, Structural, Hash)]
pub enum DeckCardAction {
    DuplicateTo3Copies,
    TransmuteAllCopies,
    UpgradeAllCopies,
    RemoveOne,
}

/// An action applied to a card picked from the deck, possibly several times.
#[derive(Clone, Copy, Debug, PartialEq, Eq, Structural, Hash)]
pub struct DeckCardEffect {
    pub action: DeckCardAction,
    pub cost: Option<Coins>,
    pub times: u32,
}

/// The kinds of effects an adventure event can have, as named in the game
/// tables.
#[derive(Clone, Copy, Debug, PartialEq, Eq, Structural, Hash)]
pub enum AdventureEffectKind {
    Draft,
    Shop,
    NarrativeEvent,
    Battle,
    GainCoins,
    LoseCoins,
    LoseAllCoins,
    GainArcanite,
    PickCardForEffect,
    KnownRandomCardEffect,
    UnknownRandomCardEffect,
    ApplyCardEffectToAllMatching,
    AddMapTiles,
    AddDraftTiles,
    AddNarrativeTiles,
    GainKnownFixedCard,
    GainKnownRandomCard,
    GainUnknownRandomCard,
    PickCardToLose,
    LoseKnownRandomCard,
    LoseUnknownRandomCard,
}

/// An effect of an adventure event with its parameters.
#[derive(Clone, Copy, Debug, PartialEq, Eq, Structural, Hash)]
pub enum AdventureEffect {
    Draft(CardFilterId),
    Shop(CardFilterId),
    Battle,
    GainCoins(Coins),
    LoseCoins(Coins),
    LoseAllCoins,
    GainArcanite(u32),
    PickCardForEffect(CardFilterId, DeckCardEffect),
    KnownRandomCardEffect(CardFilterId, DeckCardAction),
    UnknownRandomCardEffect(CardFilterId, DeckCardAction),
    ApplyCardEffectToAllMatching(CardFilterId, DeckCardAction),
    AddMapTiles(u32),
    AddDraftTiles(u32),
    AddNarrativeTiles(u32),
    GainKnownFixedCard(CardName, u32),
    GainKnownRandomCard(CardFilterId, u32),
    GainUnknownRandomCard(CardFilterId, u32),
    PickCardToLose(CardFilterId, u32),
    LoseKnownRandomCard(CardFilterId, u32),
    LoseUnknownRandomCard(CardFilterId, u32),
}

/// An adventure effect together with the text describing it.
#[derive(Debug)]
pub struct AdventureEffectData {
    pub effect: AdventureEffect,
    pub description: String,
}

impl Clone for AdventureEffectData {
    fn clone(&self) -> (res: AdventureEffectData)
        ensures
            res == *self,
    {
        AdventureEffectData { effect: self.effect, description: self.description.clone() }
    }
}

/// The address of an image asset.
#[derive(Debug)]
pub struct Sprite {
    pub address: String,
}

impl Clone for Sprite {
    fn clone(&self) -> (res: Sprite)
        ensures
            res == *self,
    {
        Sprite { address: self.address.clone() }
    }
}

/// One option a player can pick in a narrative event.
#[derive(Debug)]
pub struct NarrativeEventChoice {
    pub choice_description: String,
    pub result_description: String,
    pub skill: Option<Skill>,
    pub costs: Vec<AdventureEffectData>,
    pub rewards: Vec<AdventureEffectData>,
}

/// The mathematical content of a [NarrativeEventChoice].
pub struct NarrativeEventChoiceView {
    pub choice_description: String,
    pub result_description: String,
    pub skill: Option<Skill>,
    pub costs: Seq<AdventureEffectData>,
    pub rewards: Seq<AdventureEffectData>,
}

impl View for NarrativeEventChoice {
    type V = NarrativeEventChoiceView;

    open spec fn view(&self) -> NarrativeEventChoiceView {
        NarrativeEventChoiceView {
            choice_description: self.choice_description,
            result_description: self.result_description,
            skill: self.skill,
            costs: self.costs@,
            rewards: self.rewards@,
        }
    }
}

/// A narrative event: an image, a description and the choices it offers,
/// keyed by the number of each choice.
#[derive(Debug)]
pub struct NarrativeEventData {
    pub image: Sprite,
    pub description: String,
    pub choices: std::collections::HashMap<u32, NarrativeEventChoice>,
}

/// The mathematical content of a [NarrativeEventData].
pub struct NarrativeEventDataView {
    pub image: Sprite,
    pub description: String,
    pub choices: Map<u32, NarrativeEventChoiceView>,
}

impl View for NarrativeEventData {
    type V = NarrativeEventDataView;

    open spec fn view(&self) -> NarrativeEventDataView {
        NarrativeEventDataView {
            image: self.image,
            description: self.description,
            choices: self.choices@.map_values(|c: NarrativeEventChoice| c@),
        }
    }
}

/// A card attribute which card filters can select: a small enumeration whose
/// values can be compared.
pub trait Flag: Copy + Sized {
    /// Whether two attribute values are the same.
    fn same(&self, other: &Self) -> (res: bool)
        ensures
            res == (*self == *other),
    ;
}

impl Flag for UpgradedStatus {
    fn same(&self, other: &Self) -> (res: bool) {
        *self == *other
    }
}

impl Flag for Rarity {
    fn same(&self, other: &Self) -> (res: bool) {
        *self == *other
    }
}

impl Flag for CardType {
    fn same(&self, other: &Self) -> (res: bool) {
        *self == *other
    }
}

impl Flag for Side {
    fn same(&self, other: &Self) -> (res: bool) {
        *self == *other
    }
}

impl Flag for CardSubtype {
    fn same(&self, other: &Self) -> (res: bool) {
        *self == *other
    }
}

/// A set of card attribute values.
#[derive(Debug)]
pub struct FlagSet<T: Flag> {
    members: Vec<T>,
}

impl<T: Flag> View for FlagSet<T> {
    type V = Set<T>;

    closed spec fn view(&self) -> Set<T> {
        self.members@.to_set()
    }
}

impl<T: Flag> FlagSet<T> {
    /// The empty set.
    pub fn new() -> (res: FlagSet<T>)
        ensures
            res@ == Set::<T>::empty(),
    {
        let res = FlagSet { members: Vec::new() };
        assert(res.members@.to_set() =~= Set::<T>::empty());
        res
    }

    /// Whether `flag` belongs to the set.
    pub fn contains(&self, flag: T) -> (res: bool)
        ensures
            res == self@.contains(flag),
    {
        let mut i: usize = 0;
        while i < self.members.len()
            invariant
                i <= self.members@.len(),
                forall|j: int| 0 <= j < i ==> self.members@[j] != flag,
            decreases self.members@.len() - i,
        {
            if self.members[i].same(&flag) {
                assert(self.members@.contains(flag));
                return true;
            }
            i = i + 1;
        }
        assert(!self.members@.contains(flag));
        false
    }

    /// Adds `flag` to the set.
    pub fn insert(&mut self, flag: T)
        ensures
            final(self)@ == old(self)@.insert(flag),
    {
        if !self.contains(flag) {
            let ghost before = self.members@;
            self.members.push(flag);
            assert(self.members@ =~= before.push(flag));
            proof {
                before.lemma_push_to_set_commute(flag);
            }
        } else {
            assert(old(self)@.insert(flag) =~= old(self)@);
        }
    }
}

/// A predicate selecting cards by upgrade status, rarity, type, side and
/// subtype.
#[derive(Debug)]
pub struct CardFilter {
    pub category_operator: CardFilterCategoryOperator,
    pub upgraded: FlagSet<UpgradedStatus>,
    pub rarity: FlagSet<Rarity>,
    pub card_types: FlagSet<CardType>,
    pub sides: FlagSet<Side>,
    pub card_subtypes: FlagSet<CardSubtype>,
}

/// The mathematical content of a [CardFilter].
pub struct CardFilterView {
    pub category_operator: CardFilterCategoryOperator,
    pub upgraded: Set<UpgradedStatus>,
    pub rarity: Set<Rarity>,
    pub card_types: Set<CardType>,
    pub sides: Set<Side>,
    pub card_subtypes: Set<CardSubtype>,
}

impl View for CardFilter {
    type V = CardFilterView;

    open spec fn view(&self) -> CardFilterView {
        CardFilterView {
            category_operator: self.category_operator,
            upgraded: self.upgraded@,
            rarity: self.rarity@,
            card_types: self.card_types@,
            sides: self.sides@,
            card_subtypes: self.card_subtypes@,
        }
    }
}

impl CardFilter {
    /// A filter combining its categories with `category_operator` whose
    /// categories are all empty.
    pub fn new(category_operator: CardFilterCategoryOperator) -> (res: CardFilter)
        ensures
            res@ == (CardFilterView {
                category_operator,
                upgraded: Set::empty(),
                rarity: Set::empty(),
                card_types: Set::empty(),
                sides: Set::empty(),
                card_subtypes: Set::empty(),
            }),
    {
        CardFilter {
            category_operator,
            upgraded: FlagSet::new(),
            rarity: FlagSet::new(),
            card_types: FlagSet::new(),
            sides: FlagSet::new(),
            card_subtypes: FlagSet::new(),
        }
    }
}

} // verus!
