//! The text shown on prompt buttons and above button prompts.
use vstd::prelude::*;

use crate::adventure::{CardName, CardSubtype, CardType, Side};
use crate::positions::CardId;
use crate::text::{decimal, push_decimal};
use vstd::string::StringExecFns;

verus! {

/// The icon glyphs the labels use, as the interface's icon font draws them.
#[derive(Clone, Copy, Debug)]
pub struct Icons {
    pub mana: &'static str,
    pub action: &'static str,
    pub power_charge: &'static str,
}

/// An effect offered by a prompt choice, with the parts of it that its
/// label shows: whose mana or actions a cost takes, and how much.
#[derive(Clone, Copy, Debug, PartialEq, Eq, Structural)]
pub enum GameEffect {
    Continue,
    AbortPlayingCard,
    PlayChoiceEffect,
    DrawCards,
    SacrificeCard,
    DestroyCard,
    ManaCost(Side, u32),
    ActionCost(Side, u32),
    InitiateRaid,
    EndRaid,
    EndCustomAccess,
    TakeDamageCost(u32),
    MoveCard,
    PreventDamage,
    PreventCurses,
    PreventDestroyingCard,
    SelectCardForPrompt,
    ClearAllSelectedCards,
    PushPromptWithIndex,
    SwapWithSelected,
    AppendCustomCardState,
    EvadeCurrentEncounter,
    PlayCardForNoMana,
    PreventRaidCardAccess,
    ChangeRaidTarget,
    DefeatCurrentMinion,
    RevealCard,
    AddPowerCharges(u32),
}

/// A label shown on a prompt choice in place of the labels of its effects.
#[derive(Clone, Copy, Debug, PartialEq, Eq, Structural)]
pub enum PromptChoiceLabel {
    Play,
    Sacrifice,
    Prevent,
    Return,
    ReturnForCost(u32),
    Occupant,
    Defender,
    PayActionAccessAnother,
    CardType(CardType),
    Select,
    RaidVault,
    RaidSanctum,
    DefeatForCost(u32),
}

/// What a button prompt is about, when the prompt shows instructions.
#[derive(Clone, Copy, Debug, PartialEq, Eq, Structural)]
pub enum ButtonPromptContext {
    /// The prompt concerns a card.
    Card(CardId),
    /// The player may act before the game moves on.
    PriorityWindow,
    /// The player has more cards of this type (and subtype) in play than
    /// allowed.
    CardLimit(CardType, Option<CardSubtype>),
    /// The card may be sacrificed to prevent up to this much damage.
    SacrificeToPreventDamage(CardId, u32),
    /// The card may be sacrificed to prevent up to this many curses.
    SacrificeToPreventCurses(CardId, u32),
    CardToGiveToOpponent,
    CardToTakeFromOpponent,
    /// The player may pay this much mana to keep a card hidden.
    PayToPreventRevealing(u32),
}

/// "Pay" when the cost falls on the user, "Lose" when on the opponent.
pub open spec fn spec_lose_text(user_side: Side, target_side: Side) -> Seq<char> {
    if user_side == target_side {
        "Pay"@
    } else {
        "Lose"@
    }
}

/// "Pay" when the cost falls on the user, "Lose" when on the opponent.
pub fn lose_text(user_side: Side, target_side: Side) -> (res: &'static str)
    ensures
        res@ == spec_lose_text(user_side, target_side),
{
    if user_side == target_side {
        "Pay"
    } else {
        "Lose"
    }
}

/// The fixed label of an effect whose label shows no amount.
pub open spec fn plain_effect_label(effect: GameEffect) -> Seq<char> {
    match effect {
        GameEffect::Continue => "Continue"@,
        GameEffect::AbortPlayingCard => "Cancel"@,
        GameEffect::PlayChoiceEffect => Seq::empty(),
        GameEffect::DrawCards => "Draw"@,
        GameEffect::SacrificeCard => "Sacrifice"@,
        GameEffect::DestroyCard => "Destroy"@,
        GameEffect::InitiateRaid => "Initiate Raid"@,
        GameEffect::EndRaid => "End Raid"@,
        GameEffect::EndCustomAccess => "End Access"@,
        GameEffect::MoveCard => "Move"@,
        GameEffect::PreventDamage => "Prevent"@,
        GameEffect::PreventCurses => "Prevent"@,
        GameEffect::PreventDestroyingCard => "Prevent"@,
        GameEffect::SelectCardForPrompt => "Select"@,
        GameEffect::ClearAllSelectedCards => "Clear"@,
        GameEffect::PushPromptWithIndex => "Select"@,
        GameEffect::SwapWithSelected => "Swap"@,
        GameEffect::AppendCustomCardState => "Choose"@,
        GameEffect::EvadeCurrentEncounter => "Evade"@,
        GameEffect::PlayCardForNoMana => "Play"@,
        GameEffect::PreventRaidCardAccess => "Don't Access"@,
        GameEffect::ChangeRaidTarget => "Change Target"@,
        GameEffect::DefeatCurrentMinion => "Defeat"@,
        GameEffect::RevealCard => "Reveal"@,
        _ => Seq::empty(),
    }
}

/// The label of an effect as seen by the player on `user_side`: a mana or
/// action cost reads "Pay" or "Lose" with the amount and its icon (an action
/// cost of one shows only the icon), a damage cost "Take" with the amount,
/// and adding power charges "Add" with the count (none shown for a single
/// charge) and its icon.
pub open spec fn spec_effect_label(user_side: Side, effect: GameEffect, icons: Icons) -> Seq<char> {
    match effect {
        GameEffect::ManaCost(side, amount) => spec_lose_text(user_side, side) + " "@ + decimal(
            amount as nat,
        ) + icons.mana@,
        GameEffect::ActionCost(side, amount) => if amount > 1 {
            spec_lose_text(user_side, side) + " "@ + decimal(amount as nat) + icons.action@
        } else {
            spec_lose_text(user_side, side) + " "@ + icons.action@
        },
        GameEffect::TakeDamageCost(amount) => "Take "@ + decimal(amount as nat),
        GameEffect::AddPowerCharges(count) => if count == 1 {
            "Add "@ + icons.power_charge@
        } else {
            "Add "@ + decimal(count as nat) + icons.power_charge@
        },
        _ => plain_effect_label(effect),
    }
}

/// Appends the label of an effect, as [spec_effect_label] describes, to
/// `out`.
fn push_effect_label(out: &mut String, user_side: Side, effect: GameEffect, icons: Icons)
    ensures
        final(out)@ == old(out)@ + spec_effect_label(user_side, effect, icons),
{
    let ghost start = out@;
    match effect {
        GameEffect::ManaCost(side, amount) => {
            out.append(lose_text(user_side, side));
            out.append(" ");
            push_decimal(out, amount as u64);
            out.append(icons.mana);
        },
        GameEffect::ActionCost(side, amount) => {
            out.append(lose_text(user_side, side));
            out.append(" ");
            if amount > 1 {
                push_decimal(out, amount as u64);
            }
            out.append(icons.action);
        },
        GameEffect::TakeDamageCost(amount) => {
            out.append("Take ");
            push_decimal(out, amount as u64);
        },
        GameEffect::AddPowerCharges(count) => {
            out.append("Add ");
            if count != 1 {
                push_decimal(out, count as u64);
            }
            out.append(icons.power_charge);
        },
        GameEffect::Continue => out.append("Continue"),
        GameEffect::AbortPlayingCard => out.append("Cancel"),
        GameEffect::PlayChoiceEffect => {},
        GameEffect::DrawCards => out.append("Draw"),
        GameEffect::SacrificeCard => out.append("Sacrifice"),
        GameEffect::DestroyCard => out.append("Destroy"),
        GameEffect::InitiateRaid => out.append("Initiate Raid"),
        GameEffect::EndRaid => out.append("End Raid"),
        GameEffect::EndCustomAccess => out.append("End Access"),
        GameEffect::MoveCard => out.append("Move"),
        GameEffect::PreventDamage => out.append("Prevent"),
        GameEffect::PreventCurses => out.append("Prevent"),
        GameEffect::PreventDestroyingCard => out.append("Prevent"),
        GameEffect::SelectCardForPrompt => out.append("Select"),
        GameEffect::ClearAllSelectedCards => out.append("Clear"),
        GameEffect::PushPromptWithIndex => out.append("Select"),
        GameEffect::SwapWithSelected => out.append("Swap"),
        GameEffect::AppendCustomCardState => out.append("Choose"),
        GameEffect::EvadeCurrentEncounter => out.append("Evade"),
        GameEffect::PlayCardForNoMana => out.append("Play"),
        GameEffect::PreventRaidCardAccess => out.append("Don't Access"),
        GameEffect::ChangeRaidTarget => out.append("Change Target"),
        GameEffect::DefeatCurrentMinion => out.append("Defeat"),
        GameEffect::RevealCard => out.append("Reveal"),
    }
    assert(out@ =~= start + spec_effect_label(user_side, effect, icons));
}

/// The label of an effect, as [spec_effect_label] describes.
pub fn effect_label(user_side: Side, effect: GameEffect, icons: Icons) -> (res: String)
    ensures
        res@ == spec_effect_label(user_side, effect, icons),
{
    let mut res = String::new();
    push_effect_label(&mut res, user_side, effect, icons);
    assert(res@ =~= spec_effect_label(user_side, effect, icons));
    res
}

/// The labels of the effects, in order, separated by ", ".
pub open spec fn joined_effect_labels(user_side: Side, effects: Seq<GameEffect>, icons: Icons) -> Seq<
    char,
>
    decreases effects.len(),
{
    if effects.len() == 0 {
        Seq::empty()
    } else if effects.len() == 1 {
        spec_effect_label(user_side, effects[0], icons)
    } else {
        joined_effect_labels(user_side, effects.drop_last(), icons) + ", "@ + spec_effect_label(
            user_side,
            effects.last(),
            icons,
        )
    }
}

/// The label of a custom prompt choice. `kind_name` is the displayed name of
/// the card type the label names, if it names one.
pub open spec fn spec_custom_label(label: PromptChoiceLabel, kind_name: Seq<char>, icons: Icons) -> Seq<
    char,
> {
    match label {
        PromptChoiceLabel::Play => "Play"@,
        PromptChoiceLabel::Sacrifice => "Sacrifice"@,
        PromptChoiceLabel::Prevent => "Prevent"@,
        PromptChoiceLabel::Return => "Return"@,
        PromptChoiceLabel::ReturnForCost(cost) => decimal(cost as nat) + icons.mana@ + ": Return"@,
        PromptChoiceLabel::Occupant => "Occupant"@,
        PromptChoiceLabel::Defender => "Defender"@,
        PromptChoiceLabel::PayActionAccessAnother => "Access Another? ("@ + icons.action@ + ")"@,
        PromptChoiceLabel::CardType(_) => kind_name,
        PromptChoiceLabel::Select => "Select"@,
        PromptChoiceLabel::RaidVault => "Access Vault"@,
        PromptChoiceLabel::RaidSanctum => "Access Sanctum"@,
        PromptChoiceLabel::DefeatForCost(cost) => decimal(cost as nat) + icons.mana@ + ": Defeat"@,
    }
}

/// The label of a custom prompt choice, as [spec_custom_label] describes.
pub fn custom_label(label: PromptChoiceLabel, kind_name: &str, icons: Icons) -> (res: String)
    ensures
        res@ == spec_custom_label(label, kind_name@, icons),
{
    let mut res = String::new();
    match label {
        PromptChoiceLabel::Play => res.append("Play"),
        PromptChoiceLabel::Sacrifice => res.append("Sacrifice"),
        PromptChoiceLabel::Prevent => res.append("Prevent"),
        PromptChoiceLabel::Return => res.append("Return"),
        PromptChoiceLabel::ReturnForCost(cost) => {
            push_decimal(&mut res, cost as u64);
            res.append(icons.mana);
            res.append(": Return");
        },
        PromptChoiceLabel::Occupant => res.append("Occupant"),
        PromptChoiceLabel::Defender => res.append("Defender"),
        PromptChoiceLabel::PayActionAccessAnother => {
            res.append("Access Another? (");
            res.append(icons.action);
            res.append(")");
        },
        PromptChoiceLabel::CardType(_) => res.append(kind_name),
        PromptChoiceLabel::Select => res.append("Select"),
        PromptChoiceLabel::RaidVault => res.append("Access Vault"),
        PromptChoiceLabel::RaidSanctum => res.append("Access Sanctum"),
        PromptChoiceLabel::DefeatForCost(cost) => {
            push_decimal(&mut res, cost as u64);
            res.append(icons.mana);
            res.append(": Defeat");
        },
    }
    assert(res@ =~= spec_custom_label(label, kind_name@, icons));
    res
}

/// The label of a prompt choice: its custom label if it has one, and
/// otherwise the labels of its effects separated by ", ".
pub open spec fn spec_choice_label(
    user_side: Side,
    custom: Option<PromptChoiceLabel>,
    effects: Seq<GameEffect>,
    kind_name: Seq<char>,
    icons: Icons,
) -> Seq<char> {
    match custom {
        Some(label) => spec_custom_label(label, kind_name, icons),
        None => joined_effect_labels(user_side, effects, icons),
    }
}

/// The label of a prompt choice as seen by the player on `user_side`, as
/// [spec_choice_label] describes.
pub fn label(
    user_side: Side,
    custom: Option<PromptChoiceLabel>,
    effects: &[GameEffect],
    kind_name: &str,
    icons: Icons,
) -> (res: String)
    ensures
        res@ == spec_choice_label(user_side, custom, effects@, kind_name@, icons),
{
    if let Some(l) = custom {
        return custom_label(l, kind_name, icons);
    }
    let mut res = String::new();
    let n = effects.len();
    let mut i: usize = 0;
    while i < n
        invariant
            n == effects@.len(),
            i <= n,
            res@ == joined_effect_labels(user_side, effects@.take(i as int), icons),
        decreases n - i,
    {
        proof {
            assert(effects@.take(i + 1).drop_last() =~= effects@.take(i as int));
        }
        if i > 0 {
            res.append(", ");
        }
        push_effect_label(&mut res, user_side, effects[i], icons);
        proof {
            if i == 0 {
                assert(res@ =~= joined_effect_labels(user_side, effects@.take(1), icons));
            }
        }
        i = i + 1;
    }
    assert(effects@.take(n as int) =~= effects@);
    res
}

/// The indefinite article used before a card type's name.
pub open spec fn spec_article(card_type: CardType) -> Seq<char> {
    match card_type {
        CardType::Ally | CardType::Artifact | CardType::Evocation => "an"@,
        _ => "a"@,
    }
}

/// The smaller of two amounts.
pub open spec fn smaller(a: u32, b: u32) -> u32 {
    if a < b {
        a
    } else {
        b
    }
}

/// The instructions shown above a button prompt, if its context calls for
/// any. `card_name` is the displayed name of the card a sacrifice context
/// names; `incoming` is the damage or the number of curses about to be
/// received (zero when none is), of which no more than is incoming is
/// offered to prevent; `kind_name` is the displayed name of the card type of
/// a card limit context.
pub open spec fn spec_prompt_instructions(
    context: ButtonPromptContext,
    card_name: Seq<char>,
    incoming: u32,
    kind_name: Seq<char>,
    icons: Icons,
) -> Option<Seq<char>> {
    match context {
        ButtonPromptContext::Card(_) => None,
        ButtonPromptContext::PriorityWindow => Some("Activate abilities?"@),
        ButtonPromptContext::CardLimit(card_type, subtype) => Some(
            if card_type == CardType::Minion {
                "Minion limit exceeded. You must sacrifice a minion in this room."@
            } else if card_type == CardType::Artifact && subtype == Some(CardSubtype::Weapon) {
                "Weapon limit exceeded. You must sacrifice a Weapon card in play."@
            } else if card_type == CardType::Project || card_type == CardType::Scheme {
                "Sacrifice the existing card occupying this room?"@
            } else {
                kind_name + " limit exceeded. You must sacrifice "@ + spec_article(card_type) + " "@
                    + kind_name + " card in play."@
            },
        ),
        ButtonPromptContext::SacrificeToPreventDamage(_, amount) => Some(
            "Sacrifice "@ + card_name + " to prevent "@ + decimal(smaller(amount, incoming) as nat)
                + " damage?"@,
        ),
        ButtonPromptContext::SacrificeToPreventCurses(_, amount) => {
            let quantity = smaller(amount, incoming);
            Some(
                "Sacrifice "@ + card_name + " to prevent "@ + (if quantity == 1 {
                    "a curse"@
                } else {
                    decimal(quantity as nat) + " curses"@
                }) + "?"@,
            )
        },
        ButtonPromptContext::CardToGiveToOpponent => Some("Select card to give opponent"@),
        ButtonPromptContext::CardToTakeFromOpponent => Some("Select card to take from opponent"@),
        ButtonPromptContext::PayToPreventRevealing(cost) => Some(
            "Pay "@ + decimal(cost as nat) + icons.mana@ + " to prevent revealing?"@,
        ),
    }
}

/// The instructions shown above a button prompt, as
/// [spec_prompt_instructions] describes.
pub fn prompt_instructions(
    context: ButtonPromptContext,
    card_name: &str,
    incoming: u32,
    kind_name: &str,
    icons: Icons,
) -> (res: Option<String>)
    ensures
        match spec_prompt_instructions(context, card_name@, incoming, kind_name@, icons) {
            Some(text) => res matches Some(s) && s@ == text,
            None => res is None,
        },
{
    let mut text = String::new();
    match context {
        ButtonPromptContext::Card(_) => {
            return None;
        },
        ButtonPromptContext::PriorityWindow => text.append("Activate abilities?"),
        ButtonPromptContext::CardLimit(card_type, subtype) => {
            if card_type == CardType::Minion {
                text.append("Minion limit exceeded. You must sacrifice a minion in this room.");
            } else if card_type == CardType::Artifact && subtype == Some(CardSubtype::Weapon) {
                text.append("Weapon limit exceeded. You must sacrifice a Weapon card in play.");
            } else if card_type == CardType::Project || card_type == CardType::Scheme {
                text.append("Sacrifice the existing card occupying this room?");
            } else {
                text.append(kind_name);
                text.append(" limit exceeded. You must sacrifice ");
                match card_type {
                    CardType::Ally | CardType::Artifact | CardType::Evocation => text.append("an"),
                    _ => text.append("a"),
                }
                text.append(" ");
                text.append(kind_name);
                text.append(" card in play.");
            }
        },
        ButtonPromptContext::SacrificeToPreventDamage(_, amount) => {
            let prevented = if amount < incoming {
                amount
            } else {
                incoming
            };
            text.append("Sacrifice ");
            text.append(card_name);
            text.append(" to prevent ");
            push_decimal(&mut text, prevented as u64);
            text.append(" damage?");
        },
        ButtonPromptContext::SacrificeToPreventCurses(_, amount) => {
            let quantity = if amount < incoming {
                amount
            } else {
                incoming
            };
            text.append("Sacrifice ");
            text.append(card_name);
            text.append(" to prevent ");
            if quantity == 1 {
                text.append("a curse");
            } else {
                push_decimal(&mut text, quantity as u64);
                text.append(" curses");
            }
            text.append("?");
        },
        ButtonPromptContext::CardToGiveToOpponent => text.append("Select card to give opponent"),
        ButtonPromptContext::CardToTakeFromOpponent => text.append(
            "Select card to take from opponent",
        ),
        ButtonPromptContext::PayToPreventRevealing(cost) => {
            text.append("Pay ");
            push_decimal(&mut text, cost as u64);
            text.append(icons.mana);
            text.append(" to prevent revealing?");
        },
    }
    assert(text@ =~= spec_prompt_instructions(context, card_name@, incoming, kind_name@, icons).unwrap());
    Some(text)
}

/// What a card selector or card browser prompt asks of the player.
#[derive(Clone, Copy, Debug, PartialEq, Eq, Structural)]
pub enum PromptContext {
    /// Discard down to this many cards in hand.
    DiscardToHandSize(u32),
    /// Move a card from the crypt to the top of the vault.
    MoveToTopOfVault,
    /// Play a card of this type from the discard pile.
    PlayFromDiscard(CardType),
    PlayACard,
    /// Play the named card.
    PlayNamedCard(CardName),
    /// Any other request, which shows no instructions.
    Other,
}

/// The instructions of a card selector.
pub open spec fn spec_selector_instructions(context: Option<PromptContext>) -> Option<Seq<char>> {
    match context {
        Some(PromptContext::DiscardToHandSize(amount)) => Some(
            "You must discard until you have "@ + decimal(amount as nat) + " cards in hand."@,
        ),
        Some(PromptContext::MoveToTopOfVault) => Some(
            "Put a card from the crypt on top of the vault?"@,
        ),
        _ => None,
    }
}

/// The instructions of a card selector, as [spec_selector_instructions]
/// describes.
pub fn selector_instructions(context: Option<PromptContext>) -> (res: Option<String>)
    ensures
        match spec_selector_instructions(context) {
            Some(text) => res matches Some(s) && s@ == text,
            None => res is None,
        },
{
    match context {
        Some(PromptContext::DiscardToHandSize(amount)) => {
            let mut text = String::from_str("You must discard until you have ");
            push_decimal(&mut text, amount as u64);
            text.append(" cards in hand.");
            Some(text)
        },
        Some(PromptContext::MoveToTopOfVault) => Some(
            String::from_str("Put a card from the crypt on top of the vault?"),
        ),
        _ => None,
    }
}

/// The note shown below a card selector's instructions, telling where to
/// drag the cards.
pub fn selector_metatext(context: Option<PromptContext>) -> (res: Option<&'static str>)
    ensures
        match context {
            Some(PromptContext::DiscardToHandSize(_)) => res matches Some(t) && t@
                == "<i>(Drag cards down from your hand to your deck.)</i>"@,
            Some(PromptContext::MoveToTopOfVault) => res matches Some(t) && t@
                == "<i>(Drag cards down from the crypt to the sanctum.)</i>"@,
            _ => res is None,
        },
{
    match context {
        Some(PromptContext::DiscardToHandSize(_)) => Some(
            "<i>(Drag cards down from your hand to your deck.)</i>",
        ),
        Some(PromptContext::MoveToTopOfVault) => Some(
            "<i>(Drag cards down from the crypt to the sanctum.)</i>",
        ),
        _ => None,
    }
}

/// The instructions of a play card browser. For a card type, `article` and
/// `lowercase_kind_name` are the article and the lowercase displayed name of
/// the type; for a named card, `card_name` is its displayed name.
pub open spec fn spec_play_card_instructions(
    context: Option<PromptContext>,
    article: Seq<char>,
    lowercase_kind_name: Seq<char>,
    card_name: Seq<char>,
) -> Option<Seq<char>> {
    match context {
        Some(PromptContext::PlayFromDiscard(_)) => Some(
            "Play "@ + article + " "@ + lowercase_kind_name + " from your discard pile."@,
        ),
        Some(PromptContext::PlayACard) => Some("Play a card."@),
        Some(PromptContext::PlayNamedCard(_)) => Some("Play "@ + card_name + "?"@),
        _ => None,
    }
}

/// The instructions of a play card browser, as
/// [spec_play_card_instructions] describes.
pub fn play_card_instructions(
    context: Option<PromptContext>,
    article: &str,
    lowercase_kind_name: &str,
    card_name: &str,
) -> (res: Option<String>)
    ensures
        match spec_play_card_instructions(context, article@, lowercase_kind_name@, card_name@) {
            Some(text) => res matches Some(s) && s@ == text,
            None => res is None,
        },
{
    match context {
        Some(PromptContext::PlayFromDiscard(_)) => {
            let mut text = String::from_str("Play ");
            text.append(article);
            text.append(" ");
            text.append(lowercase_kind_name);
            text.append(" from your discard pile.");
            Some(text)
        },
        Some(PromptContext::PlayACard) => Some(String::from_str("Play a card.")),
        Some(PromptContext::PlayNamedCard(_)) => {
            let mut text = String::from_str("Play ");
            text.append(card_name);
            text.append("?");
            Some(text)
        },
        _ => None,
    }
}

/// What a room selector asks of the player.
#[derive(Clone, Copy, Debug, PartialEq, Eq, Structural)]
pub enum RoomSelectorPromptContext {
    Access,
    RemoveCurseToProgressRoom,
}

/// The instructions of a room selector, if it has a context.
pub fn room_selector_instructions(context: Option<RoomSelectorPromptContext>) -> (res: Option<
    &'static str,
>)
    ensures
        match context {
            Some(RoomSelectorPromptContext::Access) => res matches Some(t) && t@
                == "Select a room to access"@,
            Some(RoomSelectorPromptContext::RemoveCurseToProgressRoom) => res matches Some(t) && t@
                == "Remove curse to progress a room?"@,
            None => res is None,
        },
{
    match context {
        Some(RoomSelectorPromptContext::Access) => Some("Select a room to access"),
        Some(RoomSelectorPromptContext::RemoveCurseToProgressRoom) => Some(
            "Remove curse to progress a room?",
        ),
        None => None,
    }
}

/// A player's decision on their opening hand.
#[derive(Clone, Copy, Debug, PartialEq, Eq, Structural)]
pub enum MulliganDecision {
    Keep,
    Mulligan,
}

/// An action on the state of the game offered as a button.
#[derive(Clone, Copy, Debug, PartialEq, Eq, Structural)]
pub enum GameStateAction {
    MulliganDecision(MulliganDecision),
    StartTurnAction,
    EndTurnAction,
}

/// The label of the button offering a game state action, and whether it is
/// a primary button: only taking a mulligan is secondary.
pub fn game_state_action_button(action: GameStateAction) -> (res: (&'static str, bool))
    ensures
        match action {
            GameStateAction::MulliganDecision(MulliganDecision::Keep) => res.0@ == "Keep"@
                && res.1,
            GameStateAction::MulliganDecision(MulliganDecision::Mulligan) => res.0@
                == "Mulligan"@ && !res.1,
            GameStateAction::StartTurnAction => res.0@ == "Start Turn"@ && res.1,
            GameStateAction::EndTurnAction => res.0@ == "End Turn"@ && res.1,
        },
{
    match action {
        GameStateAction::MulliganDecision(MulliganDecision::Keep) => ("Keep", true),
        GameStateAction::MulliganDecision(MulliganDecision::Mulligan) => ("Mulligan", false),
        GameStateAction::StartTurnAction => ("Start Turn", true),
        GameStateAction::EndTurnAction => ("End Turn", true),
    }
}

} // verus!
