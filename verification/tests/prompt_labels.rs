use spelldawn::adventure::{CardName, CardSubtype, CardType, Side};
use spelldawn::positions::CardId;
use spelldawn::prompt_labels::{
    custom_label, effect_label, game_state_action_button, label, lose_text, play_card_instructions,
    prompt_instructions, room_selector_instructions, selector_instructions, selector_metatext,
    ButtonPromptContext, GameEffect, GameStateAction, Icons, MulliganDecision, PromptChoiceLabel,
    PromptContext, RoomSelectorPromptContext,
};

const ICONS: Icons = Icons { mana: "$", action: "@", power_charge: "%" };

fn card() -> CardId {
    CardId { side: Side::Riftcaller, index: 3 }
}

#[test]
fn costs_read_pay_or_lose() {
    assert_eq!(lose_text(Side::Covenant, Side::Covenant), "Pay");
    assert_eq!(lose_text(Side::Covenant, Side::Riftcaller), "Lose");
    assert_eq!(effect_label(Side::Covenant, GameEffect::ManaCost(Side::Covenant, 3), ICONS), "Pay 3$");
    assert_eq!(effect_label(Side::Covenant, GameEffect::ManaCost(Side::Riftcaller, 12), ICONS), "Lose 12$");
    assert_eq!(effect_label(Side::Riftcaller, GameEffect::ActionCost(Side::Riftcaller, 1), ICONS), "Pay @");
    assert_eq!(effect_label(Side::Riftcaller, GameEffect::ActionCost(Side::Riftcaller, 2), ICONS), "Pay 2@");
    assert_eq!(effect_label(Side::Riftcaller, GameEffect::TakeDamageCost(4), ICONS), "Take 4");
    assert_eq!(effect_label(Side::Riftcaller, GameEffect::AddPowerCharges(1), ICONS), "Add %");
    assert_eq!(effect_label(Side::Riftcaller, GameEffect::AddPowerCharges(3), ICONS), "Add 3%");
}

#[test]
fn plain_effect_labels() {
    assert_eq!(effect_label(Side::Covenant, GameEffect::Continue, ICONS), "Continue");
    assert_eq!(effect_label(Side::Covenant, GameEffect::AbortPlayingCard, ICONS), "Cancel");
    assert_eq!(effect_label(Side::Covenant, GameEffect::PlayChoiceEffect, ICONS), "");
    assert_eq!(effect_label(Side::Covenant, GameEffect::PreventRaidCardAccess, ICONS), "Don't Access");
    assert_eq!(effect_label(Side::Covenant, GameEffect::ChangeRaidTarget, ICONS), "Change Target");
    assert_eq!(effect_label(Side::Covenant, GameEffect::EndCustomAccess, ICONS), "End Access");
}

#[test]
fn choice_labels_join_effects() {
    let effects = [GameEffect::ManaCost(Side::Covenant, 2), GameEffect::DestroyCard, GameEffect::EndRaid];
    assert_eq!(label(Side::Covenant, None, &effects, "", ICONS), "Pay 2$, Destroy, End Raid");
    assert_eq!(label(Side::Covenant, None, &[GameEffect::DrawCards], "", ICONS), "Draw");
    assert_eq!(label(Side::Covenant, None, &[], "", ICONS), "");
    assert_eq!(
        label(Side::Covenant, Some(PromptChoiceLabel::Sacrifice), &effects, "", ICONS),
        "Sacrifice"
    );
}

#[test]
fn custom_labels() {
    assert_eq!(custom_label(PromptChoiceLabel::ReturnForCost(4), "", ICONS), "4$: Return");
    assert_eq!(custom_label(PromptChoiceLabel::DefeatForCost(10), "", ICONS), "10$: Defeat");
    assert_eq!(custom_label(PromptChoiceLabel::PayActionAccessAnother, "", ICONS), "Access Another? (@)");
    assert_eq!(custom_label(PromptChoiceLabel::CardType(CardType::Minion), "Minion", ICONS), "Minion");
    assert_eq!(custom_label(PromptChoiceLabel::RaidVault, "", ICONS), "Access Vault");
    assert_eq!(custom_label(PromptChoiceLabel::RaidSanctum, "", ICONS), "Access Sanctum");
}

#[test]
fn card_limit_instructions() {
    let minion = prompt_instructions(ButtonPromptContext::CardLimit(CardType::Minion, None), "", 0, "Minion", ICONS);
    assert_eq!(minion.as_deref(), Some("Minion limit exceeded. You must sacrifice a minion in this room."));
    let weapon = prompt_instructions(
        ButtonPromptContext::CardLimit(CardType::Artifact, Some(CardSubtype::Weapon)),
        "",
        0,
        "Artifact",
        ICONS,
    );
    assert_eq!(weapon.as_deref(), Some("Weapon limit exceeded. You must sacrifice a Weapon card in play."));
    let project = prompt_instructions(ButtonPromptContext::CardLimit(CardType::Project, None), "", 0, "Project", ICONS);
    assert_eq!(project.as_deref(), Some("Sacrifice the existing card occupying this room?"));
    let artifact = prompt_instructions(ButtonPromptContext::CardLimit(CardType::Artifact, None), "", 0, "Artifact", ICONS);
    assert_eq!(
        artifact.as_deref(),
        Some("Artifact limit exceeded. You must sacrifice an Artifact card in play.")
    );
    let spell = prompt_instructions(ButtonPromptContext::CardLimit(CardType::Spell, None), "", 0, "Spell", ICONS);
    assert_eq!(spell.as_deref(), Some("Spell limit exceeded. You must sacrifice a Spell card in play."));
}

#[test]
fn sacrifice_instructions_offer_what_is_incoming() {
    let damage = prompt_instructions(ButtonPromptContext::SacrificeToPreventDamage(card(), 5), "Shield", 3, "", ICONS);
    assert_eq!(damage.as_deref(), Some("Sacrifice Shield to prevent 3 damage?"));
    let damage = prompt_instructions(ButtonPromptContext::SacrificeToPreventDamage(card(), 2), "Shield", 3, "", ICONS);
    assert_eq!(damage.as_deref(), Some("Sacrifice Shield to prevent 2 damage?"));
    let one = prompt_instructions(ButtonPromptContext::SacrificeToPreventCurses(card(), 4), "Ward", 1, "", ICONS);
    assert_eq!(one.as_deref(), Some("Sacrifice Ward to prevent a curse?"));
    let many = prompt_instructions(ButtonPromptContext::SacrificeToPreventCurses(card(), 4), "Ward", 6, "", ICONS);
    assert_eq!(many.as_deref(), Some("Sacrifice Ward to prevent 4 curses?"));
    let none = prompt_instructions(ButtonPromptContext::SacrificeToPreventCurses(card(), 4), "Ward", 0, "", ICONS);
    assert_eq!(none.as_deref(), Some("Sacrifice Ward to prevent 0 curses?"));
}

#[test]
fn other_prompt_instructions() {
    assert_eq!(prompt_instructions(ButtonPromptContext::Card(card()), "", 0, "", ICONS), None);
    assert_eq!(
        prompt_instructions(ButtonPromptContext::PriorityWindow, "", 0, "", ICONS).as_deref(),
        Some("Activate abilities?")
    );
    assert_eq!(
        prompt_instructions(ButtonPromptContext::CardToGiveToOpponent, "", 0, "", ICONS).as_deref(),
        Some("Select card to give opponent")
    );
    assert_eq!(
        prompt_instructions(ButtonPromptContext::CardToTakeFromOpponent, "", 0, "", ICONS).as_deref(),
        Some("Select card to take from opponent")
    );
    assert_eq!(
        prompt_instructions(ButtonPromptContext::PayToPreventRevealing(2), "", 0, "", ICONS).as_deref(),
        Some("Pay 2$ to prevent revealing?")
    );
}

#[test]
fn selector_and_browser_instructions() {
    assert_eq!(
        selector_instructions(Some(PromptContext::DiscardToHandSize(8))).as_deref(),
        Some("You must discard until you have 8 cards in hand.")
    );
    assert_eq!(
        selector_instructions(Some(PromptContext::MoveToTopOfVault)).as_deref(),
        Some("Put a card from the crypt on top of the vault?")
    );
    assert_eq!(selector_instructions(Some(PromptContext::PlayACard)), None);
    assert_eq!(selector_instructions(None), None);
    assert_eq!(
        selector_metatext(Some(PromptContext::DiscardToHandSize(8))),
        Some("<i>(Drag cards down from your hand to your deck.)</i>")
    );
    assert_eq!(selector_metatext(Some(PromptContext::Other)), None);
    assert_eq!(
        play_card_instructions(Some(PromptContext::PlayFromDiscard(CardType::Artifact)), "an", "artifact", "")
            .as_deref(),
        Some("Play an artifact from your discard pile.")
    );
    assert_eq!(play_card_instructions(Some(PromptContext::PlayACard), "", "", "").as_deref(), Some("Play a card."));
    assert_eq!(
        play_card_instructions(Some(PromptContext::PlayNamedCard(CardName(7))), "", "", "Eldritch Surge").as_deref(),
        Some("Play Eldritch Surge?")
    );
    assert_eq!(play_card_instructions(Some(PromptContext::MoveToTopOfVault), "", "", ""), None);
    assert_eq!(room_selector_instructions(Some(RoomSelectorPromptContext::Access)), Some("Select a room to access"));
    assert_eq!(
        room_selector_instructions(Some(RoomSelectorPromptContext::RemoveCurseToProgressRoom)),
        Some("Remove curse to progress a room?")
    );
    assert_eq!(room_selector_instructions(None), None);
}

#[test]
fn game_state_action_buttons() {
    assert_eq!(game_state_action_button(GameStateAction::MulliganDecision(MulliganDecision::Keep)), ("Keep", true));
    assert_eq!(
        game_state_action_button(GameStateAction::MulliganDecision(MulliganDecision::Mulligan)),
        ("Mulligan", false)
    );
    assert_eq!(game_state_action_button(GameStateAction::StartTurnAction), ("Start Turn", true));
    assert_eq!(game_state_action_button(GameStateAction::EndTurnAction), ("End Turn", true));
}
