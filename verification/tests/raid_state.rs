use spelldawn::adventure::{CardType, Side};
use spelldawn::positions::CardId;
use spelldawn::delegates::AbilityId;
use spelldawn::raid_state::{
    finish_access, select_accessed_cards, AccessEndEvent, InitiatedBy,
};
use spelldawn::raid_state::{
    access_source, use_weapon, AccessSource, CostToDefeat, CustomBoostActivation, CustomBoostCost,
    CustomWeaponCost, WeaponPayment,
};
use spelldawn::raid_state::{
    access_action_for_card, can_raze_project, can_score_card, check_can_access,
    populate_access_prompt, populate_approach_prompt, populate_encounter_prompt,
    populate_summon_prompt, run_decision, successor, PopulateAccessPromptSource, RaidAction,
    RaidChoice, RaidData, RaidError, RaidJumpRequest, RaidLabel, RaidState, RaidStatus, RaidStep,
    RazeCardActionType, RoomId, RunDecision, ScoredCard, WeaponInteraction,
};

fn card(index: usize) -> CardId {
    CardId { side: Side::Covenant, index }
}

fn weapon(index: usize) -> CardId {
    CardId { side: Side::Riftcaller, index }
}

fn prompt(state: &RaidState) -> (RaidStatus, RaidStep, Vec<RaidChoice>) {
    match state {
        RaidState::Prompt(p) => (p.status, p.populated_by, p.choices.clone()),
        RaidState::Step(s) => panic!("expected a prompt, found step {:?}", s),
    }
}

fn step(state: &RaidState) -> RaidStep {
    match state {
        RaidState::Step(s) => *s,
        RaidState::Prompt(p) => panic!("expected a step, found prompt {:?}", p),
    }
}

fn raid(state: RaidState, jump_request: Option<RaidJumpRequest>) -> RaidData {
    RaidData {
        target: RoomId::Vault,
        initiated_by: InitiatedBy::GameAction,
        raid_id: 40,
        encounter: 2,
        minion_encounter_id: None,
        room_access_id: None,
        state,
        accessed: vec![card(1), card(2), card(1), card(3)],
        jump_request,
        is_card_access_prevented: false,
        is_custom_access: false,
    }
}

#[test]
fn steps_advance_in_order() {
    assert_eq!(successor(RaidStep::Begin), Some(RaidStep::NextEncounter));
    assert_eq!(successor(RaidStep::SummonMinion(card(4))), Some(RaidStep::ApproachMinion(card(4))));
    assert_eq!(successor(RaidStep::ApproachMinion(card(4))), Some(RaidStep::EncounterMinion(card(4))));
    assert_eq!(
        successor(RaidStep::EncounterMinion(card(4))),
        Some(RaidStep::PopulateEncounterPrompt(card(4)))
    );
    assert_eq!(successor(RaidStep::AccessStart), Some(RaidStep::BuildAccessSet));
    assert_eq!(
        successor(RaidStep::AccessCards),
        Some(RaidStep::WillPopulateAccessPrompt(PopulateAccessPromptSource::Initial))
    );
    let scored = ScoredCard { id: card(6) };
    assert_eq!(successor(RaidStep::ScoreEvent(scored)), Some(RaidStep::MoveToScoredPosition(scored)));
    assert_eq!(successor(RaidStep::RazeCard(card(6), 3)).is_some(), true);
    assert_eq!(successor(RaidStep::FinishAccess), Some(RaidStep::FinishRaid));
    assert_eq!(successor(RaidStep::NextEncounter), None);
    assert_eq!(successor(RaidStep::PopulateAccessPrompt), None);
    assert_eq!(successor(RaidStep::CheckCanAccess), None);
}

#[test]
fn summon_prompt_offers_summoning_first() {
    let state = populate_summon_prompt(card(4));
    let (status, populated_by, choices) = prompt(&state);
    assert_eq!(status, RaidStatus::Summon);
    assert_eq!(populated_by, RaidStep::PopulateSummonPrompt(card(4)));
    assert_eq!(
        choices,
        vec![
            RaidChoice { label: RaidLabel::SummonMinion(card(4)), step: RaidStep::SummonMinion(card(4)) },
            RaidChoice { label: RaidLabel::DoNotSummonMinion, step: RaidStep::DoNotSummon(card(4)) },
        ]
    );
}

#[test]
fn encounter_prompt_lists_weapons_then_no_weapon() {
    let state = populate_encounter_prompt(card(4), &[weapon(1), weapon(2)], true);
    let (status, populated_by, choices) = prompt(&state);
    assert_eq!(status, RaidStatus::Encounter);
    assert_eq!(populated_by, RaidStep::PopulateEncounterPrompt(card(4)));
    let first = WeaponInteraction { weapon_id: weapon(1), defender_id: card(4) };
    let second = WeaponInteraction { weapon_id: weapon(2), defender_id: card(4) };
    assert_eq!(
        choices,
        vec![
            RaidChoice { label: RaidLabel::UseWeapon(first), step: RaidStep::UseWeapon(first) },
            RaidChoice { label: RaidLabel::UseWeapon(second), step: RaidStep::UseWeapon(second) },
            RaidChoice {
                label: RaidLabel::DoNotUseWeapon,
                step: RaidStep::FireMinionCombatAbility(card(4))
            },
        ]
    );
    let (_, _, choices) = prompt(&populate_encounter_prompt(card(4), &[], false));
    assert!(choices.is_empty());
}

#[test]
fn approach_prompt_only_with_instant_speed_actions() {
    let (status, populated_by, choices) = prompt(&populate_approach_prompt(true));
    assert_eq!(status, RaidStatus::ApproachRoom);
    assert_eq!(populated_by, RaidStep::PopulateApproachPrompt);
    assert_eq!(
        choices,
        vec![RaidChoice { label: RaidLabel::ProceedToAccess, step: RaidStep::CheckCanAccess }]
    );
    assert_eq!(step(&populate_approach_prompt(false)), RaidStep::CheckCanAccess);
}

#[test]
fn access_is_checked() {
    assert_eq!(step(&check_can_access(true)), RaidStep::AccessStart);
    assert_eq!(step(&check_can_access(false)), RaidStep::FinishRaid);
}

#[test]
fn access_prompt_keeps_card_actions_and_ends() {
    let score = access_action_for_card(card(1), CardType::Scheme, true, false, false, 0);
    let nothing = access_action_for_card(card(2), CardType::Minion, true, true, false, 0);
    assert_eq!(nothing, None);
    let state = populate_access_prompt(&[score, nothing], true, false);
    let (status, populated_by, choices) = prompt(&state);
    assert_eq!(status, RaidStatus::Access);
    assert_eq!(populated_by, RaidStep::PopulateAccessPrompt);
    assert_eq!(
        choices,
        vec![
            RaidChoice {
                label: RaidLabel::ScoreCard(card(1)),
                step: RaidStep::StartScoringCard(ScoredCard { id: card(1) })
            },
            RaidChoice { label: RaidLabel::EndRaid, step: RaidStep::FinishAccess },
        ]
    );
    let (_, _, custom) = prompt(&populate_access_prompt(&[], true, true));
    assert_eq!(custom, vec![RaidChoice { label: RaidLabel::EndAccess, step: RaidStep::FinishAccess }]);
    let (_, _, none) = prompt(&populate_access_prompt(&[nothing], false, false));
    assert!(none.is_empty());
}

#[test]
fn razing_destroys_in_play_and_discards_otherwise() {
    assert_eq!(
        access_action_for_card(card(5), CardType::Project, false, true, true, 4),
        Some(RaidChoice {
            label: RaidLabel::RazeCard(card(5), RazeCardActionType::Destroy),
            step: RaidStep::StartRazingCard(card(5), 4)
        })
    );
    assert_eq!(
        access_action_for_card(card(5), CardType::Project, false, true, false, 2),
        Some(RaidChoice {
            label: RaidLabel::RazeCard(card(5), RazeCardActionType::Discard),
            step: RaidStep::StartRazingCard(card(5), 2)
        })
    );
    assert_eq!(access_action_for_card(card(5), CardType::Project, true, false, true, 2), None);
    assert_eq!(access_action_for_card(card(5), CardType::Scheme, false, true, true, 2), None);
}

#[test]
fn scoring_needs_access_and_points() {
    let accessed = vec![card(1), card(2)];
    assert!(can_score_card(Some(&accessed), card(2), true));
    assert!(!can_score_card(Some(&accessed), card(2), false));
    assert!(!can_score_card(Some(&accessed), card(3), true));
    assert!(!can_score_card(None, card(1), true));
}

#[test]
fn razing_needs_mana_and_a_card_outside_the_discard_pile() {
    assert!(can_raze_project(false, 3, 3));
    assert!(!can_raze_project(false, 4, 3));
    assert!(!can_raze_project(true, 0, 3));
}

#[test]
fn run_stops_when_nothing_to_do() {
    let state = RaidState::Step(RaidStep::Begin);
    assert_eq!(run_decision(true, true, Some(&state), None, false), Ok(RunDecision::Stop));
    assert_eq!(run_decision(false, false, Some(&state), None, false), Ok(RunDecision::Stop));
    assert_eq!(run_decision(false, true, None, None, false), Ok(RunDecision::Stop));
    assert_eq!(
        run_decision(false, true, Some(&state), None, false),
        Ok(RunDecision::Evaluate { step: RaidStep::Begin, action_used: false })
    );
}

#[test]
fn run_follows_the_chosen_prompt_option() {
    let state = populate_summon_prompt(card(4));
    assert_eq!(
        run_decision(false, true, Some(&state), Some(RaidAction { index: 1 }), false),
        Ok(RunDecision::Evaluate { step: RaidStep::DoNotSummon(card(4)), action_used: true })
    );
    assert_eq!(
        run_decision(false, true, Some(&state), Some(RaidAction { index: 2 }), false),
        Err(RaidError::IndexOutOfBounds)
    );
}

#[test]
fn waiting_prompt_is_regenerated_once() {
    let state = populate_summon_prompt(card(4));
    assert_eq!(
        run_decision(false, true, Some(&state), None, false),
        Ok(RunDecision::Regenerate(RaidStep::PopulateSummonPrompt(card(4))))
    );
    assert_eq!(run_decision(false, true, Some(&state), None, true), Ok(RunDecision::Stop));
}

#[test]
fn jump_to_minion_moves_the_raid() {
    let mut data = raid(RaidState::Step(RaidStep::AccessStart), Some(RaidJumpRequest::EncounterMinion(card(7))));
    assert_eq!(data.apply_jump_request(Some((RoomId::RoomB, 1))), Ok(()));
    assert_eq!(data.target, RoomId::RoomB);
    assert_eq!(data.encounter, 1);
    assert_eq!(step(&data.state), RaidStep::EncounterMinion(card(7)));
    assert_eq!(data.jump_request, None);
}

#[test]
fn jump_to_missing_minion_fails_unchanged() {
    let mut data = raid(RaidState::Step(RaidStep::AccessStart), Some(RaidJumpRequest::EncounterMinion(card(7))));
    assert_eq!(data.apply_jump_request(None), Err(RaidError::MinionNotFound));
    assert_eq!(data.target, RoomId::Vault);
    assert_eq!(data.jump_request, Some(RaidJumpRequest::EncounterMinion(card(7))));
    assert_eq!(step(&data.state), RaidStep::AccessStart);
}

#[test]
fn other_jumps() {
    let mut data = raid(RaidState::Step(RaidStep::AccessStart), Some(RaidJumpRequest::ChangeTarget(RoomId::Crypts)));
    assert_eq!(data.apply_jump_request(None), Ok(()));
    assert_eq!(data.target, RoomId::Crypts);
    assert_eq!(data.encounter, 2);
    assert_eq!(step(&data.state), RaidStep::AccessStart);
    assert_eq!(data.jump_request, None);

    let mut data = raid(RaidState::Step(RaidStep::AccessStart), Some(RaidJumpRequest::EvadeCurrentMinion));
    assert_eq!(data.apply_jump_request(None), Ok(()));
    assert_eq!(data.target, RoomId::Vault);
    assert_eq!(step(&data.state), RaidStep::NextEncounter);

    let mut data = raid(RaidState::Step(RaidStep::AccessStart), None);
    assert_eq!(data.apply_jump_request(Some((RoomId::RoomA, 0))), Ok(()));
    assert_eq!(data.target, RoomId::Vault);
    assert_eq!(data.encounter, 2);
}

#[test]
fn removing_accessed_card_keeps_the_others_in_order() {
    let mut data = raid(RaidState::Step(RaidStep::AccessStart), None);
    data.remove_accessed(card(1));
    assert_eq!(data.accessed, vec![card(2), card(3)]);
    data.remove_accessed(card(9));
    assert_eq!(data.accessed, vec![card(2), card(3)]);
}

#[test]
fn access_comes_from_the_room() {
    assert_eq!(access_source(RoomId::Vault, 3, 1), AccessSource::TopOfDeck(3));
    assert_eq!(access_source(RoomId::Sanctum, 3, 1), AccessSource::RandomFromHand(1));
    assert_eq!(access_source(RoomId::Crypts, 3, 1), AccessSource::DiscardPile);
    assert_eq!(access_source(RoomId::RoomD, 3, 1), AccessSource::Occupants);
}

#[test]
fn weapons_pay_their_costs() {
    let interaction = WeaponInteraction { weapon_id: weapon(1), defender_id: card(2) };
    assert_eq!(use_weapon(interaction, None), Err(RaidError::CannotDefeatTarget));
    let plain = CostToDefeat { mana_cost: 3, attack_boost: 1, custom_weapon_cost: None, custom_boost_activation: None };
    assert_eq!(
        use_weapon(interaction, Some(plain)),
        Ok((
            WeaponPayment { mana: 3, action_points: None, power_charges: None },
            RaidStep::MinionDefeated(interaction)
        ))
    );
    let custom = CostToDefeat {
        mana_cost: 0,
        attack_boost: 0,
        custom_weapon_cost: Some(CustomWeaponCost::ActionPoints(1)),
        custom_boost_activation: Some(CustomBoostActivation {
            cost: CustomBoostCost::PowerCharges(2),
            activation_count: 3,
        }),
    };
    assert_eq!(
        use_weapon(interaction, Some(custom)),
        Ok((
            WeaponPayment { mana: 0, action_points: Some(1), power_charges: Some(6) },
            RaidStep::MinionDefeated(interaction)
        ))
    );
}

#[test]
fn raids_begin_at_the_outermost_defender() {
    let data = RaidData::initiate(RoomId::RoomC, 3, InitiatedBy::GameAction, 17);
    assert_eq!(data.target, RoomId::RoomC);
    assert_eq!(data.encounter, 3);
    assert_eq!(step(&data.state), RaidStep::Begin);
    assert!(data.accessed.is_empty());
    assert_eq!(data.jump_request, None);
    assert!(!data.is_custom_access);
}

#[test]
fn custom_access_starts_by_revealing() {
    let data = RaidData::initiate_custom_access(false, RoomId::Vault, 1, by_ability(), 21, vec![card(8), card(9)]).unwrap();
    assert_eq!(step(&data.state), RaidStep::RevealAccessedCards);
    assert_eq!(data.accessed, vec![card(8), card(9)]);
    assert!(data.is_custom_access);
    assert_eq!(data.encounter, 1);
    assert_eq!(
        RaidData::initiate_custom_access(true, RoomId::Vault, 1, by_ability(), 21, vec![]).err(),
        Some(RaidError::RaidAlreadyActive)
    );
}

fn by_ability() -> InitiatedBy {
    InitiatedBy::Ability(AbilityId::new(card(12), 0))
}

#[test]
fn raid_records_who_began_it() {
    let data = RaidData::initiate(RoomId::RoomC, 3, InitiatedBy::GameAction, 17);
    assert_eq!(data.initiated_by, InitiatedBy::GameAction);
    assert_eq!(data.raid_id, 17);
    assert_eq!(data.minion_encounter_id, None);
    assert_eq!(data.room_access_id, None);
    assert!(!data.is_card_access_prevented);
    let custom = RaidData::initiate_custom_access(false, RoomId::Crypts, 0, by_ability(), 21, vec![]).unwrap();
    assert_eq!(custom.initiated_by, by_ability());
    assert_eq!(custom.raid_id, 21);
}

#[test]
fn encounters_and_access_record_their_events() {
    let mut data = RaidData::initiate(RoomId::RoomC, 3, InitiatedBy::GameAction, 17);
    assert_eq!(data.encounter_minion(card(4), 30), RaidStep::PopulateEncounterPrompt(card(4)));
    assert_eq!(data.minion_encounter_id, Some(30));
    assert_eq!(data.access_start(31), RaidStep::BuildAccessSet);
    assert_eq!(data.room_access_id, Some(31));
    assert_eq!(data.minion_encounter_id, Some(30));
    assert_eq!(step(&data.state), RaidStep::Begin);
}

#[test]
fn finishing_custom_access_ends_it() {
    let custom = RaidData::initiate_custom_access(false, RoomId::Vault, 1, by_ability(), 21, vec![card(8)]).unwrap();
    let mut raid_slot = Some(custom);
    assert_eq!(
        finish_access(&mut raid_slot),
        (AccessEndEvent::CustomAccessEnd(by_ability()), RaidStep::FinishRaid)
    );
    assert!(raid_slot.is_none());

    let mut raid_slot = Some(RaidData::initiate(RoomId::Vault, 1, InitiatedBy::GameAction, 17));
    assert_eq!(finish_access(&mut raid_slot), (AccessEndEvent::RaidAccessEnd(17), RaidStep::FinishRaid));
    assert_eq!(raid_slot.map(|r| r.raid_id), Some(17));
}

#[test]
fn accessed_cards_come_from_the_target() {
    let deck = vec![card(1), card(2), card(3)];
    let hand = vec![card(4), card(5), card(6)];
    let discard = vec![card(7), card(8)];
    let occupants = vec![card(9)];
    let select = |target: RoomId, vault: u32, sanctum: u32| {
        select_accessed_cards(target, vault, sanctum, &deck, &hand, &discard, &occupants)
    };
    assert_eq!(select(RoomId::Vault, 2, 1), vec![card(1), card(2)]);
    assert_eq!(select(RoomId::Vault, 5, 1), vec![card(1), card(2), card(3)]);
    assert_eq!(select(RoomId::Vault, 0, 1), vec![]);
    assert_eq!(select(RoomId::Sanctum, 2, 1), vec![card(4)]);
    assert_eq!(select(RoomId::Sanctum, 2, 9), vec![card(4), card(5), card(6)]);
    assert_eq!(select(RoomId::Crypts, 2, 1), vec![card(7), card(8)]);
    assert_eq!(select(RoomId::RoomA, 2, 1), vec![card(9)]);
}
