use open_arpg::game::{Difficulty, RunStats};
use open_arpg::lore::{lore_event_text, LoreEntryId, LoreJournal};
use open_arpg::obelisk::{
    activate_obelisk, complete_obelisk_if_ready, obelisk_completion_text, obelisk_summary,
    record_obelisk_kill, tick_obelisk, update_obelisk, BloodObelisk, ObeliskState, OBELISK_REWARD_ESSENCE,
    OBELISK_REWARD_GOLD, OBELISK_REWARD_SHARDS, OBELISK_TARGET_KILLS,
};
use open_arpg::ordeal::{
    affix_for_run, modifier_for_difficulty, modifier_for_run, ChapterModifier,
    ChapterModifierKind, OrdealAffix,
};

#[test]
fn obelisk_activates_tracks_kills_and_rewards_once() {
    let mut obelisk = BloodObelisk::default();
    let mut stats = RunStats::default();

    assert!(activate_obelisk(&mut obelisk));
    assert!(!activate_obelisk(&mut obelisk));
    for _ in 0..OBELISK_TARGET_KILLS {
        record_obelisk_kill(&mut obelisk);
    }

    assert!(complete_obelisk_if_ready(&mut obelisk, &mut stats, OBELISK_REWARD_GOLD));
    assert!(!complete_obelisk_if_ready(&mut obelisk, &mut stats, OBELISK_REWARD_GOLD));
    assert_eq!(obelisk.state, ObeliskState::Completed);
    assert_eq!(stats.ember_shards, OBELISK_REWARD_SHARDS);
    assert_eq!(stats.affix_essence, OBELISK_REWARD_ESSENCE);
    assert_eq!(stats.gold, OBELISK_REWARD_GOLD);
}

#[test]
fn obelisk_counts_kills_only_up_to_its_target() {
    let mut obelisk = BloodObelisk::default();
    record_obelisk_kill(&mut obelisk);
    assert_eq!(obelisk.kills, 0);
    activate_obelisk(&mut obelisk);
    for _ in 0..OBELISK_TARGET_KILLS + 3 {
        record_obelisk_kill(&mut obelisk);
    }
    assert_eq!(obelisk.kills, OBELISK_TARGET_KILLS);
    assert_eq!(obelisk_summary(&obelisk, 12), "Obelisk: 4/4 kills 12s");
    tick_obelisk(&mut obelisk, true);
    assert_eq!(obelisk.state, ObeliskState::Active);
}

#[test]
fn obelisk_fails_when_timer_expires_before_target() {
    let mut obelisk = BloodObelisk::default();

    activate_obelisk(&mut obelisk);
    record_obelisk_kill(&mut obelisk);
    tick_obelisk(&mut obelisk, true);

    assert_eq!(obelisk.state, ObeliskState::Failed);
    assert!(obelisk_summary(&obelisk, 0).contains("failed"));
}

#[test]
fn obelisk_completion_text_names_momentum() {
    assert_eq!(
        obelisk_completion_text(95, 5, 3, None),
        "Blood obelisk completed: +95 gold +5 shards +3 essence"
    );
    assert!(obelisk_completion_text(95, 5, 3, Some(2)).contains("2"));
}

#[test]
fn difficulty_selects_escalating_chapter_modifiers() {
    assert_eq!(modifier_for_difficulty(Difficulty::Normal), ChapterModifierKind::AshenEchoes);
    assert_eq!(modifier_for_difficulty(Difficulty::Nightmare), ChapterModifierKind::BloodTithe);
    assert_eq!(modifier_for_difficulty(Difficulty::Hell), ChapterModifierKind::Emberstorm);
    assert_eq!(modifier_for_difficulty(Difficulty::Torment), ChapterModifierKind::TormentBrand);
    assert!(ChapterModifierKind::TormentBrand.summary().contains("torment"));
}

#[test]
fn run_modifiers_rotate_secondary_affixes_after_first_normal_run() {
    assert_eq!(modifier_for_run(Difficulty::Normal, 0).affix, OrdealAffix::NoAffix);
    assert_eq!(modifier_for_run(Difficulty::Normal, 1).affix, OrdealAffix::GlassRelics);
    assert_eq!(modifier_for_run(Difficulty::Nightmare, 0).affix, OrdealAffix::GlassRelics);
    assert_eq!(modifier_for_run(Difficulty::Torment, 1).affix, OrdealAffix::AshenHunger);
    assert_eq!(affix_for_run(Difficulty::Hell, 0), modifier_for_run(Difficulty::Hell, 0).affix);
}

#[test]
fn combined_modifier_scales_pressure_and_rewards() {
    let modifier =
        ChapterModifier { kind: ChapterModifierKind::TormentBrand, affix: OrdealAffix::CinderVeins };

    assert!(modifier.label().contains("Cinder Veins"));
    assert!(modifier.summary().contains("hazards"));
}

#[test]
fn journal_discovers_each_lore_entry_once() {
    let mut journal = LoreJournal::default();

    assert!(journal.discover(LoreEntryId::StewardWarning));
    assert!(!journal.discover(LoreEntryId::StewardWarning));
    assert_eq!(journal.entries.len(), 1);
    assert!(journal.summary().contains("Steward"));
    assert!(journal.has(LoreEntryId::StewardWarning));
    assert!(!journal.has(LoreEntryId::MalrecPact));
    assert!(lore_event_text(LoreEntryId::MalrecPact).starts_with("Lore recovered: "));
}

/// The obelisk's gold after an ordeal's scaling: rounded, never below one.
fn scaled_reward(kind_multiplier: f32, affix_multiplier: f32, reward: u32) -> u32 {
    (reward as f32 * kind_multiplier * affix_multiplier).round().max(1.0) as u32
}

#[test]
fn obelisk_rewards_use_rotating_ordeal_affix() {
    let mut obelisk = BloodObelisk::default();
    let mut stats = RunStats::default();

    assert!(activate_obelisk(&mut obelisk));
    for _ in 0..OBELISK_TARGET_KILLS {
        record_obelisk_kill(&mut obelisk);
    }

    // Blood Tithe pays 1.18 times, Treasure Fever 1.15 times.
    let gold = scaled_reward(1.18, 1.15, OBELISK_REWARD_GOLD);
    assert!(complete_obelisk_if_ready(&mut obelisk, &mut stats, gold));
    assert_eq!(stats.gold, gold);
    assert_eq!(gold, 129);
}

#[test]
fn obelisk_updates_awaken_feed_and_pay_once() {
    let mut obelisk = BloodObelisk::default();
    let mut stats = RunStats::default();

    let first = update_obelisk(&mut obelisk, &mut stats, true, 2, false, 95);
    assert!(first.awakened && !first.completed && !first.faded);
    assert_eq!(obelisk.kills, 2);

    let second = update_obelisk(&mut obelisk, &mut stats, true, 3, false, 95);
    assert!(!second.awakened);
    assert!(second.completed);
    assert_eq!(obelisk.state, ObeliskState::Completed);
    assert_eq!(stats.gold, 95);

    let third = update_obelisk(&mut obelisk, &mut stats, false, 4, true, 95);
    assert!(!third.completed && !third.faded);
    assert_eq!(stats.gold, 95);
}

#[test]
fn obelisk_update_reports_fading() {
    let mut obelisk = BloodObelisk::default();
    let mut stats = RunStats::default();
    update_obelisk(&mut obelisk, &mut stats, true, 0, false, 95);
    let update = update_obelisk(&mut obelisk, &mut stats, false, 1, true, 95);
    assert!(update.faded);
    assert_eq!(obelisk.state, ObeliskState::Failed);
    assert_eq!(stats.gold, 0);
}

#[test]
fn unready_obelisk_pays_nothing_to_a_full_purse() {
    let mut obelisk = BloodObelisk::default();
    activate_obelisk(&mut obelisk);
    let mut stats = RunStats { gold: u32::MAX, ..RunStats::default() };
    assert!(!complete_obelisk_if_ready(&mut obelisk, &mut stats, OBELISK_REWARD_GOLD));
    assert_eq!(stats.gold, u32::MAX);
    assert_eq!(obelisk.state, ObeliskState::Active);
}
