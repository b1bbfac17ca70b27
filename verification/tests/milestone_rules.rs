use open_arpg::game::{
    RunStats, ASHEN_THREAT_SURGE_TARGET, BOSS_BREAK_TARGET, CARNAGE_MASTER_STREAK,
    CHAMPION_PACK_TARGET, CODEX_ADEPT_KILLS, GEM_ADEPT_KINDS, GLORY_SEEKER_GLOBES,
    LAST_STAND_POTIONS, SET_ADEPT_KILLS, AFFIX_CODEX_TARGET,
};
use open_arpg::milestone::{
    affix_codex_complete, affix_codex_count, affix_hunter_complete, alchemist_complete,
    armory_adept_complete, ashen_alchemy_complete, ashen_duel_complete, ashen_threat_complete,
    battle_trance_complete, boss_breaker_complete, breaker_complete, carnage_master_complete,
    champion_pack_complete, codex_adept_complete, cursed_pact_complete, gem_adept_complete,
    gem_adept_count, gem_resonance_complete, glory_seeker_complete, last_stand_complete,
    loot_curator_complete, master_gemcutter_complete, milestone_summary, portal_wayfarer_complete,
    primal_cache_complete, primal_infusion_complete, pylon_reaper_complete,
    quartermaster_patron_complete, reliquary_seal_complete, rune_weaver_complete,
    salvage_cache_complete, seal_warden_complete, set_adept_complete, shrine_resonance_complete,
    shrinekeeper_complete, soul_sigil_complete, surge_mastery_complete, talent_adept_complete,
    trophy_cache_complete, milestone_event_lines, update_milestones, ChapterTargets, MilestoneFrame, MilestoneId,
    Milestones, PlayerMilestones,
};

const SURGE_CHAIN_KILLS: u32 = 3;
const ARMORY_SLOT_COUNT: u32 = 3;
const PYLON_REAPER_KILLS: u32 = 3;
const BREAKER_TARGET_BREAKABLES: u32 = 6;
const AFFIX_HUNTER_KILLS: u32 = 3;
const CURSED_AMBUSH_KILLS: u32 = 4;

#[test]
fn milestones_unlock_once_and_track_latest() {
    let mut milestones = Milestones::default();

    assert!(milestones.unlock(MilestoneId::CacheOpened));
    assert!(!milestones.unlock(MilestoneId::CacheOpened));
    assert_eq!(milestones.unlocked, vec![MilestoneId::CacheOpened]);
    assert!(milestones.latest.contains("Reliquary Cache"));
}

#[test]
fn codex_adept_requires_attuned_power_kill_target() {
    let mut stats = RunStats { codex_attuned_kills: CODEX_ADEPT_KILLS - 1, ..RunStats::default() };

    assert!(!codex_adept_complete(&stats));

    stats.codex_attuned_kills = CODEX_ADEPT_KILLS;
    assert!(codex_adept_complete(&stats));
}

#[test]
fn set_adept_requires_set_resonance_kill_target() {
    let mut stats = RunStats { set_resonance_kills: SET_ADEPT_KILLS - 1, ..RunStats::default() };

    assert!(!set_adept_complete(&stats));

    stats.set_resonance_kills = SET_ADEPT_KILLS;
    assert!(set_adept_complete(&stats));
}

#[test]
fn gem_resonance_requires_rank_three_socketed_gem() {
    assert!(!gem_resonance_complete(Some(2)));
    assert!(gem_resonance_complete(Some(3)));
    assert!(!master_gemcutter_complete(Some(3)));
}

#[test]
fn master_gemcutter_requires_rank_five_socketed_gem() {
    assert!(!master_gemcutter_complete(Some(4)));
    assert!(master_gemcutter_complete(Some(5)));
}

#[test]
fn gem_adept_requires_all_four_socketed_gem_kinds() {
    let mut stats = RunStats {
        ruby_socketed: true,
        emerald_socketed: true,
        amethyst_socketed: true,
        ..RunStats::default()
    };

    assert_eq!(gem_adept_count(&stats), 3);
    assert!(!gem_adept_complete(&stats));

    stats.topaz_socketed = true;
    assert_eq!(gem_adept_count(&stats), GEM_ADEPT_KINDS);
    assert!(gem_adept_complete(&stats));
}

#[test]
fn carnage_master_requires_ten_kill_massacre() {
    let mut stats =
        RunStats { best_massacre_streak: CARNAGE_MASTER_STREAK - 1, ..RunStats::default() };

    assert!(!carnage_master_complete(&stats));

    stats.best_massacre_streak = CARNAGE_MASTER_STREAK;
    assert!(carnage_master_complete(&stats));
}

#[test]
fn battle_trance_requires_massacre_and_full_valor() {
    let mut stats =
        RunStats { best_massacre_streak: 4, best_valor_stacks: 5, ..RunStats::default() };

    assert!(!battle_trance_complete(&stats));

    stats.best_massacre_streak = 5;
    assert!(battle_trance_complete(&stats));
}

#[test]
fn surge_mastery_requires_three_surge_kills() {
    let mut stats = RunStats { surge_kills: SURGE_CHAIN_KILLS - 1, ..RunStats::default() };

    assert!(!surge_mastery_complete(&stats, SURGE_CHAIN_KILLS));

    stats.surge_kills = SURGE_CHAIN_KILLS;
    assert!(surge_mastery_complete(&stats, SURGE_CHAIN_KILLS));
}

#[test]
fn rune_weaver_requires_all_three_alternate_rune_hits() {
    let mut stats = RunStats { reap_dash_hits: 1, frost_nova_hits: 1, ..RunStats::default() };

    assert!(!rune_weaver_complete(&stats));

    stats.hemorrhage_rupture_hits = 1;
    assert!(rune_weaver_complete(&stats));
}

#[test]
fn armory_adept_requires_three_saved_loadouts() {
    let mut stats =
        RunStats { armory_loadouts_saved: ARMORY_SLOT_COUNT - 1, ..RunStats::default() };

    assert!(!armory_adept_complete(&stats, ARMORY_SLOT_COUNT));

    stats.armory_loadouts_saved = ARMORY_SLOT_COUNT;
    assert!(armory_adept_complete(&stats, ARMORY_SLOT_COUNT));
}

#[test]
fn portal_wayfarer_requires_a_town_portal_return() {
    let mut stats = RunStats::default();

    assert!(!portal_wayfarer_complete(&stats));

    stats.town_portal_returns = 1;
    assert!(portal_wayfarer_complete(&stats));
}

#[test]
fn glory_seeker_requires_three_health_globes() {
    let mut stats =
        RunStats { health_globes_collected: GLORY_SEEKER_GLOBES - 1, ..RunStats::default() };

    assert!(!glory_seeker_complete(&stats));

    stats.health_globes_collected = GLORY_SEEKER_GLOBES;
    assert!(glory_seeker_complete(&stats));
}

#[test]
fn pylon_reaper_requires_three_pylon_kills() {
    let mut stats = RunStats { pylon_kills: PYLON_REAPER_KILLS - 1, ..RunStats::default() };

    assert!(!pylon_reaper_complete(&stats, PYLON_REAPER_KILLS));

    stats.pylon_kills = PYLON_REAPER_KILLS;
    assert!(pylon_reaper_complete(&stats, PYLON_REAPER_KILLS));
}

#[test]
fn boss_breaker_requires_two_boss_breaks() {
    let mut stats = RunStats { boss_staggers: BOSS_BREAK_TARGET - 1, ..RunStats::default() };

    assert!(!boss_breaker_complete(&stats));

    stats.boss_staggers = BOSS_BREAK_TARGET;
    assert!(boss_breaker_complete(&stats));
}

#[test]
fn soul_sigil_requires_boss_trophy_material() {
    let mut stats = RunStats::default();

    assert!(!soul_sigil_complete(&stats));

    stats.malrec_soul_sigils = 1;
    assert!(soul_sigil_complete(&stats));
}

#[test]
fn trophy_cache_requires_opened_soul_sigil_cache() {
    let mut stats = RunStats::default();

    assert!(!trophy_cache_complete(&stats));

    stats.soul_sigil_caches = 1;
    assert!(trophy_cache_complete(&stats));
}

#[test]
fn primal_infusion_requires_a_successful_infusion() {
    let mut stats = RunStats::default();

    assert!(!primal_infusion_complete(&stats));

    stats.primal_infusions = 1;
    assert!(primal_infusion_complete(&stats));
}

#[test]
fn primal_cache_requires_a_claimed_cache() {
    let mut stats = RunStats::default();

    assert!(!primal_cache_complete(&stats));

    stats.primal_caches = 1;
    assert!(primal_cache_complete(&stats));
}

#[test]
fn breaker_requires_all_breakables_smashed() {
    let mut stats =
        RunStats { breakables_smashed: BREAKER_TARGET_BREAKABLES - 1, ..RunStats::default() };

    assert!(!breaker_complete(&stats, BREAKER_TARGET_BREAKABLES));

    stats.breakables_smashed = BREAKER_TARGET_BREAKABLES;
    assert!(breaker_complete(&stats, BREAKER_TARGET_BREAKABLES));
}

#[test]
fn shrine_resonance_requires_triggered_resonance() {
    let mut stats = RunStats::default();

    assert!(!shrine_resonance_complete(&stats));

    stats.shrine_resonance_triggered = true;
    assert!(shrine_resonance_complete(&stats));
}

#[test]
fn shrinekeeper_requires_all_reliquary_shrine_milestones() {
    let mut milestones = Milestones::default();

    milestones.unlock(MilestoneId::RelicEmpowered);
    milestones.unlock(MilestoneId::FortuneBlessed);
    milestones.unlock(MilestoneId::StormConduit);
    assert!(!shrinekeeper_complete(&milestones));

    milestones.unlock(MilestoneId::AshenPylon);
    assert!(shrinekeeper_complete(&milestones));
}

#[test]
fn affix_hunter_requires_three_multi_affix_elite_kills() {
    let mut stats = RunStats { elite_affix_kills: AFFIX_HUNTER_KILLS - 1, ..RunStats::default() };

    assert!(!affix_hunter_complete(&stats, AFFIX_HUNTER_KILLS));

    stats.elite_affix_kills = AFFIX_HUNTER_KILLS;
    assert!(affix_hunter_complete(&stats, AFFIX_HUNTER_KILLS));
}

#[test]
fn affix_codex_requires_six_distinct_affixes() {
    let mut stats = RunStats { affix_codex_mask: 0b1_1111, ..RunStats::default() };

    assert_eq!(affix_codex_count(&stats), 5);
    assert!(!affix_codex_complete(&stats));

    stats.affix_codex_mask |= 1 << 5;

    assert_eq!(affix_codex_count(&stats), AFFIX_CODEX_TARGET);
    assert!(affix_codex_complete(&stats));
}

#[test]
fn seal_warden_requires_named_sanctum_elite() {
    let mut stats = RunStats::default();

    assert!(!seal_warden_complete(&stats));

    stats.seal_warden_slain = true;
    assert!(seal_warden_complete(&stats));
}

#[test]
fn ashen_threat_requires_three_surges() {
    let mut stats =
        RunStats { ashen_threat_surges: ASHEN_THREAT_SURGE_TARGET - 1, ..RunStats::default() };

    assert!(!ashen_threat_complete(&stats));

    stats.ashen_threat_surges = ASHEN_THREAT_SURGE_TARGET;
    assert!(ashen_threat_complete(&stats));
}

#[test]
fn champion_pack_requires_pack_reward_claimed() {
    let mut stats = RunStats { champion_pack_kills: CHAMPION_PACK_TARGET, ..RunStats::default() };

    assert!(!champion_pack_complete(&stats));

    stats.champion_pack_reward_claimed = true;
    assert!(champion_pack_complete(&stats));
}

#[test]
fn cursed_pact_requires_all_cursed_ambushers() {
    let mut stats =
        RunStats { cursed_ambush_kills: CURSED_AMBUSH_KILLS - 1, ..RunStats::default() };

    assert!(!cursed_pact_complete(&stats, CURSED_AMBUSH_KILLS));

    stats.cursed_ambush_kills = CURSED_AMBUSH_KILLS;
    assert!(cursed_pact_complete(&stats, CURSED_AMBUSH_KILLS));
}

#[test]
fn talent_adept_requires_wrath_vigor_and_focus() {
    assert!(!talent_adept_complete(1, 0, 1));
    assert!(talent_adept_complete(1, 1, 1));
}

#[test]
fn ashen_alchemy_requires_all_three_recipe_types() {
    let mut stats = RunStats {
        alchemy_gold_transmutes: 1,
        alchemy_keystone_transmutes: 1,
        ..RunStats::default()
    };

    assert!(!ashen_alchemy_complete(&stats));

    stats.alchemy_essence_transmutes = 1;
    assert!(ashen_alchemy_complete(&stats));
}

#[test]
fn loot_curator_requires_three_filter_cycles() {
    let mut stats = RunStats { loot_filter_cycles: 2, ..RunStats::default() };

    assert!(!loot_curator_complete(&stats));

    stats.loot_filter_cycles = 3;
    assert!(loot_curator_complete(&stats));
}

#[test]
fn last_stand_requires_three_clutch_potions() {
    let mut stats = RunStats { last_stand_potions: LAST_STAND_POTIONS - 1, ..RunStats::default() };

    assert!(!last_stand_complete(&stats));

    stats.last_stand_potions = LAST_STAND_POTIONS;
    assert!(last_stand_complete(&stats));
}

#[test]
fn salvage_cache_requires_a_claimed_cache() {
    let mut stats = RunStats::default();

    assert!(!salvage_cache_complete(&stats));

    stats.salvage_caches = 1;
    assert!(salvage_cache_complete(&stats));
}

fn empty_frame() -> MilestoneFrame {
    MilestoneFrame {
        interactions: vec![],
        killed: vec![],
        lore_entries: 0,
        boss_slain: false,
        bounty_reward_claimed: false,
        obelisk_completed: false,
        rift_completed: false,
        rift_swift_seal: false,
        targets: ChapterTargets {
            armory_slots: ARMORY_SLOT_COUNT,
            pylon_reaper_kills: PYLON_REAPER_KILLS,
            surge_chain_kills: SURGE_CHAIN_KILLS,
            breakables: BREAKER_TARGET_BREAKABLES,
            affix_hunter_kills: AFFIX_HUNTER_KILLS,
            cursed_ambush_kills: CURSED_AMBUSH_KILLS,
            sentinel_veteran_rank: 3,
        },
        player: None,
    }
}

fn player() -> PlayerMilestones {
    PlayerMilestones {
        paragon_rank: 0,
        talent_wrath: 0,
        talent_vigor: 0,
        talent_focus: 0,
        inventory_capacity: 12,
        potion_max: 3,
        elixir_max: 2,
        companion_rank: 0,
        boon_chosen: false,
        temper_level: 0,
        has_legendary_power: false,
        ancient_or_better: false,
        socketed_gem_rank: None,
        set_resonance: false,
        codex_complete: false,
    }
}

#[test]
fn riftbreaker_requires_swift_rift_best_time() {
    let stats = RunStats::default();
    let mut milestones = Milestones::default();
    let mut frame = empty_frame();
    frame.rift_completed = true;

    update_milestones(&mut milestones, &frame, &stats);
    assert!(!milestones.unlocked.contains(&MilestoneId::Riftbreaker));

    frame.rift_swift_seal = true;
    update_milestones(&mut milestones, &frame, &stats);
    assert!(milestones.unlocked.contains(&MilestoneId::Riftbreaker));
}

#[test]
fn reliquary_seal_requires_vault_obelisk_and_rift_milestones() {
    let mut milestones = Milestones::default();

    milestones.unlock(MilestoneId::VaultOpened);
    milestones.unlock(MilestoneId::EmberRift);
    assert!(!reliquary_seal_complete(&milestones));

    milestones.unlock(MilestoneId::BloodObelisk);
    assert!(reliquary_seal_complete(&milestones));
}

#[test]
fn ashen_duel_requires_boss_slain_before_enrage() {
    let mut boss_slain = false;
    let mut stats = RunStats { boss_enraged: true, ..RunStats::default() };

    assert!(!ashen_duel_complete(boss_slain, &stats));

    boss_slain = true;
    assert!(!ashen_duel_complete(boss_slain, &stats));

    stats.boss_enraged = false;
    assert!(ashen_duel_complete(boss_slain, &stats));
}

#[test]
fn sentinel_veteran_requires_rank_three_companion() {
    let stats = RunStats::default();
    let mut milestones = Milestones::default();
    let mut frame = empty_frame();
    let mut p = player();
    p.companion_rank = 2;
    frame.player = Some(p);

    update_milestones(&mut milestones, &frame, &stats);
    assert!(!milestones.unlocked.contains(&MilestoneId::SentinelVeteran));

    p.companion_rank = 3;
    frame.player = Some(p);
    update_milestones(&mut milestones, &frame, &stats);
    assert!(milestones.unlocked.contains(&MilestoneId::SentinelVeteran));
}

#[test]
fn boonbound_requires_a_chosen_reliquary_boon() {
    let stats = RunStats::default();
    let mut milestones = Milestones::default();
    let mut frame = empty_frame();
    let mut p = player();
    frame.player = Some(p);

    update_milestones(&mut milestones, &frame, &stats);
    assert!(!milestones.unlocked.contains(&MilestoneId::Boonbound));

    p.boon_chosen = true;
    frame.player = Some(p);
    update_milestones(&mut milestones, &frame, &stats);
    assert!(milestones.unlocked.contains(&MilestoneId::Boonbound));
}

#[test]
fn alchemist_requires_all_elixir_types() {
    let mut stats =
        RunStats { iron_elixir_used: true, haste_elixir_used: true, ..RunStats::default() };

    assert!(!alchemist_complete(&stats));

    stats.wrath_elixir_used = true;
    assert!(alchemist_complete(&stats));
}

#[test]
fn quartermaster_patron_requires_all_logistics_upgrades() {
    assert!(!quartermaster_patron_complete(14, 6, 3));
    assert!(quartermaster_patron_complete(14, 6, 4));
}

#[test]
fn restored_milestones_rebuild_latest_text() {
    let mut milestones = Milestones::default();

    milestones.restore(vec![MilestoneId::CacheOpened, MilestoneId::BossSlain]);

    assert_eq!(milestones.unlocked.len(), 2);
    assert!(milestone_summary(&milestones).contains("Keeper Slain"));
}

#[test]
fn update_reports_new_milestones_once_in_order() {
    let stats = RunStats { town_portal_returns: 1, ..RunStats::default() };
    let mut milestones = Milestones::default();
    let mut frame = empty_frame();
    frame.interactions = vec![open_arpg::world::InteractableKind::Cache];

    let newly = update_milestones(&mut milestones, &frame, &stats);
    assert_eq!(newly, vec![MilestoneId::CacheOpened, MilestoneId::PortalWayfarer]);
    assert!(milestones.latest.contains("Portal"));

    let again = update_milestones(&mut milestones, &frame, &stats);
    assert!(again.is_empty());
    assert_eq!(milestones.unlocked.len(), 2);
}

#[test]
fn an_update_logs_each_new_milestone_by_title_in_order() {
    let stats = RunStats { best_massacre_streak: CARNAGE_MASTER_STREAK, ..RunStats::default() };
    let mut milestones = Milestones::default();
    let before = milestones.unlocked.len();
    let newly = update_milestones(&mut milestones, &empty_frame(), &stats);
    assert!(milestones.unlocked.contains(&MilestoneId::CarnageMaster));
    assert_eq!(&milestones.unlocked[before..], &newly[..]);
    let lines = milestone_event_lines(&newly);
    assert_eq!(lines, vec!["Milestone: Massacre".to_string(), "Milestone: Carnage Master".to_string()]);
    // Nothing new the second time, so nothing to log.
    let again = update_milestones(&mut milestones, &empty_frame(), &stats);
    assert!(milestone_event_lines(&again).is_empty());
}
