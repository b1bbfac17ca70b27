use open_arpg::kill_log::ashen_threat_log_lines;
use open_arpg::game::{
    apply_ashen_threat_kill, ashen_threat_gain, chapter_completion_essence_reward,
    chapter_completion_shard_reward, chapter_rating, escalated_difficulty_after_clear,
    grant_champion_pack_reward, grant_treasure_vault_reward, massacre_gold_bonus, massacre_tier,
    primal_ember_cache_reward, register_ashen_threat, register_champion_pack_kill,
    register_massacre_kill, register_valor_kill, reset_run_stats_for_new_chapter,
    ui_debug_overlay_status, AudioSettings, Difficulty, PrimalCacheReward, RunStats,
    CHAMPION_PACK_REWARD_ESSENCE, CHAMPION_PACK_REWARD_GOLD, CHAMPION_PACK_REWARD_SHARDS,
    CHAMPION_PACK_TARGET, TREASURE_VAULT_REWARD_ESSENCE, TREASURE_VAULT_REWARD_GOLD,
    TREASURE_VAULT_REWARD_SHARDS,
};

/// How fast a clear was, on the rating's 0 to 3 scale.
fn pace_score(elapsed_secs: f32) -> u32 {
    if elapsed_secs <= 240.0 {
        3
    } else if elapsed_secs <= 360.0 {
        2
    } else if elapsed_secs <= 540.0 {
        1
    } else {
        0
    }
}

#[test]
fn audio_settings_toggle_and_label_track_runtime_mute() {
    let mut settings = AudioSettings { enabled: true };
    assert_eq!(settings.status_label(), "audio on");

    settings.toggle();
    assert!(!settings.enabled);
    assert_eq!(settings.status_label(), "audio muted");

    settings.toggle();
    assert!(settings.enabled);
    assert_eq!(settings.status_label(), "audio on");
}

#[test]
fn new_chapter_reset_preserves_unspent_malrec_soul_sigils_only() {
    let mut stats = RunStats {
        kills: 12,
        gold: 400,
        ember_shards: 9,
        affix_essence: 4,
        malrec_soul_sigils: 3,
        malrec_soul_sigils_earned: 2,
        soul_sigil_caches: 1,
        boss_staggers: 2,
        completion_reward_claimed: true,
        echo_keystones: 1,
        ..Default::default()
    };

    reset_run_stats_for_new_chapter(&mut stats);

    assert_eq!(stats.malrec_soul_sigils, 3);
    assert_eq!(stats.malrec_soul_sigils_earned, 0);
    assert_eq!(stats.kills, 0);
    assert_eq!(stats.gold, 0);
    assert_eq!(stats.ember_shards, 0);
    assert_eq!(stats.affix_essence, 0);
    assert_eq!(stats.soul_sigil_caches, 0);
    assert_eq!(stats.boss_staggers, 0);
    assert_eq!(stats.echo_keystones, 0);
    assert!(!stats.completion_reward_claimed);
}

#[test]
fn difficulty_cycles_and_scales() {
    assert_eq!(Difficulty::Normal.next(), Difficulty::Nightmare);
    assert_eq!(Difficulty::Hell.next(), Difficulty::Torment);
    assert_eq!(Difficulty::Torment.next(), Difficulty::Normal);
    assert_eq!(escalated_difficulty_after_clear(Difficulty::Normal), Difficulty::Nightmare);
    assert_eq!(escalated_difficulty_after_clear(Difficulty::Nightmare), Difficulty::Hell);
    assert_eq!(escalated_difficulty_after_clear(Difficulty::Hell), Difficulty::Torment);
    assert_eq!(escalated_difficulty_after_clear(Difficulty::Torment), Difficulty::Torment);
}

#[test]
fn run_time_and_rating_are_stable() {
    assert_eq!(chapter_rating(Difficulty::Hell, pace_score(220.0), 7), "S");
    assert_eq!(chapter_rating(Difficulty::Torment, pace_score(360.0), 7), "S");
    assert_eq!(chapter_rating(Difficulty::Normal, pace_score(700.0), 3), "C");
}

#[test]
fn completion_reward_scales_with_rating_difficulty_and_lore() {
    assert!(
        chapter_completion_shard_reward(Difficulty::Hell, pace_score(220.0), 7, 3)
            > chapter_completion_shard_reward(Difficulty::Normal, pace_score(700.0), 3, 0)
    );
    assert!(
        chapter_completion_essence_reward(Difficulty::Hell, pace_score(220.0), 7, 3)
            > chapter_completion_essence_reward(Difficulty::Normal, pace_score(700.0), 3, 0)
    );
    assert_eq!(chapter_completion_shard_reward(Difficulty::Normal, pace_score(700.0), 3, 2), 4);
    assert_eq!(chapter_completion_essence_reward(Difficulty::Normal, pace_score(700.0), 3, 2), 2);
}

#[test]
fn completion_materials_follow_the_rating_table() {
    // "S" on Torment: 8 + 7 + 4 lore shards, 5 + 5 + 2 essence.
    assert_eq!(chapter_completion_shard_reward(Difficulty::Torment, 3, 7, 4), 19);
    assert_eq!(chapter_completion_essence_reward(Difficulty::Torment, 3, 7, 4), 12);
    // "B" on Nightmare: pace 1 + kills 0 + difficulty 1.
    assert_eq!(chapter_rating(Difficulty::Nightmare, 1, 0), "B");
    assert_eq!(chapter_completion_shard_reward(Difficulty::Nightmare, 1, 0, 0), 6);
    assert_eq!(chapter_rating(Difficulty::Nightmare, 2, 7), "A");
}

#[test]
fn primal_ember_cache_rewards_torment_endgame_performance() {
    assert!(primal_ember_cache_reward(Difficulty::Hell, pace_score(220.0), 7, 2, false, 1).is_empty());

    let slow_enraged =
        primal_ember_cache_reward(Difficulty::Torment, pace_score(700.0), 3, 0, true, 0);
    let clean_break =
        primal_ember_cache_reward(Difficulty::Torment, pace_score(360.0), 7, 2, false, 0);
    let echo_empowered =
        primal_ember_cache_reward(Difficulty::Torment, pace_score(360.0), 7, 2, false, 1);

    assert_eq!(slow_enraged, PrimalCacheReward { gold: 180, shards: 10, essence: 8 });
    assert!(clean_break.gold > slow_enraged.gold);
    assert!(clean_break.shards > slow_enraged.shards);
    assert!(clean_break.essence > slow_enraged.essence);
    assert!(echo_empowered.gold > clean_break.gold);
    assert!(echo_empowered.shards > clean_break.shards);
    assert!(echo_empowered.essence > clean_break.essence);
    assert_eq!(clean_break, PrimalCacheReward { gold: 350, shards: 19, essence: 17 });
}

#[test]
fn massacre_rewards_scale_by_streak_tier() {
    let mut stats = RunStats::default();

    // The first kill opens the massacre window; each later kill lands in it.
    assert_eq!(register_massacre_kill(&mut stats, false), 0);
    assert_eq!(register_massacre_kill(&mut stats, true), 0);
    assert_eq!(register_massacre_kill(&mut stats, true), 5);
    assert_eq!(register_massacre_kill(&mut stats, true), 5);
    assert_eq!(register_massacre_kill(&mut stats, true), 10);
    assert_eq!(stats.massacre_streak, 5);
    assert_eq!(stats.best_massacre_streak, 5);
    assert_eq!(stats.massacre_bonus_gold, 20);
    assert_eq!(stats.gold, 20);

    assert_eq!(register_massacre_kill(&mut stats, false), 0);
    assert_eq!(stats.massacre_streak, 1);
    assert_eq!(stats.best_massacre_streak, 5);
    assert_eq!(massacre_tier(7), 3);
    assert_eq!(massacre_gold_bonus(9), 15);
}

#[test]
fn valor_stacks_cap_and_scale_rewards() {
    let mut stats = RunStats::default();

    for _ in 0..7 {
        register_valor_kill(&mut stats);
    }

    assert_eq!(stats.valor_stacks, 5);
    assert_eq!(stats.best_valor_stacks, 5);
}

#[test]
fn ashen_threat_gain_rewards_elites_and_bosses_more_than_normal_kills() {
    let normal = ashen_threat_gain("skeleton", 0);
    let elite = ashen_threat_gain("cultist", 2);
    let boss = ashen_threat_gain("keeper", 8);

    assert_eq!(normal, 16);
    assert!(elite > normal);
    assert!(boss > elite);
    assert_eq!(elite, 36);
    assert_eq!(boss, 60);
    assert_eq!(ashen_threat_gain("treasure_imp", 0), 34);
}

#[test]
fn ashen_threat_rolls_over_and_counts_surges() {
    let mut stats = RunStats { ashen_threat: 92, ..RunStats::default() };

    assert_eq!(register_ashen_threat(&mut stats, 32), 1);
    assert_eq!(stats.ashen_threat, 24);
    assert_eq!(stats.ashen_threat_surges, 1);

    assert_eq!(register_ashen_threat(&mut stats, 210), 2);
    assert_eq!(stats.ashen_threat, 34);
    assert_eq!(stats.ashen_threat_surges, 3);
}

#[test]
fn ashen_threat_kill_pays_each_surge() {
    let mut stats = RunStats { ashen_threat: 90, ..RunStats::default() };
    let kill = apply_ashen_threat_kill(&mut stats, "keeper", 0);
    assert_eq!(kill.surges, 1);
    assert_eq!(stats.ashen_threat, 50);
    assert_eq!(stats.ashen_threat_surges, 1);
    assert_eq!(stats.gold, 25);
    assert_eq!(stats.ember_shards, 1);
}

#[test]
fn champion_pack_reward_claims_once_after_full_pack() {
    let mut stats = RunStats::default();

    for _ in 0..CHAMPION_PACK_TARGET - 1 {
        assert!(!register_champion_pack_kill(&mut stats));
    }
    assert!(!grant_champion_pack_reward(&mut stats));
    assert!(register_champion_pack_kill(&mut stats));
    assert!(grant_champion_pack_reward(&mut stats));
    assert_eq!(stats.gold, CHAMPION_PACK_REWARD_GOLD);
    assert_eq!(stats.ember_shards, CHAMPION_PACK_REWARD_SHARDS);
    assert_eq!(stats.affix_essence, CHAMPION_PACK_REWARD_ESSENCE);
    assert!(!grant_champion_pack_reward(&mut stats));
    assert_eq!(stats.gold, CHAMPION_PACK_REWARD_GOLD);
}

#[test]
fn treasure_vault_reward_claims_once_after_imp_kill() {
    let mut stats = RunStats::default();

    assert!(grant_treasure_vault_reward(&mut stats));
    assert_eq!(stats.treasure_vaults_opened, 1);
    assert_eq!(stats.gold, TREASURE_VAULT_REWARD_GOLD);
    assert_eq!(stats.ember_shards, TREASURE_VAULT_REWARD_SHARDS);
    assert_eq!(stats.affix_essence, TREASURE_VAULT_REWARD_ESSENCE);

    assert!(!grant_treasure_vault_reward(&mut stats));
    assert_eq!(stats.treasure_vaults_opened, 1);
    assert_eq!(stats.gold, TREASURE_VAULT_REWARD_GOLD);
}

#[test]
fn ui_debug_overlay_status_reports_each_state() {
    assert_eq!(ui_debug_overlay_status(Some(true)), "on");
    assert_eq!(ui_debug_overlay_status(Some(false)), "off");
    assert_eq!(ui_debug_overlay_status(None), "unavailable");
}

#[test]
fn ashen_threat_log_names_the_vault_the_gain_and_each_surge() {
    let mut stats = RunStats { ashen_threat: 90, ashen_threat_surges: 2, ..RunStats::default() };
    let kill = apply_ashen_threat_kill(&mut stats, "treasure_imp", 0);
    assert!(kill.vault_opened);
    assert_eq!(kill.first_surge, 3);

    assert_eq!(
        ashen_threat_log_lines(kill, stats.ashen_threat),
        vec![
            "Treasure vault opened: +180 gold, +5 shards, +3 essence",
            "Ashen threat +34 (24/100)",
            "Ashen threat surge 3: +25 gold, +1 shard",
        ]
    );

    let mut stats = RunStats { ashen_threat: 10, ..RunStats::default() };
    let kill = apply_ashen_threat_kill(&mut stats, "skeleton", 0);
    assert_eq!(ashen_threat_log_lines(kill, stats.ashen_threat), vec!["Ashen threat +16 (26/100)"]);
}

#[test]
fn difficulty_returns_after_four_steps() {
    for start in [Difficulty::Normal, Difficulty::Nightmare, Difficulty::Hell, Difficulty::Torment] {
        let mut d = start;
        let mut seen = Vec::new();
        for _ in 0..4 {
            seen.push(d);
            d = d.next();
        }
        assert_eq!(d, start);
        assert!(seen.contains(&Difficulty::Normal));
        assert!(seen.contains(&Difficulty::Torment));
    }
}

#[test]
fn rewards_already_claimed_leave_a_full_purse_alone() {
    let full = RunStats {
        gold: u32::MAX,
        ember_shards: u32::MAX,
        affix_essence: u32::MAX,
        champion_pack_reward_claimed: true,
        champion_pack_kills: CHAMPION_PACK_TARGET,
        treasure_vaults_opened: 1,
        ..RunStats::default()
    };
    let mut stats = full;
    assert!(!grant_champion_pack_reward(&mut stats));
    assert!(!grant_treasure_vault_reward(&mut stats));
    assert_eq!(stats, full);

    // A first massacre kill pays no bonus, so a full purse is no obstacle.
    let mut stats = RunStats { gold: u32::MAX, ..RunStats::default() };
    assert_eq!(register_massacre_kill(&mut stats, false), 0);
    assert_eq!(stats.gold, u32::MAX);
    assert_eq!(stats.massacre_streak, 1);
}
