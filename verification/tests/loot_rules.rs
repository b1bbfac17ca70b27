use open_arpg::chance::{pool_candidates, roll_pool_weapon, roll_weighted_index, enemy_weapon_pool, WeaponPool};
use open_arpg::game::RunStats;
use open_arpg::loot::{
    affix_hunter_kill, claim_codex_drop_power, claim_drop_supplies, death_burst_kind,
    death_remains_kind, duplicate_codex_essence_reward, elite_affix_break_essence_reward,
    elite_affix_break_float_text, elite_affix_break_reward_text, elixirs_for_quality,
    enemy_affix_essence_reward, enemy_loot_claim_mode, enemy_shard_reward, kill_floating_text,
    loot_filter_shows, loot_label_rarity_header, loot_label_reward_summary, loot_label_text, loot_quality_rank, pickup_text,
    quality_after_legendary_enchant, quality_is_legendary_or_better, toggle_loot_filter,
    CodexDropClaim, DeathBurstKind, DeathRemainsKind, LootClaimMode, LootFilterTier,
};

struct Entry {
    name: &'static str,
    quality: &'static str,
    weight: u32,
}

/// Rolls a weapon from `table` the way a slain enemy does: the pool picks
/// the candidates, their weights pick one of them.
fn roll_enemy_weapon(
    enemy_id: &str,
    is_elite: bool,
    magic_find: bool,
    table: &[Entry],
) -> &'static str {
    roll_from_pool(enemy_weapon_pool(enemy_id, is_elite, magic_find), table)
}

fn roll_from_pool(pool: WeaponPool, table: &[Entry]) -> &'static str {
    let qualities: Vec<String> = table.iter().map(|e| e.quality.to_string()).collect();
    let candidates = pool_candidates(&qualities, pool);
    let weights: Vec<u32> = candidates.iter().map(|&i| table[i].weight).collect();
    let picked = roll_weighted_index(&weights).expect("a candidate");
    table[candidates[picked]].name
}

fn common_and_rare() -> Vec<Entry> {
    vec![
        Entry { name: "Iron Fang", quality: "common", weight: 100 },
        Entry { name: "Moonforged Cleaver", quality: "rare", weight: 1 },
    ]
}

#[test]
fn cache_rewards_skip_common_items_when_upgrades_exist() {
    let table = common_and_rare();
    assert_eq!(roll_from_pool(WeaponPool::Cache, &table), "Moonforged Cleaver");
}

#[test]
fn champion_cache_rewards_skip_common_items() {
    let table = common_and_rare();
    for _ in 0..20 {
        assert_eq!(roll_from_pool(WeaponPool::Cache, &table), "Moonforged Cleaver");
    }
}

#[test]
fn elite_enemy_rewards_skip_common_items() {
    let table = common_and_rare();
    assert_eq!(roll_enemy_weapon("skeleton", true, false, &table), "Moonforged Cleaver");
}

#[test]
fn fortune_magic_find_uses_upgraded_pool_for_normal_enemies() {
    let table = common_and_rare();
    assert_eq!(roll_enemy_weapon("skeleton", false, true, &table), "Moonforged Cleaver");
}

#[test]
fn boss_rewards_prefer_legendary_or_ancient_items() {
    let table = vec![
        Entry { name: "Moonforged Cleaver", quality: "rare", weight: 100 },
        Entry { name: "Ember-Saint Relic Blade", quality: "legendary", weight: 1 },
    ];
    assert_eq!(roll_enemy_weapon("keeper", false, false, &table), "Ember-Saint Relic Blade");
}

#[test]
fn boss_rewards_can_roll_ancient_items() {
    let table = vec![
        Entry { name: "Moonforged Cleaver", quality: "rare", weight: 100 },
        Entry { name: "Ancient Stormcaller", quality: "ancient", weight: 1 },
    ];
    assert_eq!(roll_enemy_weapon("keeper", false, false, &table), "Ancient Stormcaller");
}

#[test]
fn boss_rewards_can_roll_ancient_aegisbrand_items() {
    let table = vec![
        Entry { name: "Moonforged Cleaver", quality: "rare", weight: 100 },
        Entry { name: "Ancient Aegis Warden", quality: "ancient", weight: 1 },
    ];
    assert_eq!(roll_enemy_weapon("keeper", false, false, &table), "Ancient Aegis Warden");
}

#[test]
fn boss_rewards_fallback_to_upgraded_items_without_legendary() {
    let table = common_and_rare();
    assert_eq!(roll_enemy_weapon("keeper", false, false, &table), "Moonforged Cleaver");
}

#[test]
fn normal_enemies_draw_from_the_whole_table() {
    let qualities = vec!["common".to_string(), "rare".to_string()];
    assert_eq!(enemy_weapon_pool("skeleton", false, false), WeaponPool::Any);
    assert_eq!(pool_candidates(&qualities, WeaponPool::Any), vec![0, 1]);
    let commons = vec!["common".to_string(), "common".to_string()];
    assert_eq!(pool_candidates(&commons, WeaponPool::Cache), vec![0, 1]);
    assert_eq!(pool_candidates(&commons, WeaponPool::Boss), vec![0, 1]);
    assert_eq!(enemy_weapon_pool("treasure_imp", false, false), WeaponPool::Cache);
}

#[test]
fn malrec_loot_is_claimed_directly_before_victory_cleanup() {
    assert_eq!(enemy_loot_claim_mode("keeper"), LootClaimMode::Direct);
    assert_eq!(enemy_loot_claim_mode("skeleton"), LootClaimMode::Ground);
    assert_eq!(enemy_loot_claim_mode("treasure_imp"), LootClaimMode::Ground);
}

#[test]
fn death_bursts_escalate_for_elites_and_bosses() {
    assert_eq!(death_burst_kind("skeleton", false), DeathBurstKind::Spark);
    assert_eq!(death_burst_kind("skeleton", true), DeathBurstKind::Burst);
    assert_eq!(death_burst_kind("keeper", false), DeathBurstKind::Cataclysm);
    assert_eq!(death_burst_kind("treasure_imp", false), DeathBurstKind::Prism);
    assert_eq!(death_burst_kind("nemesis", false), DeathBurstKind::Prism);
}

#[test]
fn death_remains_mark_enemy_archetypes() {
    assert_eq!(death_remains_kind("cultist", false), DeathRemainsKind::Ash);
    assert_eq!(death_remains_kind("skeleton", false), DeathRemainsKind::Bone);
    assert_eq!(death_remains_kind("bone_stalker", false), DeathRemainsKind::Bone);
    assert_eq!(death_remains_kind("cultist", true), DeathRemainsKind::EliteBrand);
    assert_eq!(death_remains_kind("reliquary_brute", false), DeathRemainsKind::EliteBrand);
    assert_eq!(death_remains_kind("nemesis", false), DeathRemainsKind::EliteBrand);
    assert_eq!(death_remains_kind("treasure_imp", false), DeathRemainsKind::TreasureAsh);
    assert_eq!(death_remains_kind("keeper", false), DeathRemainsKind::BossSeal);
}

#[test]
fn kill_floating_text_marks_elites_and_bosses() {
    assert_eq!(kill_floating_text("skeleton", false), "SLAY");
    assert_eq!(kill_floating_text("skeleton", true), "ELITE SLAY");
    assert_eq!(kill_floating_text("keeper", false), "BOSS DOWN");
}

#[test]
fn upgraded_loot_can_include_elixirs() {
    assert_eq!(elixirs_for_quality("common"), 0);
    assert_eq!(elixirs_for_quality("rare"), 1);
    assert_eq!(elixirs_for_quality("legendary"), 1);
    assert_eq!(elixirs_for_quality("ancient"), 2);
    assert_eq!(elixirs_for_quality("primal"), 3);
}

#[test]
fn loot_filter_tiers_cycle_and_map_to_quality_ranks() {
    let mut tier = LootFilterTier::All;

    assert_eq!(tier.min_rank(), loot_quality_rank("common"));
    tier = tier.next();
    assert_eq!(tier, LootFilterTier::RarePlus);
    assert_eq!(tier.min_rank(), loot_quality_rank("rare"));
    tier = tier.next();
    assert_eq!(tier, LootFilterTier::LegendaryPlus);
    assert_eq!(tier.min_rank(), loot_quality_rank("legendary"));
    tier = tier.next();
    assert_eq!(tier, LootFilterTier::AncientPlus);
    assert_eq!(tier.min_rank(), loot_quality_rank("ancient"));
    tier = tier.next();
    assert_eq!(tier, LootFilterTier::Primal);
    assert_eq!(tier.min_rank(), loot_quality_rank("primal"));
    assert_eq!(tier.next(), LootFilterTier::All);
}

#[test]
fn loot_filter_cycles_back_after_five_presses_and_counts_them() {
    let mut tier = LootFilterTier::All;
    let mut stats = RunStats::default();
    assert_eq!(toggle_loot_filter(&mut tier, &mut stats), "Loot filter: Rare+");
    for _ in 0..4 {
        toggle_loot_filter(&mut tier, &mut stats);
    }
    assert_eq!(tier, LootFilterTier::All);
    assert_eq!(stats.loot_filter_cycles, 5);
    assert!(loot_filter_shows(LootFilterTier::RarePlus, "rare"));
    assert!(!loot_filter_shows(LootFilterTier::RarePlus, "common"));
    assert!(!loot_filter_shows(LootFilterTier::Primal, "ancient"));
}

#[test]
fn elite_and_boss_kills_reward_ember_shards() {
    assert_eq!(enemy_shard_reward("skeleton", false), 0);
    assert_eq!(enemy_shard_reward("skeleton", true), 2);
    assert_eq!(enemy_shard_reward("keeper", false), 6);
    assert_eq!(enemy_shard_reward("nemesis", true), 6);
    assert_eq!(enemy_shard_reward("treasure_imp", true), 10);
}

#[test]
fn affixed_enemies_reward_essence_by_affix_count() {
    assert_eq!(enemy_affix_essence_reward("skeleton", 0), 0);
    assert_eq!(enemy_affix_essence_reward("skeleton", 1), 1);
    assert_eq!(enemy_affix_essence_reward("cultist", 3), 3);
    assert_eq!(enemy_affix_essence_reward("keeper", 2), 4);
    assert_eq!(enemy_affix_essence_reward("nemesis", 5), 7);
    assert_eq!(enemy_affix_essence_reward("treasure_imp", 1), 2);
}

#[test]
fn elite_affix_break_rewards_multi_affix_elite_pressure() {
    assert_eq!(elite_affix_break_essence_reward("skeleton", 0), 0);
    assert_eq!(elite_affix_break_essence_reward("skeleton", 1), 0);
    assert_eq!(elite_affix_break_essence_reward("skeleton", 2), 1);
    assert_eq!(elite_affix_break_essence_reward("cultist", 4), 3);
    assert_eq!(elite_affix_break_essence_reward("nemesis", 5), 6);
    assert_eq!(elite_affix_break_essence_reward("keeper", 4), 0);

    assert_eq!(
        elite_affix_break_reward_text("Arcane Molten Guard", 2),
        "Affix Break: Arcane Molten Guard shattered, +2 essence"
    );
    assert_eq!(elite_affix_break_float_text(3), "AFFIX BREAK +3E");
    assert!(affix_hunter_kill(2));
    assert!(!affix_hunter_kill(1));
}

#[test]
fn duplicate_codex_drops_refine_into_affix_essence() {
    let mut stats = RunStats::default();
    let mut unlocked_stormbrand = false;
    let mut claim = |stats: &mut RunStats, has_power: bool, quality: &str| {
        let newly = has_power && !unlocked_stormbrand;
        if newly {
            unlocked_stormbrand = true;
        }
        claim_codex_drop_power(stats, has_power, newly, quality)
    };

    assert_eq!(claim(&mut stats, false, "legendary"), CodexDropClaim::Nothing);
    assert_eq!(stats.affix_essence, 0);
    assert_eq!(claim(&mut stats, true, "legendary"), CodexDropClaim::Unlocked);
    assert_eq!(stats.affix_essence, 0);
    assert_eq!(claim(&mut stats, true, "legendary"), CodexDropClaim::DuplicateEssence(2));
    assert_eq!(stats.affix_essence, 2);
    assert_eq!(claim(&mut stats, true, "ancient"), CodexDropClaim::DuplicateEssence(3));
    assert_eq!(stats.affix_essence, 5);
    assert_eq!(claim(&mut stats, true, "primal"), CodexDropClaim::DuplicateEssence(4));
    assert_eq!(stats.affix_essence, 9);
    assert_eq!(duplicate_codex_essence_reward("rare"), 0);
    assert_eq!(claim(&mut stats, true, "rare"), CodexDropClaim::Nothing);
    assert_eq!(stats.affix_essence, 9);
}

#[test]
fn quality_ranks_and_enchanted_quality() {
    assert_eq!(loot_quality_rank("primal"), 4);
    assert_eq!(loot_quality_rank("ancient"), 3);
    assert_eq!(loot_quality_rank("legendary"), 2);
    assert_eq!(loot_quality_rank("rare"), 1);
    assert_eq!(loot_quality_rank("common"), 0);
    assert!(quality_is_legendary_or_better("ancient"));
    assert!(!quality_is_legendary_or_better("rare"));
    assert_eq!(quality_after_legendary_enchant("rare"), "legendary");
    assert_eq!(quality_after_legendary_enchant("ancient"), "ancient");
    assert_eq!(quality_after_legendary_enchant("primal"), "primal");
}

#[test]
fn rarity_headers_announce_only_legendary_and_better() {
    assert_eq!(loot_label_rarity_header("primal"), "PRIMAL DROP");
    assert_eq!(loot_label_rarity_header("ancient"), "ANCIENT DROP");
    assert_eq!(loot_label_rarity_header("legendary"), "LEGENDARY DROP");
    assert_eq!(loot_label_rarity_header("rare"), "");
}

#[test]
fn claimed_drops_fill_belts_up_to_capacity_and_bank_gold() {
    let mut stats = RunStats { gold: 10, ..RunStats::default() };
    let mut potions = 2;
    let mut elixirs = 0;
    claim_drop_supplies(&mut stats, 12, &mut potions, 3, 2, &mut elixirs, 4, 1);
    assert_eq!(stats.gold, 22);
    assert_eq!(potions, 3);
    assert_eq!(elixirs, 1);
    assert_eq!(
        pickup_text("rare Fang", "", 12, true, true),
        "Picked up rare Fang and 12 gold + elixir"
    );
    assert_eq!(
        pickup_text("rare Fang", " with Ruby 1", 0, false, false),
        "Picked up rare Fang with Ruby 1 and 0 gold (inventory full)"
    );
}

#[test]
fn loot_label_text_surfaces_actual_drop_value() {
    let primary = "legendary Storm Fang | +12 dmg | +5% crit | +18 hp | +7 armor | Stormbrand";
    let rewards = loot_label_reward_summary(42, true, true, 1, 1);
    let text = loot_label_text("legendary", primary, &rewards);
    let lines = text.lines().collect::<Vec<_>>();

    assert!(text.contains("legendary Storm Fang"));
    assert!(text.contains("Stormbrand"));
    assert!(text.contains("gem"));
    assert!(text.contains("charm"));
    assert!(text.contains("1 potion"));
    assert!(text.contains("1 elixir"));
    assert!(text.contains("42 gold"));
    assert_eq!(lines.len(), 3);
    assert_eq!(lines[0], "LEGENDARY DROP");
    assert!(lines[1].contains("Stormbrand"));
    assert!(lines[2].contains("42 gold"));
    assert_eq!(rewards, "42 gold | gem | charm | 1 potion | 1 elixir");
}

#[test]
fn loot_label_reward_summary_stays_empty_without_extra_rewards() {
    let rewards = loot_label_reward_summary(0, false, false, 0, 0);
    assert_eq!(rewards, "");
    assert_eq!(loot_label_text("common", "common Iron Fang | +4 dmg", &rewards).lines().count(), 1);
    assert_eq!(loot_label_rarity_header("common"), "");
    assert_eq!(loot_label_reward_summary(0, false, false, 2, 0), "2 potion");
}

#[test]
fn pool_rolls_land_on_weighted_candidates() {
    let qualities: Vec<String> =
        ["common", "rare", "legendary", "common"].iter().map(|q| q.to_string()).collect();
    let weights = vec![5, 3, 2, 7];
    for _ in 0..50 {
        let boss = roll_pool_weapon(&qualities, &weights, WeaponPool::Boss);
        assert_eq!(boss, 2);
        let cache = roll_pool_weapon(&qualities, &weights, WeaponPool::Cache);
        assert!(cache == 1 || cache == 2);
        let any = roll_pool_weapon(&qualities, &weights, WeaponPool::Any);
        assert!(any < 4);
    }
    // Every candidate weighs nothing: the table's first weapon.
    assert_eq!(roll_pool_weapon(&qualities, &vec![5, 0, 0, 7], WeaponPool::Cache), 0);
    let zero_first = vec![0, 4, 0, 0];
    for _ in 0..20 {
        assert_eq!(roll_pool_weapon(&qualities, &zero_first, WeaponPool::Any), 1);
    }
}
