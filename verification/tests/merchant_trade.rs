use open_arpg::chance::charm_name_for_roll;
use open_arpg::game::RunStats;
use open_arpg::loot::{
    ALCHEMY_GOLD_TO_SHARDS_COST, ALCHEMY_GOLD_TO_SHARDS_REWARD, ALCHEMY_KEYSTONE_ESSENCE_COST,
    ALCHEMY_KEYSTONE_REWARD, ALCHEMY_KEYSTONE_SHARD_COST, ALCHEMY_SHARDS_TO_ESSENCE_COST,
    ALCHEMY_SHARDS_TO_ESSENCE_REWARD, GEM_EMPOWER_ECHO_KEYSTONE_COST, GEM_EMPOWER_ESSENCE_COST,
    GEM_EMPOWER_GOLD_COST, GEM_EMPOWER_MIN_RANK, GEM_EMPOWER_RANK_GAIN,
    MAX_ELIXIR_CAPACITY, MAX_INVENTORY_CAPACITY, MAX_POTION_CAPACITY,
    MERCHANT_CHARM_POLISH_GOLD_COST, MERCHANT_CHARM_POLISH_SHARD_COST,
    MERCHANT_ENCHANT_ESSENCE_COST, MERCHANT_ENCHANT_GOLD_COST, MERCHANT_ENCHANT_SHARD_COST,
    MERCHANT_POTION_BELT_GOLD_COST, MERCHANT_POTION_BELT_SHARD_COST, MERCHANT_REFORGE_SHARD_COST,
    MERCHANT_STASH_GOLD_COST, MERCHANT_STASH_SHARD_COST, PRIMAL_INFUSION_ECHO_KEYSTONE_COST,
    PRIMAL_INFUSION_ESSENCE_COST, PRIMAL_INFUSION_GOLD_COST, PRIMAL_INFUSION_SHARD_COST,
    SALVAGE_CACHE_ESSENCE_REWARD, SALVAGE_CACHE_GOLD_REWARD, SALVAGE_CACHE_SHARD_REWARD,
    SOUL_SIGIL_CACHE_COST, SOUL_SIGIL_CACHE_ESSENCE_REWARD, SOUL_SIGIL_CACHE_GOLD_REWARD,
    SOUL_SIGIL_CACHE_KEYSTONE_REWARD, SOUL_SIGIL_CACHE_SHARD_REWARD,
};
use open_arpg::merchant::{
    ancient_augment_cost, ancient_augment_essence_cost, ancient_awaken_cost,
    apply_ashen_alchemy, apply_salvage_cache_rewards, gem_upgrade_cost, loot_pursuit_summary,
    open_soul_sigil_cache, primal_infusion_pursuit_summary, quartermaster_preview_summary,
    salvage_preview, salvage_spare_inventory, salvage_spare_inventory_into_stats,
    soul_sigil_cache_ready_count, soul_sigil_cache_ready_summary, temper_cost, BagItem,
    EquippedGear, GemKind, MerchantTransaction, QuartermasterStock, SalvageCacheReward,
    SocketedGem,
};
use open_arpg::trade::{
    augment_ancient_weapon, awaken_legendary_weapon, empower_socketed_gem,
    enchant_equipped_weapon, infuse_primal_weapon, temper_equipped_weapon, trade_with_merchant,
    upgrade_socketed_gem, settle_merchant_gambles, GambleOutcome, MerchantStock,
};

/// A bag item priced as the game prices it: twice its item power, rounded,
/// at least one gold.
#[allow(clippy::too_many_arguments)]
fn bag_item(
    name: &str,
    quality: &str,
    damage: f32,
    crit: f32,
    health: f32,
    armor: f32,
    has_power: bool,
    temper_level: u32,
    gem: Option<SocketedGem>,
) -> BagItem {
    let multiplier = match quality {
        "primal" => 4.8,
        "ancient" => 3.8,
        "legendary" => 3.0,
        "rare" => 2.0,
        _ => 1.0,
    };
    let power = (12.0
        + damage * 2.5
        + crit * 120.0
        + health * 0.6
        + armor * 0.8
        + if has_power { 30.0 } else { 0.0 }
        + gem.map(|g| 10.0 + g.rank as f32 * 6.0).unwrap_or(0.0)
        + temper_level as f32 * 8.0)
        * multiplier;
    BagItem {
        name: name.to_string(),
        quality: quality.to_string(),
        temper_level,
        socketed_gem: gem,
        has_legendary_power: has_power,
        sale_value: (power * 2.0_f32).round().max(1.0) as u32,
    }
}

fn keeper_blade(temper_level: u32) -> BagItem {
    bag_item("rare Keeper Blade", "rare", 12.0, 0.08, 8.0, 9.0, false, temper_level, None)
}

fn gear(name: &str, quality: &str, power: Option<&str>, temper_level: u32, gem: Option<SocketedGem>) -> EquippedGear {
    EquippedGear {
        weapon_name: name.to_string(),
        quality: quality.to_string(),
        legendary_power: power.map(|p| p.to_string()),
        temper_level,
        socketed_gem: gem,
    }
}

fn stock(potions: (u32, u32), elixirs: (u32, u32), capacity: usize) -> MerchantStock {
    MerchantStock {
        potions_current: potions.0,
        potions_max: potions.1,
        elixirs_current: elixirs.0,
        elixirs_max: elixirs.1,
        inventory_capacity: capacity,
        enchant_target: None,
        charm_equipped: false,
        charm_name: String::new(),
    }
}

fn with_target(target: Option<&str>) -> MerchantStock {
    MerchantStock { enchant_target: target.map(|t| t.to_string()), ..stock((3, 3), (2, 2), 12) }
}

fn gem(kind: GemKind, rank: u32) -> Option<SocketedGem> {
    Some(SocketedGem { kind, rank })
}

#[test]
fn merchant_sells_spares_and_restocks_potions() {
    let mut items = vec![
        keeper_blade(0),
        bag_item("common Rusted Fang", "common", 3.0, 0.02, 0.0, 1.0, false, 0, None),
    ];
    let mut equipment = gear("rare Keeper Blade", "rare", None, 0, None);
    let mut belts = stock((1, 3), (0, 2), 12);
    let mut stats = RunStats { gold: 320, ..RunStats::default() };

    let transaction = trade_with_merchant(&mut stats, &mut equipment, &mut belts, &mut items);

    assert_eq!(transaction.sold_items, 1);
    assert_eq!(transaction.salvaged_shards, 1);
    assert_eq!(transaction.salvaged_essence, 0);
    assert_eq!(items.len(), 1);
    assert_eq!(items[0].name, "rare Keeper Blade");
    assert_eq!(belts.potions_current, 3);
    assert!(belts.elixirs_current > 0);
    assert!(transaction.tempered);
    assert_eq!(equipment.temper_level, 1);
    assert!(stats.gold < 320 + transaction.sale_gold);
    assert_eq!(stats.ember_shards, 1);
    assert_eq!(stats.affix_essence, 0);
}

#[test]
fn merchant_reforges_equipped_weapon_with_salvaged_shards() {
    let mut items = vec![
        keeper_blade(0),
        bag_item("legendary Spare Relic", "legendary", 14.0, 0.10, 16.0, 12.0, true, 0, None),
    ];
    let mut equipment = gear("rare Keeper Blade", "rare", None, 0, None);
    let mut belts = stock((3, 3), (2, 2), 12);
    let mut stats = RunStats::default();

    let transaction = trade_with_merchant(&mut stats, &mut equipment, &mut belts, &mut items);

    assert_eq!(transaction.salvaged_shards, 8);
    assert_eq!(transaction.salvaged_essence, 1);
    assert!(transaction.summary().contains("1 affix essence"));
    assert!(transaction.tempered);
    assert!(transaction.reforged);
    assert_eq!(stats.ember_shards, 2);
    assert_eq!(stats.affix_essence, 1);
}

#[test]
fn merchant_salvages_ancient_spares_for_extra_affix_essence() {
    let mut items = vec![
        keeper_blade(0),
        bag_item(
            "Ancient Aegis-Saint Reliquary Bulwark",
            "ancient",
            18.0,
            0.22,
            48.0,
            38.0,
            true,
            0,
            None,
        ),
    ];

    let salvage = salvage_spare_inventory(&mut items, "rare Keeper Blade");

    assert_eq!(salvage.items, 1);
    assert!(salvage.gold > 0);
    assert_eq!(salvage.shards, 14);
    assert_eq!(salvage.essence, 3);
    assert_eq!(items.len(), 1);
    assert_eq!(items[0].name, "rare Keeper Blade");
}

#[test]
fn ashen_alchemy_can_chain_all_three_transmutations() {
    let mut stats = RunStats {
        gold: ALCHEMY_GOLD_TO_SHARDS_COST,
        ember_shards: ALCHEMY_SHARDS_TO_ESSENCE_COST + ALCHEMY_KEYSTONE_SHARD_COST
            - ALCHEMY_GOLD_TO_SHARDS_REWARD,
        affix_essence: ALCHEMY_KEYSTONE_ESSENCE_COST - ALCHEMY_SHARDS_TO_ESSENCE_REWARD,
        ..RunStats::default()
    };

    let batch = apply_ashen_alchemy(&mut stats);

    assert!(batch.gold_to_shards);
    assert!(batch.shards_to_essence);
    assert!(batch.essence_to_keystone);
    assert_eq!(stats.gold, 0);
    assert_eq!(stats.ember_shards, 0);
    assert_eq!(stats.affix_essence, 0);
    assert_eq!(stats.echo_keystones, ALCHEMY_KEYSTONE_REWARD);
    assert_eq!(stats.alchemy_gold_transmutes, 1);
    assert_eq!(stats.alchemy_essence_transmutes, 1);
    assert_eq!(stats.alchemy_keystone_transmutes, 1);
}

#[test]
fn ashen_alchemy_does_not_create_keystone_without_full_cost() {
    let mut stats = RunStats {
        ember_shards: ALCHEMY_KEYSTONE_SHARD_COST,
        affix_essence: ALCHEMY_KEYSTONE_ESSENCE_COST - 1,
        ..RunStats::default()
    };

    let batch = apply_ashen_alchemy(&mut stats);

    assert!(batch.shards_to_essence);
    assert!(!batch.essence_to_keystone);
    assert_eq!(stats.ember_shards, ALCHEMY_KEYSTONE_SHARD_COST - ALCHEMY_SHARDS_TO_ESSENCE_COST);
    assert_eq!(
        stats.affix_essence,
        ALCHEMY_KEYSTONE_ESSENCE_COST - 1 + ALCHEMY_SHARDS_TO_ESSENCE_REWARD
    );
    assert_eq!(stats.echo_keystones, 0);
}

#[test]
fn soul_sigil_cache_consumes_boss_trophies_for_endgame_materials() {
    let mut stats = RunStats { malrec_soul_sigils: SOUL_SIGIL_CACHE_COST, ..RunStats::default() };

    let reward = open_soul_sigil_cache(&mut stats);

    assert!(reward.opened);
    assert_eq!(stats.malrec_soul_sigils, 0);
    assert_eq!(stats.gold, SOUL_SIGIL_CACHE_GOLD_REWARD);
    assert_eq!(stats.ember_shards, SOUL_SIGIL_CACHE_SHARD_REWARD);
    assert_eq!(stats.affix_essence, SOUL_SIGIL_CACHE_ESSENCE_REWARD);
    assert_eq!(stats.echo_keystones, SOUL_SIGIL_CACHE_KEYSTONE_REWARD);
    assert_eq!(stats.soul_sigil_caches, 1);
}

#[test]
fn soul_sigil_cache_requires_two_boss_trophies() {
    let mut stats =
        RunStats { malrec_soul_sigils: SOUL_SIGIL_CACHE_COST - 1, ..RunStats::default() };

    let reward = open_soul_sigil_cache(&mut stats);

    assert!(!reward.opened);
    assert_eq!(stats.malrec_soul_sigils, SOUL_SIGIL_CACHE_COST - 1);
    assert_eq!(stats.soul_sigil_caches, 0);
    assert_eq!(stats.echo_keystones, 0);
}

#[test]
fn soul_sigil_cache_ready_summary_scales_multiple_boss_trophies() {
    assert_eq!(soul_sigil_cache_ready_count(1), 0);
    assert_eq!(
        soul_sigil_cache_ready_summary(1),
        None,
        "a single sigil should read as progress, not a ready cache"
    );
    assert_eq!(
        soul_sigil_cache_ready_summary(SOUL_SIGIL_CACHE_COST),
        Some("1 Trophy Cache (2 Soul Sigils, +120g +4s +3e +1 key)".to_string())
    );
    assert_eq!(
        soul_sigil_cache_ready_summary(SOUL_SIGIL_CACHE_COST * 2),
        Some("2 Trophy Caches (4 Soul Sigils, +240g +8s +6e +2 keys)".to_string())
    );
}

#[test]
fn salvage_cache_rewards_accumulate_across_merchant_visits() {
    let mut stats = RunStats { salvage_progress: 3, ..RunStats::default() };

    let reward = apply_salvage_cache_rewards(&mut stats, 1);

    assert_eq!(
        reward,
        SalvageCacheReward {
            caches: 1,
            gold: SALVAGE_CACHE_GOLD_REWARD,
            shards: SALVAGE_CACHE_SHARD_REWARD,
            essence: SALVAGE_CACHE_ESSENCE_REWARD,
        }
    );
    assert_eq!(stats.salvage_progress, 0);
    assert_eq!(stats.salvage_caches, 1);
    assert_eq!(stats.gold, SALVAGE_CACHE_GOLD_REWARD);
    assert_eq!(stats.ember_shards, SALVAGE_CACHE_SHARD_REWARD);
    assert_eq!(stats.affix_essence, SALVAGE_CACHE_ESSENCE_REWARD);

    let reward = apply_salvage_cache_rewards(&mut stats, 9);

    assert_eq!(reward.caches, 2);
    assert_eq!(stats.salvage_progress, 1);
    assert_eq!(stats.salvage_caches, 3);
}

#[test]
fn merchant_enchants_equipped_weapon_with_legendary_power() {
    let mut items = vec![keeper_blade(2)];
    let mut equipment = gear("rare Keeper Blade", "rare", None, 2, None);
    let mut stats = RunStats {
        gold: MERCHANT_ENCHANT_GOLD_COST,
        ember_shards: MERCHANT_ENCHANT_SHARD_COST,
        affix_essence: MERCHANT_ENCHANT_ESSENCE_COST,
        ..RunStats::default()
    };

    assert!(enchant_equipped_weapon(
        &mut items,
        &mut stats,
        &mut equipment,
        &with_target(Some("Emberbrand"))
    ));

    assert_eq!(equipment.legendary_power.as_deref(), Some("Emberbrand"));
    assert_eq!(equipment.quality, "legendary");
    assert!(items[0].has_legendary_power);
    assert_eq!(items[0].quality, "legendary");
    assert!(MerchantTransaction {
        enchanted: true,
        enchant_gold_cost: MERCHANT_ENCHANT_GOLD_COST,
        enchant_shard_cost: MERCHANT_ENCHANT_SHARD_COST,
        enchant_essence_cost: MERCHANT_ENCHANT_ESSENCE_COST,
        enchanted_power: equipment.legendary_power.clone().unwrap(),
        ..MerchantTransaction::default()
    }
    .summary()
    .contains("2 essence"));
    assert_eq!(stats.gold, 0);
    assert_eq!(stats.ember_shards, 0);
    assert_eq!(stats.affix_essence, 0);
}

#[test]
fn merchant_summary_groups_trade_supplies_gear_and_cache_feedback() {
    let summary = MerchantTransaction {
        sold_items: 2,
        sale_gold: 96,
        salvaged_shards: 11,
        salvaged_essence: 1,
        bought_potions: 2,
        bought_elixirs: 1,
        tempered: true,
        temper_cost: 55,
        enchanted: true,
        enchant_gold_cost: MERCHANT_ENCHANT_GOLD_COST,
        enchant_shard_cost: MERCHANT_ENCHANT_SHARD_COST,
        enchant_essence_cost: MERCHANT_ENCHANT_ESSENCE_COST,
        enchanted_power: "Stormbrand".to_string(),
        salvage_cache_count: 1,
        salvage_cache_gold: SALVAGE_CACHE_GOLD_REWARD,
        salvage_cache_shards: SALVAGE_CACHE_SHARD_REWARD,
        salvage_cache_essence: SALVAGE_CACHE_ESSENCE_REWARD,
        ..MerchantTransaction::default()
    }
    .summary();

    assert!(summary.starts_with("Quartermaster: Trade sold 2 gear"));
    assert!(summary.contains(" | Supplies +2 potion +1 elixir"));
    assert!(summary.contains(" | Gear tempered 55g, enchanted Stormbrand"));
    assert!(summary.contains("2 essence"));
    assert!(summary.contains(" | Cache salvage cache x1"));
    assert!(!summary.contains("; bought"));
    assert!(summary.len() < 240);
}

#[test]
fn merchant_enchant_preserves_ancient_quality() {
    let mut items = vec![bag_item(
        "Ancient Ashen Reliquary Reaver",
        "ancient",
        22.0,
        0.20,
        34.0,
        28.0,
        true,
        1,
        None,
    )];
    let mut equipment =
        gear("Ancient Ashen Reliquary Reaver", "ancient", Some("Stormbrand"), 1, None);
    let mut stats = RunStats {
        gold: MERCHANT_ENCHANT_GOLD_COST,
        ember_shards: MERCHANT_ENCHANT_SHARD_COST,
        affix_essence: MERCHANT_ENCHANT_ESSENCE_COST,
        ..RunStats::default()
    };

    assert!(enchant_equipped_weapon(
        &mut items,
        &mut stats,
        &mut equipment,
        &with_target(Some("Aegisbrand"))
    ));

    assert_eq!(equipment.legendary_power.as_deref(), Some("Aegisbrand"));
    assert_eq!(equipment.quality, "ancient");
    assert_eq!(items[0].quality, "ancient");
    assert!(items[0].has_legendary_power);
}

#[test]
fn merchant_enchant_requires_unlocked_codex_power_and_essence() {
    let mut items = vec![keeper_blade(2)];
    let mut equipment = gear("rare Keeper Blade", "rare", None, 2, None);
    let mut stats = RunStats {
        gold: MERCHANT_ENCHANT_GOLD_COST,
        ember_shards: MERCHANT_ENCHANT_SHARD_COST,
        affix_essence: MERCHANT_ENCHANT_ESSENCE_COST,
        ..RunStats::default()
    };

    assert!(!enchant_equipped_weapon(&mut items, &mut stats, &mut equipment, &with_target(None)));

    assert_eq!(equipment.legendary_power, None);
    assert_eq!(stats.gold, MERCHANT_ENCHANT_GOLD_COST);
    assert_eq!(stats.ember_shards, MERCHANT_ENCHANT_SHARD_COST);
    assert_eq!(stats.affix_essence, MERCHANT_ENCHANT_ESSENCE_COST);

    stats.affix_essence = MERCHANT_ENCHANT_ESSENCE_COST - 1;

    assert!(!enchant_equipped_weapon(
        &mut items,
        &mut stats,
        &mut equipment,
        &with_target(Some("Emberbrand"))
    ));

    assert_eq!(equipment.legendary_power, None);
    assert_eq!(stats.gold, MERCHANT_ENCHANT_GOLD_COST);
    assert_eq!(stats.ember_shards, MERCHANT_ENCHANT_SHARD_COST);
    assert_eq!(stats.affix_essence, MERCHANT_ENCHANT_ESSENCE_COST - 1);
}

#[test]
fn merchant_expands_inventory_capacity_with_gold_and_shards() {
    let mut items = vec![keeper_blade(2)];
    let mut equipment = gear("rare Keeper Blade", "rare", None, 2, None);
    let mut belts = stock((3, 3), (2, 2), 12);
    let mut stats = RunStats {
        gold: MERCHANT_STASH_GOLD_COST,
        ember_shards: MERCHANT_STASH_SHARD_COST,
        ..RunStats::default()
    };

    let transaction = trade_with_merchant(&mut stats, &mut equipment, &mut belts, &mut items);

    assert!(transaction.capacity_upgraded);
    assert_eq!(belts.inventory_capacity, 14);
    assert_eq!(transaction.inventory_capacity, 14);
    assert_eq!(stats.gold, 0);
    assert_eq!(stats.ember_shards, 0);
    assert!(!transaction.tempered);
    assert!(!transaction.reforged);
}

#[test]
fn merchant_upgrades_potion_belt_capacity_with_gold_and_shards() {
    let mut items = vec![keeper_blade(2)];
    let mut equipment = gear("rare Keeper Blade", "rare", None, 2, None);
    let mut belts =
        stock((5, 5), (MAX_ELIXIR_CAPACITY, MAX_ELIXIR_CAPACITY), MAX_INVENTORY_CAPACITY);
    let mut stats = RunStats {
        gold: MERCHANT_POTION_BELT_GOLD_COST,
        ember_shards: MERCHANT_POTION_BELT_SHARD_COST,
        ..RunStats::default()
    };

    let transaction = trade_with_merchant(&mut stats, &mut equipment, &mut belts, &mut items);

    assert!(transaction.potion_belt_upgraded);
    assert_eq!(belts.potions_max, 6);
    assert_eq!(transaction.potion_capacity, 6);
    assert_eq!(stats.gold, 0);
    assert_eq!(stats.ember_shards, 0);
    assert!(!transaction.tempered);
    assert!(!transaction.reforged);
    assert!(!transaction.capacity_upgraded);
}

#[test]
fn tempering_equipped_weapon_spends_gold_and_syncs_inventory() {
    let mut items = vec![keeper_blade(0)];
    let mut equipment = gear("rare Keeper Blade", "rare", None, 0, None);
    let mut stats = RunStats { gold: 90, ..RunStats::default() };

    assert!(temper_equipped_weapon(&mut items, &mut stats, &mut equipment, &with_target(None)));
    assert_eq!(stats.gold, 0);
    assert_eq!(equipment.temper_level, 1);
    assert_eq!(items[0].temper_level, 1);
}

#[test]
fn tempering_requires_enough_gold() {
    let mut equipment = gear("rare Keeper Blade", "rare", None, 1, None);
    let mut stats =
        RunStats { gold: temper_cost(equipment.temper_level) - 1, ..RunStats::default() };

    let mut items = Vec::new();
    assert!(!temper_equipped_weapon(&mut items, &mut stats, &mut equipment, &with_target(None)));
    assert_eq!(equipment.temper_level, 1);
    assert_eq!(stats.gold, 134);
}

#[test]
fn merchant_upgrades_socketed_gem_when_affordable() {
    let mut items = vec![bag_item(
        "rare Keeper Blade",
        "rare",
        15.0,
        0.08,
        8.0,
        9.0,
        false,
        0,
        gem(GemKind::Ruby, 1),
    )];
    let mut equipment = gear("rare Keeper Blade", "rare", None, 0, gem(GemKind::Ruby, 1));
    let mut stats = RunStats { gold: gem_upgrade_cost(1), ..RunStats::default() };

    assert!(upgrade_socketed_gem(&mut items, &mut stats, &mut equipment, &with_target(None)));

    assert_eq!(stats.gold, 0);
    assert_eq!(equipment.socketed_gem.unwrap().rank, 2);
    assert_eq!(items[0].socketed_gem.unwrap().rank, 2);
    assert_eq!(equipment.socketed_gem.unwrap().kind, GemKind::Ruby);
}

#[test]
fn merchant_empowers_ascendant_gem_with_echo_keystone_and_essence() {
    let mut items = vec![bag_item(
        "ancient Reliquary Fang",
        "ancient",
        40.0,
        0.08,
        8.0,
        9.0,
        true,
        0,
        gem(GemKind::Ruby, GEM_EMPOWER_MIN_RANK),
    )];
    let mut equipment = gear(
        "ancient Reliquary Fang",
        "ancient",
        Some("Emberbrand"),
        0,
        gem(GemKind::Ruby, GEM_EMPOWER_MIN_RANK),
    );
    let mut stats = RunStats {
        gold: GEM_EMPOWER_GOLD_COST,
        affix_essence: GEM_EMPOWER_ESSENCE_COST,
        echo_keystones: GEM_EMPOWER_ECHO_KEYSTONE_COST,
        ..RunStats::default()
    };

    assert!(empower_socketed_gem(&mut items, &mut stats, &mut equipment, &with_target(None)));

    let empowered = equipment.socketed_gem.unwrap();
    assert_eq!(empowered.rank, GEM_EMPOWER_MIN_RANK + GEM_EMPOWER_RANK_GAIN);
    assert_eq!(empowered.label(), "Ruby 7");
    assert_eq!(items[0].socketed_gem, Some(empowered));
    assert_eq!(stats.gold, 0);
    assert_eq!(stats.affix_essence, 0);
    assert_eq!(stats.echo_keystones, 0);
}

#[test]
fn ancient_awakening_promotes_legendary_weapon_with_high_rank_gem() {
    let mut items = vec![bag_item(
        "Stormcall Reliquary Brand",
        "legendary",
        15.0,
        0.15,
        16.0,
        20.0,
        true,
        2,
        gem(GemKind::Topaz, 4),
    )];
    let mut equipment = gear(
        "Stormcall Reliquary Brand",
        "legendary",
        Some("Stormbrand"),
        2,
        gem(GemKind::Topaz, 4),
    );
    let (gold_cost, shard_cost, essence_cost) =
        ancient_awaken_cost(equipment.socketed_gem.unwrap());
    let mut stats = RunStats {
        gold: gold_cost,
        ember_shards: shard_cost,
        affix_essence: essence_cost,
        ..RunStats::default()
    };

    assert!(awaken_legendary_weapon(&mut items, &mut stats, &mut equipment, &with_target(None)));

    assert_eq!(stats.gold, 0);
    assert_eq!(stats.ember_shards, 0);
    assert_eq!(stats.affix_essence, 0);
    assert_eq!(equipment.weapon_name, "Ancient Stormcall Reliquary Brand");
    assert_eq!(equipment.quality, "ancient");
    assert_eq!(equipment.socketed_gem, None);
    assert_eq!(items[0].name, equipment.weapon_name);
    assert_eq!(items[0].quality, "ancient");
    assert_eq!(items[0].socketed_gem, None);
}

#[test]
fn ancient_awakening_requires_legendary_power_high_rank_gem_and_essence() {
    let mut items = vec![bag_item(
        "Moonforged Cleaver",
        "legendary",
        12.0,
        0.10,
        10.0,
        10.0,
        false,
        0,
        gem(GemKind::Ruby, 4),
    )];
    let mut equipment =
        gear("Moonforged Cleaver", "legendary", None, 0, gem(GemKind::Ruby, 4));
    let mut stats =
        RunStats { gold: 999, ember_shards: 99, affix_essence: 99, ..RunStats::default() };

    assert!(!awaken_legendary_weapon(&mut items, &mut stats, &mut equipment, &with_target(None)));
    equipment.legendary_power = Some("Emberbrand".to_string());
    items[0].has_legendary_power = true;
    equipment.socketed_gem = gem(GemKind::Ruby, 3);
    items[0].socketed_gem = equipment.socketed_gem;

    assert!(!awaken_legendary_weapon(&mut items, &mut stats, &mut equipment, &with_target(None)));
    equipment.socketed_gem = gem(GemKind::Ruby, 4);
    items[0].socketed_gem = equipment.socketed_gem;
    let (_, _, essence_cost) = ancient_awaken_cost(equipment.socketed_gem.unwrap());
    stats.affix_essence = essence_cost - 1;

    assert!(!awaken_legendary_weapon(&mut items, &mut stats, &mut equipment, &with_target(None)));

    assert_eq!(equipment.quality, "legendary");
    assert_eq!(equipment.weapon_name, "Moonforged Cleaver");
    assert_eq!(stats.affix_essence, essence_cost - 1);
}

#[test]
fn ancient_augment_consumes_high_rank_ruby_and_essence_for_permanent_damage() {
    let mut items = vec![bag_item(
        "Ancient Ashen Reliquary Reaver",
        "ancient",
        22.0,
        0.10,
        12.0,
        12.0,
        true,
        1,
        gem(GemKind::Ruby, 3),
    )];
    let mut equipment = gear(
        "Ancient Ashen Reliquary Reaver",
        "ancient",
        Some("Emberbrand"),
        1,
        gem(GemKind::Ruby, 3),
    );
    let (gold_cost, shard_cost) = ancient_augment_cost(equipment.socketed_gem.unwrap());
    let essence_cost = ancient_augment_essence_cost(equipment.socketed_gem.unwrap());
    let mut stats = RunStats {
        gold: gold_cost,
        ember_shards: shard_cost,
        affix_essence: essence_cost,
        ..RunStats::default()
    };

    assert!(augment_ancient_weapon(&mut items, &mut stats, &mut equipment, &with_target(None)));

    assert_eq!(stats.gold, 0);
    assert_eq!(stats.ember_shards, 0);
    assert_eq!(stats.affix_essence, 0);
    assert_eq!(stats.ancient_augments, 1);
    assert_eq!(equipment.socketed_gem, None);
    assert_eq!(items[0].socketed_gem, None);
}

#[test]
fn ancient_augment_amethyst_updates_health_and_rejects_low_rank_gems() {
    let mut items = vec![bag_item(
        "Ancient Bloodstar Blade",
        "ancient",
        18.0,
        0.08,
        10.0,
        10.0,
        true,
        0,
        gem(GemKind::Amethyst, 2),
    )];
    let mut equipment = gear(
        "Ancient Bloodstar Blade",
        "ancient",
        Some("Soulreaver"),
        0,
        gem(GemKind::Amethyst, 2),
    );
    let mut stats = RunStats { gold: 999, ember_shards: 99, ..RunStats::default() };

    assert!(!augment_ancient_weapon(&mut items, &mut stats, &mut equipment, &with_target(None)));
    equipment.socketed_gem = gem(GemKind::Amethyst, 4);
    items[0].socketed_gem = equipment.socketed_gem;
    let (gold_cost, shard_cost) = ancient_augment_cost(equipment.socketed_gem.unwrap());
    let essence_cost = ancient_augment_essence_cost(equipment.socketed_gem.unwrap());

    assert!(!augment_ancient_weapon(&mut items, &mut stats, &mut equipment, &with_target(None)));
    stats.affix_essence = essence_cost;

    assert!(augment_ancient_weapon(&mut items, &mut stats, &mut equipment, &with_target(None)));

    assert_eq!(equipment.socketed_gem, None);
    assert_eq!(items[0].socketed_gem, None);
    assert_eq!(stats.gold, 999 - gold_cost);
    assert_eq!(stats.ember_shards, 99 - shard_cost);
    assert_eq!(stats.affix_essence, 0);
}

#[test]
fn primal_infusion_promotes_ancient_weapon_with_echo_keystone() {
    let mut items = vec![bag_item(
        "Ancient Ashen Reliquary Reaver",
        "ancient",
        30.0,
        0.18,
        18.0,
        24.0,
        true,
        2,
        None,
    )];
    let mut equipment =
        gear("Ancient Ashen Reliquary Reaver", "ancient", Some("Emberbrand"), 2, None);
    let mut stats = RunStats {
        gold: PRIMAL_INFUSION_GOLD_COST,
        ember_shards: PRIMAL_INFUSION_SHARD_COST,
        affix_essence: PRIMAL_INFUSION_ESSENCE_COST,
        echo_keystones: PRIMAL_INFUSION_ECHO_KEYSTONE_COST,
        ..RunStats::default()
    };

    assert!(infuse_primal_weapon(&mut items, &mut stats, &mut equipment, &with_target(None)));

    assert_eq!(stats.gold, 0);
    assert_eq!(stats.ember_shards, 0);
    assert_eq!(stats.affix_essence, 0);
    assert_eq!(stats.echo_keystones, 0);
    assert_eq!(stats.primal_infusions, 1);
    assert_eq!(equipment.weapon_name, "Primal Ashen Reliquary Reaver");
    assert_eq!(equipment.quality, "primal");
    assert_eq!(items[0].name, equipment.weapon_name);
    assert_eq!(items[0].quality, "primal");
}

#[test]
fn primal_infusion_requires_ancient_weapon_and_echo_keystone() {
    let mut items = vec![bag_item(
        "Stormcall Reliquary Brand",
        "legendary",
        22.0,
        0.12,
        12.0,
        16.0,
        true,
        1,
        None,
    )];
    let mut equipment =
        gear("Stormcall Reliquary Brand", "legendary", Some("Stormbrand"), 1, None);
    let mut stats = RunStats {
        gold: 999,
        ember_shards: 99,
        affix_essence: 99,
        echo_keystones: 1,
        ..RunStats::default()
    };

    assert!(!infuse_primal_weapon(&mut items, &mut stats, &mut equipment, &with_target(None)));
    equipment.weapon_name = "Ancient Stormcall Reliquary Brand".to_string();
    equipment.quality = "ancient".to_string();
    items[0].name = equipment.weapon_name.clone();
    items[0].quality = equipment.quality.clone();
    stats.echo_keystones = 0;

    assert!(!infuse_primal_weapon(&mut items, &mut stats, &mut equipment, &with_target(None)));
    assert_eq!(equipment.quality, "ancient");
    assert_eq!(equipment.weapon_name, "Ancient Stormcall Reliquary Brand");
    assert_eq!(stats.gold, 999);
    assert_eq!(stats.ember_shards, 99);
    assert_eq!(stats.affix_essence, 99);
}

#[test]
fn primal_infusion_pursuit_guides_gear_materials_and_completion() {
    let mut stats = RunStats::default();

    assert!(primal_infusion_pursuit_summary(&stats, "rare").contains("legendary weapon"));
    assert!(primal_infusion_pursuit_summary(&stats, "legendary").contains("awaken legendary"));
    assert!(primal_infusion_pursuit_summary(&stats, "ancient").contains("Echo Keystone"));

    stats.echo_keystones = 1;
    stats.gold = PRIMAL_INFUSION_GOLD_COST - 5;
    stats.ember_shards = PRIMAL_INFUSION_SHARD_COST - 2;
    stats.affix_essence = PRIMAL_INFUSION_ESSENCE_COST - 1;
    let pursuit = primal_infusion_pursuit_summary(&stats, "ancient");
    assert!(pursuit.contains("5 gold"));
    assert!(pursuit.contains("2 shards"));
    assert!(pursuit.contains("1 essence"));

    stats.gold = PRIMAL_INFUSION_GOLD_COST;
    stats.ember_shards = PRIMAL_INFUSION_SHARD_COST;
    stats.affix_essence = PRIMAL_INFUSION_ESSENCE_COST;
    assert!(primal_infusion_pursuit_summary(&stats, "ancient").contains("Primal ready"));

    stats.primal_infusions = 1;
    assert!(primal_infusion_pursuit_summary(&stats, "ancient").contains("complete"));
}

fn quartermaster_stock(names: &[&str], capacity: usize) -> QuartermasterStock {
    QuartermasterStock {
        item_names: names.iter().map(|n| n.to_string()).collect(),
        inventory_capacity: capacity,
        potions_current: 3,
        potions_max: 3,
        elixirs_current: 2,
        elixirs_max: 2,
        enchant_available: false,
    }
}

#[test]
fn quartermaster_preview_surfaces_next_trade_action() {
    let mut equipment = gear("Test Blade", "rare", None, 0, None);
    let mut stats = RunStats::default();

    let preview = quartermaster_preview_summary(
        &stats,
        &equipment,
        &quartermaster_stock(&["Test Blade", "Spare Fang"], 12),
    );
    assert!(preview.contains("U salvage 1 spare gear"));

    let empty = quartermaster_stock(&[], 12);
    equipment.quality = "ancient".to_string();
    stats.gold = PRIMAL_INFUSION_GOLD_COST + temper_cost(equipment.temper_level);
    stats.ember_shards = PRIMAL_INFUSION_SHARD_COST + MERCHANT_REFORGE_SHARD_COST;
    stats.affix_essence = PRIMAL_INFUSION_ESSENCE_COST;
    stats.echo_keystones = PRIMAL_INFUSION_ECHO_KEYSTONE_COST;
    let preview = quartermaster_preview_summary(&stats, &equipment, &empty);
    assert!(preview.contains("can primal-infuse"));

    stats.gold = PRIMAL_INFUSION_GOLD_COST + temper_cost(equipment.temper_level) - 7;
    stats.ember_shards = PRIMAL_INFUSION_SHARD_COST + MERCHANT_REFORGE_SHARD_COST - 2;
    stats.affix_essence = PRIMAL_INFUSION_ESSENCE_COST - 1;
    stats.echo_keystones = 0;
    let preview = quartermaster_preview_summary(&stats, &equipment, &empty);
    assert!(preview.contains("7g 2s 1e 1 key"));

    stats.gold = 0;
    stats.ember_shards = 0;
    stats.affix_essence = 0;
    stats.echo_keystones = 0;
    stats.malrec_soul_sigils = SOUL_SIGIL_CACHE_COST;
    let preview = quartermaster_preview_summary(&stats, &equipment, &empty);
    assert!(preview.contains("opens 1 Trophy Cache"));
    assert!(preview.contains("+120g +4s +3e +1 key"));
    assert!(preview.contains("then Quartermaster needs:"));
    assert!(preview.contains("for primal infusion"));

    stats.malrec_soul_sigils = SOUL_SIGIL_CACHE_COST * 2;
    let preview = quartermaster_preview_summary(&stats, &equipment, &empty);
    assert!(preview.contains("opens 2 Trophy Caches"));
    assert!(preview.contains("+240g +8s +6e +2 keys"));
}

#[test]
fn quartermaster_preview_reports_crafting_material_gaps() {
    let empty = quartermaster_stock(&[], MAX_INVENTORY_CAPACITY);
    let mut equipment =
        gear("Soulreaver Fang", "legendary", Some("Soulreaver"), 8, gem(GemKind::Ruby, 4));
    let mut stats = RunStats::default();

    let preview = quartermaster_preview_summary(&stats, &equipment, &empty);
    assert!(preview.contains("680g 28s 12e"));
    assert!(preview.contains("to awaken Ruby 4"));

    equipment.quality = "ancient".to_string();
    equipment.socketed_gem = gem(GemKind::Topaz, 3);
    stats.gold = 200;
    stats.ember_shards = 9;
    stats.affix_essence = 1;
    let preview = quartermaster_preview_summary(&stats, &equipment, &empty);
    assert!(preview.contains("Quartermaster needs:"));
    assert!(preview.contains("for primal infusion"));
    assert!(preview.contains("key"));
}

fn stormcall_bag() -> Vec<BagItem> {
    vec![
        bag_item("Stormcall Reliquary Brand", "legendary", 11.0, 0.16, 0.0, 0.0, true, 0, None),
        bag_item("Spare Moon Fang", "rare", 7.0, 0.04, 0.0, 0.0, false, 0, None),
        bag_item("Spare Ember Fang", "rare", 8.0, 0.05, 0.0, 0.0, false, 0, None),
        bag_item("Spare Saint Fang", "legendary", 12.0, 0.09, 20.0, 10.0, true, 0, None),
        bag_item("Spare Ancient Fang", "ancient", 18.0, 0.16, 24.0, 14.0, true, 0, None),
    ]
}

#[test]
fn salvage_preview_preserves_equipped_item_and_prices_spares() {
    let items = vec![
        bag_item("Stormcall Reliquary Brand", "legendary", 11.0, 0.16, 0.0, 0.0, true, 0, None),
        bag_item("Moonforged Cleaver", "rare", 9.0, 0.06, 0.0, 0.0, false, 0, None),
        bag_item(
            "Aegis-Saint Reliquary Guard",
            "legendary",
            12.0,
            0.09,
            20.0,
            10.0,
            true,
            1,
            gem(GemKind::Ruby, 2),
        ),
    ];

    let preview = salvage_preview(&items, "Stormcall Reliquary Brand");

    assert_eq!(preview.items, 2);
    assert!(preview.gold > 0);
    assert!(preview.shards >= 14);
    assert!(preview.essence >= 1);
}

#[test]
fn quick_salvage_preserves_equipped_item_and_grants_cache_rewards() {
    let mut items = stormcall_bag();
    let preview = salvage_preview(&items, "Stormcall Reliquary Brand");
    let mut stats = RunStats::default();

    let salvage =
        salvage_spare_inventory_into_stats(&mut items, "Stormcall Reliquary Brand", &mut stats);

    assert_eq!(salvage.items, 4);
    assert_eq!(items.len(), 1);
    assert_eq!(items[0].name, "Stormcall Reliquary Brand");
    assert_eq!(stats.gold, preview.gold + SALVAGE_CACHE_GOLD_REWARD);
    assert_eq!(stats.ember_shards, preview.shards + SALVAGE_CACHE_SHARD_REWARD);
    assert_eq!(stats.affix_essence, preview.essence + SALVAGE_CACHE_ESSENCE_REWARD);
    assert_eq!(stats.salvage_caches, 1);
    assert!(salvage.summary().contains("salvage cache x1"));
}

#[test]
fn quick_salvage_prices_match_the_item_table() {
    let items = stormcall_bag();
    let preview = salvage_preview(&items, "Stormcall Reliquary Brand");
    // Shards: rare 3 + rare 3 + legendary 8 + ancient 14; essence: 0 + 0 + 1 + 3.
    assert_eq!(preview.shards, 28);
    assert_eq!(preview.essence, 4);
    let gold: u32 = items[1..].iter().map(|i| i.sale_value).sum();
    assert_eq!(preview.gold, gold);
}

#[test]
fn loot_pursuit_summary_points_to_salvage_or_next_chase() {
    let mut equipment =
        gear("Ancient Ashen Reliquary Reaver", "ancient", Some("Emberbrand"), 0, None);
    let mut stats = RunStats::default();
    let mut items = vec![bag_item("Spare Fang", "common", 3.0, 0.02, 0.0, 1.0, false, 0, None)];

    let summary = loot_pursuit_summary(&stats, &items, 12, &equipment);
    assert!(summary.contains("U salvage 1"));
    assert!(summary.contains("+"));

    items.clear();
    stats.echo_keystones = 0;
    let summary = loot_pursuit_summary(&stats, &items, 12, &equipment);
    assert!(summary.contains("Echo Keystone"));

    equipment.quality = "rare".to_string();
    let summary = loot_pursuit_summary(&stats, &items, 12, &equipment);
    assert!(summary.contains("legendary gear"));
}

#[test]
fn merchant_polishes_equipped_charm_with_gold_and_shards() {
    let mut items = vec![keeper_blade(2)];
    let mut equipment = gear("rare Keeper Blade", "rare", None, 2, None);
    let mut belts = MerchantStock {
        charm_equipped: true,
        charm_name: charm_name_for_roll("rare", 0).to_string(),
        ..stock(
            (MAX_POTION_CAPACITY, MAX_POTION_CAPACITY),
            (MAX_ELIXIR_CAPACITY, MAX_ELIXIR_CAPACITY),
            MAX_INVENTORY_CAPACITY,
        )
    };
    let mut stats = RunStats {
        gold: MERCHANT_CHARM_POLISH_GOLD_COST,
        ember_shards: MERCHANT_CHARM_POLISH_SHARD_COST,
        ..RunStats::default()
    };

    let transaction = trade_with_merchant(&mut stats, &mut equipment, &mut belts, &mut items);

    assert!(transaction.charm_polished);
    assert_eq!(stats.gold, 0);
    assert_eq!(stats.ember_shards, 0);
    assert!(transaction.summary().contains("polished Gilded Fang Charm"));
    assert!(!transaction.tempered);
    assert!(!transaction.reforged);
}

#[test]
fn idle_visit_opens_a_trophy_cache_before_alchemy() {
    let mut items = vec![keeper_blade(0)];
    let mut equipment = gear("rare Keeper Blade", "rare", None, 0, None);
    let mut belts = stock((3, 3), (2, 2), MAX_INVENTORY_CAPACITY);
    let mut stats = RunStats { malrec_soul_sigils: 2, ..RunStats::default() };

    let transaction = trade_with_merchant(&mut stats, &mut equipment, &mut belts, &mut items);

    assert!(transaction.soul_sigil_cache);
    assert!(!transaction.alchemy_gold);
    assert_eq!(stats.malrec_soul_sigils, 0);
    assert_eq!(stats.gold, SOUL_SIGIL_CACHE_GOLD_REWARD);
    assert_eq!(stats.echo_keystones, SOUL_SIGIL_CACHE_KEYSTONE_REWARD);
}

#[test]
fn visit_keeps_the_weapon_entry_in_step_with_the_weapon() {
    let mut items = vec![
        keeper_blade(0),
        bag_item("common Rusted Fang", "common", 3.0, 0.02, 0.0, 1.0, false, 0, None),
    ];
    let mut equipment = gear("rare Keeper Blade", "rare", None, 0, None);
    let mut belts = stock((3, 3), (2, 2), MAX_INVENTORY_CAPACITY);
    let mut stats = RunStats { gold: 90, ..RunStats::default() };
    let sale = items[1].sale_value;

    let transaction = trade_with_merchant(&mut stats, &mut equipment, &mut belts, &mut items);

    assert!(transaction.tempered);
    assert_eq!(transaction.sold_items, 1);
    assert_eq!(stats.gold, sale);
    assert_eq!(equipment.temper_level, 1);
    assert_eq!(items.len(), 1);
    assert_eq!(items[0].name, "rare Keeper Blade");
    assert_eq!(items[0].temper_level, 1);
    assert_eq!(items[0].quality, "rare");
}

#[test]
fn settled_gambles_read_the_gear_and_charm_they_left() {
    let mut tx = MerchantTransaction {
        mystery_charm: true,
        mystery_weapon: true,
        enchanted_power: "Emberbrand".to_string(),
        charm_label: "Stormglass Charm".to_string(),
        bought_potions: 2,
        ..MerchantTransaction::default()
    };
    // The gambled weapon was equipped: a new power and a ruby.
    let gear = gear("Stormcall Reliquary Brand", "legendary", Some("Stormbrand"), 0, gem(GemKind::Ruby, 2));
    settle_merchant_gambles(
        &mut tx,
        &gear,
        "Bloodstar Charm",
        GambleOutcome {
            charm_equipped: true,
            charm_label: "Bloodstar Charm".to_string(),
            weapon_equipped: true,
            weapon_stored: false,
            weapon_codex_unlocked: true,
            weapon_label: "Stormcall Reliquary Brand".to_string(),
        },
    );
    assert_eq!(tx.enchanted_power, "Stormbrand");
    assert_eq!(tx.gem_label, "Ruby 2");
    assert_eq!(tx.charm_label, "Bloodstar Charm");
    assert!(tx.mystery_charm_equipped);
    assert_eq!(tx.mystery_charm_label, "Bloodstar Charm");
    assert!(tx.mystery_weapon_equipped && tx.mystery_weapon_codex_unlocked && !tx.mystery_weapon_stored);
    assert_eq!(tx.mystery_weapon_label, "Stormcall Reliquary Brand");
    assert_eq!(tx.bought_potions, 2);
}

#[test]
fn unpaid_gambles_settle_to_nothing() {
    let mut tx = MerchantTransaction::default();
    let gear = gear("rare Keeper Blade", "rare", None, 0, None);
    settle_merchant_gambles(
        &mut tx,
        &gear,
        "",
        GambleOutcome {
            charm_equipped: true,
            charm_label: "Bloodstar Charm".to_string(),
            weapon_equipped: true,
            weapon_stored: true,
            weapon_codex_unlocked: true,
            weapon_label: "Stormcall Reliquary Brand".to_string(),
        },
    );
    assert!(!tx.mystery_charm_equipped && !tx.mystery_weapon_equipped && !tx.mystery_weapon_stored);
    assert_eq!(tx.mystery_charm_label, "");
    assert_eq!(tx.mystery_weapon_label, "");
    assert_eq!(tx.gem_label, "gem");
    assert_eq!(tx.enchanted_power, "");
}

#[test]
fn salvage_takes_every_item_it_does_not_keep() {
    let mut items = vec![
        bag_item("common Rusted Fang", "common", 3.0, 0.02, 0.0, 1.0, false, 0, None),
        keeper_blade(1),
        keeper_blade(2),
    ];
    let salvage = salvage_spare_inventory(&mut items, "rare Keeper Blade");
    assert_eq!(salvage.items + items.len(), 3);
    assert_eq!(items.len(), 1);
    assert_eq!(items[0].temper_level, 1);
}

#[test]
fn salvage_keeps_the_first_weapon_entry_and_sells_the_rest() {
    let spare = || bag_item("common Rusted Fang", "common", 3.0, 0.02, 0.0, 1.0, false, 0, None);
    let spare_value = spare().sale_value;
    let second_value = keeper_blade(3).sale_value;
    let mut items = vec![spare(), keeper_blade(1), keeper_blade(3)];
    let salvage = salvage_spare_inventory(&mut items, "rare Keeper Blade");
    assert_eq!(items.len(), 1);
    assert_eq!(items[0].temper_level, 1);
    assert_eq!(salvage.items, 2);
    assert_eq!(salvage.gold, spare_value + second_value);
    // A common spare salvages into one shard, the tempered rare into 3 + 3.
    assert_eq!(salvage.shards, 1 + 3 + 3);

    let mut no_weapon = vec![spare(), spare()];
    let salvage = salvage_spare_inventory(&mut no_weapon, "rare Keeper Blade");
    assert!(no_weapon.is_empty());
    assert_eq!(salvage.items, 2);
    assert_eq!(salvage.gold, 2 * spare_value);
}
