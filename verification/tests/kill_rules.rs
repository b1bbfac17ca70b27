use open_arpg::chance::{
    charm_name_for_roll, gem_kind_for_roll, roll_charm_variant, roll_enemy_gold,
    roll_from_weighted_entries, roll_gem_kind, roll_weighted_index, total_weight, WeaponPool,
};
use open_arpg::game::{RunStats, CHAMPION_PACK_REWARD_GOLD, CHAMPION_PACK_TARGET};
use open_arpg::kill::{
    register_enemy_kill, reward_interactable, InteractableReward, KillContext, SlainEnemy,
};
use open_arpg::kill_log::kill_log_lines;
use open_arpg::merchant::GemKind;
use open_arpg::world::InteractableKind;

fn slain(id: &str, affix_count: usize) -> SlainEnemy {
    SlainEnemy {
        enemy_id: id.to_string(),
        affix_count,
        affix_mask: 0,
        cursed_ambusher: false,
        champion_pack_member: false,
    }
}

fn plain_context() -> KillContext {
    KillContext { codex_attuned: false, set_resonance: false, cursed_ambush_target: 4 }
}

#[test]
fn a_plain_kill_counts_once_and_pays_nothing_extra() {
    let mut stats = RunStats::default();
    let report = register_enemy_kill(&mut stats, &slain("skeleton", 0), plain_context());
    assert_eq!(stats.kills, 1);
    assert_eq!(report.valor_stacks, None);
    assert!(!report.affix_hunter);
    assert_eq!(report.shard_reward, 0);
    assert_eq!(report.essence_reward, 0);
    assert_eq!(stats.ember_shards, 0);
    assert_eq!(stats.valor_stacks, 0);
}

#[test]
fn an_affixed_elite_grants_valor_shards_essence_and_an_affix_break() {
    let mut stats = RunStats::default();
    let report = register_enemy_kill(&mut stats, &slain("cultist", 4), plain_context());
    assert_eq!(report.valor_stacks, Some(1));
    assert!(report.affix_hunter);
    assert_eq!(report.break_essence, 3);
    assert_eq!(report.shard_reward, 2);
    assert_eq!(report.essence_reward, 4);
    assert_eq!(stats.ember_shards, 2);
    assert_eq!(stats.affix_essence, 4 + 3);
    assert_eq!(stats.valor_stacks, 1);
}

#[test]
fn codex_and_set_kills_follow_the_context() {
    let mut stats = RunStats::default();
    let context = KillContext { codex_attuned: true, set_resonance: true, cursed_ambush_target: 4 };
    register_enemy_kill(&mut stats, &slain("skeleton", 0), context);
    register_enemy_kill(&mut stats, &slain("skeleton", 0), plain_context());
    assert_eq!(stats.codex_attuned_kills, 1);
    assert_eq!(stats.set_resonance_kills, 1);
    assert_eq!(stats.kills, 2);
}

#[test]
fn cursed_ambush_clears_on_the_target_kill_only() {
    let mut stats = RunStats::default();
    let mut cleared = Vec::new();
    for _ in 0..5 {
        let enemy = SlainEnemy { cursed_ambusher: true, ..slain("skeleton", 0) };
        cleared.push(register_enemy_kill(&mut stats, &enemy, plain_context()).cursed_ambush_cleared);
    }
    assert_eq!(cleared, vec![false, false, false, true, false]);
}

#[test]
fn champion_pack_pays_once_when_the_last_member_falls() {
    let mut stats = RunStats::default();
    let mut rewards = 0;
    for _ in 0..CHAMPION_PACK_TARGET + 1 {
        let enemy = SlainEnemy { champion_pack_member: true, ..slain("skeleton", 0) };
        if register_enemy_kill(&mut stats, &enemy, plain_context()).champion_reward {
            rewards += 1;
        }
    }
    assert_eq!(rewards, 1);
    assert_eq!(stats.gold, CHAMPION_PACK_REWARD_GOLD);
}

#[test]
fn interactables_hand_out_their_rewards() {
    let mut stats = RunStats::default();
    let (mut potions, mut elixirs) = (2, 3);
    assert_eq!(
        reward_interactable(InteractableKind::Cache, &mut stats, &mut potions, 3, &mut elixirs, 4),
        InteractableReward::Loot { base_gold: 45, pool: WeaponPool::Cache }
    );
    assert_eq!(
        reward_interactable(InteractableKind::Altar, &mut stats, &mut potions, 3, &mut elixirs, 4),
        InteractableReward::Altar { potions: 3, elixirs: 4 }
    );
    assert_eq!((potions, elixirs), (3, 4));
    assert_eq!(
        reward_interactable(
            InteractableKind::ReliquaryVault,
            &mut stats,
            &mut potions,
            3,
            &mut elixirs,
            4
        ),
        InteractableReward::Loot { base_gold: 120, pool: WeaponPool::Boss }
    );
    assert_eq!(stats.affix_essence, 3);
    assert_eq!(
        reward_interactable(InteractableKind::Merchant, &mut stats, &mut potions, 3, &mut elixirs, 4),
        InteractableReward::Trade
    );
    assert_eq!(
        reward_interactable(InteractableKind::LorePage, &mut stats, &mut potions, 3, &mut elixirs, 4),
        InteractableReward::Nothing
    );
}

#[test]
fn weighted_rolls_pick_the_entry_whose_band_holds_the_roll() {
    let weights = vec![3, 0, 2];
    assert_eq!(roll_from_weighted_entries(&weights, 0), Some(0));
    assert_eq!(roll_from_weighted_entries(&weights, 2), Some(0));
    assert_eq!(roll_from_weighted_entries(&weights, 3), Some(2));
    assert_eq!(roll_from_weighted_entries(&weights, 4), Some(2));
    assert_eq!(roll_from_weighted_entries(&weights, 5), None);
    for _ in 0..50 {
        let picked = roll_weighted_index(&weights).unwrap();
        assert!(picked == 0 || picked == 2);
    }
    assert_eq!(roll_weighted_index(&vec![]), None);
}

#[test]
fn random_rolls_stay_in_their_ranges() {
    for _ in 0..100 {
        let gold = roll_enemy_gold(3, 7);
        assert!((3..=7).contains(&gold));
        assert!(roll_charm_variant() < 3);
        let _ = roll_gem_kind();
    }
    assert_eq!(roll_enemy_gold(5, 5), 5);
}

#[test]
fn gem_and_charm_rolls_map_to_names() {
    assert_eq!(gem_kind_for_roll(0), GemKind::Ruby);
    assert_eq!(gem_kind_for_roll(1), GemKind::Emerald);
    assert_eq!(gem_kind_for_roll(2), GemKind::Amethyst);
    assert_eq!(gem_kind_for_roll(3), GemKind::Topaz);
    assert_eq!(charm_name_for_roll("legendary", 0), "Stormglass Charm");
    assert_eq!(charm_name_for_roll("rare", 0), "Gilded Fang Charm");
    assert_eq!(charm_name_for_roll("primal", 1), "Primal Bloodstar Charm");
}

#[test]
fn kill_log_lists_what_the_kill_did() {
    let mut stats = RunStats::default();
    let enemy = SlainEnemy { champion_pack_member: true, ..slain("cultist", 2) };
    let report = register_enemy_kill(&mut stats, &enemy, plain_context());
    let labels = vec!["Arcane".to_string(), "Molten".to_string()];

    let lines = kill_log_lines("Arcane Molten Guard", &labels, true, &report, &stats, 3);

    assert_eq!(
        lines,
        vec![
            "Arcane Molten Guard slain [Arcane, Molten]",
            "Valor 1x: elite rewards empowered",
            "Affix Break: Arcane Molten Guard shattered, +1 essence",
            "Affix Hunter 1/3",
            "Champion pack 1/4",
            "Recovered 2 ember shards",
            "Recovered 2 affix essence",
        ]
    );

    let mut stats = RunStats::default();
    let plain = slain("skeleton", 0);
    let report = register_enemy_kill(&mut stats, &plain, plain_context());
    assert_eq!(kill_log_lines("Skeleton", &vec![], false, &report, &stats, 3), vec!["Skeleton slain"]);
}

#[test]
fn a_set_of_kills_adds_one_each_and_every_affix_to_the_codex() {
    let mut stats = RunStats { kills: 5, affix_codex_mask: 0b1, ..RunStats::default() };
    let enemies = [
        SlainEnemy { affix_mask: 0b100, ..slain("cultist", 1) },
        slain("skeleton", 0),
        SlainEnemy { affix_mask: 0b1010, ..slain("cultist", 2) },
    ];
    for e in enemies.iter() {
        register_enemy_kill(&mut stats, e, plain_context());
    }
    assert_eq!(stats.kills, 8);
    assert_eq!(stats.affix_codex_mask, 0b1111);
}

#[test]
fn total_weight_sums_every_entry() {
    assert_eq!(total_weight(&vec![5, 0, 3, 2]), 10);
    assert_eq!(total_weight(&vec![]), 0);
}
