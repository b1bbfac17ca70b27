use open_arpg::game::{RunStats, BOSS_BREAK_TARGET};
use open_arpg::mastery::{
    award_mastery, boss_mastery_points, calculate_mastery_points, mastery_award_text,
    mastery_next_goal, mastery_next_goal_summary, mastery_summary, next_mastery_rank_goal,
    rank_for_points, ChapterMastery, MasteryGoal, MasteryRank, MasterySources,
};
use open_arpg::world::{ChallengeId, ChallengeProgress, ChallengeText};

/// The first challenges of the chapter, none completed.
fn chapter_challenges() -> Vec<ChallengeProgress> {
    [ChallengeId::SwiftClear, ChallengeId::TreasureHunter, ChallengeId::TreasureVault]
        .iter()
        .map(|&id| ChallengeProgress { id, completed: false, reward_claimed: false })
        .collect()
}

fn challenge_texts() -> Vec<ChallengeText> {
    vec![
        ChallengeText {
            id: ChallengeId::SwiftClear,
            label: "Swift Clear".to_string(),
            description: "defeat Malrec within six minutes".to_string(),
        },
        ChallengeText {
            id: ChallengeId::TreasureHunter,
            label: "Treasure Hunter".to_string(),
            description: "open every reliquary cache".to_string(),
        },
        ChallengeText {
            id: ChallengeId::TreasureVault,
            label: "Treasure Vault".to_string(),
            description: "slay the treasure imp".to_string(),
        },
    ]
}

fn sources(swift_window: bool, bounty: bool, lore: usize, codex: usize) -> MasterySources {
    MasterySources {
        swift_window,
        bounty_completed: bounty,
        lore_entries: lore,
        codex_unlocked: codex,
    }
}

#[test]
fn mastery_rank_scales_with_points() {
    assert_eq!(rank_for_points(0), MasteryRank::Initiate);
    assert_eq!(rank_for_points(3), MasteryRank::Adept);
    assert_eq!(rank_for_points(6), MasteryRank::Master);
    assert_eq!(rank_for_points(10), MasteryRank::Conqueror);
    assert_eq!(rank_for_points(15), MasteryRank::Paragon);
    assert_eq!(next_mastery_rank_goal(2), Some((MasteryRank::Adept, 3)));
    assert_eq!(next_mastery_rank_goal(15), None);
}

#[test]
fn mastery_rewards_include_endgame_essence() {
    assert_eq!(MasteryRank::Initiate.reward().affix_essence, 0);
    assert_eq!(MasteryRank::Adept.reward().affix_essence, 2);
    assert_eq!(MasteryRank::Master.reward().affix_essence, 5);
    assert_eq!(MasteryRank::Conqueror.reward().affix_essence, 8);
    assert_eq!(MasteryRank::Paragon.reward().affix_essence, 14);

    let mastery = ChapterMastery {
        points: 15,
        rank: MasteryRank::Paragon,
        reward_claimed: true,
        reward_gold: 620,
        reward_shards: 18,
        reward_essence: 14,
        boss_bonus_points: 2,
        latest: "Chapter mastery: Paragon".to_string(),
    };

    assert!(mastery_summary(&mastery).contains("Paragon"));
    assert!(mastery_summary(&mastery).contains("boss +2"));
    assert!(mastery_summary(&mastery).contains("+14 essence"));
}

#[test]
fn mastery_points_count_challenges_bounty_lore_and_codex() {
    let stats = RunStats { best_valor_stacks: 5, ..RunStats::default() };
    let mut challenges = chapter_challenges();
    challenges[1].completed = true;

    // 320 seconds in: still inside the Swift Clear time.
    assert_eq!(calculate_mastery_points(&stats, &sources(true, true, 3, 2), &challenges), 7);
}

#[test]
fn mastery_requires_full_valor_stack_for_bonus_point() {
    let low_valor = RunStats { best_valor_stacks: 4, ..RunStats::default() };
    let full_valor = RunStats { best_valor_stacks: 5, ..RunStats::default() };
    let challenges = chapter_challenges();
    let none = sources(false, false, 0, 0);

    assert_eq!(calculate_mastery_points(&low_valor, &none, &challenges), 0);
    assert_eq!(calculate_mastery_points(&full_valor, &none, &challenges), 1);
}

#[test]
fn mastery_awards_boss_performance_bonus_points() {
    let empty_stats = RunStats::default();
    let clean_boss = RunStats {
        kills: 9,
        boss_staggers: BOSS_BREAK_TARGET,
        boss_enraged: false,
        ..RunStats::default()
    };
    let enraged_boss = RunStats {
        kills: 9,
        boss_staggers: BOSS_BREAK_TARGET,
        boss_enraged: true,
        ..RunStats::default()
    };

    assert_eq!(boss_mastery_points(&empty_stats), 0);
    assert_eq!(boss_mastery_points(&clean_boss), 2);
    assert_eq!(boss_mastery_points(&enraged_boss), 1);
}

#[test]
fn mastery_next_goal_guides_available_point_sources() {
    let stats = RunStats::default();
    let challenges = chapter_challenges();

    // 420 seconds in: Swift Clear can no longer be won.
    let summary = mastery_next_goal_summary(
        &stats,
        &sources(false, false, 0, 0),
        &challenges,
        &challenge_texts(),
        Some("Emberbrand"),
    );

    assert!(summary.contains("Treasure Hunter"));
    assert!(summary.contains("next Adept at 3 pts"));
    assert!(!summary.contains("Swift Clear"));
}

#[test]
fn mastery_next_goal_falls_through_to_run_and_codex_goals() {
    let mut challenges = chapter_challenges();
    for challenge in &mut challenges {
        challenge.completed = true;
    }
    let texts = challenge_texts();
    let mut stats = RunStats::default();
    let mut src = sources(false, true, 0, 0);

    assert!(mastery_next_goal_summary(&stats, &src, &challenges, &texts, Some("Emberbrand"))
        .contains("recover lore pages 0/3"));

    src.lore_entries = 3;
    assert!(mastery_next_goal_summary(&stats, &src, &challenges, &texts, Some("Emberbrand"))
        .contains("five Valor stacks"));

    stats.best_valor_stacks = 5;
    assert!(mastery_next_goal_summary(&stats, &src, &challenges, &texts, Some("Emberbrand"))
        .contains("break Malrec 0/2"));

    stats.boss_staggers = BOSS_BREAK_TARGET;
    assert!(mastery_next_goal_summary(&stats, &src, &challenges, &texts, Some("Emberbrand"))
        .contains("defeat Malrec before Ashen Enrage"));

    stats.kills = 12;
    src.codex_unlocked = 4;
    assert!(mastery_next_goal_summary(&stats, &src, &challenges, &texts, Some("Aegisbrand"))
        .contains("unlock Aegisbrand"));

    src.codex_unlocked = 5;
    assert_eq!(
        mastery_next_goal_summary(&stats, &src, &challenges, &texts, None),
        "Mastery complete: all chapter mastery point sources secured"
    );
    assert_eq!(mastery_next_goal(&stats, &src, &challenges, false), MasteryGoal::Complete);
}

#[test]
fn mastery_is_awarded_once_with_the_rank_reward() {
    let mut stats = RunStats { kills: 3, best_valor_stacks: 5, ..RunStats::default() };
    let mut mastery = ChapterMastery::new();
    let challenges = chapter_challenges();
    let src = sources(false, true, 3, 0);

    // bounty + lore + valor + enrage-free kill = 4 points: Adept.
    let reward = award_mastery(&mut stats, &mut mastery, &src, &challenges);
    assert_eq!(reward, Some(MasteryRank::Adept.reward()));
    assert_eq!(mastery.points, 4);
    assert_eq!(mastery.rank, MasteryRank::Adept);
    assert_eq!(mastery.latest, "Chapter mastery: Adept (boss +1)");
    assert_eq!(stats.gold, 140);
    assert_eq!(stats.ember_shards, 4);
    assert_eq!(stats.affix_essence, 2);

    assert_eq!(award_mastery(&mut stats, &mut mastery, &src, &challenges), None);
    assert_eq!(stats.gold, 140);
    assert_eq!(
        mastery_award_text(MasteryRank::Adept, MasteryRank::Adept.reward()),
        "Chapter mastery Adept: 140 gold, 4 shards, 2 essence"
    );
}
