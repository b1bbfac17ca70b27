use open_arpg::game::RunStats;
use open_arpg::journey::{
    award_chapter_journey_reward, chapter_journey_snapshot, journey_next_tier_reward_summary,
    journey_summary, journey_tier_for_score, next_journey_goal, next_tier, priority_challenges,
    ChapterJourneyReward, ChapterJourneySnapshot, ChapterJourneyTier, JourneyGoal,
};
use open_arpg::mastery::{ChapterMastery, MasteryRank};
use open_arpg::milestone::{all_milestones, MilestoneId, Milestones};
use open_arpg::world::{ChallengeId, ChallengeProgress, ChallengeText};

/// Every challenge of the chapter, none completed.
fn chapter_challenges() -> Vec<ChallengeProgress> {
    priority_challenges()
        .iter()
        .map(|&id| ChallengeProgress { id, completed: false, reward_claimed: false })
        .collect()
}

fn complete(challenges: &mut [ChallengeProgress], id: ChallengeId) {
    for c in challenges.iter_mut() {
        if c.id == id {
            c.completed = true;
        }
    }
}

fn texts() -> Vec<ChallengeText> {
    vec![ChallengeText {
        id: ChallengeId::TreasureHunter,
        label: "Treasure Hunter".to_string(),
        description: "open every reliquary cache".to_string(),
    }]
}

fn mastery(points: u32, rank: MasteryRank) -> ChapterMastery {
    ChapterMastery { points, rank, ..ChapterMastery::default() }
}

#[test]
fn journey_snapshot_combines_challenges_milestones_and_mastery() {
    let mut challenges = chapter_challenges();
    complete(&mut challenges, ChallengeId::SwiftClear);
    complete(&mut challenges, ChallengeId::Vaultbreaker);
    let mut milestones = Milestones::default();
    milestones.unlock(MilestoneId::CacheOpened);
    milestones.unlock(MilestoneId::VaultOpened);
    let mastery = mastery(10, MasteryRank::Conqueror);

    let snapshot = chapter_journey_snapshot(&challenges, &milestones, &mastery, &texts(), 13);

    assert_eq!(snapshot.score, 14);
    assert_eq!(snapshot.tier, ChapterJourneyTier::Sealbearer);
    assert_eq!(snapshot.next_tier, Some((ChapterJourneyTier::RiftHunter, 28)));
    assert!(snapshot.next_goal.contains("Treasure Hunter"));
    assert_eq!(snapshot.max_score, 32 + 63 + 15);
}

#[test]
fn journey_summary_surfaces_next_tier_reward_payoff() {
    let snapshot = chapter_journey_snapshot(
        &chapter_challenges(),
        &Milestones::default(),
        &ChapterMastery::default(),
        &texts(),
        0,
    );

    let summary = journey_summary(&snapshot);

    assert!(summary.contains("Journey: Initiate"));
    assert!(summary.contains("next Sealbearer at 12 (+140g +4s +2e)"));
}

#[test]
fn journey_next_goal_surfaces_treasure_fiend_milestone_after_hunt() {
    let mut challenges = chapter_challenges();
    for c in challenges.iter_mut() {
        c.completed = true;
    }
    let mut milestones = Milestones::default();
    for id in [
        MilestoneId::CacheOpened,
        MilestoneId::VaultOpened,
        MilestoneId::BloodObelisk,
        MilestoneId::EmberRift,
        MilestoneId::ReliquarySeal,
    ] {
        milestones.unlock(id);
    }

    let snapshot =
        chapter_journey_snapshot(&challenges, &milestones, &ChapterMastery::default(), &texts(), 0);

    assert!(snapshot.next_goal.contains("Treasure Fiend"));
    assert_eq!(
        next_journey_goal(&challenges, &milestones),
        JourneyGoal::Milestone(MilestoneId::TreasureFiend)
    );
}

#[test]
fn journey_summary_surfaces_final_tier_and_complete_goal() {
    let mut challenges = chapter_challenges();
    for c in challenges.iter_mut() {
        c.completed = true;
    }
    let mut milestones = Milestones::default();
    milestones.restore(all_milestones().to_vec());
    let mastery = mastery(99, MasteryRank::Paragon);

    let snapshot = chapter_journey_snapshot(&challenges, &milestones, &mastery, &texts(), 100);
    let summary = journey_summary(&snapshot);

    assert!(summary.contains("Torment Conqueror"));
    assert!(summary.contains("journey tiers complete"));
    assert!(summary.contains("all chapter journey goals complete"));
    assert_eq!(snapshot.score, snapshot.max_score);
}

#[test]
fn journey_next_tier_reward_summary_names_reward_payoff() {
    let snapshot = chapter_journey_snapshot(
        &chapter_challenges(),
        &Milestones::default(),
        &ChapterMastery::default(),
        &texts(),
        0,
    );

    assert_eq!(
        journey_next_tier_reward_summary(&snapshot),
        "next Sealbearer at 12 (+140g +4s +2e)"
    );

    let complete_snapshot = ChapterJourneySnapshot {
        tier: ChapterJourneyTier::TormentConqueror,
        score: 99,
        max_score: 99,
        percent: 100,
        next_tier: None,
        next_goal: "all chapter journey goals complete".to_string(),
    };
    assert_eq!(journey_next_tier_reward_summary(&complete_snapshot), "journey tiers complete");
}

#[test]
fn journey_reward_is_claimed_once_and_scales_by_tier() {
    let mut challenges = chapter_challenges();
    for id in [
        ChallengeId::SwiftClear,
        ChallengeId::Vaultbreaker,
        ChallengeId::Ritekeeper,
        ChallengeId::Riftwalker,
        ChallengeId::Sealbreaker,
        ChallengeId::Lorekeeper,
        ChallengeId::BountyHunter,
    ] {
        complete(&mut challenges, id);
    }
    let mut milestones = Milestones::default();
    for id in [
        MilestoneId::CacheOpened,
        MilestoneId::VaultOpened,
        MilestoneId::BloodObelisk,
        MilestoneId::EmberRift,
        MilestoneId::ReliquarySeal,
        MilestoneId::BossSlain,
    ] {
        milestones.unlock(id);
    }
    let mastery = mastery(20, MasteryRank::Paragon);
    let mut stats = RunStats::default();

    let reward = award_chapter_journey_reward(&mut stats, &challenges, &milestones, &mastery);

    assert_eq!(reward, ChapterJourneyTier::RiftHunter.reward());
    assert_eq!(stats.journey_score, 28);
    assert_eq!(stats.gold, reward.gold);
    assert_eq!(stats.ember_shards, reward.ember_shards);
    assert_eq!(stats.affix_essence, reward.affix_essence);
    assert!(stats.journey_reward_claimed);
    assert_eq!(
        award_chapter_journey_reward(&mut stats, &challenges, &milestones, &mastery),
        ChapterJourneyReward { gold: 0, ember_shards: 0, affix_essence: 0 }
    );
}

#[test]
fn journey_tiers_climb_with_score() {
    assert_eq!(journey_tier_for_score(0), ChapterJourneyTier::Initiate);
    assert_eq!(journey_tier_for_score(12), ChapterJourneyTier::Sealbearer);
    assert_eq!(journey_tier_for_score(28), ChapterJourneyTier::RiftHunter);
    assert_eq!(next_tier(11), Some((ChapterJourneyTier::Sealbearer, 12)));
    let mut last = 0;
    for score in 0..200 {
        let tier = journey_tier_for_score(score) as u32;
        assert!(tier >= last);
        last = tier;
    }
}

#[test]
fn claimed_journey_reward_pays_nothing_even_to_a_full_purse() {
    let challenges = chapter_challenges();
    let milestones = Milestones::new();
    let mastery = mastery(20, MasteryRank::Paragon);
    let before = RunStats {
        gold: u32::MAX,
        ember_shards: u32::MAX,
        affix_essence: u32::MAX,
        journey_reward_claimed: true,
        ..RunStats::default()
    };
    let mut stats = before;
    assert_eq!(
        award_chapter_journey_reward(&mut stats, &challenges, &milestones, &mastery),
        ChapterJourneyReward { gold: 0, ember_shards: 0, affix_essence: 0 }
    );
    assert_eq!(stats, before);
}
