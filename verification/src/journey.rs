//! The chapter journey: a score over challenges, milestones and mastery,
//! the tier it reaches, and what to pursue next.
use vstd::prelude::*;
use crate::game::RunStats;
use crate::mastery::ChapterMastery;
use crate::milestone::{Milestones, MilestoneId, MILESTONE_COUNT};
use crate::text::{decimal, push_decimal};
use crate::world::{
    ChallengeId, ChallengeProgress, ChallengeText, completed_count, count_completed, has_open,
    is_open, push_challenge_line, spec_challenge_line,
};

verus! {

/// Mastery points that count toward the journey score at most.
pub const MASTERY_SCORE_CAP: u32 = 15;

/// The journey tiers, lowest first.
#[derive(Clone, Copy, Debug, PartialEq, Eq, Structural)]
pub enum ChapterJourneyTier {
    Initiate,
    Sealbearer,
    RiftHunter,
    AshenChampion,
    TormentConqueror,
}

/// What reaching a journey tier pays.
#[derive(Clone, Copy, Debug, PartialEq, Eq, Structural)]
pub struct ChapterJourneyReward {
    pub gold: u32,
    pub ember_shards: u32,
    pub affix_essence: u32,
}

impl ChapterJourneyTier {
    /// The tier's display name.
    pub open spec fn spec_label(self) -> Seq<char> {
        match self {
            ChapterJourneyTier::Initiate => "Initiate"@,
            ChapterJourneyTier::Sealbearer => "Sealbearer"@,
            ChapterJourneyTier::RiftHunter => "Rift Hunter"@,
            ChapterJourneyTier::AshenChampion => "Ashen Champion"@,
            ChapterJourneyTier::TormentConqueror => "Torment Conqueror"@,
        }
    }

    /// What the tier pays.
    pub open spec fn spec_reward(self) -> ChapterJourneyReward {
        match self {
            ChapterJourneyTier::Initiate => ChapterJourneyReward { gold: 40, ember_shards: 1, affix_essence: 0 },
            ChapterJourneyTier::Sealbearer => ChapterJourneyReward { gold: 140, ember_shards: 4, affix_essence: 2 },
            ChapterJourneyTier::RiftHunter => ChapterJourneyReward { gold: 260, ember_shards: 8, affix_essence: 5 },
            ChapterJourneyTier::AshenChampion => ChapterJourneyReward { gold: 430, ember_shards: 13, affix_essence: 9 },
            ChapterJourneyTier::TormentConqueror => ChapterJourneyReward { gold: 700, ember_shards: 20, affix_essence: 16 },
        }
    }

    /// The score at which the tier is reached.
    pub open spec fn threshold(self) -> u32 {
        match self {
            ChapterJourneyTier::Initiate => 0,
            ChapterJourneyTier::Sealbearer => 12,
            ChapterJourneyTier::RiftHunter => 28,
            ChapterJourneyTier::AshenChampion => 48,
            ChapterJourneyTier::TormentConqueror => 72,
        }
    }

    /// Position of the tier, from 0 (Initiate) to 4 (Torment Conqueror).
    pub open spec fn index(self) -> int {
        match self {
            ChapterJourneyTier::Initiate => 0,
            ChapterJourneyTier::Sealbearer => 1,
            ChapterJourneyTier::RiftHunter => 2,
            ChapterJourneyTier::AshenChampion => 3,
            ChapterJourneyTier::TormentConqueror => 4,
        }
    }

    /// The tier's display name.
    pub fn label(self) -> (r: &'static str)
        ensures
            r@ == self.spec_label(),
    {
        match self {
            ChapterJourneyTier::Initiate => "Initiate",
            ChapterJourneyTier::Sealbearer => "Sealbearer",
            ChapterJourneyTier::RiftHunter => "Rift Hunter",
            ChapterJourneyTier::AshenChampion => "Ashen Champion",
            ChapterJourneyTier::TormentConqueror => "Torment Conqueror",
        }
    }

    /// What the tier pays.
    pub fn reward(self) -> (r: ChapterJourneyReward)
        ensures
            r == self.spec_reward(),
    {
        match self {
            ChapterJourneyTier::Initiate => ChapterJourneyReward { gold: 40, ember_shards: 1, affix_essence: 0 },
            ChapterJourneyTier::Sealbearer => ChapterJourneyReward { gold: 140, ember_shards: 4, affix_essence: 2 },
            ChapterJourneyTier::RiftHunter => ChapterJourneyReward { gold: 260, ember_shards: 8, affix_essence: 5 },
            ChapterJourneyTier::AshenChampion => ChapterJourneyReward { gold: 430, ember_shards: 13, affix_essence: 9 },
            ChapterJourneyTier::TormentConqueror => ChapterJourneyReward { gold: 700, ember_shards: 20, affix_essence: 16 },
        }
    }
}

/// The highest tier whose threshold `score` reaches.
pub open spec fn spec_tier_for_score(score: u32) -> ChapterJourneyTier {
    if score >= 72 {
        ChapterJourneyTier::TormentConqueror
    } else if score >= 48 {
        ChapterJourneyTier::AshenChampion
    } else if score >= 28 {
        ChapterJourneyTier::RiftHunter
    } else if score >= 12 {
        ChapterJourneyTier::Sealbearer
    } else {
        ChapterJourneyTier::Initiate
    }
}

/// The lowest tier whose threshold `score` has not reached, with that
/// threshold; none once every tier is reached.
pub open spec fn spec_next_tier(score: u32) -> Option<(ChapterJourneyTier, u32)> {
    if score < 12 {
        Some((ChapterJourneyTier::Sealbearer, 12))
    } else if score < 28 {
        Some((ChapterJourneyTier::RiftHunter, 28))
    } else if score < 48 {
        Some((ChapterJourneyTier::AshenChampion, 48))
    } else if score < 72 {
        Some((ChapterJourneyTier::TormentConqueror, 72))
    } else {
        None
    }
}

/// The journey tier a score reaches.
pub fn journey_tier_for_score(score: u32) -> (r: ChapterJourneyTier)
    ensures
        r == spec_tier_for_score(score),
{
    if score >= 72 {
        ChapterJourneyTier::TormentConqueror
    } else if score >= 48 {
        ChapterJourneyTier::AshenChampion
    } else if score >= 28 {
        ChapterJourneyTier::RiftHunter
    } else if score >= 12 {
        ChapterJourneyTier::Sealbearer
    } else {
        ChapterJourneyTier::Initiate
    }
}

/// The next tier to reach from `score`, with its threshold.
pub fn next_tier(score: u32) -> (r: Option<(ChapterJourneyTier, u32)>)
    ensures
        r == spec_next_tier(score),
{
    if score < 12 {
        Some((ChapterJourneyTier::Sealbearer, 12))
    } else if score < 28 {
        Some((ChapterJourneyTier::RiftHunter, 28))
    } else if score < 48 {
        Some((ChapterJourneyTier::AshenChampion, 48))
    } else if score < 72 {
        Some((ChapterJourneyTier::TormentConqueror, 72))
    } else {
        None
    }
}

/// The journey score: completed challenges, unlocked milestones and mastery
/// points up to the cap.
pub open spec fn spec_journey_score(cs: Seq<ChallengeProgress>, unlocked: nat, mastery_points: u32) -> nat {
    completed_count(cs) + unlocked + if mastery_points < MASTERY_SCORE_CAP {
        mastery_points as nat
    } else {
        MASTERY_SCORE_CAP as nat
    }
}

/// The highest score a chapter allows: every challenge, every milestone and
/// the mastery cap.
pub open spec fn spec_max_score(challenge_count: nat) -> nat {
    challenge_count + MILESTONE_COUNT as nat + MASTERY_SCORE_CAP as nat
}

/// The journey score of a run.
pub fn journey_score(challenges: &Vec<ChallengeProgress>, milestones: &Milestones, mastery: &ChapterMastery) -> (r: u32)
    requires
        challenges@.len() + milestones.unlocked@.len() + MASTERY_SCORE_CAP <= u32::MAX,
    ensures
        r == spec_journey_score(challenges@, milestones.unlocked@.len(), mastery.points),
{
    proof {
        crate::world::lemma_completed_count_bound(challenges@);
    }
    let completed = count_completed(challenges) as u32;
    let capped = if mastery.points < MASTERY_SCORE_CAP { mastery.points } else { MASTERY_SCORE_CAP };
    completed + milestones.unlocked.len() as u32 + capped
}

/// The highest journey score a chapter with `challenge_count` challenges
/// allows.
pub fn journey_max_score(challenge_count: usize) -> (r: u32)
    requires
        challenge_count + MILESTONE_COUNT + MASTERY_SCORE_CAP <= u32::MAX,
    ensures
        r == spec_max_score(challenge_count as nat),
{
    challenge_count as u32 + MILESTONE_COUNT as u32 + MASTERY_SCORE_CAP
}

/// The challenges a journey points at, most worthwhile first.
pub open spec fn spec_priority_challenges() -> Seq<ChallengeId> {
    seq![ChallengeId::SwiftClear, ChallengeId::TreasureHunter, ChallengeId::TreasureVault, ChallengeId::CarnageMaster, ChallengeId::Vaultbreaker, ChallengeId::Ritekeeper, ChallengeId::Riftwalker, ChallengeId::Sealbreaker, ChallengeId::Lorekeeper, ChallengeId::CodexAdept, ChallengeId::SetAdept, ChallengeId::BountyHunter, ChallengeId::TalentAdept, ChallengeId::AshenAlchemy, ChallengeId::LootCurator, ChallengeId::LastStand, ChallengeId::SealWarden, ChallengeId::ChampionBreaker, ChallengeId::AffixCodex, ChallengeId::NemesisHunter, ChallengeId::GemAdept, ChallengeId::RuneWeaver, ChallengeId::ArmoryAdept, ChallengeId::PortalWayfarer, ChallengeId::GlorySeeker, ChallengeId::BossBreaker, ChallengeId::SoulSigil, ChallengeId::TrophyCache, ChallengeId::EnrageDenied, ChallengeId::TormentClear, ChallengeId::PrimalCache, ChallengeId::ReliquaryConquest]
}

/// The milestones a journey points at once no priority challenge is open,
/// most worthwhile first.
pub open spec fn spec_priority_milestones() -> Seq<MilestoneId> {
    seq![MilestoneId::CacheOpened, MilestoneId::VaultOpened, MilestoneId::BloodObelisk, MilestoneId::EmberRift, MilestoneId::ReliquarySeal, MilestoneId::TreasureFiend, MilestoneId::TreasureVault, MilestoneId::CarnageMaster, MilestoneId::Lorekeeper, MilestoneId::BountyCompleted, MilestoneId::LastStand, MilestoneId::SealWarden, MilestoneId::ChampionPack, MilestoneId::AffixCodex, MilestoneId::NemesisSlain, MilestoneId::SetAdept, MilestoneId::GemAdept, MilestoneId::BossBreaker, MilestoneId::SoulSigil, MilestoneId::TrophyCache, MilestoneId::PrimalCache, MilestoneId::AshenDuel, MilestoneId::BossSlain, MilestoneId::CodexArchivist]
}

/// The challenges a journey points at, most worthwhile first.
pub fn priority_challenges() -> (r: [ChallengeId; 32])
    ensures
        r@ == spec_priority_challenges(),
{
    let r = [
        ChallengeId::SwiftClear,
        ChallengeId::TreasureHunter,
        ChallengeId::TreasureVault,
        ChallengeId::CarnageMaster,
        ChallengeId::Vaultbreaker,
        ChallengeId::Ritekeeper,
        ChallengeId::Riftwalker,
        ChallengeId::Sealbreaker,
        ChallengeId::Lorekeeper,
        ChallengeId::CodexAdept,
        ChallengeId::SetAdept,
        ChallengeId::BountyHunter,
        ChallengeId::TalentAdept,
        ChallengeId::AshenAlchemy,
        ChallengeId::LootCurator,
        ChallengeId::LastStand,
        ChallengeId::SealWarden,
        ChallengeId::ChampionBreaker,
        ChallengeId::AffixCodex,
        ChallengeId::NemesisHunter,
        ChallengeId::GemAdept,
        ChallengeId::RuneWeaver,
        ChallengeId::ArmoryAdept,
        ChallengeId::PortalWayfarer,
        ChallengeId::GlorySeeker,
        ChallengeId::BossBreaker,
        ChallengeId::SoulSigil,
        ChallengeId::TrophyCache,
        ChallengeId::EnrageDenied,
        ChallengeId::TormentClear,
        ChallengeId::PrimalCache,
        ChallengeId::ReliquaryConquest,
    ];
    assert(r@ =~= spec_priority_challenges());
    r
}

/// The milestones a journey points at, most worthwhile first.
pub fn priority_milestones() -> (r: [MilestoneId; 24])
    ensures
        r@ == spec_priority_milestones(),
{
    let r = [
        MilestoneId::CacheOpened,
        MilestoneId::VaultOpened,
        MilestoneId::BloodObelisk,
        MilestoneId::EmberRift,
        MilestoneId::ReliquarySeal,
        MilestoneId::TreasureFiend,
        MilestoneId::TreasureVault,
        MilestoneId::CarnageMaster,
        MilestoneId::Lorekeeper,
        MilestoneId::BountyCompleted,
        MilestoneId::LastStand,
        MilestoneId::SealWarden,
        MilestoneId::ChampionPack,
        MilestoneId::AffixCodex,
        MilestoneId::NemesisSlain,
        MilestoneId::SetAdept,
        MilestoneId::GemAdept,
        MilestoneId::BossBreaker,
        MilestoneId::SoulSigil,
        MilestoneId::TrophyCache,
        MilestoneId::PrimalCache,
        MilestoneId::AshenDuel,
        MilestoneId::BossSlain,
        MilestoneId::CodexArchivist,
    ];
    assert(r@ =~= spec_priority_milestones());
    r
}

/// What the journey says to pursue next.
#[derive(Clone, Copy, Debug, PartialEq, Eq, Structural)]
pub enum JourneyGoal {
    Challenge(ChallengeId),
    Milestone(MilestoneId),
    Complete,
}

/// Index in `ids` of the first priority challenge still open in `cs`.
pub open spec fn first_open_challenge(ids: Seq<ChallengeId>, cs: Seq<ChallengeProgress>) -> Option<int>
    decreases ids.len(),
{
    if ids.len() == 0 {
        None
    } else if has_open(cs, ids[0]) {
        Some(0)
    } else {
        match first_open_challenge(ids.drop_first(), cs) {
            Some(k) => Some(k + 1),
            None => None,
        }
    }
}

/// Index in `ids` of the first priority milestone not yet unlocked.
pub open spec fn first_locked_milestone(ids: Seq<MilestoneId>, unlocked: Seq<MilestoneId>) -> Option<int>
    decreases ids.len(),
{
    if ids.len() == 0 {
        None
    } else if !unlocked.contains(ids[0]) {
        Some(0)
    } else {
        match first_locked_milestone(ids.drop_first(), unlocked) {
            Some(k) => Some(k + 1),
            None => None,
        }
    }
}

/// The journey's next goal: the first priority challenge still open, else
/// the first priority milestone still locked, else complete.
pub open spec fn spec_next_goal(cs: Seq<ChallengeProgress>, unlocked: Seq<MilestoneId>) -> JourneyGoal {
    match first_open_challenge(spec_priority_challenges(), cs) {
        Some(k) => JourneyGoal::Challenge(spec_priority_challenges()[k]),
        None => match first_locked_milestone(spec_priority_milestones(), unlocked) {
            Some(k) => JourneyGoal::Milestone(spec_priority_milestones()[k]),
            None => JourneyGoal::Complete,
        },
    }
}

/// The journey's next goal.
pub fn next_journey_goal(challenges: &Vec<ChallengeProgress>, milestones: &Milestones) -> (r: JourneyGoal)
    ensures
        r == spec_next_goal(challenges@, milestones.unlocked@),
{
    let ids = priority_challenges();
    let ghost pc = spec_priority_challenges();
    let mut i: usize = 0;
    assert(pc.skip(0) =~= pc);
    while i < 32
        invariant
            i <= 32,
            ids@ == pc,
            pc == spec_priority_challenges(),
            pc.len() == 32,
            first_open_challenge(pc, challenges@) == match first_open_challenge(pc.skip(i as int), challenges@) {
                Some(k) => Some(k + i),
                None => None,
            },
        decreases 32 - i,
    {
        proof {
            assert(pc.skip(i as int).drop_first() =~= pc.skip(i + 1));
            assert(pc.skip(i as int)[0] == pc[i as int]);
        }
        let id = ids[i];
        assert(id == pc[i as int]);
        if is_open(challenges, id) {
            assert(first_open_challenge(pc.skip(i as int), challenges@) == Some(0int));
            assert(first_open_challenge(pc, challenges@) == Some(i as int));
            return JourneyGoal::Challenge(id);
        }
        i += 1;
    }
    assert(pc.skip(32).len() == 0);
    let mids = priority_milestones();
    let ghost pm = spec_priority_milestones();
    let mut j: usize = 0;
    assert(pm.skip(0) =~= pm);
    while j < 24
        invariant
            j <= 24,
            mids@ == pm,
            pm == spec_priority_milestones(),
            pc == spec_priority_challenges(),
            pm.len() == 24,
            first_open_challenge(pc, challenges@) is None,
            first_locked_milestone(pm, milestones.unlocked@) == match first_locked_milestone(pm.skip(j as int), milestones.unlocked@) {
                Some(k) => Some(k + j),
                None => None,
            },
        decreases 24 - j,
    {
        proof {
            assert(pm.skip(j as int).drop_first() =~= pm.skip(j + 1));
            assert(pm.skip(j as int)[0] == pm[j as int]);
        }
        let m = mids[j];
        assert(m == pm[j as int]);
        if !milestones.has(m) {
            assert(first_locked_milestone(pm.skip(j as int), milestones.unlocked@) == Some(0int));
            assert(first_locked_milestone(pm, milestones.unlocked@) == Some(j as int));
            return JourneyGoal::Milestone(m);
        }
        j += 1;
    }
    assert(pm.skip(24).len() == 0);
    JourneyGoal::Complete
}

/// The text of a journey goal: "pursue label: description" for a challenge
/// (texts from `texts`), "pursue title: summary" for a milestone.
pub open spec fn spec_goal_text(goal: JourneyGoal, texts: Seq<ChallengeText>) -> Seq<char> {
    match goal {
        JourneyGoal::Challenge(id) => "pursue "@ + spec_challenge_line(texts, id, ": "@),
        JourneyGoal::Milestone(m) => "pursue "@ + m.spec_title() + ": "@ + m.spec_summary(),
        JourneyGoal::Complete => "all chapter journey goals complete"@,
    }
}

/// The text of a journey goal.
pub fn journey_goal_text(goal: JourneyGoal, texts: &Vec<ChallengeText>) -> (r: String)
    ensures
        r@ == spec_goal_text(goal, texts@),
{
    match goal {
        JourneyGoal::Challenge(id) => {
            let mut s = String::from_str("pursue ");
            push_challenge_line(&mut s, texts, id, ": ");
            s
        },
        JourneyGoal::Milestone(m) => {
            let mut s = String::from_str("pursue ");
            s.append(m.title());
            s.append(": ");
            s.append(m.summary());
            s
        },
        JourneyGoal::Complete => String::from_str("all chapter journey goals complete"),
    }
}

/// Where a run stands on its chapter journey.
#[derive(Debug)]
pub struct ChapterJourneySnapshot {
    pub tier: ChapterJourneyTier,
    pub score: u32,
    pub max_score: u32,
    pub percent: u32,
    pub next_tier: Option<(ChapterJourneyTier, u32)>,
    pub next_goal: String,
}

/// The journey snapshot of a run. `percent` is the score as a whole
/// percentage of the maximum, which the caller rounds.
pub fn chapter_journey_snapshot(
    challenges: &Vec<ChallengeProgress>,
    milestones: &Milestones,
    mastery: &ChapterMastery,
    texts: &Vec<ChallengeText>,
    percent: u32,
) -> (r: ChapterJourneySnapshot)
    requires
        challenges@.len() + milestones.unlocked@.len() + MILESTONE_COUNT + MASTERY_SCORE_CAP <= u32::MAX,
    ensures
        r.score == spec_journey_score(challenges@, milestones.unlocked@.len(), mastery.points),
        r.max_score == spec_max_score(challenges@.len()),
        r.tier == spec_tier_for_score(r.score),
        r.next_tier == spec_next_tier(r.score),
        r.percent == percent,
        r.next_goal@ == spec_goal_text(spec_next_goal(challenges@, milestones.unlocked@), texts@),
{
    let score = journey_score(challenges, milestones, mastery);
    let max_score = journey_max_score(challenges.len());
    let goal = next_journey_goal(challenges, milestones);
    ChapterJourneySnapshot {
        tier: journey_tier_for_score(score),
        score,
        max_score,
        percent,
        next_tier: next_tier(score),
        next_goal: journey_goal_text(goal, texts),
    }
}

/// "next TIER at N (+Gg +Ss +Ee)" for the next tier, or "journey tiers
/// complete".
pub open spec fn spec_next_tier_text(next: Option<(ChapterJourneyTier, u32)>) -> Seq<char> {
    match next {
        Some((tier, threshold)) => "next "@ + tier.spec_label() + " at "@ + decimal(threshold as nat)
            + " (+"@ + decimal(tier.spec_reward().gold as nat) + "g +"@ + decimal(
            tier.spec_reward().ember_shards as nat,
        ) + "s +"@ + decimal(tier.spec_reward().affix_essence as nat) + "e)"@,
        None => "journey tiers complete"@,
    }
}

/// The next tier and what it pays, or that every tier is reached.
pub fn journey_next_tier_reward_summary(snapshot: &ChapterJourneySnapshot) -> (r: String)
    ensures
        r@ == spec_next_tier_text(snapshot.next_tier),
{
    match snapshot.next_tier {
        Some((tier, threshold)) => {
            let reward = tier.reward();
            let mut s = String::from_str("next ");
            s.append(tier.label());
            s.append(" at ");
            push_decimal(&mut s, threshold);
            s.append(" (+");
            push_decimal(&mut s, reward.gold);
            s.append("g +");
            push_decimal(&mut s, reward.ember_shards);
            s.append("s +");
            push_decimal(&mut s, reward.affix_essence);
            s.append("e)");
            s
        },
        None => String::from_str("journey tiers complete"),
    }
}

/// "Journey: TIER score/max (percent%) | next tier | next goal".
pub open spec fn spec_journey_summary(snap: ChapterJourneySnapshot) -> Seq<char> {
    "Journey: "@ + snap.tier.spec_label() + " "@ + decimal(snap.score as nat) + "/"@ + decimal(
        snap.max_score as nat,
    ) + " ("@ + decimal(snap.percent as nat) + "%) | "@ + spec_next_tier_text(snap.next_tier)
        + " | "@ + snap.next_goal@
}

/// The journey line of a snapshot.
pub fn journey_summary(snapshot: &ChapterJourneySnapshot) -> (r: String)
    ensures
        r@ == spec_journey_summary(*snapshot),
{
    let next = journey_next_tier_reward_summary(snapshot);
    let mut s = String::from_str("Journey: ");
    s.append(snapshot.tier.label());
    s.append(" ");
    push_decimal(&mut s, snapshot.score);
    s.append("/");
    push_decimal(&mut s, snapshot.max_score);
    s.append(" (");
    push_decimal(&mut s, snapshot.percent);
    s.append("%) | ");
    s.append(next.as_str());
    s.append(" | ");
    s.append(snapshot.next_goal.as_str());
    s
}

/// Pays the journey reward of the tier the run reached, once per run, and
/// records score and reward; a second call pays nothing and changes nothing.
pub fn award_chapter_journey_reward(
    stats: &mut RunStats,
    challenges: &Vec<ChallengeProgress>,
    milestones: &Milestones,
    mastery: &ChapterMastery,
) -> (r: ChapterJourneyReward)
    requires
        !old(stats).journey_reward_claimed ==> challenges@.len() + milestones.unlocked@.len()
            + MASTERY_SCORE_CAP <= u32::MAX,
        !old(stats).journey_reward_claimed ==> ({
            let score = spec_journey_score(challenges@, milestones.unlocked@.len(), mastery.points);
            let reward = spec_tier_for_score(score as u32).spec_reward();
            &&& old(stats).gold + reward.gold <= u32::MAX
            &&& old(stats).ember_shards + reward.ember_shards <= u32::MAX
            &&& old(stats).affix_essence + reward.affix_essence <= u32::MAX
        }),
    ensures
        old(stats).journey_reward_claimed ==> r == (ChapterJourneyReward { gold: 0, ember_shards: 0, affix_essence: 0 })
            && *final(stats) == *old(stats),
        final(stats).journey_reward_claimed,
        !old(stats).journey_reward_claimed ==> ({
            let score = spec_journey_score(challenges@, milestones.unlocked@.len(), mastery.points);
            let reward = spec_tier_for_score(score as u32).spec_reward();
            &&& r == reward
            &&& *final(stats) == (RunStats {
                journey_score: score as u32,
                journey_bonus_gold: reward.gold,
                journey_bonus_shards: reward.ember_shards,
                journey_bonus_essence: reward.affix_essence,
                gold: (old(stats).gold + reward.gold) as u32,
                ember_shards: (old(stats).ember_shards + reward.ember_shards) as u32,
                affix_essence: (old(stats).affix_essence + reward.affix_essence) as u32,
                journey_reward_claimed: true,
                ..*old(stats)
            })
        }),
{
    if stats.journey_reward_claimed {
        return ChapterJourneyReward { gold: 0, ember_shards: 0, affix_essence: 0 };
    }
    let score = journey_score(challenges, milestones, mastery);
    let reward = journey_tier_for_score(score).reward();
    *stats = RunStats {
        journey_score: score,
        journey_bonus_gold: reward.gold,
        journey_bonus_shards: reward.ember_shards,
        journey_bonus_essence: reward.affix_essence,
        gold: stats.gold + reward.gold,
        ember_shards: stats.ember_shards + reward.ember_shards,
        affix_essence: stats.affix_essence + reward.affix_essence,
        journey_reward_claimed: true,
        ..*stats
    };
    reward
}


/// A higher score never earns a lower journey tier, nor a smaller journey
/// reward in gold, shards or essence; the tier a score earns is reached at
/// or below it; and the next tier is the one just above, reached at its own
/// threshold, above the score.
pub proof fn lemma_journey_tiers_climb(a: u32, b: u32)
    ensures
        a <= b ==> spec_tier_for_score(a).index() <= spec_tier_for_score(b).index(),
        a <= b ==> {
            let ra = spec_tier_for_score(a).spec_reward();
            let rb = spec_tier_for_score(b).spec_reward();
            ra.gold <= rb.gold && ra.ember_shards <= rb.ember_shards && ra.affix_essence
                <= rb.affix_essence
        },
        spec_tier_for_score(a).threshold() <= a,
        match spec_next_tier(a) {
            Some((t, at)) => t.index() == spec_tier_for_score(a).index() + 1 && at == t.threshold()
                && a < at,
            None => spec_tier_for_score(a).index() == 4,
        },
{
}

} // verus!
