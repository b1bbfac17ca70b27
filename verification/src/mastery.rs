//! Chapter mastery: points earned from a run's optional goals, the rank they
//! buy and its reward.
use vstd::prelude::*;
use crate::game::{RunStats, BOSS_BREAK_TARGET};
use crate::lore::LORE_ENTRY_COUNT;
use crate::text::{decimal, push_decimal, push_decimal_usize};
use crate::world::{
    ChallengeId, ChallengeProgress, ChallengeText, completed_count, count_completed,
    push_challenge_line, spec_challenge_line,
};

verus! {

/// The mastery ranks, lowest first.
#[derive(Clone, Copy, Debug, PartialEq, Eq, Structural)]
pub enum MasteryRank {
    Initiate,
    Adept,
    Master,
    Conqueror,
    Paragon,
}

/// What a mastery rank pays out.
#[derive(Clone, Copy, Debug, PartialEq, Eq, Structural)]
pub struct MasteryReward {
    pub gold: u32,
    pub ember_shards: u32,
    pub affix_essence: u32,
}

impl MasteryRank {
    /// Position of the rank, from 0 (Initiate) to 4 (Paragon).
    pub open spec fn index(self) -> int {
        match self {
            MasteryRank::Initiate => 0,
            MasteryRank::Adept => 1,
            MasteryRank::Master => 2,
            MasteryRank::Conqueror => 3,
            MasteryRank::Paragon => 4,
        }
    }

    /// The rank's display name.
    pub open spec fn spec_label(self) -> Seq<char> {
        match self {
            MasteryRank::Initiate => "Initiate"@,
            MasteryRank::Adept => "Adept"@,
            MasteryRank::Master => "Master"@,
            MasteryRank::Conqueror => "Conqueror"@,
            MasteryRank::Paragon => "Paragon"@,
        }
    }

    /// What the rank pays out.
    pub open spec fn spec_reward(self) -> MasteryReward {
        match self {
            MasteryRank::Initiate => MasteryReward { gold: 50, ember_shards: 1, affix_essence: 0 },
            MasteryRank::Adept => MasteryReward { gold: 140, ember_shards: 4, affix_essence: 2 },
            MasteryRank::Master => MasteryReward { gold: 260, ember_shards: 8, affix_essence: 5 },
            MasteryRank::Conqueror => MasteryReward { gold: 420, ember_shards: 12, affix_essence: 8 },
            MasteryRank::Paragon => MasteryReward { gold: 620, ember_shards: 18, affix_essence: 14 },
        }
    }

    /// The rank's display name.
    pub fn label(self) -> (r: &'static str)
        ensures
            r@ == self.spec_label(),
    {
        match self {
            MasteryRank::Initiate => "Initiate",
            MasteryRank::Adept => "Adept",
            MasteryRank::Master => "Master",
            MasteryRank::Conqueror => "Conqueror",
            MasteryRank::Paragon => "Paragon",
        }
    }

    /// What the rank pays out.
    pub fn reward(self) -> (r: MasteryReward)
        ensures
            r == self.spec_reward(),
    {
        match self {
            MasteryRank::Initiate => MasteryReward { gold: 50, ember_shards: 1, affix_essence: 0 },
            MasteryRank::Adept => MasteryReward { gold: 140, ember_shards: 4, affix_essence: 2 },
            MasteryRank::Master => MasteryReward { gold: 260, ember_shards: 8, affix_essence: 5 },
            MasteryRank::Conqueror => MasteryReward { gold: 420, ember_shards: 12, affix_essence: 8 },
            MasteryRank::Paragon => MasteryReward { gold: 620, ember_shards: 18, affix_essence: 14 },
        }
    }
}

impl Default for MasteryRank {
    fn default() -> (r: MasteryRank)
        ensures
            r == MasteryRank::Initiate,
    {
        MasteryRank::Initiate
    }
}

/// The mastery record of a run.
#[derive(Debug)]
pub struct ChapterMastery {
    pub points: u32,
    pub rank: MasteryRank,
    pub reward_claimed: bool,
    pub reward_gold: u32,
    pub reward_shards: u32,
    pub reward_essence: u32,
    pub boss_bonus_points: u32,
    pub latest: String,
}

impl ChapterMastery {
    /// Whether the record is that of a run with no mastery yet.
    pub open spec fn is_fresh(&self) -> bool {
        &&& self.points == 0
        &&& self.rank == MasteryRank::Initiate
        &&& !self.reward_claimed
        &&& self.reward_gold == 0
        &&& self.reward_shards == 0
        &&& self.reward_essence == 0
        &&& self.boss_bonus_points == 0
        &&& self.latest@ == Seq::<char>::empty()
    }

    /// A record with no mastery yet.
    pub fn new() -> (r: ChapterMastery)
        ensures
            r.is_fresh(),
    {
        ChapterMastery {
            points: 0,
            rank: MasteryRank::Initiate,
            reward_claimed: false,
            reward_gold: 0,
            reward_shards: 0,
            reward_essence: 0,
            boss_bonus_points: 0,
            latest: String::new(),
        }
    }

    /// Clears the record for a new run.
    pub fn reset(&mut self)
        ensures
            final(self).is_fresh(),
    {
        *self = ChapterMastery::new();
    }
}

impl Default for ChapterMastery {
    fn default() -> (r: ChapterMastery)
        ensures
            r.is_fresh(),
    {
        ChapterMastery::new()
    }
}

/// The rank `points` buy: 0-2 Initiate, 3-5 Adept, 6-9 Master, 10-14
/// Conqueror, 15 and more Paragon.
pub open spec fn spec_rank_for_points(points: u32) -> MasteryRank {
    if points <= 2 {
        MasteryRank::Initiate
    } else if points <= 5 {
        MasteryRank::Adept
    } else if points <= 9 {
        MasteryRank::Master
    } else if points <= 14 {
        MasteryRank::Conqueror
    } else {
        MasteryRank::Paragon
    }
}

/// The rank `points` buy.
pub fn rank_for_points(points: u32) -> (r: MasteryRank)
    ensures
        r == spec_rank_for_points(points),
{
    if points <= 2 {
        MasteryRank::Initiate
    } else if points <= 5 {
        MasteryRank::Adept
    } else if points <= 9 {
        MasteryRank::Master
    } else if points <= 14 {
        MasteryRank::Conqueror
    } else {
        MasteryRank::Paragon
    }
}

/// The next rank above the one `points` buy and the points it takes, or
/// none at Paragon.
pub open spec fn spec_next_rank_goal(points: u32) -> Option<(MasteryRank, u32)> {
    if points <= 2 {
        Some((MasteryRank::Adept, 3))
    } else if points <= 5 {
        Some((MasteryRank::Master, 6))
    } else if points <= 9 {
        Some((MasteryRank::Conqueror, 10))
    } else if points <= 14 {
        Some((MasteryRank::Paragon, 15))
    } else {
        None
    }
}

/// The next rank above the one `points` buy and the points it takes.
pub fn next_mastery_rank_goal(points: u32) -> (r: Option<(MasteryRank, u32)>)
    ensures
        r == spec_next_rank_goal(points),
{
    if points <= 2 {
        Some((MasteryRank::Adept, 3))
    } else if points <= 5 {
        Some((MasteryRank::Master, 6))
    } else if points <= 9 {
        Some((MasteryRank::Conqueror, 10))
    } else if points <= 14 {
        Some((MasteryRank::Paragon, 15))
    } else {
        None
    }
}

/// The mastery line: rank and points, and once claimed the boss bonus and
/// what was paid.
pub open spec fn spec_mastery_summary(m: ChapterMastery) -> Seq<char> {
    if m.reward_claimed {
        "Mastery: "@ + m.rank.spec_label() + " ("@ + decimal(m.points as nat) + " pts, boss +"@
            + decimal(m.boss_bonus_points as nat) + ", +"@ + decimal(m.reward_gold as nat)
            + " gold +"@ + decimal(m.reward_shards as nat) + " shards +"@ + decimal(
            m.reward_essence as nat,
        ) + " essence)"@
    } else {
        "Mastery: "@ + m.rank.spec_label() + " ("@ + decimal(m.points as nat) + " pts)"@
    }
}

/// The mastery line of the HUD.
pub fn mastery_summary(mastery: &ChapterMastery) -> (r: String)
    ensures
        r@ == spec_mastery_summary(*mastery),
{
    let mut s = String::from_str("Mastery: ");
    s.append(mastery.rank.label());
    s.append(" (");
    push_decimal(&mut s, mastery.points);
    if mastery.reward_claimed {
        s.append(" pts, boss +");
        push_decimal(&mut s, mastery.boss_bonus_points);
        s.append(", +");
        push_decimal(&mut s, mastery.reward_gold);
        s.append(" gold +");
        push_decimal(&mut s, mastery.reward_shards);
        s.append(" shards +");
        push_decimal(&mut s, mastery.reward_essence);
        s.append(" essence)");
    } else {
        s.append(" pts)");
    }
    s
}

/// Boss points: one for breaking Malrec's stagger twice, one for a kill
/// made without Ashen Enrage.
pub open spec fn spec_boss_mastery_points(s: RunStats) -> nat {
    (if s.boss_staggers >= BOSS_BREAK_TARGET { 1nat } else { 0 }) + (if s.kills > 0
        && !s.boss_enraged {
        1nat
    } else {
        0
    })
}

/// Boss points of the run.
pub fn boss_mastery_points(stats: &RunStats) -> (r: u32)
    ensures
        r == spec_boss_mastery_points(*stats),
{
    (if stats.boss_staggers >= BOSS_BREAK_TARGET { 1u32 } else { 0 }) + (if stats.kills > 0
        && !stats.boss_enraged {
        1u32
    } else {
        0
    })
}

/// Whether a completed Swift Clear challenge is listed.
pub open spec fn swift_counted(cs: Seq<ChallengeProgress>) -> bool {
    exists|k: int| 0 <= k < cs.len() && #[trigger] cs[k].id == ChallengeId::SwiftClear && cs[k].completed
}

/// Points from challenges: one per completed challenge, plus one while the
/// run is inside the Swift Clear time when Swift Clear is not yet counted.
pub open spec fn spec_challenge_points(cs: Seq<ChallengeProgress>, swift_window: bool) -> nat {
    completed_count(cs) + if swift_window && !swift_counted(cs) { 1nat } else { 0 }
}

/// Points from challenges; `swift_window` tells whether the run is still
/// inside the Swift Clear time (six minutes).
pub fn completed_challenge_points(challenges: &Vec<ChallengeProgress>, swift_window: bool) -> (r: u32)
    requires
        challenges@.len() < u32::MAX,
    ensures
        r == spec_challenge_points(challenges@, swift_window),
{
    let completed = count_completed(challenges);
    let mut swift = false;
    let mut i: usize = 0;
    while i < challenges.len()
        invariant
            i <= challenges@.len(),
            swift == exists|k: int| 0 <= k < i && #[trigger] challenges@[k].id == ChallengeId::SwiftClear
                && challenges@[k].completed,
        decreases challenges@.len() - i,
    {
        if challenges[i].id == ChallengeId::SwiftClear && challenges[i].completed {
            swift = true;
        }
        i += 1;
    }
    proof {
        crate::world::lemma_completed_count_bound(challenges@);
    }
    let mut points = completed as u32;
    if swift_window && !swift {
        points += 1;
    }
    points
}

/// The parts of a run that mastery points come from besides the counters.
#[derive(Clone, Copy, Debug, PartialEq, Eq, Structural)]
pub struct MasterySources {
    /// The run is still inside the Swift Clear time (six minutes).
    pub swift_window: bool,
    /// The chapter bounty is completed.
    pub bounty_completed: bool,
    /// Lore pages recovered.
    pub lore_entries: usize,
    /// Legendary codex powers unlocked.
    pub codex_unlocked: usize,
}

/// All mastery points of a run: challenges, the bounty, all three lore
/// pages, five Valor stacks, the boss points and one per codex power.
pub open spec fn spec_mastery_points(st: RunStats, src: MasterySources, cs: Seq<ChallengeProgress>) -> nat {
    spec_challenge_points(cs, src.swift_window) + (if src.bounty_completed { 1nat } else { 0 }) + (
    if src.lore_entries >= 3 {
        1nat
    } else {
        0
    }) + (if st.best_valor_stacks >= 5 { 1nat } else { 0 }) + spec_boss_mastery_points(st)
        + src.codex_unlocked as nat
}

/// All mastery points of a run.
pub fn calculate_mastery_points(stats: &RunStats, sources: &MasterySources, challenges: &Vec<ChallengeProgress>) -> (r: u32)
    requires
        challenges@.len() + sources.codex_unlocked + 6 <= u32::MAX,
    ensures
        r == spec_mastery_points(*stats, *sources, challenges@),
{
    proof {
        crate::world::lemma_completed_count_bound(challenges@);
    }
    let mut points = completed_challenge_points(challenges, sources.swift_window);
    if sources.bounty_completed {
        points += 1;
    }
    if sources.lore_entries >= 3 {
        points += 1;
    }
    if stats.best_valor_stacks >= 5 {
        points += 1;
    }
    points + boss_mastery_points(stats) + sources.codex_unlocked as u32
}


/// The line recorded when mastery is awarded.
pub open spec fn spec_award_line(rank: MasteryRank, boss_bonus: u32) -> Seq<char> {
    "Chapter mastery: "@ + rank.spec_label() + " (boss +"@ + decimal(boss_bonus as nat) + ")"@
}

/// Awards chapter mastery at the end of a run, once: the points give the
/// rank, the rank's reward is paid into the run and recorded with the boss
/// bonus. Returns the reward, or none when mastery was already awarded (then
/// nothing changes).
pub fn award_mastery(
    stats: &mut RunStats,
    mastery: &mut ChapterMastery,
    sources: &MasterySources,
    challenges: &Vec<ChallengeProgress>,
) -> (r: Option<MasteryReward>)
    requires
        !old(mastery).reward_claimed ==> challenges@.len() + sources.codex_unlocked + 6 <= u32::MAX,
        !old(mastery).reward_claimed ==> ({
            let reward = spec_rank_for_points(
                spec_mastery_points(*old(stats), *sources, challenges@) as u32,
            ).spec_reward();
            &&& old(stats).gold + reward.gold <= u32::MAX
            &&& old(stats).ember_shards + reward.ember_shards <= u32::MAX
            &&& old(stats).affix_essence + reward.affix_essence <= u32::MAX
        }),
    ensures
        old(mastery).reward_claimed ==> r is None && *final(stats) == *old(stats)
            && final(mastery).points == old(mastery).points && final(mastery).rank == old(mastery).rank
            && final(mastery).reward_claimed && final(mastery).latest@ == old(mastery).latest@,
        !old(mastery).reward_claimed ==> ({
            let points = spec_mastery_points(*old(stats), *sources, challenges@);
            let rank = spec_rank_for_points(points as u32);
            let reward = rank.spec_reward();
            &&& r == Some(reward)
            &&& final(mastery).points == points
            &&& final(mastery).rank == rank
            &&& final(mastery).reward_claimed
            &&& final(mastery).reward_gold == reward.gold
            &&& final(mastery).reward_shards == reward.ember_shards
            &&& final(mastery).reward_essence == reward.affix_essence
            &&& final(mastery).boss_bonus_points == spec_boss_mastery_points(*old(stats))
            &&& final(mastery).latest@ == spec_award_line(rank, final(mastery).boss_bonus_points)
            &&& *final(stats) == (RunStats {
                gold: (old(stats).gold + reward.gold) as u32,
                ember_shards: (old(stats).ember_shards + reward.ember_shards) as u32,
                affix_essence: (old(stats).affix_essence + reward.affix_essence) as u32,
                ..*old(stats)
            })
        }),
{
    if mastery.reward_claimed {
        return None;
    }
    let points = calculate_mastery_points(stats, sources, challenges);
    let rank = rank_for_points(points);
    let reward = rank.reward();
    let bonus = boss_mastery_points(stats);
    let mut latest = String::from_str("Chapter mastery: ");
    latest.append(rank.label());
    latest.append(" (boss +");
    push_decimal(&mut latest, bonus);
    latest.append(")");
    mastery.points = points;
    mastery.rank = rank;
    mastery.reward_claimed = true;
    mastery.reward_gold = reward.gold;
    mastery.reward_shards = reward.ember_shards;
    mastery.reward_essence = reward.affix_essence;
    mastery.boss_bonus_points = bonus;
    mastery.latest = latest;
    *stats = RunStats {
        gold: stats.gold + reward.gold,
        ember_shards: stats.ember_shards + reward.ember_shards,
        affix_essence: stats.affix_essence + reward.affix_essence,
        ..*stats
    };
    Some(reward)
}

/// The combat-log line of a mastery award.
pub fn mastery_award_text(rank: MasteryRank, reward: MasteryReward) -> (r: String)
    ensures
        r@ == "Chapter mastery "@ + rank.spec_label() + ": "@ + decimal(reward.gold as nat)
            + " gold, "@ + decimal(reward.ember_shards as nat) + " shards, "@ + decimal(
            reward.affix_essence as nat,
        ) + " essence"@,
{
    let mut s = String::from_str("Chapter mastery ");
    s.append(rank.label());
    s.append(": ");
    push_decimal(&mut s, reward.gold);
    s.append(" gold, ");
    push_decimal(&mut s, reward.ember_shards);
    s.append(" shards, ");
    push_decimal(&mut s, reward.affix_essence);
    s.append(" essence");
    s
}

/// The next mastery point source worth pursuing.
#[derive(Clone, Copy, Debug, PartialEq, Eq, Structural)]
pub enum MasteryGoal {
    /// An open challenge that can still be won this run.
    Challenge(ChallengeId),
    /// The chapter bounty.
    Bounty,
    /// The missing lore pages.
    Lore,
    /// Five Valor stacks.
    Valor,
    /// Breaking Malrec's stagger.
    BossBreak,
    /// Killing Malrec before Ashen Enrage.
    DefeatBeforeEnrage,
    /// Malrec enraged this run; the next run can still beat him before it.
    FutureRunBeforeEnrage,
    /// The next legendary power missing from the codex.
    CodexPower,
    /// Every source is secured.
    Complete,
}

/// Index of the first challenge that is open and can still be won: any open
/// challenge but Swift Clear, which needs the Swift Clear time.
pub open spec fn first_available(cs: Seq<ChallengeProgress>, swift_window: bool) -> Option<int>
    decreases cs.len(),
{
    if cs.len() == 0 {
        None
    } else if !cs[0].completed && (cs[0].id != ChallengeId::SwiftClear || swift_window) {
        Some(0)
    } else {
        match first_available(cs.drop_first(), swift_window) {
            Some(k) => Some(k + 1),
            None => None,
        }
    }
}

/// The next mastery goal: an available challenge first, then the bounty,
/// the lore pages, five Valor stacks, Malrec's stagger, a kill, an
/// enrage-free kill, a missing codex power; otherwise complete.
pub open spec fn spec_mastery_goal(
    st: RunStats,
    src: MasterySources,
    cs: Seq<ChallengeProgress>,
    codex_missing: bool,
) -> MasteryGoal {
    match first_available(cs, src.swift_window) {
        Some(k) => MasteryGoal::Challenge(cs[k].id),
        None => if !src.bounty_completed {
            MasteryGoal::Bounty
        } else if src.lore_entries < LORE_ENTRY_COUNT {
            MasteryGoal::Lore
        } else if st.best_valor_stacks < 5 {
            MasteryGoal::Valor
        } else if st.boss_staggers < BOSS_BREAK_TARGET {
            MasteryGoal::BossBreak
        } else if st.kills == 0 {
            MasteryGoal::DefeatBeforeEnrage
        } else if st.boss_enraged {
            MasteryGoal::FutureRunBeforeEnrage
        } else if codex_missing {
            MasteryGoal::CodexPower
        } else {
            MasteryGoal::Complete
        },
    }
}

proof fn lemma_first_available_in_range(cs: Seq<ChallengeProgress>, swift_window: bool)
    ensures
        first_available(cs, swift_window) matches Some(k) ==> 0 <= k < cs.len(),
    decreases cs.len(),
{
    if cs.len() > 0 {
        lemma_first_available_in_range(cs.drop_first(), swift_window);
    }
}

/// The next mastery goal; `codex_missing` tells whether a legendary power is
/// still missing from the codex.
pub fn mastery_next_goal(
    stats: &RunStats,
    sources: &MasterySources,
    challenges: &Vec<ChallengeProgress>,
    codex_missing: bool,
) -> (r: MasteryGoal)
    ensures
        r == spec_mastery_goal(*stats, *sources, challenges@, codex_missing),
{
    let mut i: usize = 0;
    assert(challenges@.skip(0) =~= challenges@);
    while i < challenges.len()
        invariant
            i <= challenges@.len(),
            first_available(challenges@, sources.swift_window) == match first_available(
                challenges@.skip(i as int),
                sources.swift_window,
            ) {
                Some(k) => Some(k + i),
                None => None,
            },
        decreases challenges@.len() - i,
    {
        proof {
            assert(challenges@.skip(i as int).drop_first() =~= challenges@.skip(i + 1));
            assert(challenges@.skip(i as int)[0] == challenges@[i as int]);
        }
        let c = challenges[i];
        if !c.completed && (c.id != ChallengeId::SwiftClear || sources.swift_window) {
            return MasteryGoal::Challenge(c.id);
        }
        i += 1;
    }
    assert(challenges@.skip(i as int).len() == 0);
    if !sources.bounty_completed {
        MasteryGoal::Bounty
    } else if sources.lore_entries < LORE_ENTRY_COUNT {
        MasteryGoal::Lore
    } else if stats.best_valor_stacks < 5 {
        MasteryGoal::Valor
    } else if stats.boss_staggers < BOSS_BREAK_TARGET {
        MasteryGoal::BossBreak
    } else if stats.kills == 0 {
        MasteryGoal::DefeatBeforeEnrage
    } else if stats.boss_enraged {
        MasteryGoal::FutureRunBeforeEnrage
    } else if codex_missing {
        MasteryGoal::CodexPower
    } else {
        MasteryGoal::Complete
    }
}

/// "next RANK at N pts", or "Paragon rank reached" at the top.
pub open spec fn spec_rank_goal_text(points: u32) -> Seq<char> {
    match spec_next_rank_goal(points) {
        Some((rank, threshold)) => "next "@ + rank.spec_label() + " at "@ + decimal(threshold as nat)
            + " pts"@,
        None => "Paragon rank reached"@,
    }
}

/// The text of a mastery goal, followed by the rank goal.
pub open spec fn spec_goal_text(
    goal: MasteryGoal,
    st: RunStats,
    src: MasterySources,
    texts: Seq<ChallengeText>,
    power: Seq<char>,
    rank_goal: Seq<char>,
) -> Seq<char> {
    match goal {
        MasteryGoal::Challenge(id) => "Mastery next: "@ + spec_challenge_line(texts, id, " - "@)
            + " | "@ + rank_goal,
        MasteryGoal::Bounty => "Mastery next: complete the bounty | "@ + rank_goal,
        MasteryGoal::Lore => "Mastery next: recover lore pages "@ + decimal(src.lore_entries as nat)
            + "/3 | "@ + rank_goal,
        MasteryGoal::Valor => "Mastery next: reach five Valor stacks ("@ + decimal(
            st.best_valor_stacks as nat,
        ) + "/5) | "@ + rank_goal,
        MasteryGoal::BossBreak => "Mastery next: break Malrec "@ + decimal(st.boss_staggers as nat)
            + "/2 times | "@ + rank_goal,
        MasteryGoal::DefeatBeforeEnrage => "Mastery next: defeat Malrec before Ashen Enrage | "@
            + rank_goal,
        MasteryGoal::FutureRunBeforeEnrage =>
            "Mastery next: future run defeat Malrec before Ashen Enrage | "@ + rank_goal,
        MasteryGoal::CodexPower => "Mastery next: unlock "@ + power + " in the codex | "@ + rank_goal,
        MasteryGoal::Complete => "Mastery complete: all chapter mastery point sources secured"@,
    }
}

/// The mastery guidance line: the next goal (challenge texts from `texts`,
/// the missing codex power's label in `next_missing_power`) and the next
/// rank.
pub fn mastery_next_goal_summary(
    stats: &RunStats,
    sources: &MasterySources,
    challenges: &Vec<ChallengeProgress>,
    texts: &Vec<ChallengeText>,
    next_missing_power: Option<&str>,
) -> (r: String)
    requires
        challenges@.len() + sources.codex_unlocked + 6 <= u32::MAX,
    ensures
        r@ == spec_goal_text(
            spec_mastery_goal(*stats, *sources, challenges@, next_missing_power is Some),
            *stats,
            *sources,
            texts@,
            match next_missing_power {
                Some(p) => p@,
                None => Seq::<char>::empty(),
            },
            spec_rank_goal_text(spec_mastery_points(*stats, *sources, challenges@) as u32),
        ),
{
    let points = calculate_mastery_points(stats, sources, challenges);
    let mut rank_goal = String::new();
    match next_mastery_rank_goal(points) {
        Some((rank, threshold)) => {
            rank_goal.append("next ");
            rank_goal.append(rank.label());
            rank_goal.append(" at ");
            push_decimal(&mut rank_goal, threshold);
            rank_goal.append(" pts");
        },
        None => {
            rank_goal.append("Paragon rank reached");
        },
    }
    let goal = mastery_next_goal(stats, sources, challenges, next_missing_power.is_some());
    let mut s = String::new();
    match goal {
        MasteryGoal::Challenge(id) => {
            s.append("Mastery next: ");
            push_challenge_line(&mut s, texts, id, " - ");
            s.append(" | ");
        },
        MasteryGoal::Bounty => {
            s.append("Mastery next: complete the bounty | ");
        },
        MasteryGoal::Lore => {
            s.append("Mastery next: recover lore pages ");
            push_decimal_usize(&mut s, sources.lore_entries);
            s.append("/3 | ");
        },
        MasteryGoal::Valor => {
            s.append("Mastery next: reach five Valor stacks (");
            push_decimal(&mut s, stats.best_valor_stacks);
            s.append("/5) | ");
        },
        MasteryGoal::BossBreak => {
            s.append("Mastery next: break Malrec ");
            push_decimal(&mut s, stats.boss_staggers);
            s.append("/2 times | ");
        },
        MasteryGoal::DefeatBeforeEnrage => {
            s.append("Mastery next: defeat Malrec before Ashen Enrage | ");
        },
        MasteryGoal::FutureRunBeforeEnrage => {
            s.append("Mastery next: future run defeat Malrec before Ashen Enrage | ");
        },
        MasteryGoal::CodexPower => {
            s.append("Mastery next: unlock ");
            match next_missing_power {
                Some(p) => {
                    s.append(p);
                },
                None => {},
            }
            s.append(" in the codex | ");
        },
        MasteryGoal::Complete => {
            return String::from_str("Mastery complete: all chapter mastery point sources secured");
        },
    }
    s.append(rank_goal.as_str());
    s
}


/// More mastery points never buy a lower rank, nor a smaller reward in gold,
/// shards or essence; and the next rank goal is the rank just above, at more
/// points than are held.
pub proof fn lemma_mastery_ranks_climb(a: u32, b: u32)
    ensures
        a <= b ==> spec_rank_for_points(a).index() <= spec_rank_for_points(b).index(),
        a <= b ==> {
            let ra = spec_rank_for_points(a).spec_reward();
            let rb = spec_rank_for_points(b).spec_reward();
            ra.gold <= rb.gold && ra.ember_shards <= rb.ember_shards && ra.affix_essence
                <= rb.affix_essence
        },
        match spec_next_rank_goal(a) {
            Some((r, at)) => r.index() == spec_rank_for_points(a).index() + 1 && a < at
                && spec_rank_for_points(at) == r,
            None => spec_rank_for_points(a).index() == 4,
        },
{
}


/// Swift Clear is counted once: a run inside the Swift Clear time earns one
/// point beyond its completed challenges only while no completed Swift Clear
/// is listed; with one listed, or outside the window, the points are exactly
/// the completed challenges.
pub proof fn lemma_swift_clear_counted_once(cs: Seq<ChallengeProgress>, swift_window: bool)
    ensures
        (exists|k: int| 0 <= k < cs.len() && #[trigger] cs[k].id == ChallengeId::SwiftClear
            && cs[k].completed) ==> spec_challenge_points(cs, swift_window) == completed_count(cs),
        !swift_window ==> spec_challenge_points(cs, swift_window) == completed_count(cs),
        swift_window && (forall|k: int| 0 <= k < cs.len() ==> !(#[trigger] cs[k].id
            == ChallengeId::SwiftClear && cs[k].completed)) ==> spec_challenge_points(
            cs,
            swift_window,
        ) == completed_count(cs) + 1,
        spec_challenge_points(cs, swift_window) <= completed_count(cs) + 1,
{
}
} // verus!
