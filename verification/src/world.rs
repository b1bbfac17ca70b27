//! The chapter's interactables and challenges, as the rules read them.
use vstd::prelude::*;

verus! {

/// The kinds of interactable objects a chapter holds.
#[derive(Clone, Copy, Debug, PartialEq, Eq, Structural)]
pub enum InteractableKind {
    Cache,
    WeaponShrine,
    FortuneShrine,
    StormShrine,
    AshenPylon,
    HealingWell,
    CursedShrine,
    ReliquaryVault,
    Altar,
    Merchant,
    LorePage,
    BloodObelisk,
    EmberRift,
}

/// The chapter challenges that journey goals point at.
#[derive(Clone, Copy, Debug, PartialEq, Eq, Structural)]
pub enum ChallengeId {
    SwiftClear,
    TreasureHunter,
    TreasureVault,
    CarnageMaster,
    Vaultbreaker,
    Ritekeeper,
    Riftwalker,
    Sealbreaker,
    Lorekeeper,
    CodexAdept,
    SetAdept,
    BountyHunter,
    TalentAdept,
    AshenAlchemy,
    LootCurator,
    LastStand,
    SealWarden,
    ChampionBreaker,
    AffixCodex,
    NemesisHunter,
    GemAdept,
    RuneWeaver,
    ArmoryAdept,
    PortalWayfarer,
    GlorySeeker,
    BossBreaker,
    SoulSigil,
    TrophyCache,
    EnrageDenied,
    TormentClear,
    PrimalCache,
    ReliquaryConquest,
}

/// One challenge of the chapter and how far it got.
#[derive(Clone, Copy, Debug, PartialEq, Eq, Structural)]
pub struct ChallengeProgress {
    pub id: ChallengeId,
    pub completed: bool,
    pub reward_claimed: bool,
}

/// The chapter's challenges and their progress.
#[derive(Debug)]
pub struct ChapterChallenges {
    pub challenges: Vec<ChallengeProgress>,
}

/// Number of completed challenges in `cs`.
pub open spec fn completed_count(cs: Seq<ChallengeProgress>) -> nat
    decreases cs.len(),
{
    if cs.len() == 0 {
        0
    } else {
        completed_count(cs.drop_last()) + if cs.last().completed { 1nat } else { 0 }
    }
}

pub(crate) proof fn lemma_completed_count_bound(cs: Seq<ChallengeProgress>)
    ensures
        completed_count(cs) <= cs.len(),
    decreases cs.len(),
{
    if cs.len() > 0 {
        lemma_completed_count_bound(cs.drop_last());
    }
}

/// Number of completed challenges.
pub fn count_completed(challenges: &Vec<ChallengeProgress>) -> (r: usize)
    ensures
        r == completed_count(challenges@),
{
    let mut n: usize = 0;
    let mut i: usize = 0;
    while i < challenges.len()
        invariant
            i <= challenges@.len(),
            n == completed_count(challenges@.take(i as int)),
            n <= i,
        decreases challenges@.len() - i,
    {
        proof {
            assert(challenges@.take(i + 1).drop_last() =~= challenges@.take(i as int));
        }
        if challenges[i].completed {
            n += 1;
        }
        i += 1;
    }
    assert(challenges@.take(challenges@.len() as int) =~= challenges@);
    n
}

/// Whether some challenge with id `id` is not yet completed.
pub open spec fn has_open(cs: Seq<ChallengeProgress>, id: ChallengeId) -> bool {
    exists|k: int| 0 <= k < cs.len() && #[trigger] cs[k].id == id && !cs[k].completed
}

/// Whether some challenge with id `id` is not yet completed.
pub fn is_open(challenges: &Vec<ChallengeProgress>, id: ChallengeId) -> (r: bool)
    ensures
        r == has_open(challenges@, id),
{
    let mut i: usize = 0;
    while i < challenges.len()
        invariant
            i <= challenges@.len(),
            forall|k: int| 0 <= k < i ==> !(#[trigger] challenges@[k].id == id && !challenges@[k].completed),
        decreases challenges@.len() - i,
    {
        if challenges[i].id == id && !challenges[i].completed {
            return true;
        }
        i += 1;
    }
    false
}

/// The texts a challenge is shown with.
#[derive(Debug)]
pub struct ChallengeText {
    pub id: ChallengeId,
    pub label: String,
    pub description: String,
}


/// The label and description of the first text listed for `id`, if any.
pub open spec fn find_text(ts: Seq<ChallengeText>, id: ChallengeId) -> Option<(Seq<char>, Seq<char>)>
    decreases ts.len(),
{
    if ts.len() == 0 {
        None
    } else if ts[0].id == id {
        Some((ts[0].label@, ts[0].description@))
    } else {
        find_text(ts.drop_first(), id)
    }
}

/// Label, `sep` and description of the first text listed for `id`, or just
/// `sep` when none is listed.
pub open spec fn spec_challenge_line(ts: Seq<ChallengeText>, id: ChallengeId, sep: Seq<char>) -> Seq<char> {
    match find_text(ts, id) {
        Some((l, d)) => l + sep + d,
        None => sep,
    }
}

/// Appends label, `sep` and description of challenge `id` to `out`, taking
/// the texts from `texts`.
pub fn push_challenge_line(out: &mut String, texts: &Vec<ChallengeText>, id: ChallengeId, sep: &str)
    ensures
        final(out)@ == old(out)@ + spec_challenge_line(texts@, id, sep@),
{
    let mut i: usize = 0;
    assert(texts@.skip(0) =~= texts@);
    while i < texts.len()
        invariant
            i <= texts@.len(),
            out@ == old(out)@,
            find_text(texts@, id) == find_text(texts@.skip(i as int), id),
        decreases texts@.len() - i,
    {
        proof {
            assert(texts@.skip(i as int).drop_first() =~= texts@.skip(i + 1));
        }
        if texts[i].id == id {
            assert(texts@.skip(i as int)[0] == texts@[i as int]);
            out.append(texts[i].label.as_str());
            out.append(sep);
            out.append(texts[i].description.as_str());
            return;
        }
        i += 1;
    }
    assert(texts@.skip(i as int).len() == 0);
    out.append(sep);
}

} // verus!
