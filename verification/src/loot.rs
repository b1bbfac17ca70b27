//! The loot economy: quartermaster costs and services, caches, alchemy,
//! salvage, and what enemies and items are worth.
use vstd::prelude::*;
use crate::game::{RunStats, sat_add};
use crate::text::{
    chars_are, chars_of, decimal, push_decimal, push_decimal_usize, join, views, push_part,
    join_strings,
};

verus! {

pub const MERCHANT_POTION_COST: u32 = 35;
pub const MERCHANT_ELIXIR_COST: u32 = 55;
pub const MERCHANT_REFORGE_SHARD_COST: u32 = 6;
pub const MERCHANT_ENCHANT_GOLD_COST: u32 = 180;
pub const MERCHANT_ENCHANT_SHARD_COST: u32 = 10;
pub const MERCHANT_ENCHANT_ESSENCE_COST: u32 = 2;
pub const SALVAGE_CACHE_ITEM_THRESHOLD: u32 = 4;
pub const SALVAGE_CACHE_GOLD_REWARD: u32 = 60;
pub const SALVAGE_CACHE_SHARD_REWARD: u32 = 2;
pub const SALVAGE_CACHE_ESSENCE_REWARD: u32 = 1;
pub const MERCHANT_CHARM_POLISH_GOLD_COST: u32 = 150;
pub const MERCHANT_CHARM_POLISH_SHARD_COST: u32 = 4;
pub const MERCHANT_MYSTERY_CHARM_GOLD_COST: u32 = 90;
pub const MERCHANT_MYSTERY_CHARM_SHARD_COST: u32 = 5;
pub const MERCHANT_MYSTERY_WEAPON_GOLD_COST: u32 = 160;
pub const MERCHANT_MYSTERY_WEAPON_SHARD_COST: u32 = 8;
pub const MERCHANT_STASH_GOLD_COST: u32 = 120;
pub const MERCHANT_STASH_SHARD_COST: u32 = 3;
pub const MAX_INVENTORY_CAPACITY: usize = 18;
pub const ALCHEMY_GOLD_TO_SHARDS_COST: u32 = 220;
pub const ALCHEMY_GOLD_TO_SHARDS_REWARD: u32 = 3;
pub const ALCHEMY_SHARDS_TO_ESSENCE_COST: u32 = 8;
pub const ALCHEMY_SHARDS_TO_ESSENCE_REWARD: u32 = 2;
pub const ALCHEMY_KEYSTONE_SHARD_COST: u32 = 12;
pub const ALCHEMY_KEYSTONE_ESSENCE_COST: u32 = 6;
pub const ALCHEMY_KEYSTONE_REWARD: u32 = 1;
pub const SOUL_SIGIL_CACHE_COST: u32 = 2;
pub const SOUL_SIGIL_CACHE_GOLD_REWARD: u32 = 120;
pub const SOUL_SIGIL_CACHE_SHARD_REWARD: u32 = 4;
pub const SOUL_SIGIL_CACHE_ESSENCE_REWARD: u32 = 3;
pub const SOUL_SIGIL_CACHE_KEYSTONE_REWARD: u32 = 1;
pub const MERCHANT_POTION_BELT_GOLD_COST: u32 = 140;
pub const MERCHANT_POTION_BELT_SHARD_COST: u32 = 4;
pub const MAX_POTION_CAPACITY: u32 = 7;
pub const MERCHANT_ELIXIR_BELT_GOLD_COST: u32 = 160;
pub const MERCHANT_ELIXIR_BELT_SHARD_COST: u32 = 5;
pub const MAX_ELIXIR_CAPACITY: u32 = 4;
pub const ANCIENT_AUGMENT_MIN_GEM_RANK: u32 = 3;
pub const ANCIENT_AUGMENT_BASE_GOLD_COST: u32 = 180;
pub const ANCIENT_AUGMENT_GOLD_PER_RANK: u32 = 70;
pub const ANCIENT_AUGMENT_BASE_SHARD_COST: u32 = 8;
pub const ANCIENT_AUGMENT_SHARDS_PER_RANK: u32 = 2;
pub const ANCIENT_AUGMENT_ESSENCE_PER_RANK: u32 = 2;
pub const GEM_EMPOWER_MIN_RANK: u32 = 5;
pub const GEM_EMPOWER_RANK_GAIN: u32 = 2;
pub const GEM_EMPOWER_GOLD_COST: u32 = 320;
pub const GEM_EMPOWER_ESSENCE_COST: u32 = 8;
pub const GEM_EMPOWER_ECHO_KEYSTONE_COST: u32 = 1;
pub const ANCIENT_AWAKEN_MIN_GEM_RANK: u32 = 4;
pub const ANCIENT_AWAKEN_BASE_GOLD_COST: u32 = 320;
pub const ANCIENT_AWAKEN_GOLD_PER_RANK: u32 = 90;
pub const ANCIENT_AWAKEN_BASE_SHARD_COST: u32 = 16;
pub const ANCIENT_AWAKEN_SHARDS_PER_RANK: u32 = 3;
pub const ANCIENT_AWAKEN_ESSENCE_PER_RANK: u32 = 3;
pub const PRIMAL_INFUSION_GOLD_COST: u32 = 520;
pub const PRIMAL_INFUSION_SHARD_COST: u32 = 24;
pub const PRIMAL_INFUSION_ESSENCE_COST: u32 = 14;
pub const PRIMAL_INFUSION_ECHO_KEYSTONE_COST: u32 = 1;

/// The loot filter, from showing everything to primal drops only.
#[derive(Clone, Copy, Debug, PartialEq, Eq, Structural)]
pub enum LootFilterTier {
    All,
    RarePlus,
    LegendaryPlus,
    AncientPlus,
    Primal,
}

impl LootFilterTier {
    /// Lowest quality rank the filter shows.
    pub open spec fn spec_min_rank(self) -> u8 {
        match self {
            LootFilterTier::All => 0,
            LootFilterTier::RarePlus => 1,
            LootFilterTier::LegendaryPlus => 2,
            LootFilterTier::AncientPlus => 3,
            LootFilterTier::Primal => 4,
        }
    }

    /// The next filter in the cycle; Primal wraps to All.
    pub open spec fn spec_next(self) -> LootFilterTier {
        match self {
            LootFilterTier::All => LootFilterTier::RarePlus,
            LootFilterTier::RarePlus => LootFilterTier::LegendaryPlus,
            LootFilterTier::LegendaryPlus => LootFilterTier::AncientPlus,
            LootFilterTier::AncientPlus => LootFilterTier::Primal,
            LootFilterTier::Primal => LootFilterTier::All,
        }
    }

    /// The filter's name.
    pub open spec fn spec_label(self) -> Seq<char> {
        match self {
            LootFilterTier::All => "All"@,
            LootFilterTier::RarePlus => "Rare+"@,
            LootFilterTier::LegendaryPlus => "Legendary+"@,
            LootFilterTier::AncientPlus => "Ancient+"@,
            LootFilterTier::Primal => "Primal"@,
        }
    }

    /// The next filter in the cycle.
    pub fn next(self) -> (r: LootFilterTier)
        ensures
            r == self.spec_next(),
    {
        match self {
            LootFilterTier::All => LootFilterTier::RarePlus,
            LootFilterTier::RarePlus => LootFilterTier::LegendaryPlus,
            LootFilterTier::LegendaryPlus => LootFilterTier::AncientPlus,
            LootFilterTier::AncientPlus => LootFilterTier::Primal,
            LootFilterTier::Primal => LootFilterTier::All,
        }
    }

    /// The filter's name.
    pub fn label(self) -> (r: &'static str)
        ensures
            r@ == self.spec_label(),
    {
        match self {
            LootFilterTier::All => "All",
            LootFilterTier::RarePlus => "Rare+",
            LootFilterTier::LegendaryPlus => "Legendary+",
            LootFilterTier::AncientPlus => "Ancient+",
            LootFilterTier::Primal => "Primal",
        }
    }

    /// Lowest quality rank the filter shows.
    pub fn min_rank(self) -> (r: u8)
        ensures
            r == self.spec_min_rank(),
    {
        match self {
            LootFilterTier::All => 0,
            LootFilterTier::RarePlus => 1,
            LootFilterTier::LegendaryPlus => 2,
            LootFilterTier::AncientPlus => 3,
            LootFilterTier::Primal => 4,
        }
    }
}

impl Default for LootFilterTier {
    fn default() -> (r: LootFilterTier)
        ensures
            r == LootFilterTier::All,
    {
        LootFilterTier::All
    }
}

/// Cycling the loot filter five times brings it back where it started, and
/// its minimum rank rises by one each step until it wraps.
pub proof fn lemma_loot_filter_cycle(f: LootFilterTier)
    ensures
        f.spec_next().spec_next().spec_next().spec_next().spec_next() == f,
        f != LootFilterTier::Primal ==> f.spec_next().spec_min_rank() == f.spec_min_rank() + 1,
        f == LootFilterTier::Primal ==> f.spec_next() == LootFilterTier::All,
{
}

/// Moves the loot filter one step and counts the change; returns the new
/// filter's announcement line.
pub fn toggle_loot_filter(filter: &mut LootFilterTier, stats: &mut RunStats) -> (r: String)
    ensures
        *final(filter) == old(filter).spec_next(),
        *final(stats) == (RunStats {
            loot_filter_cycles: sat_add(old(stats).loot_filter_cycles as int, 1) as u32,
            ..*old(stats)
        }),
        r@ == "Loot filter: "@ + old(filter).spec_next().spec_label(),
{
    *filter = filter.next();
    *stats = RunStats { loot_filter_cycles: stats.loot_filter_cycles.saturating_add(1), ..*stats };
    let mut s = String::from_str("Loot filter: ");
    s.append(filter.label());
    s
}

/// Rank of an item quality: primal 4, ancient 3, legendary 2, rare 1, any
/// other 0.
pub open spec fn spec_quality_rank(q: Seq<char>) -> u8 {
    if q == "primal"@ {
        4
    } else if q == "ancient"@ {
        3
    } else if q == "legendary"@ {
        2
    } else if q == "rare"@ {
        1
    } else {
        0
    }
}

/// Rank of an item quality.
pub fn loot_quality_rank(quality: &str) -> (r: u8)
    ensures
        r == spec_quality_rank(quality@),
{
    let q = chars_of(quality);
    if chars_are(&q, "primal") {
        4
    } else if chars_are(&q, "ancient") {
        3
    } else if chars_are(&q, "legendary") {
        2
    } else if chars_are(&q, "rare") {
        1
    } else {
        0
    }
}

/// Whether an item of `quality` passes `filter`.
pub fn loot_filter_shows(filter: LootFilterTier, quality: &str) -> (r: bool)
    ensures
        r == (spec_quality_rank(quality@) >= filter.spec_min_rank()),
{
    loot_quality_rank(quality) >= filter.min_rank()
}

/// Whether `quality` is legendary or better.
pub fn quality_is_legendary_or_better(quality: &str) -> (r: bool)
    ensures
        r == (spec_quality_rank(quality@) >= 2),
{
    loot_quality_rank(quality) >= 2
}

/// Elixirs a drop of `quality` carries: primal 3, ancient 2, legendary or
/// rare 1, others none.
pub fn elixirs_for_quality(quality: &str) -> (r: u32)
    ensures
        r == if quality@ == "primal"@ {
            3u32
        } else if quality@ == "ancient"@ {
            2
        } else if quality@ == "legendary"@ || quality@ == "rare"@ {
            1
        } else {
            0
        },
{
    let q = chars_of(quality);
    if chars_are(&q, "primal") {
        3
    } else if chars_are(&q, "ancient") {
        2
    } else if chars_are(&q, "legendary") || chars_are(&q, "rare") {
        1
    } else {
        0
    }
}

/// Essence paid for a duplicate codex power from a drop of `quality`:
/// primal 4, ancient 3, legendary 2, others none.
pub fn duplicate_codex_essence_reward(quality: &str) -> (r: u32)
    ensures
        r == if quality@ == "primal"@ {
            4u32
        } else if quality@ == "ancient"@ {
            3
        } else if quality@ == "legendary"@ {
            2
        } else {
            0
        },
{
    let q = chars_of(quality);
    if chars_are(&q, "primal") {
        4
    } else if chars_are(&q, "ancient") {
        3
    } else if chars_are(&q, "legendary") {
        2
    } else {
        0
    }
}

/// The quality a weapon has after a legendary enchant: primal and ancient
/// stay, anything else becomes legendary.
pub fn quality_after_legendary_enchant(quality: &str) -> (r: &'static str)
    ensures
        r@ == if quality@ == "primal"@ {
            "primal"@
        } else if quality@ == "ancient"@ {
            "ancient"@
        } else {
            "legendary"@
        },
{
    let q = chars_of(quality);
    if chars_are(&q, "primal") {
        "primal"
    } else if chars_are(&q, "ancient") {
        "ancient"
    } else {
        "legendary"
    }
}

/// Whether a kill counts toward Affix Hunter: two or more affixes.
pub fn affix_hunter_kill(affix_count: usize) -> (r: bool)
    ensures
        r == (affix_count >= 2),
{
    affix_count >= 2
}

/// Ember shards a kill pays: keeper 6, treasure imp 10, nemesis 6, other
/// elites 2, others none.
pub open spec fn spec_enemy_shard_reward(id: Seq<char>, is_elite: bool) -> u32 {
    if id == "keeper"@ {
        6
    } else if id == "treasure_imp"@ {
        10
    } else if id == "nemesis"@ {
        6
    } else if is_elite {
        2
    } else {
        0
    }
}

/// Ember shards a kill pays.
pub fn enemy_shard_reward(enemy_id: &str, is_elite: bool) -> (r: u32)
    ensures
        r == spec_enemy_shard_reward(enemy_id@, is_elite),
{
    let id = chars_of(enemy_id);
    if chars_are(&id, "keeper") {
        6
    } else if chars_are(&id, "treasure_imp") {
        10
    } else if chars_are(&id, "nemesis") {
        6
    } else if is_elite {
        2
    } else {
        0
    }
}

/// Essence a kill pays for its affixes: one per affix, two more for the
/// keeper or the nemesis, one more for the treasure imp; none without
/// affixes.
pub open spec fn spec_affix_essence_reward(id: Seq<char>, affix_count: usize) -> int {
    if affix_count == 0 {
        0
    } else if id == "keeper"@ || id == "nemesis"@ {
        (affix_count as u32) + 2
    } else if id == "treasure_imp"@ {
        (affix_count as u32) + 1
    } else {
        (affix_count as u32) as int
    }
}

/// Essence a kill pays for its affixes.
pub fn enemy_affix_essence_reward(enemy_id: &str, affix_count: usize) -> (r: u32)
    requires
        #[verifier::truncate] (affix_count as u32) + 2 <= u32::MAX,
    ensures
        r == spec_affix_essence_reward(enemy_id@, affix_count),
{
    if affix_count == 0 {
        return 0;
    }
    let base = #[verifier::truncate] (affix_count as u32);
    let id = chars_of(enemy_id);
    if chars_are(&id, "keeper") || chars_are(&id, "nemesis") {
        base + 2
    } else if chars_are(&id, "treasure_imp") {
        base + 1
    } else {
        base
    }
}

/// Essence an elite's affix break pays: one less than its affixes, two more
/// for the nemesis; nothing below two affixes or for the keeper.
pub open spec fn spec_affix_break_essence(id: Seq<char>, affix_count: usize) -> int {
    if affix_count < 2 || id == "keeper"@ {
        0
    } else if id == "nemesis"@ {
        ((affix_count - 1) as u32) + 2
    } else {
        ((affix_count - 1) as u32) as int
    }
}

/// Essence an elite's affix break pays.
pub fn elite_affix_break_essence_reward(enemy_id: &str, affix_count: usize) -> (r: u32)
    requires
        #[verifier::truncate] ((affix_count - 1) as u32) + 2 <= u32::MAX,
    ensures
        r == spec_affix_break_essence(enemy_id@, affix_count),
{
    let id = chars_of(enemy_id);
    if affix_count < 2 || chars_are(&id, "keeper") {
        return 0;
    }
    let base = #[verifier::truncate] ((affix_count - 1) as u32);
    if chars_are(&id, "nemesis") {
        base + 2
    } else {
        base
    }
}

/// The combat-log line of an affix break.
pub fn elite_affix_break_reward_text(enemy_name: &str, essence: u32) -> (r: String)
    ensures
        r@ == "Affix Break: "@ + enemy_name@ + " shattered, +"@ + decimal(essence as nat)
            + " essence"@,
{
    let mut s = String::from_str("Affix Break: ");
    s.append(enemy_name);
    s.append(" shattered, +");
    push_decimal(&mut s, essence);
    s.append(" essence");
    s
}

/// The floating text of an affix break.
pub fn elite_affix_break_float_text(essence: u32) -> (r: String)
    ensures
        r@ == "AFFIX BREAK +"@ + decimal(essence as nat) + "E"@,
{
    let mut s = String::from_str("AFFIX BREAK +");
    push_decimal(&mut s, essence);
    s.append("E");
    s
}

/// The floating text of a kill: "BOSS DOWN" for the keeper, "ELITE SLAY"
/// for elites, "SLAY" otherwise.
pub fn kill_floating_text(enemy_id: &str, is_elite: bool) -> (r: String)
    ensures
        r@ == if enemy_id@ == "keeper"@ {
            "BOSS DOWN"@
        } else if is_elite {
            "ELITE SLAY"@
        } else {
            "SLAY"@
        },
{
    let id = chars_of(enemy_id);
    if chars_are(&id, "keeper") {
        String::from_str("BOSS DOWN")
    } else if is_elite {
        String::from_str("ELITE SLAY")
    } else {
        String::from_str("SLAY")
    }
}

/// How a kill's loot is claimed.
#[derive(Clone, Copy, Debug, PartialEq, Eq, Structural)]
pub enum LootClaimMode {
    /// Straight into the bag (the keeper's loot).
    Direct,
    /// Dropped on the ground.
    Ground,
}

/// How a kill's loot is claimed: directly for the keeper, on the ground
/// otherwise.
pub fn enemy_loot_claim_mode(enemy_id: &str) -> (r: LootClaimMode)
    ensures
        r == if enemy_id@ == "keeper"@ { LootClaimMode::Direct } else { LootClaimMode::Ground },
{
    let id = chars_of(enemy_id);
    if chars_are(&id, "keeper") {
        LootClaimMode::Direct
    } else {
        LootClaimMode::Ground
    }
}

/// The death effect of a kill.
#[derive(Clone, Copy, Debug, PartialEq, Eq, Structural)]
pub enum DeathBurstKind {
    Spark,
    Burst,
    Prism,
    Cataclysm,
}

/// The death effect of a kill: cataclysm for the keeper, prism for the
/// treasure imp or the nemesis, burst for elites, spark otherwise.
pub fn death_burst_kind(enemy_id: &str, is_elite: bool) -> (r: DeathBurstKind)
    ensures
        r == if enemy_id@ == "keeper"@ {
            DeathBurstKind::Cataclysm
        } else if enemy_id@ == "treasure_imp"@ || enemy_id@ == "nemesis"@ {
            DeathBurstKind::Prism
        } else if is_elite {
            DeathBurstKind::Burst
        } else {
            DeathBurstKind::Spark
        },
{
    let id = chars_of(enemy_id);
    if chars_are(&id, "keeper") {
        DeathBurstKind::Cataclysm
    } else if chars_are(&id, "treasure_imp") || chars_are(&id, "nemesis") {
        DeathBurstKind::Prism
    } else if is_elite {
        DeathBurstKind::Burst
    } else {
        DeathBurstKind::Spark
    }
}

/// What a kill leaves on the floor.
#[derive(Clone, Copy, Debug, PartialEq, Eq, Structural)]
pub enum DeathRemainsKind {
    Ash,
    Bone,
    EliteBrand,
    TreasureAsh,
    BossSeal,
}

/// What a kill leaves: a seal for the keeper, treasure ash for the imp,
/// bones for skeletons and bone stalkers, a brand for the nemesis, brutes and
/// elites, ash otherwise.
pub fn death_remains_kind(enemy_id: &str, is_elite: bool) -> (r: DeathRemainsKind)
    ensures
        r == if enemy_id@ == "keeper"@ {
            DeathRemainsKind::BossSeal
        } else if enemy_id@ == "treasure_imp"@ {
            DeathRemainsKind::TreasureAsh
        } else if enemy_id@ == "skeleton"@ || enemy_id@ == "bone_stalker"@ {
            DeathRemainsKind::Bone
        } else if enemy_id@ == "nemesis"@ || enemy_id@ == "reliquary_brute"@ || is_elite {
            DeathRemainsKind::EliteBrand
        } else {
            DeathRemainsKind::Ash
        },
{
    let id = chars_of(enemy_id);
    if chars_are(&id, "keeper") {
        DeathRemainsKind::BossSeal
    } else if chars_are(&id, "treasure_imp") {
        DeathRemainsKind::TreasureAsh
    } else if chars_are(&id, "skeleton") || chars_are(&id, "bone_stalker") {
        DeathRemainsKind::Bone
    } else if chars_are(&id, "nemesis") || chars_are(&id, "reliquary_brute") || is_elite {
        DeathRemainsKind::EliteBrand
    } else {
        DeathRemainsKind::Ash
    }
}

/// The banner over a drop of `quality`: primal, ancient and legendary drops
/// are announced, others are not.
pub open spec fn spec_rarity_header(quality: Seq<char>) -> Seq<char> {
    if quality == "primal"@ {
        "PRIMAL DROP"@
    } else if quality == "ancient"@ {
        "ANCIENT DROP"@
    } else if quality == "legendary"@ {
        "LEGENDARY DROP"@
    } else {
        ""@
    }
}

/// The banner over a drop of `quality`.
pub fn loot_label_rarity_header(quality: &str) -> (r: &'static str)
    ensures
        r@ == spec_rarity_header(quality@),
{
    let q = chars_of(quality);
    if chars_are(&q, "primal") {
        "PRIMAL DROP"
    } else if chars_are(&q, "ancient") {
        "ANCIENT DROP"
    } else if chars_are(&q, "legendary") {
        "LEGENDARY DROP"
    } else {
        ""
    }
}

/// `x` alone when `b`, else nothing.
pub open spec fn part_if(b: bool, x: Seq<char>) -> Seq<Seq<char>> {
    if b {
        seq![x]
    } else {
        Seq::empty()
    }
}

/// The extras a drop carries beside its weapon, in order: gold, a gem, a
/// charm, potions and elixirs, each only when there is one.
pub open spec fn spec_reward_parts(gold: u32, has_gem: bool, has_charm: bool, potions: u32, elixirs: u32) -> Seq<Seq<char>> {
    part_if(gold > 0, decimal(gold as nat) + " gold"@) + part_if(has_gem, "gem"@) + part_if(
        has_charm,
        "charm"@,
    ) + part_if(potions > 0, decimal(potions as nat) + " potion"@) + part_if(
        elixirs > 0,
        decimal(elixirs as nat) + " elixir"@,
    )
}

/// The reward line under a drop's label, as in "42 gold | gem | 1 potion";
/// empty when the drop carries nothing but its weapon.
pub fn loot_label_reward_summary(gold: u32, has_gem: bool, has_charm: bool, potions: u32, elixirs: u32) -> (r: String)
    ensures
        r@ == join(spec_reward_parts(gold, has_gem, has_charm, potions, elixirs), " | "@),
{
    let mut parts: Vec<String> = Vec::new();
    let ghost target = spec_reward_parts(gold, has_gem, has_charm, potions, elixirs);
    if gold > 0 {
        let mut g = String::new();
        push_decimal(&mut g, gold);
        g.append(" gold");
        push_part(&mut parts, g);
    }
    assert(views(parts@) =~= part_if(gold > 0, decimal(gold as nat) + " gold"@));
    if has_gem {
        push_part(&mut parts, String::from_str("gem"));
    }
    assert(views(parts@) =~= part_if(gold > 0, decimal(gold as nat) + " gold"@) + part_if(has_gem, "gem"@));
    if has_charm {
        push_part(&mut parts, String::from_str("charm"));
    }
    assert(views(parts@) =~= part_if(gold > 0, decimal(gold as nat) + " gold"@) + part_if(has_gem, "gem"@)
        + part_if(has_charm, "charm"@));
    if potions > 0 {
        let mut p = String::new();
        push_decimal(&mut p, potions);
        p.append(" potion");
        push_part(&mut parts, p);
    }
    assert(views(parts@) =~= part_if(gold > 0, decimal(gold as nat) + " gold"@) + part_if(has_gem, "gem"@)
        + part_if(has_charm, "charm"@) + part_if(potions > 0, decimal(potions as nat) + " potion"@));
    if elixirs > 0 {
        let mut e = String::new();
        push_decimal(&mut e, elixirs);
        e.append(" elixir");
        push_part(&mut parts, e);
    }
    assert(views(parts@) =~= target);
    join_strings(&parts, " | ")
}

/// The lines of a drop's label: the rarity banner when the quality has one,
/// the drop's own line, and its reward line when it has one.
pub open spec fn spec_label_lines(quality: Seq<char>, primary: Seq<char>, rewards: Seq<char>) -> Seq<Seq<char>> {
    part_if(spec_rarity_header(quality).len() > 0, spec_rarity_header(quality)) + seq![primary]
        + part_if(rewards.len() > 0, rewards)
}

/// The floating label over a drop, one line each for its banner, its own
/// line (`primary`: name, stats and power) and its rewards.
pub fn loot_label_text(quality: &str, primary: &str, rewards: &str) -> (r: String)
    ensures
        r@ == join(spec_label_lines(quality@, primary@, rewards@), "\n"@),
{
    let header = loot_label_rarity_header(quality);
    let mut lines: Vec<String> = Vec::new();
    if chars_of(header).len() > 0 {
        push_part(&mut lines, String::from_str(header));
    }
    push_part(&mut lines, String::from_str(primary));
    if chars_of(rewards).len() > 0 {
        push_part(&mut lines, String::from_str(rewards));
    }
    assert(views(lines@) =~= spec_label_lines(quality@, primary@, rewards@));
    join_strings(&lines, "\n")
}

/// What a dropped legendary power did to the codex.
#[derive(Clone, Copy, Debug, PartialEq, Eq, Structural)]
pub enum CodexDropClaim {
    Nothing,
    Unlocked,
    DuplicateEssence(u32),
}

/// Settles a drop's legendary power with the codex. `has_power` tells
/// whether the drop carries one, and `newly_unlocked` whether the codex took
/// it as new (the caller unlocks it there). A power the codex already held is
/// refined into essence by the drop's quality.
pub fn claim_codex_drop_power(
    stats: &mut RunStats,
    has_power: bool,
    newly_unlocked: bool,
    quality: &str,
) -> (r: CodexDropClaim)
    ensures
        !has_power ==> r == CodexDropClaim::Nothing && *final(stats) == *old(stats),
        has_power && newly_unlocked ==> r == CodexDropClaim::Unlocked && *final(stats)
            == *old(stats),
        has_power && !newly_unlocked ==> {
            let e = if quality@ == "primal"@ {
                4u32
            } else if quality@ == "ancient"@ {
                3
            } else if quality@ == "legendary"@ {
                2
            } else {
                0
            };
            &&& e == 0 ==> r == CodexDropClaim::Nothing && *final(stats) == *old(stats)
            &&& e > 0 ==> r == CodexDropClaim::DuplicateEssence(e) && *final(stats) == (RunStats {
                affix_essence: sat_add(old(stats).affix_essence as int, e as int) as u32,
                ..*old(stats)
            })
        },
{
    if !has_power {
        return CodexDropClaim::Nothing;
    }
    if newly_unlocked {
        return CodexDropClaim::Unlocked;
    }
    let essence = duplicate_codex_essence_reward(quality);
    if essence == 0 {
        return CodexDropClaim::Nothing;
    }
    *stats = RunStats { affix_essence: stats.affix_essence.saturating_add(essence), ..*stats };
    CodexDropClaim::DuplicateEssence(essence)
}

/// `current + n`, but no more than `max`.
pub open spec fn refill(current: u32, n: u32, max: u32) -> u32 {
    if current + n <= max {
        (current + n) as u32
    } else {
        max
    }
}

/// Banks a claimed drop's gold and puts its flasks on the belts, up to what
/// each belt holds.
pub fn claim_drop_supplies(
    stats: &mut RunStats,
    gold: u32,
    potions: &mut u32,
    potion_max: u32,
    drop_potions: u32,
    elixirs: &mut u32,
    elixir_max: u32,
    drop_elixirs: u32,
)
    requires
        old(stats).gold + gold <= u32::MAX,
        *old(potions) + drop_potions <= u32::MAX,
        *old(elixirs) + drop_elixirs <= u32::MAX,
    ensures
        *final(stats) == (RunStats { gold: (old(stats).gold + gold) as u32, ..*old(stats) }),
        *final(potions) == refill(*old(potions), drop_potions, potion_max),
        *final(elixirs) == refill(*old(elixirs), drop_elixirs, elixir_max),
{
    *stats = RunStats { gold: stats.gold + gold, ..*stats };
    let p = *potions + drop_potions;
    *potions = if p <= potion_max {
        p
    } else {
        potion_max
    };
    let e = *elixirs + drop_elixirs;
    *elixirs = if e <= elixir_max {
        e
    } else {
        elixir_max
    };
}

/// The pickup line, as in "Picked up rare Fang and 12 gold + elixir".
pub open spec fn spec_pickup_text(
    label: Seq<char>,
    gem_text: Seq<char>,
    gold: u32,
    elixir: bool,
    stored: bool,
) -> Seq<char> {
    "Picked up "@ + label + gem_text + " and "@ + decimal(gold as nat) + " gold"@ + (if elixir {
        " + elixir"@
    } else {
        ""@
    }) + (if stored {
        ""@
    } else {
        " (inventory full)"@
    })
}

/// The pickup line for a claimed drop; `gem_text` names its bonus gem, if
/// any.
pub fn pickup_text(label: &str, gem_text: &str, gold: u32, elixir: bool, stored: bool) -> (r:
    String)
    ensures
        r@ == spec_pickup_text(label@, gem_text@, gold, elixir, stored),
{
    let mut s = String::from_str("Picked up ");
    s.append(label);
    s.append(gem_text);
    s.append(" and ");
    push_decimal(&mut s, gold);
    s.append(" gold");
    s.append(if elixir {
        " + elixir"
    } else {
        ""
    });
    s.append(if stored {
        ""
    } else {
        " (inventory full)"
    });
    s
}

} // verus!
