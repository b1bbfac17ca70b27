//! The quartermaster's services: trophy caches, ashen alchemy, salvage
//! caches, bag and belt upgrades, and the prices of crafting.
use vstd::prelude::*;
use crate::game::{RunStats, sat_add};
use crate::loot::spec_quality_rank;
use crate::text::{decimal, join, views, push_decimal, push_decimal_usize, push_part, join_strings, chars_of, chars_are, has_prefix};

verus! {

/// The colour of a socketed gem, which decides what it empowers.
#[derive(Clone, Copy, Debug, PartialEq, Eq, Structural)]
pub enum GemKind {
    Ruby,
    Emerald,
    Amethyst,
    Topaz,
}

impl GemKind {
    pub open spec fn spec_label(self) -> Seq<char> {
        match self {
            GemKind::Ruby => "Ruby"@,
            GemKind::Emerald => "Emerald"@,
            GemKind::Amethyst => "Amethyst"@,
            GemKind::Topaz => "Topaz"@,
        }
    }

    /// The gem's name.
    pub fn label(self) -> (r: &'static str)
        ensures
            r@ == self.spec_label(),
    {
        proof {
            reveal_strlit("Ruby");
            reveal_strlit("Emerald");
            reveal_strlit("Amethyst");
            reveal_strlit("Topaz");
        }
        match self {
            GemKind::Ruby => "Ruby",
            GemKind::Emerald => "Emerald",
            GemKind::Amethyst => "Amethyst",
            GemKind::Topaz => "Topaz",
        }
    }
}

/// A gem set into the equipped weapon, with its rank.
#[derive(Clone, Copy, Debug, PartialEq, Eq, Structural)]
pub struct SocketedGem {
    pub kind: GemKind,
    pub rank: u32,
}

impl SocketedGem {
    /// The gem's name and rank, as in "Ruby 4".
    pub open spec fn spec_label(self) -> Seq<char> {
        self.kind.spec_label() + " "@ + decimal(self.rank as nat)
    }

    /// The gem's name and rank.
    pub fn label(&self) -> (r: String)
        ensures
            r@ == self.spec_label(),
    {
        let mut s = String::from_str(self.kind.label());
        s.append(" ");
        push_decimal(&mut s, self.rank);
        s
    }
}

/// Marks the kind of a freshly socketed gem as used this run.
pub fn register_gem_adept_kind(stats: &mut RunStats, kind: GemKind)
    ensures
        *final(stats) == (match kind {
            GemKind::Ruby => RunStats { ruby_socketed: true, ..*old(stats) },
            GemKind::Emerald => RunStats { emerald_socketed: true, ..*old(stats) },
            GemKind::Amethyst => RunStats { amethyst_socketed: true, ..*old(stats) },
            GemKind::Topaz => RunStats { topaz_socketed: true, ..*old(stats) },
        }),
{
    match kind {
        GemKind::Ruby => {
            *stats = RunStats { ruby_socketed: true, ..*stats };
        },
        GemKind::Emerald => {
            *stats = RunStats { emerald_socketed: true, ..*stats };
        },
        GemKind::Amethyst => {
            *stats = RunStats { amethyst_socketed: true, ..*stats };
        },
        GemKind::Topaz => {
            *stats = RunStats { topaz_socketed: true, ..*stats };
        },
    }
}

/// Gold to temper a weapon already tempered `current_level` times.
pub fn temper_cost(current_level: u32) -> (r: u32)
    requires
        90 + 45 * current_level <= u32::MAX,
    ensures
        r == 90 + 45 * current_level,
{
    90 + current_level * 45
}

/// Gold to raise a gem of rank `current_rank` by one.
pub fn gem_upgrade_cost(current_rank: u32) -> (r: u32)
    requires
        70 + 50 * current_rank <= u32::MAX,
    ensures
        r == 70 + 50 * current_rank,
{
    70 + current_rank * 50
}

/// Gold and shards to consume `gem` in an ancient augment.
pub fn ancient_augment_cost(gem: SocketedGem) -> (r: (u32, u32))
    requires
        180 + 70 * gem.rank <= u32::MAX,
    ensures
        r.0 == 180 + 70 * gem.rank,
        r.1 == 8 + 2 * gem.rank,
{
    (
        crate::loot::ANCIENT_AUGMENT_BASE_GOLD_COST + gem.rank
            * crate::loot::ANCIENT_AUGMENT_GOLD_PER_RANK,
        crate::loot::ANCIENT_AUGMENT_BASE_SHARD_COST + gem.rank
            * crate::loot::ANCIENT_AUGMENT_SHARDS_PER_RANK,
    )
}

/// Affix essence to consume `gem` in an ancient augment.
pub fn ancient_augment_essence_cost(gem: SocketedGem) -> (r: u32)
    requires
        2 * gem.rank <= u32::MAX,
    ensures
        r == 2 * gem.rank,
{
    gem.rank * crate::loot::ANCIENT_AUGMENT_ESSENCE_PER_RANK
}

/// Gold, shards and essence to awaken a legendary weapon with `gem`.
pub fn ancient_awaken_cost(gem: SocketedGem) -> (r: (u32, u32, u32))
    requires
        320 + 90 * gem.rank <= u32::MAX,
    ensures
        r.0 == 320 + 90 * gem.rank,
        r.1 == 16 + 3 * gem.rank,
        r.2 == 3 * gem.rank,
{
    (
        crate::loot::ANCIENT_AWAKEN_BASE_GOLD_COST + gem.rank
            * crate::loot::ANCIENT_AWAKEN_GOLD_PER_RANK,
        crate::loot::ANCIENT_AWAKEN_BASE_SHARD_COST + gem.rank
            * crate::loot::ANCIENT_AWAKEN_SHARDS_PER_RANK,
        gem.rank * crate::loot::ANCIENT_AWAKEN_ESSENCE_PER_RANK,
    )
}

/// What one trophy cache paid out; all zero when none was opened.
#[derive(Clone, Copy, Debug, PartialEq, Eq, Structural)]
pub struct SoulSigilCacheReward {
    pub opened: bool,
    pub gold: u32,
    pub shards: u32,
    pub essence: u32,
    pub keystones: u32,
}

impl SoulSigilCacheReward {
    pub open spec fn spec_none() -> SoulSigilCacheReward {
        SoulSigilCacheReward { opened: false, gold: 0, shards: 0, essence: 0, keystones: 0 }
    }

    pub open spec fn spec_opened() -> SoulSigilCacheReward {
        SoulSigilCacheReward { opened: true, gold: 120, shards: 4, essence: 3, keystones: 1 }
    }
}

impl Default for SoulSigilCacheReward {
    fn default() -> (r: SoulSigilCacheReward)
        ensures
            r == SoulSigilCacheReward::spec_none(),
    {
        SoulSigilCacheReward { opened: false, gold: 0, shards: 0, essence: 0, keystones: 0 }
    }
}

/// The run after one trophy cache is opened.
pub open spec fn spec_open_soul_sigil_cache(s: RunStats) -> RunStats {
    RunStats {
        malrec_soul_sigils: (s.malrec_soul_sigils - 2) as u32,
        gold: (s.gold + 120) as u32,
        ember_shards: (s.ember_shards + 4) as u32,
        affix_essence: (s.affix_essence + 3) as u32,
        echo_keystones: (s.echo_keystones + 1) as u32,
        soul_sigil_caches: sat_add(s.soul_sigil_caches as int, 1) as u32,
        ..s
    }
}

/// Trades two of Malrec's soul sigils for a trophy cache of endgame
/// materials; with fewer sigils nothing happens.
pub fn open_soul_sigil_cache(stats: &mut RunStats) -> (r: SoulSigilCacheReward)
    requires
        old(stats).malrec_soul_sigils >= 2 ==> {
            &&& old(stats).gold + 120 <= u32::MAX
            &&& old(stats).ember_shards + 4 <= u32::MAX
            &&& old(stats).affix_essence + 3 <= u32::MAX
            &&& old(stats).echo_keystones + 1 <= u32::MAX
        },
    ensures
        old(stats).malrec_soul_sigils < 2 ==> *final(stats) == *old(stats) && r
            == SoulSigilCacheReward::spec_none(),
        old(stats).malrec_soul_sigils >= 2 ==> *final(stats) == spec_open_soul_sigil_cache(
            *old(stats),
        ) && r == SoulSigilCacheReward::spec_opened(),
{
    if stats.malrec_soul_sigils < crate::loot::SOUL_SIGIL_CACHE_COST {
        return SoulSigilCacheReward::default();
    }
    *stats = RunStats {
        malrec_soul_sigils: stats.malrec_soul_sigils - crate::loot::SOUL_SIGIL_CACHE_COST,
        gold: stats.gold + crate::loot::SOUL_SIGIL_CACHE_GOLD_REWARD,
        ember_shards: stats.ember_shards + crate::loot::SOUL_SIGIL_CACHE_SHARD_REWARD,
        affix_essence: stats.affix_essence + crate::loot::SOUL_SIGIL_CACHE_ESSENCE_REWARD,
        echo_keystones: stats.echo_keystones + crate::loot::SOUL_SIGIL_CACHE_KEYSTONE_REWARD,
        soul_sigil_caches: stats.soul_sigil_caches.saturating_add(1),
        ..*stats
    };
    SoulSigilCacheReward {
        opened: true,
        gold: crate::loot::SOUL_SIGIL_CACHE_GOLD_REWARD,
        shards: crate::loot::SOUL_SIGIL_CACHE_SHARD_REWARD,
        essence: crate::loot::SOUL_SIGIL_CACHE_ESSENCE_REWARD,
        keystones: crate::loot::SOUL_SIGIL_CACHE_KEYSTONE_REWARD,
    }
}

/// Which of the three transmutations one alchemy visit made.
#[derive(Clone, Copy, Debug, PartialEq, Eq, Structural)]
pub struct AshenAlchemyBatch {
    pub gold_to_shards: bool,
    pub shards_to_essence: bool,
    pub essence_to_keystone: bool,
}

/// First transmutation: 220 gold into 3 shards, when the gold is there.
pub open spec fn alchemy_gold_step(s: RunStats) -> RunStats {
    if s.gold >= 220 {
        RunStats {
            gold: (s.gold - 220) as u32,
            ember_shards: (s.ember_shards + 3) as u32,
            alchemy_gold_transmutes: sat_add(s.alchemy_gold_transmutes as int, 1) as u32,
            ..s
        }
    } else {
        s
    }
}

/// Second transmutation: 8 shards into 2 affix essence.
pub open spec fn alchemy_essence_step(s: RunStats) -> RunStats {
    if s.ember_shards >= 8 {
        RunStats {
            ember_shards: (s.ember_shards - 8) as u32,
            affix_essence: (s.affix_essence + 2) as u32,
            alchemy_essence_transmutes: sat_add(s.alchemy_essence_transmutes as int, 1) as u32,
            ..s
        }
    } else {
        s
    }
}

/// Third transmutation: 12 shards and 6 essence into an echo keystone.
pub open spec fn alchemy_keystone_step(s: RunStats) -> RunStats {
    if s.ember_shards >= 12 && s.affix_essence >= 6 {
        RunStats {
            ember_shards: (s.ember_shards - 12) as u32,
            affix_essence: (s.affix_essence - 6) as u32,
            echo_keystones: (s.echo_keystones + 1) as u32,
            alchemy_keystone_transmutes: sat_add(s.alchemy_keystone_transmutes as int, 1) as u32,
            ..s
        }
    } else {
        s
    }
}

/// No counter that an alchemy visit adds to runs past `u32::MAX`.
pub open spec fn alchemy_fits(s: RunStats) -> bool {
    let s1 = alchemy_gold_step(s);
    let s2 = alchemy_essence_step(s1);
    &&& s.gold >= 220 ==> s.ember_shards + 3 <= u32::MAX
    &&& s1.ember_shards >= 8 ==> s1.affix_essence + 2 <= u32::MAX
    &&& (s2.ember_shards >= 12 && s2.affix_essence >= 6) ==> s2.echo_keystones + 1 <= u32::MAX
}

/// Runs the three transmutations in turn, each on what the one before left.
pub fn apply_ashen_alchemy(stats: &mut RunStats) -> (r: AshenAlchemyBatch)
    requires
        alchemy_fits(*old(stats)),
    ensures
        *final(stats) == alchemy_keystone_step(alchemy_essence_step(alchemy_gold_step(*old(stats)))),
        r.gold_to_shards == (old(stats).gold >= 220),
        r.shards_to_essence == (alchemy_gold_step(*old(stats)).ember_shards >= 8),
        r.essence_to_keystone == ({
            let s2 = alchemy_essence_step(alchemy_gold_step(*old(stats)));
            s2.ember_shards >= 12 && s2.affix_essence >= 6
        }),
{
    let mut batch = AshenAlchemyBatch {
        gold_to_shards: false,
        shards_to_essence: false,
        essence_to_keystone: false,
    };
    if stats.gold >= crate::loot::ALCHEMY_GOLD_TO_SHARDS_COST {
        *stats = RunStats {
            gold: stats.gold - crate::loot::ALCHEMY_GOLD_TO_SHARDS_COST,
            ember_shards: stats.ember_shards + crate::loot::ALCHEMY_GOLD_TO_SHARDS_REWARD,
            alchemy_gold_transmutes: stats.alchemy_gold_transmutes.saturating_add(1),
            ..*stats
        };
        batch.gold_to_shards = true;
    }
    if stats.ember_shards >= crate::loot::ALCHEMY_SHARDS_TO_ESSENCE_COST {
        *stats = RunStats {
            ember_shards: stats.ember_shards - crate::loot::ALCHEMY_SHARDS_TO_ESSENCE_COST,
            affix_essence: stats.affix_essence + crate::loot::ALCHEMY_SHARDS_TO_ESSENCE_REWARD,
            alchemy_essence_transmutes: stats.alchemy_essence_transmutes.saturating_add(1),
            ..*stats
        };
        batch.shards_to_essence = true;
    }
    if stats.ember_shards >= crate::loot::ALCHEMY_KEYSTONE_SHARD_COST && stats.affix_essence
        >= crate::loot::ALCHEMY_KEYSTONE_ESSENCE_COST {
        *stats = RunStats {
            ember_shards: stats.ember_shards - crate::loot::ALCHEMY_KEYSTONE_SHARD_COST,
            affix_essence: stats.affix_essence - crate::loot::ALCHEMY_KEYSTONE_ESSENCE_COST,
            echo_keystones: stats.echo_keystones + crate::loot::ALCHEMY_KEYSTONE_REWARD,
            alchemy_keystone_transmutes: stats.alchemy_keystone_transmutes.saturating_add(1),
            ..*stats
        };
        batch.essence_to_keystone = true;
    }
    batch
}

/// What the salvage counter paid out on one visit.
#[derive(Clone, Copy, Debug, PartialEq, Eq, Structural)]
pub struct SalvageCacheReward {
    pub caches: u32,
    pub gold: u32,
    pub shards: u32,
    pub essence: u32,
}

impl SalvageCacheReward {
    pub open spec fn spec_none() -> SalvageCacheReward {
        SalvageCacheReward { caches: 0, gold: 0, shards: 0, essence: 0 }
    }
}

impl Default for SalvageCacheReward {
    fn default() -> (r: SalvageCacheReward)
        ensures
            r == SalvageCacheReward::spec_none(),
    {
        SalvageCacheReward { caches: 0, gold: 0, shards: 0, essence: 0 }
    }
}

/// The salvage counter after `sold` more items are sold.
pub open spec fn salvage_progress_after(s: RunStats, sold: usize) -> int {
    sat_add(s.salvage_progress as int, sold as u32 as int)
}

/// Salvage caches earned when `sold` more items are sold: one per four on
/// the counter.
pub open spec fn salvage_caches_earned(s: RunStats, sold: usize) -> int {
    salvage_progress_after(s, sold) / 4
}

/// Counts `sold_items` toward the salvage counter and pays a cache of 60
/// gold, 2 shards and 1 essence for every four items on it, keeping the rest.
pub fn apply_salvage_cache_rewards(stats: &mut RunStats, sold_items: usize) -> (r:
    SalvageCacheReward)
    requires
        sold_items > 0 && salvage_caches_earned(*old(stats), sold_items) > 0 ==> {
            let c = salvage_caches_earned(*old(stats), sold_items);
            &&& old(stats).gold + 60 * c <= u32::MAX
            &&& old(stats).ember_shards + 2 * c <= u32::MAX
            &&& old(stats).affix_essence + c <= u32::MAX
        },
    ensures
        sold_items == 0 ==> *final(stats) == *old(stats) && r == SalvageCacheReward::spec_none(),
        sold_items > 0 && salvage_caches_earned(*old(stats), sold_items) == 0 ==> *final(stats)
            == (RunStats {
            salvage_progress: salvage_progress_after(*old(stats), sold_items) as u32,
            ..*old(stats)
        }) && r == SalvageCacheReward::spec_none(),
        sold_items > 0 && salvage_caches_earned(*old(stats), sold_items) > 0 ==> {
            let c = salvage_caches_earned(*old(stats), sold_items);
            &&& *final(stats) == (RunStats {
                salvage_progress: (salvage_progress_after(*old(stats), sold_items) % 4) as u32,
                salvage_caches: sat_add(old(stats).salvage_caches as int, c) as u32,
                gold: (old(stats).gold + 60 * c) as u32,
                ember_shards: (old(stats).ember_shards + 2 * c) as u32,
                affix_essence: (old(stats).affix_essence + c) as u32,
                ..*old(stats)
            })
            &&& r == (SalvageCacheReward {
                caches: c as u32,
                gold: (60 * c) as u32,
                shards: (2 * c) as u32,
                essence: c as u32,
            })
        },
{
    if sold_items == 0 {
        return SalvageCacheReward::default();
    }
    #[verifier::truncate]
    let sold: u32 = sold_items as u32;
    let progress = stats.salvage_progress.saturating_add(sold);
    let caches = progress / crate::loot::SALVAGE_CACHE_ITEM_THRESHOLD;
    if caches == 0 {
        *stats = RunStats { salvage_progress: progress, ..*stats };
        return SalvageCacheReward::default();
    }
    let reward = SalvageCacheReward {
        caches,
        gold: caches * crate::loot::SALVAGE_CACHE_GOLD_REWARD,
        shards: caches * crate::loot::SALVAGE_CACHE_SHARD_REWARD,
        essence: caches * crate::loot::SALVAGE_CACHE_ESSENCE_REWARD,
    };
    *stats = RunStats {
        salvage_progress: progress % crate::loot::SALVAGE_CACHE_ITEM_THRESHOLD,
        salvage_caches: stats.salvage_caches.saturating_add(caches),
        gold: stats.gold + reward.gold,
        ember_shards: stats.ember_shards + reward.shards,
        affix_essence: stats.affix_essence + reward.essence,
        ..*stats
    };
    reward
}

/// The run after paying `gold` and `shards` for a service.
pub open spec fn spec_pay(s: RunStats, gold: int, shards: int) -> RunStats {
    RunStats { gold: (s.gold - gold) as u32, ember_shards: (s.ember_shards - shards) as u32, ..s }
}

/// Buys two more bag slots for 120 gold and 3 shards, up to eighteen slots.
pub fn expand_inventory_capacity(capacity: &mut usize, stats: &mut RunStats) -> (r: bool)
    ensures
        r == (*old(capacity) < 18 && old(stats).gold >= 120 && old(stats).ember_shards >= 3),
        r ==> *final(capacity) == (if *old(capacity) + 2 <= 18 {
            *old(capacity) + 2
        } else {
            18
        }) && *final(stats) == spec_pay(*old(stats), 120, 3),
        !r ==> *final(capacity) == *old(capacity) && *final(stats) == *old(stats),
{
    if *capacity >= crate::loot::MAX_INVENTORY_CAPACITY {
        return false;
    }
    if stats.gold < crate::loot::MERCHANT_STASH_GOLD_COST || stats.ember_shards
        < crate::loot::MERCHANT_STASH_SHARD_COST {
        return false;
    }
    *stats = RunStats {
        gold: stats.gold - crate::loot::MERCHANT_STASH_GOLD_COST,
        ember_shards: stats.ember_shards - crate::loot::MERCHANT_STASH_SHARD_COST,
        ..*stats
    };
    let grown = *capacity + 2;
    *capacity = if grown <= crate::loot::MAX_INVENTORY_CAPACITY {
        grown
    } else {
        crate::loot::MAX_INVENTORY_CAPACITY
    };
    true
}

/// Widens the potion belt by one slot for 140 gold and 4 shards, up to
/// seven. (The belt's cooldown, which follows its size, is set by the
/// caller.)
pub fn upgrade_potion_belt(potion_max: &mut u32, stats: &mut RunStats) -> (r: bool)
    ensures
        r == (*old(potion_max) < 7 && old(stats).gold >= 140 && old(stats).ember_shards >= 4),
        r ==> *final(potion_max) == *old(potion_max) + 1 && *final(stats) == spec_pay(
            *old(stats),
            140,
            4,
        ),
        !r ==> *final(potion_max) == *old(potion_max) && *final(stats) == *old(stats),
{
    if *potion_max >= crate::loot::MAX_POTION_CAPACITY {
        return false;
    }
    if stats.gold < crate::loot::MERCHANT_POTION_BELT_GOLD_COST || stats.ember_shards
        < crate::loot::MERCHANT_POTION_BELT_SHARD_COST {
        return false;
    }
    *stats = RunStats {
        gold: stats.gold - crate::loot::MERCHANT_POTION_BELT_GOLD_COST,
        ember_shards: stats.ember_shards - crate::loot::MERCHANT_POTION_BELT_SHARD_COST,
        ..*stats
    };
    let grown = *potion_max + 1;
    *potion_max = if grown <= crate::loot::MAX_POTION_CAPACITY {
        grown
    } else {
        crate::loot::MAX_POTION_CAPACITY
    };
    true
}

/// Widens the elixir belt by one slot for 160 gold and 5 shards, up to four.
pub fn upgrade_elixir_belt(elixir_max: &mut u32, stats: &mut RunStats) -> (r: bool)
    ensures
        r == (*old(elixir_max) < 4 && old(stats).gold >= 160 && old(stats).ember_shards >= 5),
        r ==> *final(elixir_max) == *old(elixir_max) + 1 && *final(stats) == spec_pay(
            *old(stats),
            160,
            5,
        ),
        !r ==> *final(elixir_max) == *old(elixir_max) && *final(stats) == *old(stats),
{
    if *elixir_max >= crate::loot::MAX_ELIXIR_CAPACITY {
        return false;
    }
    if stats.gold < crate::loot::MERCHANT_ELIXIR_BELT_GOLD_COST || stats.ember_shards
        < crate::loot::MERCHANT_ELIXIR_BELT_SHARD_COST {
        return false;
    }
    *stats = RunStats {
        gold: stats.gold - crate::loot::MERCHANT_ELIXIR_BELT_GOLD_COST,
        ember_shards: stats.ember_shards - crate::loot::MERCHANT_ELIXIR_BELT_SHARD_COST,
        ..*stats
    };
    let grown = *elixir_max + 1;
    *elixir_max = if grown <= crate::loot::MAX_ELIXIR_CAPACITY {
        grown
    } else {
        crate::loot::MAX_ELIXIR_CAPACITY
    };
    true
}

/// How many flasks a restock buys: as many as are missing from the belt and
/// the gold pays for at `unit_cost` each.
pub open spec fn spec_affordable(gold: int, unit_cost: int, current: int, max: int) -> int {
    let missing = if current < max { max - current } else { 0 };
    let can_pay = gold / unit_cost;
    if can_pay < missing { can_pay } else { missing }
}

/// Refills the potion belt at 35 gold a potion, as far as the gold goes;
/// returns how many were bought.
pub fn restock_potions(potion_current: &mut u32, potion_max: u32, stats: &mut RunStats) -> (r:
    u32)
    ensures
        r == spec_affordable(old(stats).gold as int, 35, *old(potion_current) as int, potion_max as int),
        *final(potion_current) == *old(potion_current) + r,
        *final(stats) == (RunStats { gold: (old(stats).gold - 35 * r) as u32, ..*old(stats) }),
{
    let missing = potion_max.saturating_sub(*potion_current);
    let can_pay = stats.gold / 35;
    let bought = if can_pay < missing { can_pay } else { missing };
    if bought > 0 {
        *stats = RunStats { gold: stats.gold - bought * 35, ..*stats };
        *potion_current = *potion_current + bought;
    }
    bought
}

/// Refills the elixir belt at 55 gold an elixir, as far as the gold goes;
/// returns how many were bought.
pub fn restock_elixirs(elixir_current: &mut u32, elixir_max: u32, stats: &mut RunStats) -> (r:
    u32)
    ensures
        r == spec_affordable(old(stats).gold as int, 55, *old(elixir_current) as int, elixir_max as int),
        *final(elixir_current) == *old(elixir_current) + r,
        *final(stats) == (RunStats { gold: (old(stats).gold - 55 * r) as u32, ..*old(stats) }),
{
    let missing = elixir_max.saturating_sub(*elixir_current);
    let can_pay = stats.gold / 55;
    let bought = if can_pay < missing { can_pay } else { missing };
    if bought > 0 {
        *stats = RunStats { gold: stats.gold - bought * 55, ..*stats };
        *elixir_current = *elixir_current + bought;
    }
    bought
}

/// `a - b`, or zero when `b` is larger.
pub open spec fn sat_sub(a: int, b: int) -> int {
    if a > b {
        a - b
    } else {
        0
    }
}

/// "s" unless exactly one.
pub open spec fn plural(n: int) -> Seq<char> {
    if n == 1 {
        ""@
    } else {
        "s"@
    }
}

/// The plural ending of a count.
fn plural_suffix(n: u32) -> (r: &'static str)
    ensures
        r@ == plural(n as int),
{
    if n == 1 {
        ""
    } else {
        "s"
    }
}

/// What is still missing toward a price, one part per resource short.
pub open spec fn gap_parts(s: RunStats, gold: int, shards: int, essence: int, keys: int) -> Seq<
    Seq<char>,
> {
    let g = sat_sub(gold, s.gold as int);
    let sh = sat_sub(shards, s.ember_shards as int);
    let e = sat_sub(essence, s.affix_essence as int);
    let k = sat_sub(keys, s.echo_keystones as int);
    (if g > 0 {
        seq![decimal(g as nat) + "g"@]
    } else {
        Seq::empty()
    }) + (if sh > 0 {
        seq![decimal(sh as nat) + "s"@]
    } else {
        Seq::empty()
    }) + (if e > 0 {
        seq![decimal(e as nat) + "e"@]
    } else {
        Seq::empty()
    }) + (if k > 0 {
        seq![decimal(k as nat) + " key"@ + plural(k)]
    } else {
        Seq::empty()
    })
}

/// The shortfall toward a price, as in "7g 2s 1e 1 key", or "ready".
pub open spec fn spec_resource_gap(s: RunStats, gold: int, shards: int, essence: int, keys: int) -> Seq<char> {
    let parts = gap_parts(s, gold, shards, essence, keys);
    if parts.len() == 0 {
        "ready"@
    } else {
        join(parts, " "@)
    }
}

/// Describes what the run still lacks toward a price of `gold`, `shards`,
/// `essence` and `keys`.
pub fn resource_gap_summary(stats: &RunStats, gold: u32, shards: u32, essence: u32, keys: u32) -> (r:
    String)
    ensures
        r@ == spec_resource_gap(*stats, gold as int, shards as int, essence as int, keys as int),
{
    let ghost s = *stats;
    let mut missing: Vec<String> = Vec::new();
    let g = gold.saturating_sub(stats.gold);
    if g > 0 {
        let mut t = String::new();
        push_decimal(&mut t, g);
        t.append("g");
        push_part(&mut missing, t);
    }
    let ghost p1 = views(missing@);
    let sh = shards.saturating_sub(stats.ember_shards);
    if sh > 0 {
        let mut t = String::new();
        push_decimal(&mut t, sh);
        t.append("s");
        push_part(&mut missing, t);
    }
    let ghost p2 = views(missing@);
    let e = essence.saturating_sub(stats.affix_essence);
    if e > 0 {
        let mut t = String::new();
        push_decimal(&mut t, e);
        t.append("e");
        push_part(&mut missing, t);
    }
    let ghost p3 = views(missing@);
    let k = keys.saturating_sub(stats.echo_keystones);
    if k > 0 {
        let mut t = String::new();
        push_decimal(&mut t, k);
        t.append(" key");
        t.append(plural_suffix(k));
        push_part(&mut missing, t);
    }
    proof {
        let gp = gap_parts(s, gold as int, shards as int, essence as int, keys as int);
        assert(views(missing@) =~= gp);
    }
    if missing.len() == 0 {
        String::from_str("ready")
    } else {
        join_strings(&missing, " ")
    }
}

/// `k * n`, or `u32::MAX` when that does not fit.
pub open spec fn sat_mul(k: int, n: int) -> int {
    if k * n > u32::MAX {
        u32::MAX as int
    } else {
        k * n
    }
}

/// `k * n` saturating at `u32::MAX`.
fn saturating_times(k: u32, n: u32) -> (r: u32)
    ensures
        r == sat_mul(k as int, n as int),
{
    match k.checked_mul(n) {
        Some(v) => v,
        None => u32::MAX,
    }
}

/// What `caches` trophy caches pay, as in "+120g +4s +3e +1 key".
pub open spec fn spec_cache_reward_text(caches: int) -> Seq<char> {
    "+"@ + decimal(sat_mul(120, caches) as nat) + "g +"@ + decimal(sat_mul(4, caches) as nat)
        + "s +"@ + decimal(sat_mul(3, caches) as nat) + "e +"@ + decimal(sat_mul(1, caches) as nat)
        + " key"@ + plural(caches)
}

/// The payout of `caches` trophy caches.
pub fn soul_sigil_cache_reward_summary_for(caches: u32) -> (r: String)
    ensures
        r@ == spec_cache_reward_text(caches as int),
{
    let mut s = String::from_str("+");
    push_decimal(&mut s, saturating_times(crate::loot::SOUL_SIGIL_CACHE_GOLD_REWARD, caches));
    s.append("g +");
    push_decimal(&mut s, saturating_times(crate::loot::SOUL_SIGIL_CACHE_SHARD_REWARD, caches));
    s.append("s +");
    push_decimal(&mut s, saturating_times(crate::loot::SOUL_SIGIL_CACHE_ESSENCE_REWARD, caches));
    s.append("e +");
    push_decimal(&mut s, saturating_times(crate::loot::SOUL_SIGIL_CACHE_KEYSTONE_REWARD, caches));
    s.append(" key");
    s.append(plural_suffix(caches));
    s
}

/// How many trophy caches `sigils` soul sigils open.
pub fn soul_sigil_cache_ready_count(sigils: u32) -> (r: u32)
    ensures
        r == sigils / 2,
{
    sigils / crate::loot::SOUL_SIGIL_CACHE_COST
}

/// The offer of the trophy caches `sigils` open, as in
/// "2 Trophy Caches (4 Soul Sigils, +240g +8s +6e +2 keys)".
pub open spec fn spec_cache_ready_text(sigils: int) -> Seq<char> {
    let caches = sigils / 2;
    decimal(caches as nat) + " Trophy Cache"@ + plural(caches) + " ("@ + decimal(
        sat_mul(caches, 2) as nat,
    ) + " Soul Sigils, "@ + spec_cache_reward_text(caches) + ")"@
}

/// The trophy caches ready to open, if `sigils` open any.
pub fn soul_sigil_cache_ready_summary(sigils: u32) -> (r: Option<String>)
    ensures
        sigils < 2 ==> r is None,
        sigils >= 2 ==> r is Some && r->0@ == spec_cache_ready_text(sigils as int),
{
    let caches = soul_sigil_cache_ready_count(sigils);
    if caches == 0 {
        return None;
    }
    let mut s = String::new();
    push_decimal(&mut s, caches);
    s.append(" Trophy Cache");
    s.append(plural_suffix(caches));
    s.append(" (");
    push_decimal(&mut s, saturating_times(caches, crate::loot::SOUL_SIGIL_CACHE_COST));
    s.append(" Soul Sigils, ");
    let reward = soul_sigil_cache_reward_summary_for(caches);
    s.append(reward.as_str());
    s.append(")");
    Some(s)
}

/// The step toward a primal weapon that the run is on.
pub open spec fn spec_primal_pursuit(s: RunStats, quality: Seq<char>) -> Seq<char> {
    if s.primal_infusions > 0 {
        "Primal Infusion complete: "@ + decimal(s.primal_infusions as nat) + " forged"@
    } else if quality == "primal"@ {
        "Primal Infusion complete: primal weapon equipped"@
    } else if quality == "ancient"@ {
        if s.echo_keystones == 0 {
            "Primal next: seal a swift Ember Rift for an Echo Keystone"@
        } else {
            let g = sat_sub(520, s.gold as int);
            let sh = sat_sub(24, s.ember_shards as int);
            let e = sat_sub(14, s.affix_essence as int);
            if g == 0 && sh == 0 && e == 0 {
                "Primal ready: Space at quartermaster to infuse ancient weapon"@
            } else {
                "Primal next: gather "@ + decimal(g as nat) + " gold, "@ + decimal(sh as nat)
                    + " shards, "@ + decimal(e as nat) + " essence"@
            }
        }
    } else if quality == "legendary"@ {
        "Primal next: awaken legendary into ancient at the quartermaster"@
    } else {
        "Primal next: find and build a legendary weapon first"@
    }
}

/// The next step toward primal infusion for a run whose weapon is of
/// `quality`.
pub fn primal_infusion_pursuit_summary(stats: &RunStats, quality: &str) -> (r: String)
    ensures
        r@ == spec_primal_pursuit(*stats, quality@),
{
    if stats.primal_infusions > 0 {
        let mut s = String::from_str("Primal Infusion complete: ");
        push_decimal(&mut s, stats.primal_infusions);
        s.append(" forged");
        return s;
    }
    let q = chars_of(quality);
    if chars_are(&q, "primal") {
        String::from_str("Primal Infusion complete: primal weapon equipped")
    } else if chars_are(&q, "ancient") {
        if stats.echo_keystones == 0 {
            return String::from_str("Primal next: seal a swift Ember Rift for an Echo Keystone");
        }
        let g = crate::loot::PRIMAL_INFUSION_GOLD_COST.saturating_sub(stats.gold);
        let sh = crate::loot::PRIMAL_INFUSION_SHARD_COST.saturating_sub(stats.ember_shards);
        let e = crate::loot::PRIMAL_INFUSION_ESSENCE_COST.saturating_sub(stats.affix_essence);
        if g == 0 && sh == 0 && e == 0 {
            String::from_str("Primal ready: Space at quartermaster to infuse ancient weapon")
        } else {
            let mut s = String::from_str("Primal next: gather ");
            push_decimal(&mut s, g);
            s.append(" gold, ");
            push_decimal(&mut s, sh);
            s.append(" shards, ");
            push_decimal(&mut s, e);
            s.append(" essence");
            s
        }
    } else if chars_are(&q, "legendary") {
        String::from_str("Primal next: awaken legendary into ancient at the quartermaster")
    } else {
        String::from_str("Primal next: find and build a legendary weapon first")
    }
}

/// The equipped weapon, as the quartermaster reads it.
pub struct EquippedGear {
    pub weapon_name: String,
    pub quality: String,
    /// The name of the weapon's legendary power, if it has one.
    pub legendary_power: Option<String>,
    pub temper_level: u32,
    pub socketed_gem: Option<SocketedGem>,
}

/// The bag, the belts and the codex, as the quartermaster reads them.
pub struct QuartermasterStock {
    /// Names of the items in the bag, in order.
    pub item_names: Vec<String>,
    pub inventory_capacity: usize,
    pub potions_current: u32,
    pub potions_max: u32,
    pub elixirs_current: u32,
    pub elixirs_max: u32,
    /// Whether the codex holds a power the weapon could be enchanted with.
    pub enchant_available: bool,
}

/// Every price the quartermaster quotes for `g` fits in a `u32`.
pub open spec fn gear_prices_fit(g: EquippedGear) -> bool {
    &&& 610 + 45 * g.temper_level <= u32::MAX
    &&& g.socketed_gem is Some ==> 320 + 90 * g.socketed_gem->0.rank <= u32::MAX
}

/// Ancient or primal quality.
pub open spec fn spec_ancient_or_better(q: Seq<char>) -> bool {
    spec_quality_rank(q) >= 3
}

/// Items in the bag besides the first one that carries the equipped
/// weapon's name.
pub open spec fn spare_count(names: Seq<Seq<char>>, weapon: Seq<char>) -> int {
    names.len() - if names.contains(weapon) {
        1int
    } else {
        0
    }
}

/// How many bag items the quartermaster would take: all but the equipped
/// weapon's entry.
pub fn quartermaster_spare_item_count(item_names: &Vec<String>, weapon_name: &str) -> (r: usize)
    ensures
        r == spare_count(views(item_names@), weapon_name@),
{
    let ghost names = views(item_names@);
    let mut kept = false;
    let mut count: usize = 0;
    let mut i: usize = 0;
    while i < item_names.len()
        invariant
            names == views(item_names@),
            i <= item_names@.len(),
            kept == names.take(i as int).contains(weapon_name@),
            count == i - if kept {
                1int
            } else {
                0
            },
        decreases item_names@.len() - i,
    {
        let same = item_names[i] == weapon_name.to_string();
        proof {
            let t = names.take(i as int);
            let t1 = names.take(i + 1);
            assert(t1 =~= t.push(names[i as int]));
            if t.contains(weapon_name@) {
                let j = choose|j: int| 0 <= j < t.len() && t[j] == weapon_name@;
                assert(t1[j] == weapon_name@);
            }
            if t1.contains(weapon_name@) && !same {
                let j = choose|j: int| 0 <= j < t1.len() && t1[j] == weapon_name@;
                assert(t[j] == weapon_name@);
            }
            if same {
                assert(t1[i as int] == weapon_name@);
            }
        }
        if !kept && same {
            kept = true;
        } else {
            count += 1;
        }
        i += 1;
    }
    proof {
        assert(names.take(item_names@.len() as int) =~= names);
    }
    count
}

/// The price of primal infusion after the quartermaster's automatic temper
/// and reforge: gold, shards, essence and keystones.
pub fn quartermaster_primal_trade_requirements(temper_level: u32) -> (r: (u32, u32, u32, u32))
    requires
        610 + 45 * temper_level <= u32::MAX,
    ensures
        r == ((610 + 45 * temper_level) as u32, 30u32, 14u32, 1u32),
{
    (
        crate::loot::PRIMAL_INFUSION_GOLD_COST + temper_cost(temper_level),
        crate::loot::PRIMAL_INFUSION_SHARD_COST + crate::loot::MERCHANT_REFORGE_SHARD_COST,
        crate::loot::PRIMAL_INFUSION_ESSENCE_COST,
        crate::loot::PRIMAL_INFUSION_ECHO_KEYSTONE_COST,
    )
}

/// "Quartermaster needs: " with the shortfall and what it is for.
pub open spec fn spec_needs(
    s: RunStats,
    gold: int,
    shards: int,
    essence: int,
    keys: int,
    tail: Seq<char>,
) -> Seq<char> {
    "Quartermaster needs: "@ + spec_resource_gap(s, gold, shards, essence, keys) + tail
}

fn needs_text(stats: &RunStats, gold: u32, shards: u32, essence: u32, keys: u32, tail: &str) -> (r:
    String)
    ensures
        r@ == spec_needs(*stats, gold as int, shards as int, essence as int, keys as int, tail@),
{
    let mut s = String::from_str("Quartermaster needs: ");
    let gap = resource_gap_summary(stats, gold, shards, essence, keys);
    s.append(gap.as_str());
    s.append(tail);
    s
}

/// What the quartermaster asks for next when nothing can be bought now.
pub open spec fn spec_next_need(s: RunStats, g: EquippedGear, v: QuartermasterStock) -> Seq<char> {
    let t = g.temper_level as int;
    if g.quality@ == "ancient"@ {
        spec_needs(s, 610 + 45 * t, 30, 14, 1, " for primal infusion"@)
    } else if v.enchant_available {
        spec_needs(s, 180, 10, 2, 0, " for codex enchant"@)
    } else if g.quality@ == "legendary"@ && g.legendary_power is Some {
        if g.socketed_gem is Some && g.socketed_gem->0.rank >= 4 {
            let gem = g.socketed_gem->0;
            let r = gem.rank as int;
            spec_needs(s, 320 + 90 * r, 16 + 3 * r, 3 * r, 0, " to awaken "@ + gem.spec_label())
        } else {
            "Quartermaster needs: rank 4+ socketed gem to awaken legendary gear"@
        }
    } else if g.socketed_gem is Some {
        let gem = g.socketed_gem->0;
        let r = gem.rank as int;
        if spec_ancient_or_better(g.quality@) && r >= 3 {
            spec_needs(s, 180 + 70 * r, 8 + 2 * r, 2 * r, 0, " to ancient-augment "@ + gem.spec_label())
        } else if r >= 5 {
            spec_needs(s, 320, 0, 8, 1, " to empower "@ + gem.spec_label())
        } else {
            spec_needs(s, 70 + 50 * r, 0, 0, 0, " to upgrade "@ + gem.spec_label())
        }
    } else if s.gold < 90 || s.ember_shards < 5 {
        spec_needs(s, 90, 5, 0, 0, " for mystery charm"@)
    } else if v.inventory_capacity < 18 {
        spec_needs(s, 120, 3, 0, 0, " to expand bag"@)
    } else if v.potions_max < 7 {
        spec_needs(s, 140, 4, 0, 0, " to upgrade potion belt"@)
    } else if v.elixirs_max < 4 {
        spec_needs(s, 160, 5, 0, 0, " to upgrade elixir belt"@)
    } else {
        "Quartermaster needs: spare gear, shards, or a stronger legendary weapon"@
    }
}

/// The quartermaster's line when nothing is affordable: the next thing to
/// save for, with what is missing.
pub fn quartermaster_next_need_summary(
    stats: &RunStats,
    gear: &EquippedGear,
    stock: &QuartermasterStock,
) -> (r: String)
    requires
        gear_prices_fit(*gear),
    ensures
        r@ == spec_next_need(*stats, *gear, *stock),
{
    let q = chars_of(gear.quality.as_str());
    if chars_are(&q, "ancient") {
        let (gold, shards, essence, keys) = quartermaster_primal_trade_requirements(
            gear.temper_level,
        );
        return needs_text(stats, gold, shards, essence, keys, " for primal infusion");
    }
    if stock.enchant_available {
        return needs_text(
            stats,
            crate::loot::MERCHANT_ENCHANT_GOLD_COST,
            crate::loot::MERCHANT_ENCHANT_SHARD_COST,
            crate::loot::MERCHANT_ENCHANT_ESSENCE_COST,
            0,
            " for codex enchant",
        );
    }
    if chars_are(&q, "legendary") && gear.legendary_power.is_some() {
        if let Some(gem) = gear.socketed_gem {
            if gem.rank >= crate::loot::ANCIENT_AWAKEN_MIN_GEM_RANK {
                let (gold, shards, essence) = ancient_awaken_cost(gem);
                let mut tail = String::from_str(" to awaken ");
                let label = gem.label();
                tail.append(label.as_str());
                return needs_text(stats, gold, shards, essence, 0, tail.as_str());
            }
        }
        return String::from_str(
            "Quartermaster needs: rank 4+ socketed gem to awaken legendary gear",
        );
    }
    if let Some(gem) = gear.socketed_gem {
        let label = gem.label();
        if crate::loot::loot_quality_rank(gear.quality.as_str()) >= 3 && gem.rank
            >= crate::loot::ANCIENT_AUGMENT_MIN_GEM_RANK {
            let (gold, shards) = ancient_augment_cost(gem);
            let essence = ancient_augment_essence_cost(gem);
            let mut tail = String::from_str(" to ancient-augment ");
            tail.append(label.as_str());
            return needs_text(stats, gold, shards, essence, 0, tail.as_str());
        }
        if gem.rank >= crate::loot::GEM_EMPOWER_MIN_RANK {
            let mut tail = String::from_str(" to empower ");
            tail.append(label.as_str());
            return needs_text(
                stats,
                crate::loot::GEM_EMPOWER_GOLD_COST,
                0,
                crate::loot::GEM_EMPOWER_ESSENCE_COST,
                crate::loot::GEM_EMPOWER_ECHO_KEYSTONE_COST,
                tail.as_str(),
            );
        }
        let cost = gem_upgrade_cost(gem.rank);
        let mut tail = String::from_str(" to upgrade ");
        tail.append(label.as_str());
        return needs_text(stats, cost, 0, 0, 0, tail.as_str());
    }
    if stats.gold < crate::loot::MERCHANT_MYSTERY_CHARM_GOLD_COST || stats.ember_shards
        < crate::loot::MERCHANT_MYSTERY_CHARM_SHARD_COST {
        return needs_text(
            stats,
            crate::loot::MERCHANT_MYSTERY_CHARM_GOLD_COST,
            crate::loot::MERCHANT_MYSTERY_CHARM_SHARD_COST,
            0,
            0,
            " for mystery charm",
        );
    }
    if stock.inventory_capacity < crate::loot::MAX_INVENTORY_CAPACITY {
        return needs_text(
            stats,
            crate::loot::MERCHANT_STASH_GOLD_COST,
            crate::loot::MERCHANT_STASH_SHARD_COST,
            0,
            0,
            " to expand bag",
        );
    }
    if stock.potions_max < crate::loot::MAX_POTION_CAPACITY {
        return needs_text(
            stats,
            crate::loot::MERCHANT_POTION_BELT_GOLD_COST,
            crate::loot::MERCHANT_POTION_BELT_SHARD_COST,
            0,
            0,
            " to upgrade potion belt",
        );
    }
    if stock.elixirs_max < crate::loot::MAX_ELIXIR_CAPACITY {
        return needs_text(
            stats,
            crate::loot::MERCHANT_ELIXIR_BELT_GOLD_COST,
            crate::loot::MERCHANT_ELIXIR_BELT_SHARD_COST,
            0,
            0,
            " to upgrade elixir belt",
        );
    }
    String::from_str("Quartermaster needs: spare gear, shards, or a stronger legendary weapon")
}

/// The gem service the quartermaster offers first for `gem`, if the run can
/// pay for any: awakening, ancient augment, empowering, then a plain upgrade.
pub open spec fn spec_gem_offer(s: RunStats, g: EquippedGear, gem: SocketedGem) -> Option<Seq<char>> {
    let r = gem.rank as int;
    if g.quality@ == "legendary"@ && g.legendary_power is Some && r >= 4 && s.gold >= 320 + 90 * r
        && s.ember_shards >= 16 + 3 * r && s.affix_essence >= 3 * r {
        Some(
            "Quartermaster next: Space awakens legendary to ancient for "@ + decimal(
                (320 + 90 * r) as nat,
            ) + "g/"@ + decimal((16 + 3 * r) as nat) + "s/"@ + decimal((3 * r) as nat) + "e"@,
        )
    } else if spec_ancient_or_better(g.quality@) && r >= 3 && s.gold >= 180 + 70 * r
        && s.ember_shards >= 8 + 2 * r && s.affix_essence >= 2 * r {
        Some("Quartermaster next: Space consumes "@ + gem.spec_label() + " to ancient-augment gear"@)
    } else if r >= 5 && s.gold >= 320 && s.affix_essence >= 8 && s.echo_keystones >= 1 {
        Some("Quartermaster next: Space empowers "@ + gem.spec_label() + " +2 ranks"@)
    } else if s.gold >= 70 + 50 * r {
        Some(
            "Quartermaster next: Space upgrades "@ + gem.spec_label() + " for "@ + decimal(
                (70 + 50 * r) as nat,
            ) + "g"@,
        )
    } else {
        None
    }
}

fn gem_offer(stats: &RunStats, gear: &EquippedGear, gem: SocketedGem) -> (r: Option<String>)
    requires
        320 + 90 * gem.rank <= u32::MAX,
    ensures
        r is None <==> spec_gem_offer(*stats, *gear, gem) is None,
        r is Some ==> r->0@ == spec_gem_offer(*stats, *gear, gem)->0,
{
    let q = chars_of(gear.quality.as_str());
    if chars_are(&q, "legendary") && gear.legendary_power.is_some() && gem.rank
        >= crate::loot::ANCIENT_AWAKEN_MIN_GEM_RANK {
        let (gold, shards, essence) = ancient_awaken_cost(gem);
        if stats.gold >= gold && stats.ember_shards >= shards && stats.affix_essence >= essence {
            let mut s = String::from_str(
                "Quartermaster next: Space awakens legendary to ancient for ",
            );
            push_decimal(&mut s, gold);
            s.append("g/");
            push_decimal(&mut s, shards);
            s.append("s/");
            push_decimal(&mut s, essence);
            s.append("e");
            return Some(s);
        }
    }
    if crate::loot::loot_quality_rank(gear.quality.as_str()) >= 3 && gem.rank
        >= crate::loot::ANCIENT_AUGMENT_MIN_GEM_RANK {
        let (gold, shards) = ancient_augment_cost(gem);
        let essence = ancient_augment_essence_cost(gem);
        if stats.gold >= gold && stats.ember_shards >= shards && stats.affix_essence >= essence {
            let mut s = String::from_str("Quartermaster next: Space consumes ");
            let label = gem.label();
            s.append(label.as_str());
            s.append(" to ancient-augment gear");
            return Some(s);
        }
    }
    if gem.rank >= crate::loot::GEM_EMPOWER_MIN_RANK && stats.gold
        >= crate::loot::GEM_EMPOWER_GOLD_COST && stats.affix_essence
        >= crate::loot::GEM_EMPOWER_ESSENCE_COST && stats.echo_keystones
        >= crate::loot::GEM_EMPOWER_ECHO_KEYSTONE_COST {
        let mut s = String::from_str("Quartermaster next: Space empowers ");
        let label = gem.label();
        s.append(label.as_str());
        s.append(" +2 ranks");
        return Some(s);
    }
    let cost = gem_upgrade_cost(gem.rank);
    if stats.gold >= cost {
        let mut s = String::from_str("Quartermaster next: Space upgrades ");
        let label = gem.label();
        s.append(label.as_str());
        s.append(" for ");
        push_decimal(&mut s, cost);
        s.append("g");
        return Some(s);
    }
    None
}

/// "Quartermaster next: Space opens" the ready trophy caches, then the next
/// need.
pub open spec fn spec_opens_then(s: RunStats, g: EquippedGear, v: QuartermasterStock) -> Seq<char> {
    "Quartermaster next: Space opens "@ + spec_cache_ready_text(s.malrec_soul_sigils as int)
        + "; then "@ + spec_next_need(s, g, v)
}

/// The quartermaster's advice: the first thing a visit would do, in the
/// order the visit does things, or else what to save for.
pub open spec fn spec_preview(s: RunStats, g: EquippedGear, v: QuartermasterStock) -> Seq<char> {
    let spare = spare_count(views(v.item_names@), g.weapon_name@);
    let t = g.temper_level as int;
    if spare > 0 {
        "Quartermaster next: U salvage "@ + decimal(spare as nat)
            + " spare gear now, or Space sells/restocks/upgrades"@
    } else if v.potions_current < v.potions_max && s.gold >= 35 {
        "Quartermaster next: Space buys "@ + decimal((v.potions_max - v.potions_current) as nat)
            + " potion(s) for 35g each"@
    } else if v.elixirs_current < v.elixirs_max && s.gold >= 55 {
        "Quartermaster next: Space buys "@ + decimal((v.elixirs_max - v.elixirs_current) as nat)
            + " elixir(s) for 55g each"@
    } else if g.quality@ == "ancient"@ {
        if s.gold >= 610 + 45 * t && s.ember_shards >= 30 && s.affix_essence >= 14
            && s.echo_keystones >= 1 {
            "Quartermaster ready: Space can primal-infuse after auto-upgrades for 520g/24s/14e"@
        } else if s.malrec_soul_sigils >= 2 {
            spec_opens_then(s, g, v)
        } else {
            spec_needs(s, 610 + 45 * t, 30, 14, 1, " for primal infusion"@)
        }
    } else if s.malrec_soul_sigils >= 2 {
        spec_opens_then(s, g, v)
    } else if s.gold >= 90 + 45 * t {
        "Quartermaster next: Space tempers weapon +2 damage for "@ + decimal((90 + 45 * t) as nat)
            + "g"@
    } else if s.ember_shards >= 6 {
        "Quartermaster next: Space reforges weapon for 6 shards"@
    } else if v.enchant_available && s.gold >= 180 && s.ember_shards >= 10 && s.affix_essence >= 2 {
        "Quartermaster next: Space enchants legendary power for 180g/10s/2e"@
    } else if g.socketed_gem is Some && spec_gem_offer(s, g, g.socketed_gem->0) is Some {
        spec_gem_offer(s, g, g.socketed_gem->0)->0
    } else if s.gold >= 90 && s.ember_shards >= 5 {
        "Quartermaster next: Space gambles mystery charm for 90g/5s"@
    } else if v.inventory_capacity < 18 && s.gold >= 120 && s.ember_shards >= 3 {
        "Quartermaster next: Space expands bag +2 for 120g/3s"@
    } else if v.potions_max < 7 && s.gold >= 140 && s.ember_shards >= 4 {
        "Quartermaster next: Space upgrades potion belt to "@ + decimal((v.potions_max + 1) as nat)
            + " for 140g/4s"@
    } else if v.elixirs_max < 4 && s.gold >= 160 && s.ember_shards >= 5 {
        "Quartermaster next: Space upgrades elixir belt to "@ + decimal((v.elixirs_max + 1) as nat)
            + " for 160g/5s"@
    } else {
        spec_next_need(s, g, v)
    }
}

fn opens_then(stats: &RunStats, gear: &EquippedGear, stock: &QuartermasterStock) -> (r: String)
    requires
        gear_prices_fit(*gear),
        stats.malrec_soul_sigils >= 2,
    ensures
        r@ == spec_opens_then(*stats, *gear, *stock),
{
    let mut s = String::from_str("Quartermaster next: Space opens ");
    if let Some(ready) = soul_sigil_cache_ready_summary(stats.malrec_soul_sigils) {
        s.append(ready.as_str());
    }
    s.append("; then ");
    let need = quartermaster_next_need_summary(stats, gear, stock);
    s.append(need.as_str());
    s
}

/// The quartermaster's advice before a visit.
pub fn quartermaster_preview_summary(
    stats: &RunStats,
    gear: &EquippedGear,
    stock: &QuartermasterStock,
) -> (r: String)
    requires
        gear_prices_fit(*gear),
    ensures
        r@ == spec_preview(*stats, *gear, *stock),
{
    let spare = quartermaster_spare_item_count(&stock.item_names, gear.weapon_name.as_str());
    if spare > 0 {
        let mut s = String::from_str("Quartermaster next: U salvage ");
        push_decimal_usize(&mut s, spare);
        s.append(" spare gear now, or Space sells/restocks/upgrades");
        return s;
    }
    if stock.potions_current < stock.potions_max && stats.gold >= crate::loot::MERCHANT_POTION_COST {
        let mut s = String::from_str("Quartermaster next: Space buys ");
        push_decimal(&mut s, stock.potions_max - stock.potions_current);
        s.append(" potion(s) for 35g each");
        return s;
    }
    if stock.elixirs_current < stock.elixirs_max && stats.gold >= crate::loot::MERCHANT_ELIXIR_COST {
        let mut s = String::from_str("Quartermaster next: Space buys ");
        push_decimal(&mut s, stock.elixirs_max - stock.elixirs_current);
        s.append(" elixir(s) for 55g each");
        return s;
    }
    let q = chars_of(gear.quality.as_str());
    if chars_are(&q, "ancient") {
        let (gold, shards, essence, keys) = quartermaster_primal_trade_requirements(
            gear.temper_level,
        );
        if stats.gold >= gold && stats.ember_shards >= shards && stats.affix_essence >= essence
            && stats.echo_keystones >= keys {
            return String::from_str(
                "Quartermaster ready: Space can primal-infuse after auto-upgrades for 520g/24s/14e",
            );
        }
        if stats.malrec_soul_sigils >= crate::loot::SOUL_SIGIL_CACHE_COST {
            return opens_then(stats, gear, stock);
        }
        return needs_text(stats, gold, shards, essence, keys, " for primal infusion");
    }
    if stats.malrec_soul_sigils >= crate::loot::SOUL_SIGIL_CACHE_COST {
        return opens_then(stats, gear, stock);
    }
    let temper = temper_cost(gear.temper_level);
    if stats.gold >= temper {
        let mut s = String::from_str("Quartermaster next: Space tempers weapon +2 damage for ");
        push_decimal(&mut s, temper);
        s.append("g");
        return s;
    }
    if stats.ember_shards >= crate::loot::MERCHANT_REFORGE_SHARD_COST {
        return String::from_str("Quartermaster next: Space reforges weapon for 6 shards");
    }
    if stock.enchant_available && stats.gold >= crate::loot::MERCHANT_ENCHANT_GOLD_COST
        && stats.ember_shards >= crate::loot::MERCHANT_ENCHANT_SHARD_COST && stats.affix_essence
        >= crate::loot::MERCHANT_ENCHANT_ESSENCE_COST {
        return String::from_str(
            "Quartermaster next: Space enchants legendary power for 180g/10s/2e",
        );
    }
    if let Some(gem) = gear.socketed_gem {
        if let Some(offer) = gem_offer(stats, gear, gem) {
            return offer;
        }
    }
    if stats.gold >= crate::loot::MERCHANT_MYSTERY_CHARM_GOLD_COST && stats.ember_shards
        >= crate::loot::MERCHANT_MYSTERY_CHARM_SHARD_COST {
        return String::from_str("Quartermaster next: Space gambles mystery charm for 90g/5s");
    }
    if stock.inventory_capacity < crate::loot::MAX_INVENTORY_CAPACITY && stats.gold
        >= crate::loot::MERCHANT_STASH_GOLD_COST && stats.ember_shards
        >= crate::loot::MERCHANT_STASH_SHARD_COST {
        return String::from_str("Quartermaster next: Space expands bag +2 for 120g/3s");
    }
    if stock.potions_max < crate::loot::MAX_POTION_CAPACITY && stats.gold
        >= crate::loot::MERCHANT_POTION_BELT_GOLD_COST && stats.ember_shards
        >= crate::loot::MERCHANT_POTION_BELT_SHARD_COST {
        let mut s = String::from_str("Quartermaster next: Space upgrades potion belt to ");
        push_decimal(&mut s, stock.potions_max + 1);
        s.append(" for 140g/4s");
        return s;
    }
    if stock.elixirs_max < crate::loot::MAX_ELIXIR_CAPACITY && stats.gold
        >= crate::loot::MERCHANT_ELIXIR_BELT_GOLD_COST && stats.ember_shards
        >= crate::loot::MERCHANT_ELIXIR_BELT_SHARD_COST {
        let mut s = String::from_str("Quartermaster next: Space upgrades elixir belt to ");
        push_decimal(&mut s, stock.elixirs_max + 1);
        s.append(" for 160g/5s");
        return s;
    }
    quartermaster_next_need_summary(stats, gear, stock)
}

/// A bag item as salvage reads it.
pub struct BagItem {
    pub name: String,
    pub quality: String,
    pub temper_level: u32,
    pub socketed_gem: Option<SocketedGem>,
    pub has_legendary_power: bool,
    /// Gold the item sells for: twice its item power, rounded, at least one.
    pub sale_value: u32,
}

/// Shards an item salvages into: by quality (primal 24, ancient 14,
/// legendary 8, rare 3, else 1), plus its temper level and its gem's rank.
pub open spec fn spec_item_shards(i: BagItem) -> int {
    let q = i.quality@;
    (if q == "primal"@ {
        24int
    } else if q == "ancient"@ {
        14
    } else if q == "legendary"@ {
        8
    } else if q == "rare"@ {
        3
    } else {
        1
    }) + i.temper_level + (if i.socketed_gem is Some {
        i.socketed_gem->0.rank as int
    } else {
        0
    })
}

/// Affix essence an item salvages into: primal 6, ancient 3, legendary 1,
/// any other item with a legendary power 1, else none.
pub open spec fn spec_item_essence(i: BagItem) -> int {
    let q = i.quality@;
    if q == "primal"@ {
        6
    } else if q == "ancient"@ {
        3
    } else if q == "legendary"@ {
        1
    } else if i.has_legendary_power {
        1
    } else {
        0
    }
}

/// Shards `item` salvages into.
pub fn item_salvage_shards(item: &BagItem) -> (r: u32)
    requires
        spec_item_shards(*item) <= u32::MAX,
    ensures
        r == spec_item_shards(*item),
{
    let q = chars_of(item.quality.as_str());
    let base: u32 = if chars_are(&q, "primal") {
        24
    } else if chars_are(&q, "ancient") {
        14
    } else if chars_are(&q, "legendary") {
        8
    } else if chars_are(&q, "rare") {
        3
    } else {
        1
    };
    let gem: u32 = match item.socketed_gem {
        Some(g) => g.rank,
        None => 0,
    };
    base + item.temper_level + gem
}

/// Affix essence `item` salvages into.
pub fn item_salvage_essence(item: &BagItem) -> (r: u32)
    ensures
        r == spec_item_essence(*item),
{
    let q = chars_of(item.quality.as_str());
    if chars_are(&q, "primal") {
        6
    } else if chars_are(&q, "ancient") {
        3
    } else if chars_are(&q, "legendary") {
        1
    } else if item.has_legendary_power {
        1
    } else {
        0
    }
}

/// Some item before position `n` carries the name `w`.
pub open spec fn named_before(items: Seq<BagItem>, w: Seq<char>, n: int) -> bool {
    exists|j: int| 0 <= j < n && #[trigger] items[j].name@ == w
}

/// The item at `i` is the equipped weapon's entry: the first carrying its
/// name. Salvage keeps it and takes every other item.
pub open spec fn is_kept(items: Seq<BagItem>, w: Seq<char>, i: int) -> bool {
    items[i].name@ == w && !named_before(items, w, i)
}

/// What salvaging the first `n` items yields: items taken, gold, shards and
/// essence.
pub open spec fn salvage_totals(items: Seq<BagItem>, w: Seq<char>, n: nat) -> (int, int, int, int)
    decreases n,
{
    if n == 0 {
        (0, 0, 0, 0)
    } else {
        let p = salvage_totals(items, w, (n - 1) as nat);
        let i = n - 1;
        if is_kept(items, w, i) {
            p
        } else {
            (
                p.0 + 1,
                p.1 + items[i].sale_value,
                p.2 + spec_item_shards(items[i]),
                p.3 + spec_item_essence(items[i]),
            )
        }
    }
}

/// The items salvage leaves among the first `n`: the equipped weapon's entry
/// alone, if it is there.
pub open spec fn kept_items(items: Seq<BagItem>, w: Seq<char>, n: nat) -> Seq<BagItem>
    decreases n,
{
    if n == 0 {
        Seq::empty()
    } else {
        let p = kept_items(items, w, (n - 1) as nat);
        if is_kept(items, w, n - 1) {
            p.push(items[n - 1])
        } else {
            p
        }
    }
}

/// Every running total of a salvage fits in a `u32`.
pub open spec fn salvage_fits(items: Seq<BagItem>, w: Seq<char>) -> bool {
    let t = salvage_totals(items, w, items.len());
    t.1 <= u32::MAX && t.2 <= u32::MAX && t.3 <= u32::MAX
}

/// Salvage totals only grow as more items are counted.
pub proof fn lemma_salvage_totals_grow(items: Seq<BagItem>, w: Seq<char>, m: nat, n: nat)
    requires
        m <= n,
    ensures
        salvage_totals(items, w, m).0 <= salvage_totals(items, w, n).0,
        salvage_totals(items, w, m).1 <= salvage_totals(items, w, n).1,
        salvage_totals(items, w, m).2 <= salvage_totals(items, w, n).2,
        salvage_totals(items, w, m).3 <= salvage_totals(items, w, n).3,
        salvage_totals(items, w, n).0 <= n,
        0 <= salvage_totals(items, w, m).1,
        0 <= salvage_totals(items, w, m).2,
        0 <= salvage_totals(items, w, m).3,
    decreases n,
{
    if n > 0 {
        let k = (n - 1) as nat;
        if m < n {
            lemma_salvage_totals_grow(items, w, m, k);
        } else {
            lemma_salvage_totals_grow(items, w, k, k);
        }
    }
}

pub(crate) proof fn lemma_named_step(items: Seq<BagItem>, w: Seq<char>, i: int)
    requires
        0 <= i < items.len(),
    ensures
        named_before(items, w, i + 1) == (named_before(items, w, i) || items[i].name@ == w),
{
    if named_before(items, w, i) {
        let j = choose|j: int| 0 <= j < i && #[trigger] items[j].name@ == w;
        assert(0 <= j < i + 1 && items[j].name@ == w);
    }
    if items[i].name@ == w {
        assert(0 <= i < i + 1 && items[i].name@ == w);
    }
    if named_before(items, w, i + 1) && items[i].name@ != w {
        let j = choose|j: int| 0 <= j < i + 1 && #[trigger] items[j].name@ == w;
        assert(j < i);
    }
}

/// What salvaging the spare gear in the bag yields, from the sale and from
/// any salvage caches it completes.
#[derive(Clone, Copy, Debug, PartialEq, Eq, Structural)]
pub struct SpareSalvage {
    pub items: usize,
    pub gold: u32,
    pub shards: u32,
    pub essence: u32,
    pub cache: SalvageCacheReward,
}

/// What a salvage would yield, before any cache.
#[derive(Clone, Copy, Debug, PartialEq, Eq, Structural)]
pub struct SalvagePreview {
    pub items: usize,
    pub gold: u32,
    pub shards: u32,
    pub essence: u32,
}

/// What salvaging every item but the equipped weapon's entry would yield.
pub fn salvage_preview(items: &Vec<BagItem>, weapon_name: &str) -> (r: SalvagePreview)
    requires
        salvage_fits(items@, weapon_name@),
    ensures
        ({
            let t = salvage_totals(items@, weapon_name@, items@.len());
            r.items == t.0 && r.gold == t.1 && r.shards == t.2 && r.essence == t.3
        }),
{
    let ghost w = weapon_name@;
    let target = String::from_str(weapon_name);
    let mut kept = false;
    let mut p = SalvagePreview { items: 0, gold: 0, shards: 0, essence: 0 };
    let mut i: usize = 0;
    while i < items.len()
        invariant
            w == weapon_name@,
            target@ == w,
            salvage_fits(items@, w),
            i <= items@.len(),
            kept == named_before(items@, w, i as int),
            ({
                let t = salvage_totals(items@, w, i as nat);
                p.items == t.0 && p.gold == t.1 && p.shards == t.2 && p.essence == t.3
            }),
        decreases items@.len() - i,
    {
        proof {
            lemma_named_step(items@, w, i as int);
            lemma_salvage_totals_grow(items@, w, (i + 1) as nat, items@.len());
        }
        let same = items[i].name == target;
        if !kept && same {
            kept = true;
        } else {
            let item = &items[i];
            p = SalvagePreview {
                items: p.items + 1,
                gold: p.gold + item.sale_value,
                shards: p.shards + item_salvage_shards(item),
                essence: p.essence + item_salvage_essence(item),
            };
            if same {
                kept = true;
            }
        }
        i += 1;
    }
    p
}

/// Sells every item but the equipped weapon's entry and returns what the
/// sale yields; the bag is left holding that entry alone, if it was there.
pub fn salvage_spare_inventory(items: &mut Vec<BagItem>, weapon_name: &str) -> (r: SpareSalvage)
    requires
        salvage_fits(old(items)@, weapon_name@),
    ensures
        final(items)@ == kept_items(old(items)@, weapon_name@, old(items)@.len()),
        ({
            let t = salvage_totals(old(items)@, weapon_name@, old(items)@.len());
            r.items == t.0 && r.gold == t.1 && r.shards == t.2 && r.essence == t.3
        }),
        r.items + final(items)@.len() == old(items)@.len(),
        r.cache == SalvageCacheReward::spec_none(),
{
    proof {
        lemma_salvage_counts(old(items)@, weapon_name@, old(items)@.len());
    }
    let ghost w = weapon_name@;
    let ghost all = items@;
    let len0 = items.len();
    let ghost n = all.len();
    let target = String::from_str(weapon_name);
    let mut kept = false;
    let mut salvage = SpareSalvage {
        items: 0,
        gold: 0,
        shards: 0,
        essence: 0,
        cache: SalvageCacheReward::default(),
    };
    let mut i: usize = 0;
    let ghost mut j: int = 0;
    while i < items.len()
        invariant
            w == weapon_name@,
            target@ == w,
            n == all.len(),
            n == len0,
            salvage_fits(all, w),
            0 <= j <= n,
            kept == named_before(all, w, j),
            i == (if kept {
                1int
            } else {
                0
            }),
            kept_items(all, w, j as nat).len() == i,
            items@ == kept_items(all, w, j as nat) + all.subrange(j, n as int),
            ({
                let t = salvage_totals(all, w, j as nat);
                salvage.items == t.0 && salvage.gold == t.1 && salvage.shards == t.2
                    && salvage.essence == t.3
            }),
            salvage.cache == SalvageCacheReward::spec_none(),
        decreases items@.len() - i,
    {
        proof {
            lemma_named_step(all, w, j);
            lemma_salvage_totals_grow(all, w, (j + 1) as nat, n);
            assert(items@[i as int] == all[j]);
        }
        let same = items[i].name == target;
        if !kept && same {
            kept = true;
            i += 1;
            proof {
                assert(items@ =~= kept_items(all, w, (j + 1) as nat) + all.subrange(j + 1, n as int));
            }
        } else {
            let item = items.remove(i);
            salvage = SpareSalvage {
                items: salvage.items + 1,
                gold: salvage.gold + item.sale_value,
                shards: salvage.shards + item_salvage_shards(&item),
                essence: salvage.essence + item_salvage_essence(&item),
                cache: salvage.cache,
            };
            if same {
                kept = true;
            }
            proof {
                assert(items@ =~= kept_items(all, w, (j + 1) as nat) + all.subrange(j + 1, n as int));
            }
        }
        proof {
            j = j + 1;
        }
    }
    proof {
        assert(j == n) by {
            if j < n {
                assert(items@.len() > i);
            }
        }
        assert(all.subrange(j, n as int) =~= Seq::<BagItem>::empty());
        assert(items@ =~= kept_items(all, w, n as nat));
    }
    salvage
}

/// Every item of the first `n` is either taken by salvage or kept.
proof fn lemma_salvage_counts(items: Seq<BagItem>, w: Seq<char>, n: nat)
    requires
        n <= items.len(),
    ensures
        salvage_totals(items, w, n).0 + kept_items(items, w, n).len() == n,
    decreases n,
{
    if n > 0 {
        lemma_salvage_counts(items, w, (n - 1) as nat);
    }
}

/// What the first `n` items of a bag would sell for and salvage into:
/// gold, shards and essence.
pub open spec fn bag_sums(items: Seq<BagItem>, n: nat) -> (int, int, int)
    decreases n,
{
    if n == 0 {
        (0, 0, 0)
    } else {
        let p = bag_sums(items, (n - 1) as nat);
        let it = items[n - 1];
        (p.0 + it.sale_value, p.1 + spec_item_shards(it), p.2 + spec_item_essence(it))
    }
}

/// `k` is the first item named `w`, or, as `None`, no item is.
pub open spec fn first_named(items: Seq<BagItem>, w: Seq<char>, k: Option<int>) -> bool {
    match k {
        Some(k) => 0 <= k < items.len() && items[k].name@ == w && forall|j: int|
            0 <= j < k ==> #[trigger] items[j].name@ != w,
        None => forall|j: int| 0 <= j < items.len() ==> #[trigger] items[j].name@ != w,
    }
}

proof fn lemma_salvage_prefix(items: Seq<BagItem>, w: Seq<char>, k: Option<int>, n: nat)
    requires
        n <= items.len(),
        first_named(items, w, k),
    ensures
        ({
            let b = bag_sums(items, n);
            if k is Some && k->0 < n {
                let it = items[k->0];
                &&& kept_items(items, w, n) == seq![it]
                &&& salvage_totals(items, w, n) == (n - 1, b.0 - it.sale_value, b.1
                    - spec_item_shards(it), b.2 - spec_item_essence(it))
            } else {
                &&& kept_items(items, w, n) == Seq::<BagItem>::empty()
                &&& salvage_totals(items, w, n) == (n as int, b.0, b.1, b.2)
            }
        }),
    decreases n,
{
    if n > 0 {
        let i = n - 1;
        lemma_salvage_prefix(items, w, k, (n - 1) as nat);
        match k {
            Some(k) => {
                if i == k {
                    assert(!named_before(items, w, i)) by {
                        if named_before(items, w, i) {
                            let j = choose|j: int| 0 <= j < i && #[trigger] items[j].name@ == w;
                            assert(items[j].name@ != w);
                        }
                    }
                    assert(is_kept(items, w, i));
                } else if i < k {
                    assert(items[i].name@ != w);
                } else {
                    assert(items[k].name@ == w);
                    assert(named_before(items, w, i));
                }
            },
            None => {
                assert(items[i].name@ != w);
            },
        }
    }
}

/// Salvage keeps exactly the first item named as the weapon, or nothing
/// when no item is, and takes every other item: the gold, shards and
/// essence it yields are those of the whole bag less the kept item's.
pub proof fn lemma_salvage_closed_form(items: Seq<BagItem>, w: Seq<char>, k: Option<int>)
    requires
        first_named(items, w, k),
    ensures
        ({
            let n = items.len();
            let b = bag_sums(items, n);
            match k {
                Some(k) => {
                    let it = items[k];
                    &&& kept_items(items, w, n) == seq![it]
                    &&& salvage_totals(items, w, n) == (n - 1, b.0 - it.sale_value, b.1
                        - spec_item_shards(it), b.2 - spec_item_essence(it))
                },
                None => {
                    &&& kept_items(items, w, n) == Seq::<BagItem>::empty()
                    &&& salvage_totals(items, w, n) == (n as int, b.0, b.1, b.2)
                },
            }
        }),
{
    lemma_salvage_prefix(items, w, k, items.len());
}

/// Salvage leaves at most one item in the bag, and only one that carries
/// the equipped weapon's name; it leaves exactly one when such an item was
/// there.
pub proof fn lemma_salvage_keeps_equipped_only(items: Seq<BagItem>, w: Seq<char>, n: nat)
    requires
        n <= items.len(),
    ensures
        kept_items(items, w, n).len() == (if named_before(items, w, n as int) {
            1int
        } else {
            0
        }),
        forall|k: int|
            0 <= k < kept_items(items, w, n).len() ==> #[trigger] kept_items(items, w, n)[k].name@
                == w,
    decreases n,
{
    if n > 0 {
        let k = (n - 1) as nat;
        lemma_salvage_keeps_equipped_only(items, w, k);
        lemma_named_step(items, w, k as int);
    }
}

/// The run after the sale of `items` (all but the entry named `w`) is paid
/// in, before salvage caches.
pub open spec fn spec_sale_paid(s: RunStats, items: Seq<BagItem>, w: Seq<char>) -> RunStats {
    let t = salvage_totals(items, w, items.len());
    RunStats {
        gold: (s.gold + t.1) as u32,
        ember_shards: (s.ember_shards + t.2) as u32,
        affix_essence: (s.affix_essence + t.3) as u32,
        ..s
    }
}

/// The run after `sold` items count toward salvage caches and the caches
/// they complete are paid.
pub open spec fn spec_salvage_caches(s: RunStats, sold: usize) -> RunStats {
    let c = salvage_caches_earned(s, sold);
    if sold == 0 {
        s
    } else if c == 0 {
        RunStats { salvage_progress: salvage_progress_after(s, sold) as u32, ..s }
    } else {
        RunStats {
            salvage_progress: (salvage_progress_after(s, sold) % 4) as u32,
            salvage_caches: sat_add(s.salvage_caches as int, c) as u32,
            gold: (s.gold + 60 * c) as u32,
            ember_shards: (s.ember_shards + 2 * c) as u32,
            affix_essence: (s.affix_essence + c) as u32,
            ..s
        }
    }
}

/// The salvage caches that `sold` more items complete.
pub open spec fn spec_cache_reward(s: RunStats, sold: usize) -> SalvageCacheReward {
    let c = salvage_caches_earned(s, sold);
    if sold == 0 || c == 0 {
        SalvageCacheReward::spec_none()
    } else {
        SalvageCacheReward {
            caches: c as u32,
            gold: (60 * c) as u32,
            shards: (2 * c) as u32,
            essence: c as u32,
        }
    }
}

/// The run after salvaging `items` into it.
pub open spec fn spec_salvage_into(s: RunStats, items: Seq<BagItem>, w: Seq<char>) -> RunStats {
    let t = salvage_totals(items, w, items.len());
    spec_salvage_caches(spec_sale_paid(s, items, w), t.0 as usize)
}

/// No counter that salvaging `items` into `s` adds to runs past `u32::MAX`.
pub open spec fn salvage_into_fits(s: RunStats, items: Seq<BagItem>, w: Seq<char>) -> bool {
    let t = salvage_totals(items, w, items.len());
    let s1 = spec_sale_paid(s, items, w);
    let c = salvage_caches_earned(s1, t.0 as usize);
    &&& salvage_fits(items, w)
    &&& s.gold + t.1 <= u32::MAX
    &&& s.ember_shards + t.2 <= u32::MAX
    &&& s.affix_essence + t.3 <= u32::MAX
    &&& t.0 > 0 && c > 0 ==> s1.gold + 60 * c <= u32::MAX && s1.ember_shards + 2 * c <= u32::MAX
        && s1.affix_essence + c <= u32::MAX
}

/// Salvages the spare gear into the run: the sale's gold, shards and essence
/// are added, and the sold items count toward salvage caches.
pub fn salvage_spare_inventory_into_stats(
    items: &mut Vec<BagItem>,
    weapon_name: &str,
    stats: &mut RunStats,
) -> (r: SpareSalvage)
    requires
        salvage_into_fits(*old(stats), old(items)@, weapon_name@),
    ensures
        final(items)@ == kept_items(old(items)@, weapon_name@, old(items)@.len()),
        *final(stats) == spec_salvage_into(*old(stats), old(items)@, weapon_name@),
        ({
            let t = salvage_totals(old(items)@, weapon_name@, old(items)@.len());
            &&& r.items == t.0 && r.gold == t.1 && r.shards == t.2 && r.essence == t.3
            &&& r.cache == spec_cache_reward(
                spec_sale_paid(*old(stats), old(items)@, weapon_name@),
                t.0 as usize,
            )
        }),
{
    let mut salvage = salvage_spare_inventory(items, weapon_name);
    *stats = RunStats {
        gold: stats.gold + salvage.gold,
        ember_shards: stats.ember_shards + salvage.shards,
        affix_essence: stats.affix_essence + salvage.essence,
        ..*stats
    };
    let cache = apply_salvage_cache_rewards(stats, salvage.items);
    salvage.cache = cache;
    salvage
}

impl SpareSalvage {
    /// The salvage report line.
    pub open spec fn spec_summary(self) -> Seq<char> {
        if self.items == 0 {
            "No spare gear to salvage"@
        } else {
            "Salvaged "@ + decimal(self.items as nat) + " spare gear: +"@ + decimal(self.gold as nat)
                + "g +"@ + decimal(self.shards as nat) + "s +"@ + decimal(self.essence as nat)
                + " essence"@ + if self.cache.caches > 0 {
                " | salvage cache x"@ + decimal(self.cache.caches as nat) + ": +"@ + decimal(
                    self.cache.gold as nat,
                ) + "g +"@ + decimal(self.cache.shards as nat) + "s +"@ + decimal(
                    self.cache.essence as nat,
                ) + " essence"@
            } else {
                ""@
            }
        }
    }

    /// The salvage report line.
    pub fn summary(self) -> (r: String)
        ensures
            r@ == self.spec_summary(),
    {
        if self.items == 0 {
            return String::from_str("No spare gear to salvage");
        }
        let mut text = String::from_str("Salvaged ");
        push_decimal_usize(&mut text, self.items);
        text.append(" spare gear: +");
        push_decimal(&mut text, self.gold);
        text.append("g +");
        push_decimal(&mut text, self.shards);
        text.append("s +");
        push_decimal(&mut text, self.essence);
        text.append(" essence");
        let ghost head = text@;
        if self.cache.caches > 0 {
            text.append(" | salvage cache x");
            push_decimal(&mut text, self.cache.caches);
            text.append(": +");
            push_decimal(&mut text, self.cache.gold);
            text.append("g +");
            push_decimal(&mut text, self.cache.shards);
            text.append("s +");
            push_decimal(&mut text, self.cache.essence);
            text.append(" essence");
        } else {
            proof {
                reveal_strlit("");
                assert(text@ =~= head + ""@);
            }
        }
        text
    }
}

/// The next loot goal: salvage spares, make room, chase primal, or find a
/// legendary.
pub open spec fn spec_loot_pursuit(
    s: RunStats,
    items: Seq<BagItem>,
    capacity: usize,
    gear: EquippedGear,
) -> Seq<char> {
    let t = salvage_totals(items, gear.weapon_name@, items.len());
    let q = gear.quality@;
    if t.0 > 0 {
        "U salvage "@ + decimal(t.0 as nat) + ": +"@ + decimal(t.1 as nat) + "g +"@ + decimal(
            t.2 as nat,
        ) + "s +"@ + decimal(t.3 as nat) + "e"@
    } else if items.len() >= capacity {
        "Bag full: equip upgrade or visit quartermaster"@
    } else if q == "ancient"@ || q == "primal"@ {
        spec_primal_pursuit(s, q)
    } else if spec_quality_rank(q) >= 2 {
        "Loot next: socket gem, awaken ancient, then chase primal"@
    } else {
        "Loot next: hunt elites for legendary gear and shards"@
    }
}

/// The HUD's loot goal line.
pub fn loot_pursuit_summary(
    stats: &RunStats,
    items: &Vec<BagItem>,
    capacity: usize,
    gear: &EquippedGear,
) -> (r: String)
    requires
        salvage_fits(items@, gear.weapon_name@),
    ensures
        r@ == spec_loot_pursuit(*stats, items@, capacity, *gear),
{
    let p = salvage_preview(items, gear.weapon_name.as_str());
    if p.items > 0 {
        let mut s = String::from_str("U salvage ");
        push_decimal_usize(&mut s, p.items);
        s.append(": +");
        push_decimal(&mut s, p.gold);
        s.append("g +");
        push_decimal(&mut s, p.shards);
        s.append("s +");
        push_decimal(&mut s, p.essence);
        s.append("e");
        return s;
    }
    if items.len() >= capacity {
        return String::from_str("Bag full: equip upgrade or visit quartermaster");
    }
    let q = chars_of(gear.quality.as_str());
    if chars_are(&q, "ancient") || chars_are(&q, "primal") {
        return primal_infusion_pursuit_summary(stats, gear.quality.as_str());
    }
    if crate::loot::quality_is_legendary_or_better(gear.quality.as_str()) {
        return String::from_str("Loot next: socket gem, awaken ancient, then chase primal");
    }
    String::from_str("Loot next: hunt elites for legendary gear and shards")
}

/// Everything one quartermaster visit did, with the prices it paid.
#[derive(Debug)]
pub struct MerchantTransaction {
    pub sold_items: usize,
    pub sale_gold: u32,
    pub salvaged_shards: u32,
    pub salvaged_essence: u32,
    pub salvage_cache_count: u32,
    pub salvage_cache_gold: u32,
    pub salvage_cache_shards: u32,
    pub salvage_cache_essence: u32,
    pub bought_potions: u32,
    pub bought_elixirs: u32,
    pub tempered: bool,
    pub temper_cost: u32,
    pub reforged: bool,
    pub reforge_cost: u32,
    pub enchanted: bool,
    pub enchant_gold_cost: u32,
    pub enchant_shard_cost: u32,
    pub enchant_essence_cost: u32,
    pub enchanted_power: String,
    pub charm_polished: bool,
    pub charm_polish_gold_cost: u32,
    pub charm_polish_shard_cost: u32,
    pub charm_label: String,
    pub mystery_charm: bool,
    pub mystery_charm_equipped: bool,
    pub mystery_charm_gold_cost: u32,
    pub mystery_charm_shard_cost: u32,
    pub mystery_charm_label: String,
    pub mystery_weapon: bool,
    pub mystery_weapon_equipped: bool,
    pub mystery_weapon_stored: bool,
    pub mystery_weapon_codex_unlocked: bool,
    pub mystery_weapon_gold_cost: u32,
    pub mystery_weapon_shard_cost: u32,
    pub mystery_weapon_label: String,
    pub capacity_upgraded: bool,
    pub capacity_gold_cost: u32,
    pub capacity_shard_cost: u32,
    pub inventory_capacity: usize,
    pub potion_belt_upgraded: bool,
    pub potion_belt_gold_cost: u32,
    pub potion_belt_shard_cost: u32,
    pub potion_capacity: u32,
    pub elixir_belt_upgraded: bool,
    pub elixir_belt_gold_cost: u32,
    pub elixir_belt_shard_cost: u32,
    pub elixir_capacity: u32,
    pub ancient_augmented: bool,
    pub ancient_augment_gold_cost: u32,
    pub ancient_augment_shard_cost: u32,
    pub ancient_augment_essence_cost: u32,
    pub ancient_augment_label: String,
    pub ancient_awakened: bool,
    pub ancient_awaken_gold_cost: u32,
    pub ancient_awaken_shard_cost: u32,
    pub ancient_awaken_essence_cost: u32,
    pub ancient_awaken_label: String,
    pub primal_infused: bool,
    pub primal_infusion_gold_cost: u32,
    pub primal_infusion_shard_cost: u32,
    pub primal_infusion_essence_cost: u32,
    pub primal_infusion_echo_cost: u32,
    pub primal_infusion_label: String,
    pub gem_empowered: bool,
    pub gem_empower_gold_cost: u32,
    pub gem_empower_essence_cost: u32,
    pub gem_empower_echo_cost: u32,
    pub gem_empower_label: String,
    pub gem_upgraded: bool,
    pub gem_cost: u32,
    pub gem_label: String,
    pub alchemy_gold: bool,
    pub alchemy_gold_cost: u32,
    pub alchemy_shard_reward: u32,
    pub alchemy_essence: bool,
    pub alchemy_shard_cost: u32,
    pub alchemy_essence_reward: u32,
    pub alchemy_keystone: bool,
    pub alchemy_keystone_shard_cost: u32,
    pub alchemy_keystone_essence_cost: u32,
    pub alchemy_keystone_reward: u32,
    pub soul_sigil_cache: bool,
    pub soul_sigil_cache_cost: u32,
    pub soul_sigil_cache_gold: u32,
    pub soul_sigil_cache_shards: u32,
    pub soul_sigil_cache_essence: u32,
    pub soul_sigil_cache_keystones: u32,
}

impl MerchantTransaction {
    /// A report of a visit that did nothing: every count and price zero,
    /// every flag unset, every label empty.
    pub open spec fn spec_is_blank(t: MerchantTransaction) -> bool {
        &&& t.sold_items == 0
        &&& t.sale_gold == 0
        &&& t.salvaged_shards == 0
        &&& t.salvaged_essence == 0
        &&& t.salvage_cache_count == 0
        &&& t.salvage_cache_gold == 0
        &&& t.salvage_cache_shards == 0
        &&& t.salvage_cache_essence == 0
        &&& t.bought_potions == 0
        &&& t.bought_elixirs == 0
        &&& !t.tempered
        &&& t.temper_cost == 0
        &&& !t.reforged
        &&& t.reforge_cost == 0
        &&& !t.enchanted
        &&& t.enchant_gold_cost == 0
        &&& t.enchant_shard_cost == 0
        &&& t.enchant_essence_cost == 0
        &&& t.enchanted_power@ == Seq::<char>::empty()
        &&& !t.charm_polished
        &&& t.charm_polish_gold_cost == 0
        &&& t.charm_polish_shard_cost == 0
        &&& t.charm_label@ == Seq::<char>::empty()
        &&& !t.mystery_charm
        &&& !t.mystery_charm_equipped
        &&& t.mystery_charm_gold_cost == 0
        &&& t.mystery_charm_shard_cost == 0
        &&& t.mystery_charm_label@ == Seq::<char>::empty()
        &&& !t.mystery_weapon
        &&& !t.mystery_weapon_equipped
        &&& !t.mystery_weapon_stored
        &&& !t.mystery_weapon_codex_unlocked
        &&& t.mystery_weapon_gold_cost == 0
        &&& t.mystery_weapon_shard_cost == 0
        &&& t.mystery_weapon_label@ == Seq::<char>::empty()
        &&& !t.capacity_upgraded
        &&& t.capacity_gold_cost == 0
        &&& t.capacity_shard_cost == 0
        &&& t.inventory_capacity == 0
        &&& !t.potion_belt_upgraded
        &&& t.potion_belt_gold_cost == 0
        &&& t.potion_belt_shard_cost == 0
        &&& t.potion_capacity == 0
        &&& !t.elixir_belt_upgraded
        &&& t.elixir_belt_gold_cost == 0
        &&& t.elixir_belt_shard_cost == 0
        &&& t.elixir_capacity == 0
        &&& !t.ancient_augmented
        &&& t.ancient_augment_gold_cost == 0
        &&& t.ancient_augment_shard_cost == 0
        &&& t.ancient_augment_essence_cost == 0
        &&& t.ancient_augment_label@ == Seq::<char>::empty()
        &&& !t.ancient_awakened
        &&& t.ancient_awaken_gold_cost == 0
        &&& t.ancient_awaken_shard_cost == 0
        &&& t.ancient_awaken_essence_cost == 0
        &&& t.ancient_awaken_label@ == Seq::<char>::empty()
        &&& !t.primal_infused
        &&& t.primal_infusion_gold_cost == 0
        &&& t.primal_infusion_shard_cost == 0
        &&& t.primal_infusion_essence_cost == 0
        &&& t.primal_infusion_echo_cost == 0
        &&& t.primal_infusion_label@ == Seq::<char>::empty()
        &&& !t.gem_empowered
        &&& t.gem_empower_gold_cost == 0
        &&& t.gem_empower_essence_cost == 0
        &&& t.gem_empower_echo_cost == 0
        &&& t.gem_empower_label@ == Seq::<char>::empty()
        &&& !t.gem_upgraded
        &&& t.gem_cost == 0
        &&& t.gem_label@ == Seq::<char>::empty()
        &&& !t.alchemy_gold
        &&& t.alchemy_gold_cost == 0
        &&& t.alchemy_shard_reward == 0
        &&& !t.alchemy_essence
        &&& t.alchemy_shard_cost == 0
        &&& t.alchemy_essence_reward == 0
        &&& !t.alchemy_keystone
        &&& t.alchemy_keystone_shard_cost == 0
        &&& t.alchemy_keystone_essence_cost == 0
        &&& t.alchemy_keystone_reward == 0
        &&& !t.soul_sigil_cache
        &&& t.soul_sigil_cache_cost == 0
        &&& t.soul_sigil_cache_gold == 0
        &&& t.soul_sigil_cache_shards == 0
        &&& t.soul_sigil_cache_essence == 0
        &&& t.soul_sigil_cache_keystones == 0
    }
}

impl Default for MerchantTransaction {
    fn default() -> (r: MerchantTransaction)
        ensures
            MerchantTransaction::spec_is_blank(r),
    {
        MerchantTransaction {
            sold_items: 0,
            sale_gold: 0,
            salvaged_shards: 0,
            salvaged_essence: 0,
            salvage_cache_count: 0,
            salvage_cache_gold: 0,
            salvage_cache_shards: 0,
            salvage_cache_essence: 0,
            bought_potions: 0,
            bought_elixirs: 0,
            tempered: false,
            temper_cost: 0,
            reforged: false,
            reforge_cost: 0,
            enchanted: false,
            enchant_gold_cost: 0,
            enchant_shard_cost: 0,
            enchant_essence_cost: 0,
            enchanted_power: String::new(),
            charm_polished: false,
            charm_polish_gold_cost: 0,
            charm_polish_shard_cost: 0,
            charm_label: String::new(),
            mystery_charm: false,
            mystery_charm_equipped: false,
            mystery_charm_gold_cost: 0,
            mystery_charm_shard_cost: 0,
            mystery_charm_label: String::new(),
            mystery_weapon: false,
            mystery_weapon_equipped: false,
            mystery_weapon_stored: false,
            mystery_weapon_codex_unlocked: false,
            mystery_weapon_gold_cost: 0,
            mystery_weapon_shard_cost: 0,
            mystery_weapon_label: String::new(),
            capacity_upgraded: false,
            capacity_gold_cost: 0,
            capacity_shard_cost: 0,
            inventory_capacity: 0,
            potion_belt_upgraded: false,
            potion_belt_gold_cost: 0,
            potion_belt_shard_cost: 0,
            potion_capacity: 0,
            elixir_belt_upgraded: false,
            elixir_belt_gold_cost: 0,
            elixir_belt_shard_cost: 0,
            elixir_capacity: 0,
            ancient_augmented: false,
            ancient_augment_gold_cost: 0,
            ancient_augment_shard_cost: 0,
            ancient_augment_essence_cost: 0,
            ancient_augment_label: String::new(),
            ancient_awakened: false,
            ancient_awaken_gold_cost: 0,
            ancient_awaken_shard_cost: 0,
            ancient_awaken_essence_cost: 0,
            ancient_awaken_label: String::new(),
            primal_infused: false,
            primal_infusion_gold_cost: 0,
            primal_infusion_shard_cost: 0,
            primal_infusion_essence_cost: 0,
            primal_infusion_echo_cost: 0,
            primal_infusion_label: String::new(),
            gem_empowered: false,
            gem_empower_gold_cost: 0,
            gem_empower_essence_cost: 0,
            gem_empower_echo_cost: 0,
            gem_empower_label: String::new(),
            gem_upgraded: false,
            gem_cost: 0,
            gem_label: String::new(),
            alchemy_gold: false,
            alchemy_gold_cost: 0,
            alchemy_shard_reward: 0,
            alchemy_essence: false,
            alchemy_shard_cost: 0,
            alchemy_essence_reward: 0,
            alchemy_keystone: false,
            alchemy_keystone_shard_cost: 0,
            alchemy_keystone_essence_cost: 0,
            alchemy_keystone_reward: 0,
            soul_sigil_cache: false,
            soul_sigil_cache_cost: 0,
            soul_sigil_cache_gold: 0,
            soul_sigil_cache_shards: 0,
            soul_sigil_cache_essence: 0,
            soul_sigil_cache_keystones: 0,
        }
    }
}

/// `x` alone when `b`, else nothing.
pub open spec fn opt(b: bool, x: Seq<char>) -> Seq<Seq<char>> {
    if b {
        seq![x]
    } else {
        Seq::empty()
    }
}

/// One line headed `head` listing `parts`, or no line when there are none.
pub open spec fn group(head: Seq<char>, parts: Seq<Seq<char>>) -> Seq<Seq<char>> {
    if parts.len() > 0 {
        seq![head + join(parts, ", "@)]
    } else {
        Seq::empty()
    }
}

/// `n` in decimal.
pub open spec fn dec(n: int) -> Seq<char> {
    decimal(n as nat)
}

/// " equipped" when `b`.
pub open spec fn flag_text(b: bool, text: Seq<char>) -> Seq<char> {
    if b {
        text
    } else {
        ""@
    }
}

fn flag_str<'a>(b: bool, text: &'a str) -> (r: &'a str)
    ensures
        r@ == flag_text(b, text@),
{
    if b {
        text
    } else {
        ""
    }
}

impl MerchantTransaction {
    /// The visit did nothing at all.
    pub open spec fn spec_is_empty(self) -> bool {
        &&& self.sold_items == 0
        &&& self.bought_potions == 0
        &&& self.bought_elixirs == 0
        &&& self.salvaged_shards == 0
        &&& self.salvaged_essence == 0
        &&& self.salvage_cache_count == 0
        &&& !self.tempered
        &&& !self.reforged
        &&& !self.enchanted
        &&& !self.charm_polished
        &&& !self.mystery_charm
        &&& !self.mystery_weapon
        &&& !self.capacity_upgraded
        &&& !self.potion_belt_upgraded
        &&& !self.elixir_belt_upgraded
        &&& !self.ancient_augmented
        &&& !self.ancient_awakened
        &&& !self.primal_infused
        &&& !self.gem_empowered
        &&& !self.gem_upgraded
        &&& !self.alchemy_gold
        &&& !self.alchemy_essence
        &&& !self.alchemy_keystone
        &&& !self.soul_sigil_cache
    }

    #[verifier::opaque]
    pub open spec fn spec_gear_parts(self) -> Seq<Seq<char>> {
        opt(self.tempered, "tempered "@ + dec(self.temper_cost as int) + "g"@) + opt(
            self.reforged,
            "reforged "@ + dec(self.reforge_cost as int) + "s"@,
        ) + opt(
            self.enchanted,
            "enchanted "@ + self.enchanted_power@ + " "@ + dec(self.enchant_gold_cost as int)
                + "g/"@ + dec(self.enchant_shard_cost as int) + "s/"@ + dec(
                self.enchant_essence_cost as int,
            ) + " essence"@,
        ) + opt(
            self.charm_polished,
            "polished "@ + self.charm_label@ + " "@ + dec(self.charm_polish_gold_cost as int)
                + "g/"@ + dec(self.charm_polish_shard_cost as int) + "s"@,
        )
    }

    #[verifier::opaque]
    pub open spec fn spec_craft_parts(self) -> Seq<Seq<char>> {
        opt(
            self.ancient_augmented,
            "ancient-augmented "@ + self.ancient_augment_label@ + " "@ + dec(
                self.ancient_augment_gold_cost as int,
            ) + "g/"@ + dec(self.ancient_augment_shard_cost as int) + "s/"@ + dec(
                self.ancient_augment_essence_cost as int,
            ) + "e"@,
        ) + opt(
            self.ancient_awakened,
            "awakened "@ + self.ancient_awaken_label@ + " "@ + dec(
                self.ancient_awaken_gold_cost as int,
            ) + "g/"@ + dec(self.ancient_awaken_shard_cost as int) + "s/"@ + dec(
                self.ancient_awaken_essence_cost as int,
            ) + "e"@,
        ) + opt(
            self.primal_infused,
            "primal-infused "@ + self.primal_infusion_label@ + " "@ + dec(
                self.primal_infusion_gold_cost as int,
            ) + "g/"@ + dec(self.primal_infusion_shard_cost as int) + "s/"@ + dec(
                self.primal_infusion_essence_cost as int,
            ) + "e/"@ + dec(self.primal_infusion_echo_cost as int) + "key"@,
        ) + opt(
            self.gem_empowered,
            "empowered "@ + self.gem_empower_label@ + " "@ + dec(self.gem_empower_gold_cost as int)
                + "g/"@ + dec(self.gem_empower_essence_cost as int) + "e/"@ + dec(
                self.gem_empower_echo_cost as int,
            ) + "key"@,
        ) + opt(
            self.gem_upgraded,
            "upgraded "@ + self.gem_label@ + " "@ + dec(self.gem_cost as int) + "g"@,
        )
    }

    #[verifier::opaque]
    pub open spec fn spec_service_parts(self) -> Seq<Seq<char>> {
        opt(
            self.mystery_charm,
            "gambled "@ + self.mystery_charm_label@ + " "@ + dec(
                self.mystery_charm_gold_cost as int,
            ) + "g/"@ + dec(self.mystery_charm_shard_cost as int) + "s"@ + flag_text(
                self.mystery_charm_equipped,
                " equipped"@,
            ),
        ) + opt(
            self.mystery_weapon,
            "gambled "@ + self.mystery_weapon_label@ + " "@ + dec(
                self.mystery_weapon_gold_cost as int,
            ) + "g/"@ + dec(self.mystery_weapon_shard_cost as int) + "s"@ + flag_text(
                self.mystery_weapon_equipped,
                " equipped"@,
            ) + flag_text(self.mystery_weapon_codex_unlocked, " +codex"@) + flag_text(
                !self.mystery_weapon_stored,
                " full"@,
            ),
        ) + opt(
            self.capacity_upgraded,
            "bag "@ + dec(self.inventory_capacity as int) + " slots "@ + dec(
                self.capacity_gold_cost as int,
            ) + "g/"@ + dec(self.capacity_shard_cost as int) + "s"@,
        ) + opt(
            self.potion_belt_upgraded,
            "potion belt "@ + dec(self.potion_capacity as int) + " "@ + dec(
                self.potion_belt_gold_cost as int,
            ) + "g/"@ + dec(self.potion_belt_shard_cost as int) + "s"@,
        ) + opt(
            self.elixir_belt_upgraded,
            "elixir belt "@ + dec(self.elixir_capacity as int) + " "@ + dec(
                self.elixir_belt_gold_cost as int,
            ) + "g/"@ + dec(self.elixir_belt_shard_cost as int) + "s"@,
        )
    }

    #[verifier::opaque]
    pub open spec fn spec_cache_parts(self) -> Seq<Seq<char>> {
        opt(
            self.salvage_cache_count > 0,
            "salvage cache x"@ + dec(self.salvage_cache_count as int) + " +"@ + dec(
                self.salvage_cache_gold as int,
            ) + "g +"@ + dec(self.salvage_cache_shards as int) + "s +"@ + dec(
                self.salvage_cache_essence as int,
            ) + "e"@,
        ) + opt(
            self.alchemy_gold,
            "alchemy "@ + dec(self.alchemy_gold_cost as int) + "g -> "@ + dec(
                self.alchemy_shard_reward as int,
            ) + "s"@,
        ) + opt(
            self.alchemy_essence,
            "alchemy "@ + dec(self.alchemy_shard_cost as int) + "s -> "@ + dec(
                self.alchemy_essence_reward as int,
            ) + "e"@,
        ) + opt(
            self.alchemy_keystone,
            "alchemy "@ + dec(self.alchemy_keystone_shard_cost as int) + "s/"@ + dec(
                self.alchemy_keystone_essence_cost as int,
            ) + "e -> "@ + dec(self.alchemy_keystone_reward as int) + "key"@,
        ) + opt(
            self.soul_sigil_cache,
            "Malrec cache "@ + dec(self.soul_sigil_cache_cost as int) + " sigils: +"@ + dec(
                self.soul_sigil_cache_gold as int,
            ) + "g +"@ + dec(self.soul_sigil_cache_shards as int) + "s +"@ + dec(
                self.soul_sigil_cache_essence as int,
            ) + "e +"@ + dec(self.soul_sigil_cache_keystones as int) + "key"@,
        )
    }

    /// The lines of the report, in order: trade, supplies, gear, craft,
    /// services, caches.
    pub open spec fn spec_lines(self) -> Seq<Seq<char>> {
        opt(
            self.sold_items > 0 || self.sale_gold > 0 || self.salvaged_shards > 0
                || self.salvaged_essence > 0,
            "Trade sold "@ + dec(self.sold_items as int) + " gear: +"@ + dec(self.sale_gold as int)
                + "g +"@ + dec(self.salvaged_shards as int) + "s +"@ + dec(
                self.salvaged_essence as int,
            ) + " affix essence"@,
        ) + opt(
            self.bought_potions > 0 || self.bought_elixirs > 0,
            "Supplies +"@ + dec(self.bought_potions as int) + " potion +"@ + dec(
                self.bought_elixirs as int,
            ) + " elixir"@,
        ) + group("Gear "@, self.spec_gear_parts()) + group("Craft "@, self.spec_craft_parts())
            + group("Services "@, self.spec_service_parts()) + group(
            "Cache "@,
            self.spec_cache_parts(),
        )
    }

    /// The quartermaster's report of the visit.
    pub open spec fn spec_summary(self) -> Seq<char> {
        if self.spec_is_empty() {
            "Quartermaster: no spare gear to sell and no supplies bought"@
        } else {
            "Quartermaster: "@ + join(self.spec_lines(), " | "@)
        }
    }

    fn gear_parts(&self) -> (v: Vec<String>)
        ensures
            views(v@) == self.spec_gear_parts(),
    {
        let mut v: Vec<String> = Vec::new();
        if self.tempered {
            let mut t = String::from_str("tempered ");
            push_decimal(&mut t, self.temper_cost);
            t.append("g");
            push_part(&mut v, t);
        }
        if self.reforged {
            let mut t = String::from_str("reforged ");
            push_decimal(&mut t, self.reforge_cost);
            t.append("s");
            push_part(&mut v, t);
        }
        if self.enchanted {
            let mut t = String::from_str("enchanted ");
            t.append(self.enchanted_power.as_str());
            t.append(" ");
            push_decimal(&mut t, self.enchant_gold_cost);
            t.append("g/");
            push_decimal(&mut t, self.enchant_shard_cost);
            t.append("s/");
            push_decimal(&mut t, self.enchant_essence_cost);
            t.append(" essence");
            push_part(&mut v, t);
        }
        if self.charm_polished {
            let mut t = String::from_str("polished ");
            t.append(self.charm_label.as_str());
            t.append(" ");
            push_decimal(&mut t, self.charm_polish_gold_cost);
            t.append("g/");
            push_decimal(&mut t, self.charm_polish_shard_cost);
            t.append("s");
            push_part(&mut v, t);
        }
        proof {
            reveal(MerchantTransaction::spec_gear_parts);
            assert(views(v@) =~= self.spec_gear_parts());
        }
        v
    }

    fn craft_parts(&self) -> (v: Vec<String>)
        ensures
            views(v@) == self.spec_craft_parts(),
    {
        let mut v: Vec<String> = Vec::new();
        if self.ancient_augmented {
            let mut t = String::from_str("ancient-augmented ");
            t.append(self.ancient_augment_label.as_str());
            t.append(" ");
            push_decimal(&mut t, self.ancient_augment_gold_cost);
            t.append("g/");
            push_decimal(&mut t, self.ancient_augment_shard_cost);
            t.append("s/");
            push_decimal(&mut t, self.ancient_augment_essence_cost);
            t.append("e");
            push_part(&mut v, t);
        }
        if self.ancient_awakened {
            let mut t = String::from_str("awakened ");
            t.append(self.ancient_awaken_label.as_str());
            t.append(" ");
            push_decimal(&mut t, self.ancient_awaken_gold_cost);
            t.append("g/");
            push_decimal(&mut t, self.ancient_awaken_shard_cost);
            t.append("s/");
            push_decimal(&mut t, self.ancient_awaken_essence_cost);
            t.append("e");
            push_part(&mut v, t);
        }
        if self.primal_infused {
            let mut t = String::from_str("primal-infused ");
            t.append(self.primal_infusion_label.as_str());
            t.append(" ");
            push_decimal(&mut t, self.primal_infusion_gold_cost);
            t.append("g/");
            push_decimal(&mut t, self.primal_infusion_shard_cost);
            t.append("s/");
            push_decimal(&mut t, self.primal_infusion_essence_cost);
            t.append("e/");
            push_decimal(&mut t, self.primal_infusion_echo_cost);
            t.append("key");
            push_part(&mut v, t);
        }
        if self.gem_empowered {
            let mut t = String::from_str("empowered ");
            t.append(self.gem_empower_label.as_str());
            t.append(" ");
            push_decimal(&mut t, self.gem_empower_gold_cost);
            t.append("g/");
            push_decimal(&mut t, self.gem_empower_essence_cost);
            t.append("e/");
            push_decimal(&mut t, self.gem_empower_echo_cost);
            t.append("key");
            push_part(&mut v, t);
        }
        if self.gem_upgraded {
            let mut t = String::from_str("upgraded ");
            t.append(self.gem_label.as_str());
            t.append(" ");
            push_decimal(&mut t, self.gem_cost);
            t.append("g");
            push_part(&mut v, t);
        }
        proof {
            reveal(MerchantTransaction::spec_craft_parts);
            assert(views(v@) =~= self.spec_craft_parts());
        }
        v
    }

    fn service_parts(&self) -> (v: Vec<String>)
        ensures
            views(v@) == self.spec_service_parts(),
    {
        let mut v: Vec<String> = Vec::new();
        if self.mystery_charm {
            let mut t = String::from_str("gambled ");
            t.append(self.mystery_charm_label.as_str());
            t.append(" ");
            push_decimal(&mut t, self.mystery_charm_gold_cost);
            t.append("g/");
            push_decimal(&mut t, self.mystery_charm_shard_cost);
            t.append("s");
            t.append(flag_str(self.mystery_charm_equipped, " equipped"));
            push_part(&mut v, t);
        }
        if self.mystery_weapon {
            let mut t = String::from_str("gambled ");
            t.append(self.mystery_weapon_label.as_str());
            t.append(" ");
            push_decimal(&mut t, self.mystery_weapon_gold_cost);
            t.append("g/");
            push_decimal(&mut t, self.mystery_weapon_shard_cost);
            t.append("s");
            t.append(flag_str(self.mystery_weapon_equipped, " equipped"));
            t.append(flag_str(self.mystery_weapon_codex_unlocked, " +codex"));
            t.append(flag_str(!self.mystery_weapon_stored, " full"));
            push_part(&mut v, t);
        }
        if self.capacity_upgraded {
            let mut t = String::from_str("bag ");
            push_decimal_usize(&mut t, self.inventory_capacity);
            t.append(" slots ");
            push_decimal(&mut t, self.capacity_gold_cost);
            t.append("g/");
            push_decimal(&mut t, self.capacity_shard_cost);
            t.append("s");
            push_part(&mut v, t);
        }
        if self.potion_belt_upgraded {
            let mut t = String::from_str("potion belt ");
            push_decimal(&mut t, self.potion_capacity);
            t.append(" ");
            push_decimal(&mut t, self.potion_belt_gold_cost);
            t.append("g/");
            push_decimal(&mut t, self.potion_belt_shard_cost);
            t.append("s");
            push_part(&mut v, t);
        }
        if self.elixir_belt_upgraded {
            let mut t = String::from_str("elixir belt ");
            push_decimal(&mut t, self.elixir_capacity);
            t.append(" ");
            push_decimal(&mut t, self.elixir_belt_gold_cost);
            t.append("g/");
            push_decimal(&mut t, self.elixir_belt_shard_cost);
            t.append("s");
            push_part(&mut v, t);
        }
        proof {
            reveal(MerchantTransaction::spec_service_parts);
            assert(views(v@) =~= self.spec_service_parts());
        }
        v
    }

    fn cache_parts(&self) -> (v: Vec<String>)
        ensures
            views(v@) == self.spec_cache_parts(),
    {
        let mut v: Vec<String> = Vec::new();
        if self.salvage_cache_count > 0 {
            let mut t = String::from_str("salvage cache x");
            push_decimal(&mut t, self.salvage_cache_count);
            t.append(" +");
            push_decimal(&mut t, self.salvage_cache_gold);
            t.append("g +");
            push_decimal(&mut t, self.salvage_cache_shards);
            t.append("s +");
            push_decimal(&mut t, self.salvage_cache_essence);
            t.append("e");
            push_part(&mut v, t);
        }
        if self.alchemy_gold {
            let mut t = String::from_str("alchemy ");
            push_decimal(&mut t, self.alchemy_gold_cost);
            t.append("g -> ");
            push_decimal(&mut t, self.alchemy_shard_reward);
            t.append("s");
            push_part(&mut v, t);
        }
        if self.alchemy_essence {
            let mut t = String::from_str("alchemy ");
            push_decimal(&mut t, self.alchemy_shard_cost);
            t.append("s -> ");
            push_decimal(&mut t, self.alchemy_essence_reward);
            t.append("e");
            push_part(&mut v, t);
        }
        if self.alchemy_keystone {
            let mut t = String::from_str("alchemy ");
            push_decimal(&mut t, self.alchemy_keystone_shard_cost);
            t.append("s/");
            push_decimal(&mut t, self.alchemy_keystone_essence_cost);
            t.append("e -> ");
            push_decimal(&mut t, self.alchemy_keystone_reward);
            t.append("key");
            push_part(&mut v, t);
        }
        if self.soul_sigil_cache {
            let mut t = String::from_str("Malrec cache ");
            push_decimal(&mut t, self.soul_sigil_cache_cost);
            t.append(" sigils: +");
            push_decimal(&mut t, self.soul_sigil_cache_gold);
            t.append("g +");
            push_decimal(&mut t, self.soul_sigil_cache_shards);
            t.append("s +");
            push_decimal(&mut t, self.soul_sigil_cache_essence);
            t.append("e +");
            push_decimal(&mut t, self.soul_sigil_cache_keystones);
            t.append("key");
            push_part(&mut v, t);
        }
        proof {
            reveal(MerchantTransaction::spec_cache_parts);
            assert(views(v@) =~= self.spec_cache_parts());
        }
        v
    }

    fn push_group(lines: &mut Vec<String>, head: &str, parts: &Vec<String>)
        ensures
            views(final(lines)@) == views(old(lines)@) + group(head@, views(parts@)),
    {
        let ghost before = views(lines@);
        if parts.len() > 0 {
            let mut t = String::from_str(head);
            let body = join_strings(parts, ", ");
            t.append(body.as_str());
            push_part(lines, t);
        }
        proof {
            assert(views(lines@) =~= before + group(head@, views(parts@)));
        }
    }

    fn lines(&self) -> (lines: Vec<String>)
        ensures
            views(lines@) == self.spec_lines(),
    {
        let mut lines: Vec<String> = Vec::new();
        if self.sold_items > 0 || self.sale_gold > 0 || self.salvaged_shards > 0
            || self.salvaged_essence > 0 {
            let mut t = String::from_str("Trade sold ");
            push_decimal_usize(&mut t, self.sold_items);
            t.append(" gear: +");
            push_decimal(&mut t, self.sale_gold);
            t.append("g +");
            push_decimal(&mut t, self.salvaged_shards);
            t.append("s +");
            push_decimal(&mut t, self.salvaged_essence);
            t.append(" affix essence");
            push_part(&mut lines, t);
        }
        if self.bought_potions > 0 || self.bought_elixirs > 0 {
            let mut t = String::from_str("Supplies +");
            push_decimal(&mut t, self.bought_potions);
            t.append(" potion +");
            push_decimal(&mut t, self.bought_elixirs);
            t.append(" elixir");
            push_part(&mut lines, t);
        }
        let gear = self.gear_parts();
        Self::push_group(&mut lines, "Gear ", &gear);
        let craft = self.craft_parts();
        Self::push_group(&mut lines, "Craft ", &craft);
        let services = self.service_parts();
        Self::push_group(&mut lines, "Services ", &services);
        let cache = self.cache_parts();
        Self::push_group(&mut lines, "Cache ", &cache);
        proof {
            assert(views(lines@) =~= self.spec_lines());
        }
        lines
    }

    /// The quartermaster's report of the visit, one line per kind of
    /// business.
    pub fn summary(&self) -> (r: String)
        ensures
            r@ == self.spec_summary(),
    {
        if self.sold_items == 0 && self.bought_potions == 0 && self.bought_elixirs == 0
            && self.salvaged_shards == 0 && self.salvaged_essence == 0 && self.salvage_cache_count
            == 0 && !self.tempered && !self.reforged && !self.enchanted && !self.charm_polished
            && !self.mystery_charm && !self.mystery_weapon && !self.capacity_upgraded
            && !self.potion_belt_upgraded && !self.elixir_belt_upgraded && !self.ancient_augmented
            && !self.ancient_awakened && !self.primal_infused && !self.gem_empowered
            && !self.gem_upgraded && !self.alchemy_gold && !self.alchemy_essence
            && !self.alchemy_keystone && !self.soul_sigil_cache {
            return String::from_str("Quartermaster: no spare gear to sell and no supplies bought");
        }
        let lines = self.lines();
        let mut s = String::from_str("Quartermaster: ");
        let body = join_strings(&lines, " | ");
        s.append(body.as_str());
        s
    }
}


/// Salvage caches account for every item sold: four items per cache paid,
/// plus what stays on the counter, make up the counter before plus the items
/// sold (short of where the counter saturates); and after a cache is paid
/// fewer than four items stay on the counter.
pub proof fn lemma_salvage_cache_accounting(s: RunStats, sold: usize)
    requires
        sold > 0,
        s.salvage_progress + (sold as u32) <= u32::MAX,
    ensures
        4 * salvage_caches_earned(s, sold) + (if salvage_caches_earned(s, sold) > 0 {
            salvage_progress_after(s, sold) % 4
        } else {
            salvage_progress_after(s, sold)
        }) == s.salvage_progress + (sold as u32),
        salvage_caches_earned(s, sold) > 0 ==> salvage_progress_after(s, sold) % 4 < 4,
        salvage_caches_earned(s, sold) == 0 ==> salvage_progress_after(s, sold) < 4,
{
}

/// A summary line opens with the first letter of its group: Trade,
/// Supplies, Gear, Craft, Services or Cache.
pub open spec fn opens_a_group(l: Seq<char>) -> bool {
    l.len() > 0 && (l[0] == 'T' || l[0] == 'S' || l[0] == 'G' || l[0] == 'C')
}

proof fn lemma_join_opens_with_first(parts: Seq<Seq<char>>, sep: Seq<char>)
    requires
        parts.len() > 0,
        parts[0].len() > 0,
    ensures
        join(parts, sep).len() > 0,
        join(parts, sep)[0] == parts[0][0],
    decreases parts.len(),
{
    if parts.len() > 1 {
        lemma_join_opens_with_first(parts.drop_last(), sep);
    }
}

proof fn lemma_lines_open_groups(t: MerchantTransaction)
    ensures
        forall|k: int| 0 <= k < t.spec_lines().len() ==> opens_a_group(#[trigger] t.spec_lines()[k]),
{
    reveal_strlit("Trade sold ");
    reveal_strlit("Supplies +");
    reveal_strlit("Gear ");
    reveal_strlit("Craft ");
    reveal_strlit("Services ");
    reveal_strlit("Cache ");
    let a = opt(
        t.sold_items > 0 || t.sale_gold > 0 || t.salvaged_shards > 0 || t.salvaged_essence > 0,
        "Trade sold "@ + dec(t.sold_items as int) + " gear: +"@ + dec(t.sale_gold as int) + "g +"@
            + dec(t.salvaged_shards as int) + "s +"@ + dec(t.salvaged_essence as int)
            + " affix essence"@,
    );
    let b = opt(
        t.bought_potions > 0 || t.bought_elixirs > 0,
        "Supplies +"@ + dec(t.bought_potions as int) + " potion +"@ + dec(t.bought_elixirs as int)
            + " elixir"@,
    );
    let g = group("Gear "@, t.spec_gear_parts());
    let c = group("Craft "@, t.spec_craft_parts());
    let v = group("Services "@, t.spec_service_parts());
    let h = group("Cache "@, t.spec_cache_parts());
    assert(forall|k: int| 0 <= k < a.len() ==> opens_a_group(#[trigger] a[k]));
    assert(forall|k: int| 0 <= k < b.len() ==> opens_a_group(#[trigger] b[k]));
    assert(forall|k: int| 0 <= k < g.len() ==> opens_a_group(#[trigger] g[k]));
    assert(forall|k: int| 0 <= k < c.len() ==> opens_a_group(#[trigger] c[k]));
    assert(forall|k: int| 0 <= k < v.len() ==> opens_a_group(#[trigger] v[k]));
    assert(forall|k: int| 0 <= k < h.len() ==> opens_a_group(#[trigger] h[k]));
    let l = t.spec_lines();
    assert(l =~= a + b + g + c + v + h);
    assert forall|k: int| 0 <= k < l.len() implies opens_a_group(#[trigger] l[k]) by {
        let ab = a + b;
        let abg = ab + g;
        let abgc = abg + c;
        let abgcv = abgc + v;
        if k < a.len() {
            assert(l[k] == a[k]);
        } else if k < ab.len() {
            assert(l[k] == b[k - a.len()]);
        } else if k < abg.len() {
            assert(l[k] == g[k - ab.len()]);
        } else if k < abgc.len() {
            assert(l[k] == c[k - abg.len()]);
        } else if k < abgcv.len() {
            assert(l[k] == v[k - abgc.len()]);
        } else {
            assert(l[k] == h[k - abgcv.len()]);
        }
    }
}

/// The quartermaster says "no spare gear to sell and no supplies bought"
/// exactly when the visit sold, salvaged, bought and did nothing; every
/// report opens with "Quartermaster: ".
pub proof fn lemma_summary_names_a_quiet_visit(t: MerchantTransaction)
    ensures
        (t.spec_summary() == "Quartermaster: no spare gear to sell and no supplies bought"@)
            <==> t.spec_is_empty(),
        has_prefix(t.spec_summary(), "Quartermaster: "@),
{
    reveal_strlit("Quartermaster: no spare gear to sell and no supplies bought");
    reveal_strlit("Quartermaster: ");
    let quiet = "Quartermaster: no spare gear to sell and no supplies bought"@;
    let head = "Quartermaster: "@;
    assert(quiet.subrange(0, 15) =~= head);
    if !t.spec_is_empty() {
        let l = t.spec_lines();
        let body = join(l, " | "@);
        let text = head + body;
        assert(text.subrange(0, 15) =~= head);
        if l.len() == 0 {
            assert(text.len() == 15);
        } else {
            lemma_lines_open_groups(t);
            assert(opens_a_group(l[0]));
            lemma_join_opens_with_first(l, " | "@);
            assert(text[15] == body[0]);
            assert(quiet[15] == 'n');
        }
    }
}

} // verus!
