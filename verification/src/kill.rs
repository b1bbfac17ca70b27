//! The bookkeeping of a kill and of the world's treasure: what a slain enemy
//! adds to the run, and what each interactable hands out.
use vstd::prelude::*;
use crate::game::{
    RunStats, sat_add, champion_kill_spec, register_valor_kill, register_champion_pack_kill,
    grant_champion_pack_reward, VALOR_MAX_STACKS, CHAMPION_PACK_TARGET,
};
use crate::loot::{
    spec_enemy_shard_reward, spec_affix_essence_reward, spec_affix_break_essence,
    enemy_shard_reward, enemy_affix_essence_reward, elite_affix_break_essence_reward,
    affix_hunter_kill,
};
use crate::chance::WeaponPool;
use crate::world::InteractableKind;
use crate::text::{chars_of, chars_are};

verus! {

/// A slain enemy, as the kill bookkeeping reads it.
pub struct SlainEnemy {
    pub enemy_id: String,
    pub affix_count: usize,
    /// One bit per affix the enemy carried.
    pub affix_mask: u16,
    pub cursed_ambusher: bool,
    pub champion_pack_member: bool,
}

/// The state of the player at the kill.
#[derive(Clone, Copy, Debug, PartialEq, Eq, Structural)]
pub struct KillContext {
    /// The codex has a power attuned.
    pub codex_attuned: bool,
    /// Weapon and charm form a themed reliquary set.
    pub set_resonance: bool,
    /// Cursed ambushers to slay for the ambush to count as cleared.
    pub cursed_ambush_target: u32,
}

/// What a kill did beyond the counters it raised.
#[derive(Clone, Copy, Debug, PartialEq, Eq, Structural)]
pub struct KillReport {
    /// This kill completed the cursed ambush.
    pub cursed_ambush_cleared: bool,
    /// The valor stacks after the kill, when it granted valor.
    pub valor_stacks: Option<u32>,
    /// The kill counted toward Affix Hunter.
    pub affix_hunter: bool,
    /// Essence the elite's affix break paid.
    pub break_essence: u32,
    /// This kill completed the champion pack.
    pub champion_pack_complete: bool,
    /// The champion pack reward was paid.
    pub champion_reward: bool,
    pub shard_reward: u32,
    pub essence_reward: u32,
}

/// The run after one more valor kill.
pub open spec fn spec_valor_kill(s: RunStats) -> RunStats {
    let stacks: u32 = if s.valor_stacks + 1 < VALOR_MAX_STACKS {
        (s.valor_stacks + 1) as u32
    } else {
        VALOR_MAX_STACKS
    };
    RunStats {
        valor_stacks: stacks,
        best_valor_stacks: if s.best_valor_stacks >= stacks {
            s.best_valor_stacks
        } else {
            stacks
        },
        ..s
    }
}

/// The run after the champion pack reward is paid.
pub open spec fn spec_champion_reward(s: RunStats) -> RunStats {
    RunStats {
        gold: (s.gold + 85) as u32,
        ember_shards: (s.ember_shards + 3) as u32,
        affix_essence: (s.affix_essence + 1) as u32,
        champion_pack_reward_claimed: true,
        ..s
    }
}

/// A champion pack kill completes the pack.
pub open spec fn champion_complete(s: RunStats) -> bool {
    !s.champion_pack_reward_claimed && champion_kill_spec(s).champion_pack_kills
        >= CHAMPION_PACK_TARGET
}

/// The kill grants valor: elites, Malrec and the nemesis.
pub open spec fn grants_valor(e: SlainEnemy) -> bool {
    e.affix_count > 0 || e.enemy_id@ == "keeper"@ || e.enemy_id@ == "nemesis"@
}

/// The run after the counters of the kill itself.
pub open spec fn kill_counted(s: RunStats, e: SlainEnemy, c: KillContext) -> RunStats {
    RunStats {
        kills: (s.kills + 1) as u32,
        codex_attuned_kills: if c.codex_attuned {
            sat_add(s.codex_attuned_kills as int, 1) as u32
        } else {
            s.codex_attuned_kills
        },
        set_resonance_kills: if c.set_resonance {
            sat_add(s.set_resonance_kills as int, 1) as u32
        } else {
            s.set_resonance_kills
        },
        cursed_ambush_kills: if e.cursed_ambusher {
            sat_add(s.cursed_ambush_kills as int, 1) as u32
        } else {
            s.cursed_ambush_kills
        },
        ..s
    }
}

/// The run after valor and the affix hunt.
pub open spec fn kill_hunted(s: RunStats, e: SlainEnemy) -> RunStats {
    let s2 = if grants_valor(e) {
        spec_valor_kill(s)
    } else {
        s
    };
    let b = spec_affix_break_essence(e.enemy_id@, e.affix_count);
    let s3 = if e.affix_count >= 2 {
        RunStats {
            elite_affix_kills: sat_add(s2.elite_affix_kills as int, 1) as u32,
            affix_essence: if b > 0 {
                sat_add(s2.affix_essence as int, b) as u32
            } else {
                s2.affix_essence
            },
            ..s2
        }
    } else {
        s2
    };
    RunStats { affix_codex_mask: s3.affix_codex_mask | e.affix_mask, ..s3 }
}

/// The run after the champion pack bookkeeping.
pub open spec fn kill_champion(s: RunStats, e: SlainEnemy) -> RunStats {
    if e.champion_pack_member {
        let k = champion_kill_spec(s);
        if champion_complete(s) {
            spec_champion_reward(k)
        } else {
            k
        }
    } else {
        s
    }
}

/// The run after everything a kill adds.
pub open spec fn spec_enemy_kill(s: RunStats, e: SlainEnemy, c: KillContext) -> RunStats {
    let s5 = kill_champion(kill_hunted(kill_counted(s, e, c), e), e);
    let elite = e.affix_count > 0;
    RunStats {
        ember_shards: (s5.ember_shards + spec_enemy_shard_reward(e.enemy_id@, elite)) as u32,
        affix_essence: (s5.affix_essence + spec_affix_essence_reward(e.enemy_id@, e.affix_count))
            as u32,
        ..s5
    }
}

/// No counter a kill adds to without saturating runs past `u32::MAX`.
pub open spec fn kill_fits(s: RunStats, e: SlainEnemy, c: KillContext) -> bool {
    let s1 = kill_counted(s, e, c);
    let s4 = kill_hunted(s1, e);
    let s5 = kill_champion(s4, e);
    let elite = e.affix_count > 0;
    &&& s.kills < u32::MAX
    &&& s1.valor_stacks < u32::MAX
    &&& #[verifier::truncate] (e.affix_count as u32) + 2 <= u32::MAX
    &&& e.affix_count >= 2 ==> #[verifier::truncate] ((e.affix_count - 1) as u32) + 2 <= u32::MAX
    &&& e.champion_pack_member && champion_complete(s4) ==> {
        let k = champion_kill_spec(s4);
        k.gold + 85 <= u32::MAX && k.ember_shards + 3 <= u32::MAX && k.affix_essence + 1
            <= u32::MAX
    }
    &&& s5.ember_shards + spec_enemy_shard_reward(e.enemy_id@, elite) <= u32::MAX
    &&& s5.affix_essence + spec_affix_essence_reward(e.enemy_id@, e.affix_count) <= u32::MAX
}

fn count_kill(stats: &mut RunStats, enemy: &SlainEnemy, context: KillContext) -> (cleared: bool)
    requires
        old(stats).kills < u32::MAX,
    ensures
        *final(stats) == kill_counted(*old(stats), *enemy, context),
        cleared == (enemy.cursed_ambusher && old(stats).cursed_ambush_kills
            < context.cursed_ambush_target && sat_add(old(stats).cursed_ambush_kills as int, 1)
            >= context.cursed_ambush_target),
{
    let cursed_before = stats.cursed_ambush_kills;
    *stats = RunStats {
        kills: stats.kills + 1,
        codex_attuned_kills: if context.codex_attuned {
            stats.codex_attuned_kills.saturating_add(1)
        } else {
            stats.codex_attuned_kills
        },
        set_resonance_kills: if context.set_resonance {
            stats.set_resonance_kills.saturating_add(1)
        } else {
            stats.set_resonance_kills
        },
        cursed_ambush_kills: if enemy.cursed_ambusher {
            stats.cursed_ambush_kills.saturating_add(1)
        } else {
            stats.cursed_ambush_kills
        },
        ..*stats
    };
    enemy.cursed_ambusher && cursed_before < context.cursed_ambush_target
        && stats.cursed_ambush_kills >= context.cursed_ambush_target
}

fn hunt_kill(stats: &mut RunStats, enemy: &SlainEnemy) -> (r: (Option<u32>, u32))
    requires
        old(stats).valor_stacks < u32::MAX,
        enemy.affix_count >= 2 ==> #[verifier::truncate] ((enemy.affix_count - 1) as u32) + 2
            <= u32::MAX,
    ensures
        *final(stats) == kill_hunted(*old(stats), *enemy),
        r.0 == (if grants_valor(*enemy) {
            Some(spec_valor_kill(*old(stats)).valor_stacks)
        } else {
            None
        }),
        r.1 == (if enemy.affix_count >= 2 {
            spec_affix_break_essence(enemy.enemy_id@, enemy.affix_count)
        } else {
            0
        }),
{
    let id = chars_of(enemy.enemy_id.as_str());
    let valor_stacks = if enemy.affix_count > 0 || chars_are(&id, "keeper") || chars_are(
        &id,
        "nemesis",
    ) {
        Some(register_valor_kill(stats))
    } else {
        None
    };
    let mut break_essence: u32 = 0;
    if affix_hunter_kill(enemy.affix_count) {
        break_essence = elite_affix_break_essence_reward(enemy.enemy_id.as_str(), enemy.affix_count);
        *stats = RunStats {
            elite_affix_kills: stats.elite_affix_kills.saturating_add(1),
            affix_essence: if break_essence > 0 {
                stats.affix_essence.saturating_add(break_essence)
            } else {
                stats.affix_essence
            },
            ..*stats
        };
    }
    *stats = RunStats { affix_codex_mask: stats.affix_codex_mask | enemy.affix_mask, ..*stats };
    (valor_stacks, break_essence)
}

fn champion_kill(stats: &mut RunStats, enemy: &SlainEnemy) -> (r: (bool, bool))
    requires
        enemy.champion_pack_member && champion_complete(*old(stats)) ==> {
            let k = champion_kill_spec(*old(stats));
            k.gold + 85 <= u32::MAX && k.ember_shards + 3 <= u32::MAX && k.affix_essence + 1
                <= u32::MAX
        },
    ensures
        *final(stats) == kill_champion(*old(stats), *enemy),
        r.0 == (enemy.champion_pack_member && champion_complete(*old(stats))),
        r.1 == r.0,
{
    if !enemy.champion_pack_member {
        return (false, false);
    }
    let complete = register_champion_pack_kill(stats);
    let mut rewarded = false;
    if complete {
        rewarded = grant_champion_pack_reward(stats);
    }
    (complete, rewarded)
}

/// Books a kill into the run: the kill itself, codex and set kills, the
/// cursed ambush, valor, the affix hunt and its break essence, the affix
/// codex, the champion pack and its reward, and the shards and essence the
/// enemy pays.
pub fn register_enemy_kill(stats: &mut RunStats, enemy: &SlainEnemy, context: KillContext) -> (r:
    KillReport)
    requires
        kill_fits(*old(stats), *enemy, context),
    ensures
        *final(stats) == spec_enemy_kill(*old(stats), *enemy, context),
        r.cursed_ambush_cleared == (enemy.cursed_ambusher && old(stats).cursed_ambush_kills
            < context.cursed_ambush_target && sat_add(old(stats).cursed_ambush_kills as int, 1)
            >= context.cursed_ambush_target),
        r.valor_stacks == (if grants_valor(*enemy) {
            Some(spec_valor_kill(kill_counted(*old(stats), *enemy, context)).valor_stacks)
        } else {
            None
        }),
        r.affix_hunter == (enemy.affix_count >= 2),
        r.break_essence == (if enemy.affix_count >= 2 {
            spec_affix_break_essence(enemy.enemy_id@, enemy.affix_count)
        } else {
            0
        }),
        r.champion_pack_complete == (enemy.champion_pack_member && champion_complete(
            kill_hunted(kill_counted(*old(stats), *enemy, context), *enemy),
        )),
        r.champion_reward == r.champion_pack_complete,
        r.shard_reward == spec_enemy_shard_reward(enemy.enemy_id@, enemy.affix_count > 0),
        r.essence_reward == spec_affix_essence_reward(enemy.enemy_id@, enemy.affix_count),
{
    let cursed_ambush_cleared = count_kill(stats, enemy, context);
    let (valor_stacks, break_essence) = hunt_kill(stats, enemy);
    let (champion_pack_complete, champion_reward) = champion_kill(stats, enemy);
    let shard_reward = enemy_shard_reward(enemy.enemy_id.as_str(), enemy.affix_count > 0);
    let essence_reward = enemy_affix_essence_reward(enemy.enemy_id.as_str(), enemy.affix_count);
    *stats = RunStats {
        ember_shards: stats.ember_shards + shard_reward,
        affix_essence: stats.affix_essence + essence_reward,
        ..*stats
    };
    KillReport {
        cursed_ambush_cleared,
        valor_stacks,
        affix_hunter: enemy.affix_count >= 2,
        break_essence,
        champion_pack_complete,
        champion_reward,
        shard_reward,
        essence_reward,
    }
}

/// What opening an interactable hands out.
#[derive(Clone, Copy, Debug, PartialEq, Eq, Structural)]
pub enum InteractableReward {
    /// Nothing here; the interactable is handled elsewhere.
    Nothing,
    /// A weapon drop from `pool` with `base_gold` before the chapter
    /// modifier scales it.
    Loot { base_gold: u32, pool: WeaponPool },
    /// The ember altar refilled the belts (and heals, which the caller
    /// applies).
    Altar { potions: u32, elixirs: u32 },
    /// The quartermaster is open for trade.
    Trade,
}

/// What each interactable hands out: a reliquary cache 45 gold and a cache
/// weapon; the ember altar two potions and an elixir; the reliquary vault 3
/// essence, 120 gold and a boss weapon; a cursed shrine 80 gold and a cache
/// weapon (for health); the quartermaster a trade.
pub open spec fn spec_interactable_reward(
    kind: InteractableKind,
    potions: u32,
    potion_max: u32,
    elixirs: u32,
    elixir_max: u32,
) -> InteractableReward {
    match kind {
        InteractableKind::Cache => InteractableReward::Loot { base_gold: 45, pool: WeaponPool::Cache },
        InteractableKind::Altar => InteractableReward::Altar {
            potions: if potions + 2 <= potion_max {
                (potions + 2) as u32
            } else {
                potion_max
            },
            elixirs: if elixirs + 1 <= elixir_max {
                (elixirs + 1) as u32
            } else {
                elixir_max
            },
        },
        InteractableKind::ReliquaryVault => InteractableReward::Loot {
            base_gold: 120,
            pool: WeaponPool::Boss,
        },
        InteractableKind::CursedShrine => InteractableReward::Loot {
            base_gold: 80,
            pool: WeaponPool::Cache,
        },
        InteractableKind::Merchant => InteractableReward::Trade,
        _ => InteractableReward::Nothing,
    }
}

/// Hands out what an interactable holds; the reliquary vault's essence goes
/// straight into the run, and the altar's flasks into `potions` and
/// `elixirs`.
pub fn reward_interactable(
    kind: InteractableKind,
    stats: &mut RunStats,
    potions: &mut u32,
    potion_max: u32,
    elixirs: &mut u32,
    elixir_max: u32,
) -> (r: InteractableReward)
    requires
        kind == InteractableKind::ReliquaryVault ==> old(stats).affix_essence + 3 <= u32::MAX,
        kind == InteractableKind::Altar ==> *old(potions) + 2 <= u32::MAX && *old(elixirs) + 1
            <= u32::MAX,
    ensures
        r == spec_interactable_reward(kind, *old(potions), potion_max, *old(elixirs), elixir_max),
        kind == InteractableKind::ReliquaryVault ==> *final(stats) == (RunStats {
            affix_essence: (old(stats).affix_essence + 3) as u32,
            ..*old(stats)
        }),
        kind != InteractableKind::ReliquaryVault ==> *final(stats) == *old(stats),
        kind == InteractableKind::Altar ==> (r matches InteractableReward::Altar { potions: p, elixirs: e }
            && *final(potions) == p && *final(elixirs) == e),
        kind != InteractableKind::Altar ==> *final(potions) == *old(potions) && *final(elixirs)
            == *old(elixirs),
{
    match kind {
        InteractableKind::Cache => InteractableReward::Loot { base_gold: 45, pool: WeaponPool::Cache },
        InteractableKind::Altar => {
            let p = if *potions + 2 <= potion_max {
                *potions + 2
            } else {
                potion_max
            };
            let e = if *elixirs + 1 <= elixir_max {
                *elixirs + 1
            } else {
                elixir_max
            };
            *potions = p;
            *elixirs = e;
            InteractableReward::Altar { potions: p, elixirs: e }
        },
        InteractableKind::ReliquaryVault => {
            *stats = RunStats { affix_essence: stats.affix_essence + 3, ..*stats };
            InteractableReward::Loot { base_gold: 120, pool: WeaponPool::Boss }
        },
        InteractableKind::CursedShrine => InteractableReward::Loot {
            base_gold: 80,
            pool: WeaponPool::Cache,
        },
        InteractableKind::Merchant => InteractableReward::Trade,
        _ => InteractableReward::Nothing,
    }
}

/// The run after a sequence of kills, each booked with its context, in
/// order.
pub open spec fn spec_kills(s: RunStats, ks: Seq<(SlainEnemy, KillContext)>) -> RunStats
    decreases ks.len(),
{
    if ks.len() == 0 {
        s
    } else {
        spec_enemy_kill(spec_kills(s, ks.drop_last()), ks.last().0, ks.last().1)
    }
}

/// The affix masks of the first `n` slain enemies, or-ed together.
pub open spec fn masks_of(ks: Seq<(SlainEnemy, KillContext)>, n: nat) -> u16
    decreases n,
{
    if n == 0 {
        0
    } else {
        masks_of(ks, (n - 1) as nat) | ks[n - 1].0.affix_mask
    }
}

/// Booking a whole set of slain enemies adds one kill for each, and the
/// affix codex takes every affix any of them carried: its mask is the old
/// mask or-ed with all of theirs.
pub proof fn lemma_kills_count_and_codex(s: RunStats, ks: Seq<(SlainEnemy, KillContext)>)
    requires
        s.kills + ks.len() <= u32::MAX,
    ensures
        spec_kills(s, ks).kills == s.kills + ks.len(),
        spec_kills(s, ks).affix_codex_mask == s.affix_codex_mask | masks_of(ks, ks.len()),
    decreases ks.len(),
{
    let m0 = s.affix_codex_mask;
    if ks.len() == 0 {
        assert(m0 | 0u16 == m0) by (bit_vector);
    } else {
        let rest = ks.drop_last();
        lemma_kills_count_and_codex(s, rest);
        assert(masks_of(rest, rest.len()) == masks_of(ks, (ks.len() - 1) as nat)) by {
            lemma_masks_prefix(ks, rest, rest.len());
        }
        let a = masks_of(rest, rest.len());
        let e = ks.last().0.affix_mask;
        assert((m0 | a) | e == m0 | (a | e)) by (bit_vector);
    }
}

proof fn lemma_masks_prefix(
    ks: Seq<(SlainEnemy, KillContext)>,
    rest: Seq<(SlainEnemy, KillContext)>,
    n: nat,
)
    requires
        n <= rest.len(),
        rest.len() <= ks.len(),
        forall|i: int| 0 <= i < rest.len() ==> rest[i] == ks[i],
    ensures
        masks_of(rest, n) == masks_of(ks, n),
    decreases n,
{
    if n > 0 {
        lemma_masks_prefix(ks, rest, (n - 1) as nat);
    }
}

} // verus!
