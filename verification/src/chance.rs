//! Rolls: weighted weapon picks, gem kinds, charm variants and gold, drawn
//! from the thread-local generator of `rand`.
use vstd::prelude::*;
use rand::Rng;
use crate::loot::spec_quality_rank;
use crate::merchant::GemKind;
use crate::text::{chars_of, chars_are, views};

verus! {

/// A number drawn from `0..bound` by `rand`'s thread-local generator
/// (`rand::rng().random_range(0..bound)`). The contract claims only that it
/// lies in the range, which `random_range` guarantees for a non-empty range
/// (it panics on an empty one, which `requires` rules out).
#[verifier::external_body]
fn random_below(bound: u32) -> (r: u32)
    requires
        bound > 0,
    ensures
        r < bound,
{
    rand::rng().random_range(0..bound)
}

/// A number drawn from `low..=high` by `rand`'s thread-local generator
/// (`rand::rng().random_range(low..=high)`). The contract claims only that
/// it lies in the range, which `random_range` guarantees for a non-empty
/// range (it panics on an empty one, which `requires` rules out).
#[verifier::external_body]
fn random_between(low: u32, high: u32) -> (r: u32)
    requires
        low <= high,
    ensures
        low <= r <= high,
{
    rand::rng().random_range(low..=high)
}

/// The sum of the first `n` weights.
pub open spec fn prefix_sum(w: Seq<u32>, n: int) -> int
    decreases n,
{
    if n <= 0 {
        0
    } else {
        prefix_sum(w, n - 1) + w[n - 1]
    }
}

proof fn lemma_prefix_sum_grows(w: Seq<u32>, m: int, n: int)
    requires
        0 <= m <= n <= w.len(),
    ensures
        prefix_sum(w, m) <= prefix_sum(w, n),
    decreases n - m,
{
    if m < n {
        lemma_prefix_sum_grows(w, m, n - 1);
    }
}

/// The entry whose share of the weights `roll` lands in: entry `i` owns the
/// rolls from the sum of the weights before it up to, not including, that
/// sum plus its own weight. `None` when the roll lies past every weight.
pub fn roll_from_weighted_entries(weights: &Vec<u32>, roll: u32) -> (r: Option<usize>)
    ensures
        match r {
            Some(i) => i < weights@.len() && prefix_sum(weights@, i as int) <= roll < prefix_sum(
                weights@,
                i + 1,
            ),
            None => roll >= prefix_sum(weights@, weights@.len() as int),
        },
{
    let mut rest = roll;
    let mut i: usize = 0;
    while i < weights.len()
        invariant
            i <= weights@.len(),
            prefix_sum(weights@, i as int) <= roll,
            rest == roll - prefix_sum(weights@, i as int),
        decreases weights@.len() - i,
    {
        if rest < weights[i] {
            return Some(i);
        }
        rest = rest - weights[i];
        i += 1;
    }
    None
}

/// The sum of all the weights.
pub fn total_weight(weights: &Vec<u32>) -> (r: u32)
    requires
        prefix_sum(weights@, weights@.len() as int) <= u32::MAX,
    ensures
        r == prefix_sum(weights@, weights@.len() as int),
{
    let mut total: u32 = 0;
    let mut i: usize = 0;
    while i < weights.len()
        invariant
            i <= weights@.len(),
            total == prefix_sum(weights@, i as int),
            prefix_sum(weights@, weights@.len() as int) <= u32::MAX,
        decreases weights@.len() - i,
    {
        proof {
            lemma_prefix_sum_grows(weights@, i + 1, weights@.len() as int);
        }
        total = total + weights[i];
        i += 1;
    }
    total
}

/// Draws an entry with chance in proportion to its weight: a number below
/// the total weight (below one when every weight is zero) picks the entry
/// whose share it lands in. `None` only when every weight is zero, and
/// never an entry of weight zero.
pub fn roll_weighted_index(weights: &Vec<u32>) -> (r: Option<usize>)
    requires
        prefix_sum(weights@, weights@.len() as int) <= u32::MAX,
    ensures
        match r {
            Some(i) => i < weights@.len() && weights@[i as int] > 0,
            None => prefix_sum(weights@, weights@.len() as int) == 0,
        },
{
    let total = total_weight(weights);
    let bound = if total > 0 {
        total
    } else {
        1
    };
    let roll = random_below(bound);
    roll_from_weighted_entries(weights, roll)
}

/// The loot pool a weapon is drawn from.
#[derive(Clone, Copy, Debug, PartialEq, Eq, Structural)]
pub enum WeaponPool {
    /// Every weapon of the table.
    Any,
    /// Every weapon above common.
    Cache,
    /// Legendary weapons and better.
    Boss,
}

/// The pool a slain enemy's weapon comes from: Malrec's from the boss pool,
/// a treasure imp's, an elite's or a fortune-blessed kill's from the cache
/// pool, any other from the whole table.
pub open spec fn spec_enemy_weapon_pool(enemy_id: Seq<char>, is_elite: bool, magic_find: bool) -> WeaponPool {
    if enemy_id == "keeper"@ {
        WeaponPool::Boss
    } else if enemy_id == "treasure_imp"@ || is_elite || magic_find {
        WeaponPool::Cache
    } else {
        WeaponPool::Any
    }
}

/// The pool a slain enemy's weapon is drawn from.
pub fn enemy_weapon_pool(enemy_id: &str, is_elite: bool, magic_find: bool) -> (r: WeaponPool)
    ensures
        r == spec_enemy_weapon_pool(enemy_id@, is_elite, magic_find),
{
    let id = chars_of(enemy_id);
    if chars_are(&id, "keeper") {
        WeaponPool::Boss
    } else if chars_are(&id, "treasure_imp") || is_elite || magic_find {
        WeaponPool::Cache
    } else {
        WeaponPool::Any
    }
}

/// Positions `0..n`.
pub open spec fn all_indices(n: nat) -> Seq<usize> {
    Seq::new(n, |i: int| i as usize)
}

/// Positions among the first `n` whose quality is above common.
pub open spec fn upgraded_indices(q: Seq<Seq<char>>, n: nat) -> Seq<usize>
    decreases n,
{
    if n == 0 {
        Seq::empty()
    } else {
        let p = upgraded_indices(q, (n - 1) as nat);
        if q[n - 1] != "common"@ {
            p.push((n - 1) as usize)
        } else {
            p
        }
    }
}

/// Positions among the first `n` whose quality is legendary or better.
pub open spec fn legendary_indices(q: Seq<Seq<char>>, n: nat) -> Seq<usize>
    decreases n,
{
    if n == 0 {
        Seq::empty()
    } else {
        let p = legendary_indices(q, (n - 1) as nat);
        if spec_quality_rank(q[n - 1]) >= 2 {
            p.push((n - 1) as usize)
        } else {
            p
        }
    }
}

/// The weapons a pool draws from, by position in the table: the cache pool
/// falls back to the whole table, and the boss pool to the cache pool, when
/// they would be empty.
pub open spec fn spec_pool_candidates(q: Seq<Seq<char>>, pool: WeaponPool) -> Seq<usize> {
    let all = all_indices(q.len());
    let upgraded = upgraded_indices(q, q.len());
    let cache = if upgraded.len() > 0 {
        upgraded
    } else {
        all
    };
    match pool {
        WeaponPool::Any => all,
        WeaponPool::Cache => cache,
        WeaponPool::Boss => {
            let legendary = legendary_indices(q, q.len());
            if legendary.len() > 0 {
                legendary
            } else {
                cache
            }
        },
    }
}

/// The positions in the loot table, given its qualities in order, that
/// `pool` draws from.
pub fn pool_candidates(qualities: &Vec<String>, pool: WeaponPool) -> (r: Vec<usize>)
    ensures
        r@ == spec_pool_candidates(views(qualities@), pool),
{
    let ghost q = views(qualities@);
    let n = qualities.len();
    let mut all: Vec<usize> = Vec::new();
    let mut upgraded: Vec<usize> = Vec::new();
    let mut legendary: Vec<usize> = Vec::new();
    let mut i: usize = 0;
    while i < n
        invariant
            n == qualities@.len(),
            q == views(qualities@),
            i <= n,
            all@ == all_indices(i as nat),
            upgraded@ == upgraded_indices(q, i as nat),
            legendary@ == legendary_indices(q, i as nat),
        decreases n - i,
    {
        all.push(i);
        let c = chars_of(qualities[i].as_str());
        if !chars_are(&c, "common") {
            upgraded.push(i);
        }
        if crate::loot::loot_quality_rank(qualities[i].as_str()) >= 2 {
            legendary.push(i);
        }
        i += 1;
        proof {
            assert(all@ =~= all_indices(i as nat));
            assert(q[i - 1] == qualities@[i - 1]@);
        }
    }
    match pool {
        WeaponPool::Any => all,
        WeaponPool::Cache => if upgraded.len() > 0 {
            upgraded
        } else {
            all
        },
        WeaponPool::Boss => if legendary.len() > 0 {
            legendary
        } else if upgraded.len() > 0 {
            upgraded
        } else {
            all
        },
    }
}

/// The gem kind a roll of `0..4` stands for: ruby, emerald, amethyst, then
/// topaz for anything else.
pub open spec fn spec_gem_kind_for_roll(roll: u32) -> GemKind {
    if roll == 0 {
        GemKind::Ruby
    } else if roll == 1 {
        GemKind::Emerald
    } else if roll == 2 {
        GemKind::Amethyst
    } else {
        GemKind::Topaz
    }
}

/// The gem kind a roll stands for.
pub fn gem_kind_for_roll(roll: u32) -> (r: GemKind)
    ensures
        r == spec_gem_kind_for_roll(roll),
{
    if roll == 0 {
        GemKind::Ruby
    } else if roll == 1 {
        GemKind::Emerald
    } else if roll == 2 {
        GemKind::Amethyst
    } else {
        GemKind::Topaz
    }
}

/// The weights of the candidates, in their order.
pub open spec fn candidate_weights(w: Seq<u32>, c: Seq<usize>) -> Seq<u32> {
    c.map_values(|i: usize| w[i as int])
}

proof fn lemma_weight_within_total(w: Seq<u32>, i: int)
    requires
        0 <= i < w.len(),
    ensures
        w[i] <= prefix_sum(w, w.len() as int),
{
    lemma_prefix_sum_grows(w, 0, i);
    lemma_prefix_sum_grows(w, i + 1, w.len() as int);
}

proof fn lemma_indices_in_range(q: Seq<Seq<char>>, n: nat)
    requires
        n <= q.len(),
        n <= usize::MAX,
    ensures
        forall|k: int| 0 <= k < upgraded_indices(q, n).len() ==> upgraded_indices(q, n)[k] < n,
        forall|k: int| 0 <= k < legendary_indices(q, n).len() ==> legendary_indices(q, n)[k] < n,
    decreases n,
{
    if n > 0 {
        lemma_indices_in_range(q, (n - 1) as nat);
        let m = (n - 1) as nat;
        assert(((n - 1) as usize) as int == n - 1);
        let u = upgraded_indices(q, m);
        let l = legendary_indices(q, m);
        assert forall|k: int| 0 <= k < upgraded_indices(q, n).len() implies upgraded_indices(q, n)[k] < n by {
            if k < u.len() {
                assert(upgraded_indices(q, n)[k] == u[k]);
            }
        }
        assert forall|k: int| 0 <= k < legendary_indices(q, n).len() implies legendary_indices(q, n)[k] < n by {
            if k < l.len() {
                assert(legendary_indices(q, n)[k] == l[k]);
            }
        }
    }
}

proof fn lemma_candidates_in_range(q: Seq<Seq<char>>, pool: WeaponPool)
    requires
        q.len() <= usize::MAX,
    ensures
        forall|k: int|
            0 <= k < spec_pool_candidates(q, pool).len() ==> spec_pool_candidates(q, pool)[k]
                < q.len(),
{
    lemma_indices_in_range(q, q.len());
}

/// Draws a weapon of `pool` from a loot table given by its qualities and
/// weights, in proportion to the weights of the pool's candidates; with
/// every candidate of weight zero, the table's first weapon.
pub fn roll_pool_weapon(qualities: &Vec<String>, weights: &Vec<u32>, pool: WeaponPool) -> (r: usize)
    requires
        qualities@.len() == weights@.len(),
        qualities@.len() > 0,
        ({
            let cw = candidate_weights(weights@, spec_pool_candidates(views(qualities@), pool));
            prefix_sum(cw, cw.len() as int) <= u32::MAX
        }),
    ensures
        r < qualities@.len(),
        ({
            let c = spec_pool_candidates(views(qualities@), pool);
            let cw = candidate_weights(weights@, c);
            &&& prefix_sum(cw, cw.len() as int) > 0 ==> exists|k: int|
                0 <= k < c.len() && c[k] == r && weights@[r as int] > 0
            &&& prefix_sum(cw, cw.len() as int) == 0 ==> r == 0
        }),
{
    let ghost q = views(qualities@);
    let table_len = qualities.len();
    let candidates = pool_candidates(qualities, pool);
    proof {
        assert(q.len() == table_len);
        lemma_candidates_in_range(q, pool);
    }
    let mut cw: Vec<u32> = Vec::new();
    let mut j: usize = 0;
    while j < candidates.len()
        invariant
            candidates@ == spec_pool_candidates(q, pool),
            q.len() == weights@.len(),
            forall|k: int| 0 <= k < candidates@.len() ==> candidates@[k] < q.len(),
            j <= candidates@.len(),
            cw@ == candidate_weights(weights@, candidates@.take(j as int)),
        decreases candidates@.len() - j,
    {
        cw.push(weights[candidates[j]]);
        j += 1;
        proof {
            assert(cw@ =~= candidate_weights(weights@, candidates@.take(j as int)));
        }
    }
    proof {
        assert(candidates@.take(candidates@.len() as int) =~= candidates@);
    }
    match roll_weighted_index(&cw) {
        Some(k) => {
            proof {
                if prefix_sum(cw@, cw@.len() as int) == 0 {
                    lemma_weight_within_total(cw@, k as int);
                }
            }
            candidates[k]
        },
        None => 0,
    }
}

/// Draws the kind of a dropped gem, each of the four alike.
pub fn roll_gem_kind() -> (r: GemKind)
    ensures
        exists|roll: u32| roll < 4 && r == spec_gem_kind_for_roll(roll),
{
    let roll = random_below(4);
    gem_kind_for_roll(roll)
}

/// Draws which of the three charms of a quality drops.
pub fn roll_charm_variant() -> (r: u32)
    ensures
        r < 3,
{
    random_below(3)
}

/// Draws the gold a slain enemy drops, before valor.
pub fn roll_enemy_gold(gold_min: u32, gold_max: u32) -> (r: u32)
    requires
        gold_min <= gold_max,
    ensures
        gold_min <= r <= gold_max,
{
    random_between(gold_min, gold_max)
}

/// The name of the charm that a roll of a quality gives.
pub open spec fn spec_charm_name(quality: Seq<char>, roll: u32) -> Seq<char> {
    if quality == "primal"@ {
        if roll == 0 {
            "Primal Stormglass Charm"@
        } else if roll == 1 {
            "Primal Bloodstar Charm"@
        } else {
            "Primal Ashen Saint Charm"@
        }
    } else if quality == "ancient"@ {
        if roll == 0 {
            "Ancient Stormglass Charm"@
        } else if roll == 1 {
            "Ancient Bloodstar Charm"@
        } else {
            "Ancient Ashen Saint Charm"@
        }
    } else if quality == "legendary"@ {
        if roll == 0 {
            "Stormglass Charm"@
        } else if roll == 1 {
            "Bloodstar Charm"@
        } else {
            "Ashen Saint Charm"@
        }
    } else if quality == "rare"@ {
        if roll == 0 {
            "Gilded Fang Charm"@
        } else if roll == 1 {
            "Cinder Eye Charm"@
        } else {
            "Reliquary Bone Charm"@
        }
    } else if roll == 0 {
        "Cracked Fang Charm"@
    } else if roll == 1 {
        "Dull Ember Charm"@
    } else {
        "Iron Chip Charm"@
    }
}

/// The name of the charm that a roll of a quality gives.
pub fn charm_name_for_roll(quality: &str, roll: u32) -> (r: &'static str)
    ensures
        r@ == spec_charm_name(quality@, roll),
{
    let q = chars_of(quality);
    if chars_are(&q, "primal") {
        if roll == 0 {
            "Primal Stormglass Charm"
        } else if roll == 1 {
            "Primal Bloodstar Charm"
        } else {
            "Primal Ashen Saint Charm"
        }
    } else if chars_are(&q, "ancient") {
        if roll == 0 {
            "Ancient Stormglass Charm"
        } else if roll == 1 {
            "Ancient Bloodstar Charm"
        } else {
            "Ancient Ashen Saint Charm"
        }
    } else if chars_are(&q, "legendary") {
        if roll == 0 {
            "Stormglass Charm"
        } else if roll == 1 {
            "Bloodstar Charm"
        } else {
            "Ashen Saint Charm"
        }
    } else if chars_are(&q, "rare") {
        if roll == 0 {
            "Gilded Fang Charm"
        } else if roll == 1 {
            "Cinder Eye Charm"
        } else {
            "Reliquary Bone Charm"
        }
    } else if roll == 0 {
        "Cracked Fang Charm"
    } else if roll == 1 {
        "Dull Ember Charm"
    } else {
        "Iron Chip Charm"
    }
}


/// The weighted pick is well defined: a roll lands in the share of at most
/// one entry, and every roll below the total weight lands in exactly one.
pub proof fn lemma_weighted_pick_determined(w: Seq<u32>, roll: int, i: int, j: int)
    requires
        0 <= i < w.len(),
        0 <= j < w.len(),
        prefix_sum(w, i) <= roll < prefix_sum(w, i + 1),
        prefix_sum(w, j) <= roll < prefix_sum(w, j + 1),
    ensures
        i == j,
{
    if i < j {
        lemma_prefix_sum_grows(w, i + 1, j);
    } else if j < i {
        lemma_prefix_sum_grows(w, j + 1, i);
    }
}

} // verus!
