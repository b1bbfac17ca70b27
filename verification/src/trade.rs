//! One visit to the quartermaster: every service in its fixed order, each
//! paid from what the ones before it left.
use vstd::prelude::*;
use crate::game::{RunStats, sat_add};
use crate::loot::spec_quality_rank;
use crate::merchant::{
    BagItem, EquippedGear, SocketedGem, SoulSigilCacheReward, AshenAlchemyBatch,
    MerchantTransaction, salvage_totals, kept_items, is_kept, named_before, lemma_named_step, spec_salvage_into, salvage_into_fits,
    spec_sale_paid, spec_cache_reward, spec_affordable, gear_prices_fit, alchemy_fits,
    alchemy_gold_step, alchemy_essence_step, alchemy_keystone_step, spec_open_soul_sigil_cache,
    salvage_spare_inventory_into_stats, restock_potions, restock_elixirs, temper_cost,
    ancient_awaken_cost, ancient_augment_cost, ancient_augment_essence_cost, gem_upgrade_cost,
    expand_inventory_capacity, upgrade_potion_belt, upgrade_elixir_belt, open_soul_sigil_cache,
    apply_ashen_alchemy,
};
use crate::text::{has_prefix, chars_of, chars_start_with, string_of_chars};

verus! {

/// The belts, the bag, the codex and the charm, as a visit reads and
/// changes them.
pub struct MerchantStock {
    pub potions_current: u32,
    pub potions_max: u32,
    pub elixirs_current: u32,
    pub elixirs_max: u32,
    pub inventory_capacity: usize,
    /// The name of the power the codex would enchant the weapon with, if any.
    pub enchant_target: Option<String>,
    /// Whether a charm is equipped, and its name.
    pub charm_equipped: bool,
    pub charm_name: String,
}

/// What a visit reads and changes, as plain values.
pub struct TradeModel {
    pub stats: RunStats,
    pub name: Seq<char>,
    pub quality: Seq<char>,
    pub power: Option<Seq<char>>,
    pub temper_level: u32,
    pub gem: Option<SocketedGem>,
    pub potions_current: u32,
    pub potions_max: u32,
    pub elixirs_current: u32,
    pub elixirs_max: u32,
    pub capacity: usize,
}

pub open spec fn opt_view(o: Option<String>) -> Option<Seq<char>> {
    match o {
        Some(s) => Some(s@),
        None => None,
    }
}

/// The plain values of a run, its weapon and its stock.
pub open spec fn trade_model(s: RunStats, g: EquippedGear, k: MerchantStock) -> TradeModel {
    TradeModel {
        stats: s,
        name: g.weapon_name@,
        quality: g.quality@,
        power: opt_view(g.legendary_power),
        temper_level: g.temper_level,
        gem: g.socketed_gem,
        potions_current: k.potions_current,
        potions_max: k.potions_max,
        elixirs_current: k.elixirs_current,
        elixirs_max: k.elixirs_max,
        capacity: k.inventory_capacity,
    }
}

/// The run holds at least the given gold, shards, essence and keystones.
pub open spec fn affords(s: RunStats, gold: int, shards: int, essence: int, keys: int) -> bool {
    s.gold >= gold && s.ember_shards >= shards && s.affix_essence >= essence && s.echo_keystones
        >= keys
}

/// The run after paying the given gold, shards, essence and keystones.
pub open spec fn pay(s: RunStats, gold: int, shards: int, essence: int, keys: int) -> RunStats {
    RunStats {
        gold: (s.gold - gold) as u32,
        ember_shards: (s.ember_shards - shards) as u32,
        affix_essence: (s.affix_essence - essence) as u32,
        echo_keystones: (s.echo_keystones - keys) as u32,
        ..s
    }
}

fn pay_exec(stats: &mut RunStats, gold: u32, shards: u32, essence: u32, keys: u32)
    requires
        affords(*old(stats), gold as int, shards as int, essence as int, keys as int),
    ensures
        *final(stats) == pay(*old(stats), gold as int, shards as int, essence as int, keys as int),
{
    *stats = RunStats {
        gold: stats.gold - gold,
        ember_shards: stats.ember_shards - shards,
        affix_essence: stats.affix_essence - essence,
        echo_keystones: stats.echo_keystones - keys,
        ..*stats
    };
}

/// "Ancient " before a weapon's name, unless it is already there.
pub open spec fn awakened_name(n: Seq<char>) -> Seq<char> {
    if has_prefix(n, "Ancient "@) {
        n
    } else {
        "Ancient "@ + n
    }
}

/// "Primal " before a weapon's name, in place of "Ancient " where that
/// leads it, unless "Primal " is already there.
pub open spec fn primal_name(n: Seq<char>) -> Seq<char> {
    if has_prefix(n, "Primal "@) {
        n
    } else if has_prefix(n, "Ancient "@) {
        "Primal "@ + n.subrange(8, n.len() as int)
    } else {
        "Primal "@ + n
    }
}

/// The name of a weapon once awakened to ancient.
pub fn ancient_awakened_name(name: &str) -> (r: String)
    ensures
        r@ == awakened_name(name@),
{
    let c = chars_of(name);
    if chars_start_with(&c, "Ancient ") {
        String::from_str(name)
    } else {
        let mut s = String::from_str("Ancient ");
        s.append(name);
        s
    }
}

/// The name of a weapon once infused to primal.
pub fn primal_infused_name(name: &str) -> (r: String)
    ensures
        r@ == primal_name(name@),
{
    let c = chars_of(name);
    if chars_start_with(&c, "Primal ") {
        String::from_str(name)
    } else if chars_start_with(&c, "Ancient ") {
        proof {
            reveal_strlit("Ancient ");
        }
        let mut rest: Vec<char> = Vec::new();
        let mut i: usize = 8;
        while i < c.len()
            invariant
                8 <= i <= c@.len(),
                rest@ == c@.subrange(8, i as int),
            decreases c@.len() - i,
        {
            rest.push(c[i]);
            i += 1;
            proof {
                assert(rest@ =~= c@.subrange(8, i as int));
            }
        }
        let mut s = String::from_str("Primal ");
        let tail = string_of_chars(&rest);
        s.append(tail.as_str());
        s
    } else {
        let mut s = String::from_str("Primal ");
        s.append(name);
        s
    }
}

/// The quality a weapon takes from a legendary enchant.
pub open spec fn enchanted_quality(q: Seq<char>) -> Seq<char> {
    if q == "primal"@ {
        "primal"@
    } else if q == "ancient"@ {
        "ancient"@
    } else {
        "legendary"@
    }
}

// Each service, as a condition on the model and what it does to it.
#[verifier::opaque]
pub open spec fn after_potions(m: TradeModel) -> TradeModel {
    let p = potions_bought(m);
    TradeModel {
        stats: RunStats { gold: (m.stats.gold - 35 * p) as u32, ..m.stats },
        potions_current: (m.potions_current + p) as u32,
        ..m
    }
}

#[verifier::opaque]
pub open spec fn after_elixirs(m: TradeModel) -> TradeModel {
    let e = elixirs_bought(m);
    TradeModel {
        stats: RunStats { gold: (m.stats.gold - 55 * e) as u32, ..m.stats },
        elixirs_current: (m.elixirs_current + e) as u32,
        ..m
    }
}

#[verifier::opaque]
pub open spec fn can_temper(m: TradeModel) -> bool {
    m.stats.gold >= 90 + 45 * m.temper_level
}

#[verifier::opaque]
pub open spec fn after_temper(m: TradeModel) -> TradeModel {
    if can_temper(m) {
        TradeModel {
            stats: pay(m.stats, 90 + 45 * m.temper_level, 0, 0, 0),
            temper_level: (m.temper_level + 1) as u32,
            ..m
        }
    } else {
        m
    }
}

#[verifier::opaque]
pub open spec fn can_reforge(m: TradeModel) -> bool {
    m.stats.ember_shards >= 6
}

#[verifier::opaque]
pub open spec fn after_reforge(m: TradeModel) -> TradeModel {
    if can_reforge(m) {
        TradeModel { stats: pay(m.stats, 0, 6, 0, 0), ..m }
    } else {
        m
    }
}

#[verifier::opaque]
pub open spec fn can_enchant(m: TradeModel, target: Option<Seq<char>>) -> bool {
    target is Some && affords(m.stats, 180, 10, 2, 0)
}

#[verifier::opaque]
pub open spec fn after_enchant(m: TradeModel, target: Option<Seq<char>>) -> TradeModel {
    if can_enchant(m, target) {
        TradeModel {
            stats: pay(m.stats, 180, 10, 2, 0),
            power: target,
            quality: enchanted_quality(m.quality),
            ..m
        }
    } else {
        m
    }
}

#[verifier::opaque]
pub open spec fn can_awaken(m: TradeModel) -> bool {
    let r = m.gem->0.rank as int;
    &&& m.quality == "legendary"@
    &&& m.power is Some
    &&& m.gem is Some
    &&& r >= 4
    &&& affords(m.stats, 320 + 90 * r, 16 + 3 * r, 3 * r, 0)
}

#[verifier::opaque]
pub open spec fn after_awaken(m: TradeModel) -> TradeModel {
    let r = m.gem->0.rank as int;
    if can_awaken(m) {
        TradeModel {
            stats: pay(m.stats, 320 + 90 * r, 16 + 3 * r, 3 * r, 0),
            name: awakened_name(m.name),
            quality: "ancient"@,
            gem: None,
            ..m
        }
    } else {
        m
    }
}

#[verifier::opaque]
pub open spec fn can_augment(m: TradeModel) -> bool {
    let r = m.gem->0.rank as int;
    &&& spec_quality_rank(m.quality) >= 3
    &&& m.gem is Some
    &&& r >= 3
    &&& affords(m.stats, 180 + 70 * r, 8 + 2 * r, 2 * r, 0)
}

#[verifier::opaque]
pub open spec fn after_augment(m: TradeModel) -> TradeModel {
    let r = m.gem->0.rank as int;
    if can_augment(m) {
        let paid = pay(m.stats, 180 + 70 * r, 8 + 2 * r, 2 * r, 0);
        TradeModel {
            stats: RunStats { ancient_augments: (paid.ancient_augments + 1) as u32, ..paid },
            gem: None,
            ..m
        }
    } else {
        m
    }
}

#[verifier::opaque]
pub open spec fn can_infuse(m: TradeModel) -> bool {
    m.quality == "ancient"@ && affords(m.stats, 520, 24, 14, 1)
}

#[verifier::opaque]
pub open spec fn after_infuse(m: TradeModel) -> TradeModel {
    if can_infuse(m) {
        let paid = pay(m.stats, 520, 24, 14, 1);
        TradeModel {
            stats: RunStats {
                primal_infusions: sat_add(paid.primal_infusions as int, 1) as u32,
                ..paid
            },
            name: primal_name(m.name),
            quality: "primal"@,
            ..m
        }
    } else {
        m
    }
}

#[verifier::opaque]
pub open spec fn can_empower(m: TradeModel) -> bool {
    m.gem is Some && m.gem->0.rank >= 5 && affords(m.stats, 320, 0, 8, 1)
}

#[verifier::opaque]
pub open spec fn after_empower(m: TradeModel) -> TradeModel {
    if can_empower(m) {
        TradeModel {
            stats: pay(m.stats, 320, 0, 8, 1),
            gem: Some(SocketedGem { rank: (m.gem->0.rank + 2) as u32, ..m.gem->0 }),
            ..m
        }
    } else {
        m
    }
}

#[verifier::opaque]
pub open spec fn can_upgrade_gem(m: TradeModel) -> bool {
    m.gem is Some && m.stats.gold >= 70 + 50 * m.gem->0.rank
}

#[verifier::opaque]
pub open spec fn after_upgrade_gem(m: TradeModel) -> TradeModel {
    if can_upgrade_gem(m) {
        TradeModel {
            stats: pay(m.stats, 70 + 50 * m.gem->0.rank, 0, 0, 0),
            gem: Some(SocketedGem { rank: (m.gem->0.rank + 1) as u32, ..m.gem->0 }),
            ..m
        }
    } else {
        m
    }
}

#[verifier::opaque]
pub open spec fn can_pay_then(m: TradeModel, allowed: bool, gold: int, shards: int) -> bool {
    allowed && affords(m.stats, gold, shards, 0, 0)
}

#[verifier::opaque]
pub open spec fn after_pay_if(m: TradeModel, allowed: bool, gold: int, shards: int) -> TradeModel {
    if can_pay_then(m, allowed, gold, shards) {
        TradeModel { stats: pay(m.stats, gold, shards, 0, 0), ..m }
    } else {
        m
    }
}

#[verifier::opaque]
pub open spec fn after_capacity(m: TradeModel) -> TradeModel {
    if can_expand(m) {
        TradeModel {
            stats: pay(m.stats, 120, 3, 0, 0),
            capacity: if m.capacity + 2 <= 18 {
                (m.capacity + 2) as usize
            } else {
                18
            },
            ..m
        }
    } else {
        m
    }
}

#[verifier::opaque]
pub open spec fn after_potion_belt(m: TradeModel) -> TradeModel {
    if can_widen_potions(m) {
        TradeModel {
            stats: pay(m.stats, 140, 4, 0, 0),
            potions_max: (m.potions_max + 1) as u32,
            ..m
        }
    } else {
        m
    }
}

#[verifier::opaque]
pub open spec fn after_elixir_belt(m: TradeModel) -> TradeModel {
    if can_widen_elixirs(m) {
        TradeModel {
            stats: pay(m.stats, 160, 5, 0, 0),
            elixirs_max: (m.elixirs_max + 1) as u32,
            ..m
        }
    } else {
        m
    }
}

/// The model after each service of a visit, in order.
pub struct TradeStages {
    pub salvaged: TradeModel,
    pub potions: TradeModel,
    pub supplied: TradeModel,
    pub tempered: TradeModel,
    pub reforged: TradeModel,
    pub enchanted: TradeModel,
    pub awakened: TradeModel,
    pub augmented: TradeModel,
    pub infused: TradeModel,
    pub empowered: TradeModel,
    pub upgraded: TradeModel,
    pub polished: TradeModel,
    pub charm_gambled: TradeModel,
    pub expanded: TradeModel,
    pub potion_belt: TradeModel,
    pub elixir_belt: TradeModel,
    pub weapon_gambled: TradeModel,
}

/// The stages of a visit from `m`, with `items` in the bag, the codex's
/// enchant `target` and `charm` telling whether a charm is equipped.
pub open spec fn trade_stages(
    m: TradeModel,
    items: Seq<BagItem>,
    target: Option<Seq<char>>,
    charm: bool,
) -> TradeStages {
    let salvaged = TradeModel { stats: spec_salvage_into(m.stats, items, m.name), ..m };
    let potions = after_potions(salvaged);
    let supplied = after_elixirs(potions);
    let tempered = after_temper(supplied);
    let reforged = after_reforge(tempered);
    let enchanted = after_enchant(reforged, target);
    let awakened = after_awaken(enchanted);
    let augmented = after_augment(awakened);
    let infused = after_infuse(augmented);
    let empowered = after_empower(infused);
    let upgraded = if can_empower(infused) {
        empowered
    } else {
        after_upgrade_gem(empowered)
    };
    let polished = after_pay_if(upgraded, charm, 150, 4);
    let charm_gambled = after_pay_if(polished, true, 90, 5);
    let expanded = after_capacity(charm_gambled);
    let potion_belt = after_potion_belt(expanded);
    let elixir_belt = after_elixir_belt(potion_belt);
    let weapon_gambled = after_pay_if(elixir_belt, true, 160, 8);
    TradeStages {
        salvaged,
        potions,
        supplied,
        tempered,
        reforged,
        enchanted,
        awakened,
        augmented,
        infused,
        empowered,
        upgraded,
        polished,
        charm_gambled,
        expanded,
        potion_belt,
        elixir_belt,
        weapon_gambled,
    }
}

/// Potions a visit buys, given the model after salvage.
#[verifier::opaque]
pub open spec fn potions_bought(m: TradeModel) -> int {
    spec_affordable(m.stats.gold as int, 35, m.potions_current as int, m.potions_max as int)
}

/// Elixirs a visit buys, given the model after the potions are bought.
#[verifier::opaque]
pub open spec fn elixirs_bought(m: TradeModel) -> int {
    spec_affordable(m.stats.gold as int, 55, m.elixirs_current as int, m.elixirs_max as int)
}

#[verifier::opaque]
pub open spec fn can_expand(m: TradeModel) -> bool {
    m.capacity < 18 && affords(m.stats, 120, 3, 0, 0)
}

#[verifier::opaque]
pub open spec fn can_widen_potions(m: TradeModel) -> bool {
    m.potions_max < 7 && affords(m.stats, 140, 4, 0, 0)
}

#[verifier::opaque]
pub open spec fn can_widen_elixirs(m: TradeModel) -> bool {
    m.elixirs_max < 4 && affords(m.stats, 160, 5, 0, 0)
}

/// The visit did no business at all, so the quartermaster falls back to the
/// trophy cache or to alchemy.
pub open spec fn nothing_traded(m: TradeModel, items: Seq<BagItem>, st: TradeStages, target: Option<Seq<char>>, charm: bool) -> bool {
    &&& salvage_totals(items, m.name, items.len()).0 == 0
    &&& potions_bought(st.salvaged) == 0
    &&& elixirs_bought(st.potions) == 0
    &&& !can_temper(st.supplied)
    &&& !can_reforge(st.tempered)
    &&& !can_enchant(st.reforged, target)
    &&& !can_awaken(st.enchanted)
    &&& !can_augment(st.awakened)
    &&& !can_infuse(st.augmented)
    &&& !can_empower(st.infused)
    &&& !can_upgrade_gem(st.empowered)
    &&& !can_pay_then(st.upgraded, charm, 150, 4)
    &&& !can_pay_then(st.polished, true, 90, 5)
    &&& !can_expand(st.charm_gambled)
    &&& !can_widen_potions(st.expanded)
    &&& !can_widen_elixirs(st.potion_belt)
    &&& !can_pay_then(st.elixir_belt, true, 160, 8)
}

/// The model of a run, a weapon and a stock.
pub open spec fn tm(s: RunStats, g: EquippedGear, k: MerchantStock) -> TradeModel {
    trade_model(s, g, k)
}

/// The parts of the stock that a visit leaves alone are unchanged.
pub open spec fn stock_kept(a: MerchantStock, b: MerchantStock) -> bool {
    &&& opt_view(a.enchant_target) == opt_view(b.enchant_target)
    &&& a.charm_equipped == b.charm_equipped
    &&& a.charm_name@ == b.charm_name@
}

fn step_potions(stats: &mut RunStats, gear: &EquippedGear, stock: &mut MerchantStock) -> (r: u32)
    ensures
        r == potions_bought(tm(*old(stats), *gear, *old(stock))),
        tm(*final(stats), *gear, *final(stock)) == after_potions(tm(*old(stats), *gear, *old(stock))),
        stock_kept(*old(stock), *final(stock)),
{
    proof {
        reveal(after_potions);
        reveal(potions_bought);
    }
    restock_potions(&mut stock.potions_current, stock.potions_max, stats)
}

fn step_elixirs(stats: &mut RunStats, gear: &EquippedGear, stock: &mut MerchantStock) -> (r: u32)
    ensures
        r == elixirs_bought(tm(*old(stats), *gear, *old(stock))),
        tm(*final(stats), *gear, *final(stock)) == after_elixirs(tm(*old(stats), *gear, *old(stock))),
        stock_kept(*old(stock), *final(stock)),
{
    proof {
        reveal(after_elixirs);
        reveal(elixirs_bought);
    }
    restock_elixirs(&mut stock.elixirs_current, stock.elixirs_max, stats)
}

/// What `temper_equipped_weapon` does to the run and the weapon.
fn temper_weapon(stats: &mut RunStats, gear: &mut EquippedGear, stock: &MerchantStock) -> (r: bool)
    requires
        90 + 45 * old(gear).temper_level <= u32::MAX,
    ensures
        r == can_temper(tm(*old(stats), *old(gear), *stock)),
        tm(*final(stats), *final(gear), *stock) == after_temper(tm(*old(stats), *old(gear), *stock)),
        final(gear).socketed_gem == old(gear).socketed_gem,
{
    proof {
        reveal(can_temper);
        reveal(after_temper);
    }
    let cost = temper_cost(gear.temper_level);
    if stats.gold < cost {
        return false;
    }
    pay_exec(stats, cost, 0, 0, 0);
    gear.temper_level = gear.temper_level + 1;
    true
}

/// What `reforge_equipped_weapon` does to the run and the weapon.
fn reforge_weapon(stats: &mut RunStats, gear: &EquippedGear, stock: &MerchantStock) -> (r: bool)
    ensures
        r == can_reforge(tm(*old(stats), *gear, *stock)),
        tm(*final(stats), *gear, *stock) == after_reforge(tm(*old(stats), *gear, *stock)),
{
    proof {
        reveal(can_reforge);
        reveal(after_reforge);
    }
    if stats.ember_shards < crate::loot::MERCHANT_REFORGE_SHARD_COST {
        return false;
    }
    pay_exec(stats, 0, crate::loot::MERCHANT_REFORGE_SHARD_COST, 0, 0);
    true
}

fn step_pay_if(
    stats: &mut RunStats,
    gear: &EquippedGear,
    stock: &MerchantStock,
    allowed: bool,
    gold: u32,
    shards: u32,
) -> (r: bool)
    ensures
        r == can_pay_then(tm(*old(stats), *gear, *stock), allowed, gold as int, shards as int),
        tm(*final(stats), *gear, *stock) == after_pay_if(
            tm(*old(stats), *gear, *stock),
            allowed,
            gold as int,
            shards as int,
        ),
{
    proof {
        reveal(can_pay_then);
        reveal(after_pay_if);
    }
    if !allowed || stats.gold < gold || stats.ember_shards < shards {
        return false;
    }
    pay_exec(stats, gold, shards, 0, 0);
    true
}

fn clone_option(o: &Option<String>) -> (r: Option<String>)
    ensures
        opt_view(r) == opt_view(*o),
{
    match o {
        Some(s) => Some(s.clone()),
        None => None,
    }
}

/// What `enchant_equipped_weapon` does to the run and the weapon.
fn enchant_weapon(stats: &mut RunStats, gear: &mut EquippedGear, stock: &MerchantStock) -> (r: bool)
    ensures
        r == can_enchant(tm(*old(stats), *old(gear), *stock), opt_view(stock.enchant_target)),
        tm(*final(stats), *final(gear), *stock) == after_enchant(
            tm(*old(stats), *old(gear), *stock),
            opt_view(stock.enchant_target),
        ),
        final(gear).socketed_gem == old(gear).socketed_gem,
{
    proof {
        reveal(can_enchant);
        reveal(after_enchant);
    }
    if stock.enchant_target.is_none() || stats.gold < crate::loot::MERCHANT_ENCHANT_GOLD_COST
        || stats.ember_shards < crate::loot::MERCHANT_ENCHANT_SHARD_COST || stats.affix_essence
        < crate::loot::MERCHANT_ENCHANT_ESSENCE_COST {
        return false;
    }
    pay_exec(
        stats,
        crate::loot::MERCHANT_ENCHANT_GOLD_COST,
        crate::loot::MERCHANT_ENCHANT_SHARD_COST,
        crate::loot::MERCHANT_ENCHANT_ESSENCE_COST,
        0,
    );
    gear.legendary_power = clone_option(&stock.enchant_target);
    let q = crate::loot::quality_after_legendary_enchant(gear.quality.as_str());
    gear.quality = String::from_str(q);
    true
}

/// What `awaken_legendary_weapon` does to the run and the weapon.
fn awaken_weapon(stats: &mut RunStats, gear: &mut EquippedGear, stock: &MerchantStock) -> (r: bool)
    requires
        old(gear).socketed_gem is Some ==> 320 + 90 * old(gear).socketed_gem->0.rank <= u32::MAX,
    ensures
        r == can_awaken(tm(*old(stats), *old(gear), *stock)),
        tm(*final(stats), *final(gear), *stock) == after_awaken(tm(*old(stats), *old(gear), *stock)),
        final(gear).socketed_gem is Some ==> final(gear).socketed_gem == old(gear).socketed_gem,
{
    proof {
        reveal(can_awaken);
        reveal(after_awaken);
    }
    let q = chars_of(gear.quality.as_str());
    if !crate::text::chars_are(&q, "legendary") || gear.legendary_power.is_none() {
        return false;
    }
    let gem = match gear.socketed_gem {
        Some(g) => g,
        None => {
            return false;
        },
    };
    if gem.rank < crate::loot::ANCIENT_AWAKEN_MIN_GEM_RANK {
        return false;
    }
    let (gold, shards, essence) = ancient_awaken_cost(gem);
    if stats.gold < gold || stats.ember_shards < shards || stats.affix_essence < essence {
        return false;
    }
    pay_exec(stats, gold, shards, essence, 0);
    gear.weapon_name = ancient_awakened_name(gear.weapon_name.as_str());
    gear.quality = String::from_str("ancient");
    gear.socketed_gem = None;
    true
}

/// What `augment_ancient_weapon` does to the run and the weapon.
fn augment_weapon(stats: &mut RunStats, gear: &mut EquippedGear, stock: &MerchantStock) -> (r: bool)
    requires
        old(gear).socketed_gem is Some ==> 320 + 90 * old(gear).socketed_gem->0.rank <= u32::MAX,
        can_augment(tm(*old(stats), *old(gear), *stock)) ==> old(stats).ancient_augments
            < u32::MAX,
    ensures
        r == can_augment(tm(*old(stats), *old(gear), *stock)),
        tm(*final(stats), *final(gear), *stock) == after_augment(tm(*old(stats), *old(gear), *stock)),
        final(gear).socketed_gem is Some ==> final(gear).socketed_gem == old(gear).socketed_gem,
{
    proof {
        reveal(can_augment);
        reveal(after_augment);
    }
    if crate::loot::loot_quality_rank(gear.quality.as_str()) < 3 {
        return false;
    }
    let gem = match gear.socketed_gem {
        Some(g) => g,
        None => {
            return false;
        },
    };
    if gem.rank < crate::loot::ANCIENT_AUGMENT_MIN_GEM_RANK {
        return false;
    }
    let (gold, shards) = ancient_augment_cost(gem);
    let essence = ancient_augment_essence_cost(gem);
    if stats.gold < gold || stats.ember_shards < shards || stats.affix_essence < essence {
        return false;
    }
    pay_exec(stats, gold, shards, essence, 0);
    *stats = RunStats { ancient_augments: stats.ancient_augments + 1, ..*stats };
    gear.socketed_gem = None;
    true
}

/// What `infuse_primal_weapon` does to the run and the weapon.
fn infuse_weapon(stats: &mut RunStats, gear: &mut EquippedGear, stock: &MerchantStock) -> (r: bool)
    ensures
        r == can_infuse(tm(*old(stats), *old(gear), *stock)),
        tm(*final(stats), *final(gear), *stock) == after_infuse(tm(*old(stats), *old(gear), *stock)),
        final(gear).socketed_gem == old(gear).socketed_gem,
{
    proof {
        reveal(can_infuse);
        reveal(after_infuse);
    }
    let q = chars_of(gear.quality.as_str());
    if !crate::text::chars_are(&q, "ancient") {
        return false;
    }
    if stats.echo_keystones < crate::loot::PRIMAL_INFUSION_ECHO_KEYSTONE_COST || stats.gold
        < crate::loot::PRIMAL_INFUSION_GOLD_COST || stats.ember_shards
        < crate::loot::PRIMAL_INFUSION_SHARD_COST || stats.affix_essence
        < crate::loot::PRIMAL_INFUSION_ESSENCE_COST {
        return false;
    }
    pay_exec(
        stats,
        crate::loot::PRIMAL_INFUSION_GOLD_COST,
        crate::loot::PRIMAL_INFUSION_SHARD_COST,
        crate::loot::PRIMAL_INFUSION_ESSENCE_COST,
        crate::loot::PRIMAL_INFUSION_ECHO_KEYSTONE_COST,
    );
    *stats = RunStats { primal_infusions: stats.primal_infusions.saturating_add(1), ..*stats };
    gear.weapon_name = primal_infused_name(gear.weapon_name.as_str());
    gear.quality = String::from_str("primal");
    true
}

/// What `empower_socketed_gem` does to the run and the weapon.
fn empower_gem(stats: &mut RunStats, gear: &mut EquippedGear, stock: &MerchantStock) -> (r: bool)
    requires
        old(gear).socketed_gem is Some ==> old(gear).socketed_gem->0.rank + 2 <= u32::MAX,
    ensures
        r == can_empower(tm(*old(stats), *old(gear), *stock)),
        tm(*final(stats), *final(gear), *stock) == after_empower(tm(*old(stats), *old(gear), *stock)),
        final(gear).socketed_gem is Some ==> old(gear).socketed_gem is Some && final(gear).socketed_gem->0.rank <= old(gear).socketed_gem->0.rank + 2,
{
    proof {
        reveal(can_empower);
        reveal(after_empower);
    }
    let g = match gear.socketed_gem {
        Some(g) => g,
        None => {
            return false;
        },
    };
    if g.rank < crate::loot::GEM_EMPOWER_MIN_RANK || stats.gold < crate::loot::GEM_EMPOWER_GOLD_COST
        || stats.affix_essence < crate::loot::GEM_EMPOWER_ESSENCE_COST || stats.echo_keystones
        < crate::loot::GEM_EMPOWER_ECHO_KEYSTONE_COST {
        return false;
    }
    pay_exec(
        stats,
        crate::loot::GEM_EMPOWER_GOLD_COST,
        0,
        crate::loot::GEM_EMPOWER_ESSENCE_COST,
        crate::loot::GEM_EMPOWER_ECHO_KEYSTONE_COST,
    );
    gear.socketed_gem = Some(
        SocketedGem { kind: g.kind, rank: g.rank + crate::loot::GEM_EMPOWER_RANK_GAIN },
    );
    true
}

/// What `upgrade_socketed_gem` does to the run and the weapon.
fn upgrade_gem(stats: &mut RunStats, gear: &mut EquippedGear, stock: &MerchantStock) -> (r:
    bool)
    requires
        old(gear).socketed_gem is Some ==> 70 + 50 * old(gear).socketed_gem->0.rank <= u32::MAX,
    ensures
        r == can_upgrade_gem(tm(*old(stats), *old(gear), *stock)),
        tm(*final(stats), *final(gear), *stock) == after_upgrade_gem(
            tm(*old(stats), *old(gear), *stock),
        ),
{
    proof {
        reveal(can_upgrade_gem);
        reveal(after_upgrade_gem);
    }
    let g = match gear.socketed_gem {
        Some(g) => g,
        None => {
            return false;
        },
    };
    let cost = gem_upgrade_cost(g.rank);
    if stats.gold < cost {
        return false;
    }
    pay_exec(stats, cost, 0, 0, 0);
    gear.socketed_gem = Some(SocketedGem { kind: g.kind, rank: g.rank + 1 });
    true
}

/// Tempers the weapon one level for 90 gold plus 45 per level it has; its
/// bag entry takes the new temper level and the weapon's gem.
pub fn temper_equipped_weapon(
    items: &mut Vec<BagItem>,
    stats: &mut RunStats,
    gear: &mut EquippedGear,
    stock: &MerchantStock,
) -> (r: bool)
    requires
        90 + 45 * old(gear).temper_level <= u32::MAX,
    ensures
        r == can_temper(tm(*old(stats), *old(gear), *stock)),
        tm(*final(stats), *final(gear), *stock) == after_temper(tm(*old(stats), *old(gear), *stock)),
        r ==> bag_follows(
            old(items)@,
            final(items)@,
            old(gear).weapon_name@,
            tm(*final(stats), *final(gear), *stock),
            false, false, false, true, true,
        ),
        !r ==> final(items)@ == old(items)@,
{
    let entry_name = gear.weapon_name.clone();
    let r = temper_weapon(stats, gear, stock);
    if r {
        follow_weapon_entry(items, &entry_name, stats, gear, stock, false, false, false, true, true);
    }
    r
}

/// Reforges the weapon for 6 shards; its bag entry takes the weapon's gem.
pub fn reforge_equipped_weapon(
    items: &mut Vec<BagItem>,
    stats: &mut RunStats,
    gear: &EquippedGear,
    stock: &MerchantStock,
) -> (r: bool)
    ensures
        r == can_reforge(tm(*old(stats), *gear, *stock)),
        tm(*final(stats), *gear, *stock) == after_reforge(tm(*old(stats), *gear, *stock)),
        r ==> bag_follows(
            old(items)@,
            final(items)@,
            gear.weapon_name@,
            tm(*final(stats), *gear, *stock),
            false, false, false, false, true,
        ),
        !r ==> final(items)@ == old(items)@,
{
    let entry_name = gear.weapon_name.clone();
    let r = reforge_weapon(stats, gear, stock);
    if r {
        follow_weapon_entry(items, &entry_name, stats, gear, stock, false, false, false, false, true);
    }
    r
}

/// Enchants the weapon with the codex's target power for 180 gold, 10
/// shards and 2 essence; a primal or ancient weapon keeps its quality, any
/// other becomes legendary. Its bag entry takes the power and the quality.
pub fn enchant_equipped_weapon(
    items: &mut Vec<BagItem>,
    stats: &mut RunStats,
    gear: &mut EquippedGear,
    stock: &MerchantStock,
) -> (r: bool)
    ensures
        r == can_enchant(tm(*old(stats), *old(gear), *stock), opt_view(stock.enchant_target)),
        tm(*final(stats), *final(gear), *stock) == after_enchant(tm(*old(stats), *old(gear), *stock), opt_view(stock.enchant_target)),
        r ==> bag_follows(
            old(items)@,
            final(items)@,
            old(gear).weapon_name@,
            tm(*final(stats), *final(gear), *stock),
            false, true, true, false, false,
        ),
        !r ==> final(items)@ == old(items)@,
{
    let entry_name = gear.weapon_name.clone();
    let r = enchant_weapon(stats, gear, stock);
    if r {
        follow_weapon_entry(items, &entry_name, stats, gear, stock, false, true, true, false, false);
    }
    r
}

/// Awakens a legendary weapon with a power and a gem of rank 4 or more into
/// an ancient one, consuming the gem; its bag entry takes the new name, the
/// quality and the empty socket.
pub fn awaken_legendary_weapon(
    items: &mut Vec<BagItem>,
    stats: &mut RunStats,
    gear: &mut EquippedGear,
    stock: &MerchantStock,
) -> (r: bool)
    requires
        old(gear).socketed_gem is Some ==> 320 + 90 * old(gear).socketed_gem->0.rank <= u32::MAX,
    ensures
        r == can_awaken(tm(*old(stats), *old(gear), *stock)),
        tm(*final(stats), *final(gear), *stock) == after_awaken(tm(*old(stats), *old(gear), *stock)),
        r ==> bag_follows(
            old(items)@,
            final(items)@,
            old(gear).weapon_name@,
            tm(*final(stats), *final(gear), *stock),
            true, true, false, false, true,
        ),
        !r ==> final(items)@ == old(items)@,
{
    let entry_name = gear.weapon_name.clone();
    let r = awaken_weapon(stats, gear, stock);
    if r {
        follow_weapon_entry(items, &entry_name, stats, gear, stock, true, true, false, false, true);
    }
    r
}

/// Augments an ancient or primal weapon by consuming a gem of rank 3 or
/// more; its bag entry takes the empty socket.
pub fn augment_ancient_weapon(
    items: &mut Vec<BagItem>,
    stats: &mut RunStats,
    gear: &mut EquippedGear,
    stock: &MerchantStock,
) -> (r: bool)
    requires
        old(gear).socketed_gem is Some ==> 320 + 90 * old(gear).socketed_gem->0.rank <= u32::MAX,
        can_augment(tm(*old(stats), *old(gear), *stock)) ==> old(stats).ancient_augments
            < u32::MAX,
    ensures
        r == can_augment(tm(*old(stats), *old(gear), *stock)),
        tm(*final(stats), *final(gear), *stock) == after_augment(tm(*old(stats), *old(gear), *stock)),
        r ==> bag_follows(
            old(items)@,
            final(items)@,
            old(gear).weapon_name@,
            tm(*final(stats), *final(gear), *stock),
            false, false, false, false, true,
        ),
        !r ==> final(items)@ == old(items)@,
{
    let entry_name = gear.weapon_name.clone();
    let r = augment_weapon(stats, gear, stock);
    if r {
        follow_weapon_entry(items, &entry_name, stats, gear, stock, false, false, false, false, true);
    }
    r
}

/// Infuses an ancient weapon into a primal one for 520 gold, 24 shards, 14
/// essence and an echo keystone; its bag entry takes the new name, the
/// quality and the gem.
pub fn infuse_primal_weapon(
    items: &mut Vec<BagItem>,
    stats: &mut RunStats,
    gear: &mut EquippedGear,
    stock: &MerchantStock,
) -> (r: bool)
    ensures
        r == can_infuse(tm(*old(stats), *old(gear), *stock)),
        tm(*final(stats), *final(gear), *stock) == after_infuse(tm(*old(stats), *old(gear), *stock)),
        r ==> bag_follows(
            old(items)@,
            final(items)@,
            old(gear).weapon_name@,
            tm(*final(stats), *final(gear), *stock),
            true, true, false, false, true,
        ),
        !r ==> final(items)@ == old(items)@,
{
    let entry_name = gear.weapon_name.clone();
    let r = infuse_weapon(stats, gear, stock);
    if r {
        follow_weapon_entry(items, &entry_name, stats, gear, stock, true, true, false, false, true);
    }
    r
}

/// Raises a gem of rank 5 or more by two ranks for 320 gold, 8 essence and
/// an echo keystone; the weapon's bag entry takes the gem.
pub fn empower_socketed_gem(
    items: &mut Vec<BagItem>,
    stats: &mut RunStats,
    gear: &mut EquippedGear,
    stock: &MerchantStock,
) -> (r: bool)
    requires
        old(gear).socketed_gem is Some ==> old(gear).socketed_gem->0.rank + 2 <= u32::MAX,
    ensures
        r == can_empower(tm(*old(stats), *old(gear), *stock)),
        tm(*final(stats), *final(gear), *stock) == after_empower(tm(*old(stats), *old(gear), *stock)),
        r ==> bag_follows(
            old(items)@,
            final(items)@,
            old(gear).weapon_name@,
            tm(*final(stats), *final(gear), *stock),
            false, false, false, false, true,
        ),
        !r ==> final(items)@ == old(items)@,
{
    let entry_name = gear.weapon_name.clone();
    let r = empower_gem(stats, gear, stock);
    if r {
        follow_weapon_entry(items, &entry_name, stats, gear, stock, false, false, false, false, true);
    }
    r
}

/// Raises the socketed gem one rank for 70 gold plus 50 per rank; the
/// weapon's bag entry takes the gem.
pub fn upgrade_socketed_gem(
    items: &mut Vec<BagItem>,
    stats: &mut RunStats,
    gear: &mut EquippedGear,
    stock: &MerchantStock,
) -> (r: bool)
    requires
        old(gear).socketed_gem is Some ==> 70 + 50 * old(gear).socketed_gem->0.rank <= u32::MAX,
    ensures
        r == can_upgrade_gem(tm(*old(stats), *old(gear), *stock)),
        tm(*final(stats), *final(gear), *stock) == after_upgrade_gem(tm(*old(stats), *old(gear), *stock)),
        r ==> bag_follows(
            old(items)@,
            final(items)@,
            old(gear).weapon_name@,
            tm(*final(stats), *final(gear), *stock),
            false, false, false, false, true,
        ),
        !r ==> final(items)@ == old(items)@,
{
    let entry_name = gear.weapon_name.clone();
    let r = upgrade_gem(stats, gear, stock);
    if r {
        follow_weapon_entry(items, &entry_name, stats, gear, stock, false, false, false, false, true);
    }
    r
}

fn step_capacity(stats: &mut RunStats, gear: &EquippedGear, stock: &mut MerchantStock) -> (r: bool)
    ensures
        r == can_expand(tm(*old(stats), *gear, *old(stock))),
        tm(*final(stats), *gear, *final(stock)) == after_capacity(tm(*old(stats), *gear, *old(stock))),
        stock_kept(*old(stock), *final(stock)),
{
    proof {
        reveal(can_expand);
        reveal(after_capacity);
    }
    expand_inventory_capacity(&mut stock.inventory_capacity, stats)
}

fn step_potion_belt(stats: &mut RunStats, gear: &EquippedGear, stock: &mut MerchantStock) -> (r:
    bool)
    ensures
        r == can_widen_potions(tm(*old(stats), *gear, *old(stock))),
        tm(*final(stats), *gear, *final(stock)) == after_potion_belt(
            tm(*old(stats), *gear, *old(stock)),
        ),
        stock_kept(*old(stock), *final(stock)),
{
    proof {
        reveal(can_widen_potions);
        reveal(after_potion_belt);
    }
    upgrade_potion_belt(&mut stock.potions_max, stats)
}

fn step_elixir_belt(stats: &mut RunStats, gear: &EquippedGear, stock: &mut MerchantStock) -> (r:
    bool)
    ensures
        r == can_widen_elixirs(tm(*old(stats), *gear, *old(stock))),
        tm(*final(stats), *gear, *final(stock)) == after_elixir_belt(
            tm(*old(stats), *gear, *old(stock)),
        ),
        stock_kept(*old(stock), *final(stock)),
{
    proof {
        reveal(can_widen_elixirs);
        reveal(after_elixir_belt);
    }
    upgrade_elixir_belt(&mut stock.elixirs_max, stats)
}

/// The label of a gem, or "gem" where none is set.
pub open spec fn gem_label_or(g: Option<SocketedGem>) -> Seq<char> {
    match g {
        Some(gem) => gem.spec_label(),
        None => "gem"@,
    }
}

fn gem_label_exec(g: Option<SocketedGem>) -> (r: String)
    ensures
        r@ == gem_label_or(g),
{
    match g {
        Some(gem) => gem.label(),
        None => String::from_str("gem"),
    }
}

fn power_label_exec(p: &Option<String>) -> (r: String)
    ensures
        r@ == power_label_or(opt_view(*p)),
{
    match p {
        Some(s) => s.clone(),
        None => String::new(),
    }
}

/// A power's name, or nothing where there is none.
pub open spec fn power_label_or(p: Option<Seq<char>>) -> Seq<char> {
    match p {
        Some(s) => s,
        None => Seq::empty(),
    }
}

/// Whether the fallback opens a trophy cache.
pub open spec fn fallback_opens_cache(fb: bool, s: RunStats) -> bool {
    fb && s.malrec_soul_sigils >= 2
}

/// The run after the fallback: a trophy cache when the sigils allow one,
/// else a round of alchemy.
pub open spec fn after_fallback(fb: bool, s: RunStats) -> RunStats {
    if !fb {
        s
    } else if s.malrec_soul_sigils >= 2 {
        spec_open_soul_sigil_cache(s)
    } else {
        alchemy_keystone_step(alchemy_essence_step(alchemy_gold_step(s)))
    }
}

/// No counter a visit adds to runs past `u32::MAX`.
pub open spec fn trade_fits(m: TradeModel, items: Seq<BagItem>, target: Option<Seq<char>>, charm: bool) -> bool {
    let st = trade_stages(m, items, target, charm);
    let fb = nothing_traded(m, items, st, target, charm);
    let s = st.weapon_gambled.stats;
    &&& salvage_into_fits(m.stats, items, m.name)
    &&& 90 + 45 * m.temper_level <= u32::MAX
    &&& m.gem is Some ==> 320 + 90 * m.gem->0.rank <= u32::MAX
    &&& can_augment(st.awakened) ==> st.awakened.stats.ancient_augments < u32::MAX
    &&& fallback_opens_cache(fb, s) ==> s.gold + 120 <= u32::MAX && s.ember_shards + 4 <= u32::MAX
        && s.affix_essence + 3 <= u32::MAX && s.echo_keystones + 1 <= u32::MAX
    &&& fb && !fallback_opens_cache(fb, s) ==> alchemy_fits(s)
}

/// What the report of a visit from `m` says, field by field.
pub open spec fn reports_trade(
    r: MerchantTransaction,
    m: TradeModel,
    items: Seq<BagItem>,
    target: Option<Seq<char>>,
    charm: bool,
    charm_name: Seq<char>,
) -> bool {
    let st = trade_stages(m, items, target, charm);
    let t = salvage_totals(items, m.name, items.len());
    let cache = spec_cache_reward(spec_sale_paid(m.stats, items, m.name), t.0 as usize);
    let fb = nothing_traded(m, items, st, target, charm);
    let opened = fallback_opens_cache(fb, st.weapon_gambled.stats);
    let s = st.weapon_gambled.stats;
    let aug_gem = st.awakened.gem;
    let awk_gem = st.enchanted.gem;
    let up_gem = st.empowered.gem;
    &&& r.sold_items == t.0 && r.sale_gold == t.1 && r.salvaged_shards == t.2
        && r.salvaged_essence == t.3
    &&& r.salvage_cache_count == cache.caches && r.salvage_cache_gold == cache.gold
        && r.salvage_cache_shards == cache.shards && r.salvage_cache_essence == cache.essence
    &&& r.bought_potions == potions_bought(st.salvaged)
    &&& r.bought_elixirs == elixirs_bought(st.potions)
    &&& r.tempered == can_temper(st.supplied) && r.temper_cost == 90 + 45 * m.temper_level
    &&& r.reforged == can_reforge(st.tempered) && r.reforge_cost == 6
    &&& r.enchanted == can_enchant(st.reforged, target) && r.enchant_gold_cost == 180
        && r.enchant_shard_cost == 10 && r.enchant_essence_cost == 2
    &&& r.enchanted_power@ == power_label_or(st.weapon_gambled.power)
    &&& r.charm_polished == can_pay_then(st.upgraded, charm, 150, 4)
        && r.charm_polish_gold_cost == 150 && r.charm_polish_shard_cost == 4
        && r.charm_label@ == charm_name
    &&& r.mystery_charm == can_pay_then(st.polished, true, 90, 5) && !r.mystery_charm_equipped
        && r.mystery_charm_gold_cost == 90 && r.mystery_charm_shard_cost == 5
        && r.mystery_charm_label@ == Seq::<char>::empty()
    &&& r.mystery_weapon == can_pay_then(st.elixir_belt, true, 160, 8)
        && !r.mystery_weapon_equipped && !r.mystery_weapon_stored
        && !r.mystery_weapon_codex_unlocked && r.mystery_weapon_gold_cost == 160
        && r.mystery_weapon_shard_cost == 8 && r.mystery_weapon_label@ == Seq::<char>::empty()
    &&& r.capacity_upgraded == can_expand(st.charm_gambled) && r.capacity_gold_cost == 120
        && r.capacity_shard_cost == 3 && r.inventory_capacity == st.weapon_gambled.capacity
    &&& r.potion_belt_upgraded == can_widen_potions(st.expanded) && r.potion_belt_gold_cost
        == 140 && r.potion_belt_shard_cost == 4 && r.potion_capacity
        == st.weapon_gambled.potions_max
    &&& r.elixir_belt_upgraded == can_widen_elixirs(st.potion_belt) && r.elixir_belt_gold_cost
        == 160 && r.elixir_belt_shard_cost == 5 && r.elixir_capacity
        == st.weapon_gambled.elixirs_max
    &&& r.ancient_augmented == can_augment(st.awakened)
    &&& r.ancient_augment_gold_cost == (if aug_gem is Some {
        180 + 70 * aug_gem->0.rank
    } else {
        0
    })
    &&& r.ancient_augment_shard_cost == (if aug_gem is Some {
        8 + 2 * aug_gem->0.rank
    } else {
        0
    })
    &&& r.ancient_augment_essence_cost == (if aug_gem is Some {
        2 * aug_gem->0.rank
    } else {
        0
    })
    &&& r.ancient_augment_label@ == gem_label_or(aug_gem)
    &&& r.ancient_awakened == can_awaken(st.enchanted)
    &&& r.ancient_awaken_gold_cost == (if awk_gem is Some {
        320 + 90 * awk_gem->0.rank
    } else {
        0
    })
    &&& r.ancient_awaken_shard_cost == (if awk_gem is Some {
        16 + 3 * awk_gem->0.rank
    } else {
        0
    })
    &&& r.ancient_awaken_essence_cost == (if awk_gem is Some {
        3 * awk_gem->0.rank
    } else {
        0
    })
    &&& r.ancient_awaken_label@ == st.enchanted.name
    &&& r.primal_infused == can_infuse(st.augmented) && r.primal_infusion_gold_cost == 520
        && r.primal_infusion_shard_cost == 24 && r.primal_infusion_essence_cost == 14
        && r.primal_infusion_echo_cost == 1 && r.primal_infusion_label@ == st.augmented.name
    &&& r.gem_empowered == can_empower(st.infused) && r.gem_empower_gold_cost == 320
        && r.gem_empower_essence_cost == 8 && r.gem_empower_echo_cost == 1
        && r.gem_empower_label@ == gem_label_or(st.infused.gem)
    &&& r.gem_upgraded == (!can_empower(st.infused) && can_upgrade_gem(st.empowered))
    &&& r.gem_cost == (if up_gem is Some {
        70 + 50 * up_gem->0.rank
    } else {
        0
    })
    &&& r.gem_label@ == gem_label_or(st.weapon_gambled.gem)
    &&& r.soul_sigil_cache == opened && r.soul_sigil_cache_cost == 2
    &&& r.soul_sigil_cache_gold == (if opened {
        120u32
    } else {
        0
    }) && r.soul_sigil_cache_shards == (if opened {
        4u32
    } else {
        0
    }) && r.soul_sigil_cache_essence == (if opened {
        3u32
    } else {
        0
    }) && r.soul_sigil_cache_keystones == (if opened {
        1u32
    } else {
        0
    })
    &&& r.alchemy_gold == (fb && !opened && s.gold >= 220)
    &&& r.alchemy_essence == (fb && !opened && alchemy_gold_step(s).ember_shards >= 8)
    &&& r.alchemy_keystone == (fb && !opened && {
        let s2 = alchemy_essence_step(alchemy_gold_step(s));
        s2.ember_shards >= 12 && s2.affix_essence >= 6
    })
    &&& r.alchemy_gold_cost == 220 && r.alchemy_shard_reward == 3 && r.alchemy_shard_cost == 8
        && r.alchemy_essence_reward == 2 && r.alchemy_keystone_shard_cost == 12
        && r.alchemy_keystone_essence_cost == 6 && r.alchemy_keystone_reward == 1
}

/// What the services of a visit did, with the prices and names the report
/// quotes, before any fallback.
pub struct ServiceRecord {
    pub salvage: crate::merchant::SpareSalvage,
    pub bought_potions: u32,
    pub bought_elixirs: u32,
    pub temper_price: u32,
    pub tempered: bool,
    pub reforged: bool,
    pub enchanted: bool,
    pub awaken_gold: u32,
    pub awaken_shards: u32,
    pub awaken_essence: u32,
    pub awaken_label: String,
    pub awakened: bool,
    pub augment_gold: u32,
    pub augment_shards: u32,
    pub augment_essence: u32,
    pub augment_label: String,
    pub augmented: bool,
    pub infusion_label: String,
    pub infused: bool,
    pub empower_label: String,
    pub empowered: bool,
    pub gem_price: u32,
    pub gem_upgraded: bool,
    pub charm_polished: bool,
    pub mystery_charm: bool,
    pub capacity_upgraded: bool,
    pub potion_belt_upgraded: bool,
    pub elixir_belt_upgraded: bool,
    pub mystery_weapon: bool,
}

/// What the record of a visit's services from `m` says, field by field.
pub open spec fn services_recorded(
    rec: ServiceRecord,
    m: TradeModel,
    items: Seq<BagItem>,
    target: Option<Seq<char>>,
    charm: bool,
) -> bool {
    let st = trade_stages(m, items, target, charm);
    let t = salvage_totals(items, m.name, items.len());
    let aug_gem = st.awakened.gem;
    let awk_gem = st.enchanted.gem;
    let up_gem = st.empowered.gem;
    &&& rec.salvage.items == t.0 && rec.salvage.gold == t.1 && rec.salvage.shards == t.2
        && rec.salvage.essence == t.3
    &&& rec.salvage.cache == spec_cache_reward(spec_sale_paid(m.stats, items, m.name), t.0 as usize)
    &&& rec.bought_potions == potions_bought(st.salvaged)
    &&& rec.bought_elixirs == elixirs_bought(st.potions)
    &&& rec.temper_price == 90 + 45 * m.temper_level
    &&& rec.tempered == can_temper(st.supplied)
    &&& rec.reforged == can_reforge(st.tempered)
    &&& rec.enchanted == can_enchant(st.reforged, target)
    &&& rec.awaken_gold == (if awk_gem is Some {
        320 + 90 * awk_gem->0.rank
    } else {
        0
    })
    &&& rec.awaken_shards == (if awk_gem is Some {
        16 + 3 * awk_gem->0.rank
    } else {
        0
    })
    &&& rec.awaken_essence == (if awk_gem is Some {
        3 * awk_gem->0.rank
    } else {
        0
    })
    &&& rec.awaken_label@ == st.enchanted.name
    &&& rec.awakened == can_awaken(st.enchanted)
    &&& rec.augment_gold == (if aug_gem is Some {
        180 + 70 * aug_gem->0.rank
    } else {
        0
    })
    &&& rec.augment_shards == (if aug_gem is Some {
        8 + 2 * aug_gem->0.rank
    } else {
        0
    })
    &&& rec.augment_essence == (if aug_gem is Some {
        2 * aug_gem->0.rank
    } else {
        0
    })
    &&& rec.augment_label@ == gem_label_or(aug_gem)
    &&& rec.augmented == can_augment(st.awakened)
    &&& rec.infusion_label@ == st.augmented.name
    &&& rec.infused == can_infuse(st.augmented)
    &&& rec.empower_label@ == gem_label_or(st.infused.gem)
    &&& rec.empowered == can_empower(st.infused)
    &&& rec.gem_price == (if up_gem is Some {
        70 + 50 * up_gem->0.rank
    } else {
        0
    })
    &&& rec.gem_upgraded == (!can_empower(st.infused) && can_upgrade_gem(st.empowered))
    &&& rec.charm_polished == can_pay_then(st.upgraded, charm, 150, 4)
    &&& rec.mystery_charm == can_pay_then(st.polished, true, 90, 5)
    &&& rec.capacity_upgraded == can_expand(st.charm_gambled)
    &&& rec.potion_belt_upgraded == can_widen_potions(st.expanded)
    &&& rec.elixir_belt_upgraded == can_widen_elixirs(st.potion_belt)
    &&& rec.mystery_weapon == can_pay_then(st.elixir_belt, true, 160, 8)
}

/// The stages of the shop's first services, from the model after salvage.
pub struct StagesA {
    pub potions: TradeModel,
    pub supplied: TradeModel,
    pub tempered: TradeModel,
    pub reforged: TradeModel,
    pub enchanted: TradeModel,
    pub awakened: TradeModel,
    pub augmented: TradeModel,
    pub infused: TradeModel,
}

pub open spec fn stages_a(m: TradeModel, target: Option<Seq<char>>) -> StagesA {
    let potions = after_potions(m);
    let supplied = after_elixirs(potions);
    let tempered = after_temper(supplied);
    let reforged = after_reforge(tempered);
    let enchanted = after_enchant(reforged, target);
    let awakened = after_awaken(enchanted);
    let augmented = after_augment(awakened);
    let infused = after_infuse(augmented);
    StagesA { potions, supplied, tempered, reforged, enchanted, awakened, augmented, infused }
}

/// The stages of the shop's later services, from the model after infusion.
pub struct StagesB {
    pub empowered: TradeModel,
    pub upgraded: TradeModel,
    pub polished: TradeModel,
    pub charm_gambled: TradeModel,
    pub expanded: TradeModel,
    pub potion_belt: TradeModel,
    pub elixir_belt: TradeModel,
    pub weapon_gambled: TradeModel,
}

pub open spec fn stages_b(m: TradeModel, charm: bool) -> StagesB {
    let empowered = after_empower(m);
    let upgraded = if can_empower(m) {
        empowered
    } else {
        after_upgrade_gem(empowered)
    };
    let polished = after_pay_if(upgraded, charm, 150, 4);
    let charm_gambled = after_pay_if(polished, true, 90, 5);
    let expanded = after_capacity(charm_gambled);
    let potion_belt = after_potion_belt(expanded);
    let elixir_belt = after_elixir_belt(potion_belt);
    let weapon_gambled = after_pay_if(elixir_belt, true, 160, 8);
    StagesB {
        empowered,
        upgraded,
        polished,
        charm_gambled,
        expanded,
        potion_belt,
        elixir_belt,
        weapon_gambled,
    }
}

struct RecordA {
    bought_potions: u32,
    bought_elixirs: u32,
    temper_price: u32,
    tempered: bool,
    reforged: bool,
    enchanted: bool,
    awaken_gold: u32,
    awaken_shards: u32,
    awaken_essence: u32,
    awaken_label: String,
    awakened: bool,
    augment_gold: u32,
    augment_shards: u32,
    augment_essence: u32,
    augment_label: String,
    augmented: bool,
    infusion_label: String,
    infused: bool,
}

spec fn recorded_a(rec: RecordA, m: TradeModel, target: Option<Seq<char>>) -> bool {
    let st = stages_a(m, target);
    let aug_gem = st.awakened.gem;
    let awk_gem = st.enchanted.gem;
    &&& rec.bought_potions == potions_bought(m)
    &&& rec.bought_elixirs == elixirs_bought(st.potions)
    &&& rec.temper_price == 90 + 45 * m.temper_level
    &&& rec.tempered == can_temper(st.supplied)
    &&& rec.reforged == can_reforge(st.tempered)
    &&& rec.enchanted == can_enchant(st.reforged, target)
    &&& rec.awaken_gold == (if awk_gem is Some {
        320 + 90 * awk_gem->0.rank
    } else {
        0
    })
    &&& rec.awaken_shards == (if awk_gem is Some {
        16 + 3 * awk_gem->0.rank
    } else {
        0
    })
    &&& rec.awaken_essence == (if awk_gem is Some {
        3 * awk_gem->0.rank
    } else {
        0
    })
    &&& rec.awaken_label@ == st.enchanted.name
    &&& rec.awakened == can_awaken(st.enchanted)
    &&& rec.augment_gold == (if aug_gem is Some {
        180 + 70 * aug_gem->0.rank
    } else {
        0
    })
    &&& rec.augment_shards == (if aug_gem is Some {
        8 + 2 * aug_gem->0.rank
    } else {
        0
    })
    &&& rec.augment_essence == (if aug_gem is Some {
        2 * aug_gem->0.rank
    } else {
        0
    })
    &&& rec.augment_label@ == gem_label_or(aug_gem)
    &&& rec.augmented == can_augment(st.awakened)
    &&& rec.infusion_label@ == st.augmented.name
    &&& rec.infused == can_infuse(st.augmented)
}

#[verifier::rlimit(40)]
fn shop_a(stats: &mut RunStats, gear: &mut EquippedGear, stock: &mut MerchantStock) -> (rec: RecordA)
    requires
        90 + 45 * old(gear).temper_level <= u32::MAX,
        old(gear).socketed_gem is Some ==> 320 + 90 * old(gear).socketed_gem->0.rank <= u32::MAX,
        ({
            let st = stages_a(tm(*old(stats), *old(gear), *old(stock)), opt_view(old(stock).enchant_target));
            can_augment(st.awakened) ==> st.awakened.stats.ancient_augments < u32::MAX
        }),
    ensures
        ({
            let m = tm(*old(stats), *old(gear), *old(stock));
            let target = opt_view(old(stock).enchant_target);
            &&& tm(*final(stats), *final(gear), *final(stock)) == stages_a(m, target).infused
            &&& stock_kept(*old(stock), *final(stock))
            &&& final(gear).socketed_gem is Some ==> final(gear).socketed_gem == old(gear).socketed_gem
            &&& recorded_a(rec, m, target)
        }),
{
    let bought_potions = step_potions(stats, gear, stock);
    let bought_elixirs = step_elixirs(stats, gear, stock);
    let temper_price = temper_cost(gear.temper_level);
    let tempered = temper_weapon(stats, gear, stock);
    let reforged = reforge_weapon(stats, gear, stock);
    let enchanted = enchant_weapon(stats, gear, stock);

    let awaken_gem = gear.socketed_gem;
    let (awaken_gold, awaken_shards, awaken_essence) = match awaken_gem {
        Some(g) => ancient_awaken_cost(g),
        None => (0, 0, 0),
    };
    let awaken_label = gear.weapon_name.clone();
    let awakened = awaken_weapon(stats, gear, stock);

    let augment_gem = gear.socketed_gem;
    let (augment_gold, augment_shards) = match augment_gem {
        Some(g) => ancient_augment_cost(g),
        None => (0, 0),
    };
    let augment_essence = match augment_gem {
        Some(g) => ancient_augment_essence_cost(g),
        None => 0,
    };
    let augment_label = gem_label_exec(augment_gem);
    let augmented = augment_weapon(stats, gear, stock);

    let infusion_label = gear.weapon_name.clone();
    let infused = infuse_weapon(stats, gear, stock);
    RecordA {
        bought_potions,
        bought_elixirs,
        temper_price,
        tempered,
        reforged,
        enchanted,
        awaken_gold,
        awaken_shards,
        awaken_essence,
        awaken_label,
        awakened,
        augment_gold,
        augment_shards,
        augment_essence,
        augment_label,
        augmented,
        infusion_label,
        infused,
    }
}

struct RecordB {
    empower_label: String,
    empowered: bool,
    gem_price: u32,
    gem_upgraded: bool,
    charm_polished: bool,
    mystery_charm: bool,
    capacity_upgraded: bool,
    potion_belt_upgraded: bool,
    elixir_belt_upgraded: bool,
    mystery_weapon: bool,
}

spec fn recorded_b(rec: RecordB, m: TradeModel, charm: bool) -> bool {
    let st = stages_b(m, charm);
    let up_gem = st.empowered.gem;
    &&& rec.empower_label@ == gem_label_or(m.gem)
    &&& rec.empowered == can_empower(m)
    &&& rec.gem_price == (if up_gem is Some {
        70 + 50 * up_gem->0.rank
    } else {
        0
    })
    &&& rec.gem_upgraded == (!can_empower(m) && can_upgrade_gem(st.empowered))
    &&& rec.charm_polished == can_pay_then(st.upgraded, charm, 150, 4)
    &&& rec.mystery_charm == can_pay_then(st.polished, true, 90, 5)
    &&& rec.capacity_upgraded == can_expand(st.charm_gambled)
    &&& rec.potion_belt_upgraded == can_widen_potions(st.expanded)
    &&& rec.elixir_belt_upgraded == can_widen_elixirs(st.potion_belt)
    &&& rec.mystery_weapon == can_pay_then(st.elixir_belt, true, 160, 8)
}

#[verifier::rlimit(40)]
fn shop_b(stats: &mut RunStats, gear: &mut EquippedGear, stock: &mut MerchantStock) -> (rec: RecordB)
    requires
        old(gear).socketed_gem is Some ==> 320 + 90 * old(gear).socketed_gem->0.rank <= u32::MAX,
    ensures
        ({
            let m = tm(*old(stats), *old(gear), *old(stock));
            let charm = old(stock).charm_equipped;
            &&& tm(*final(stats), *final(gear), *final(stock)) == stages_b(m, charm).weapon_gambled
            &&& stock_kept(*old(stock), *final(stock))
            &&& recorded_b(rec, m, charm)
        }),
{
    let empower_label = gem_label_exec(gear.socketed_gem);
    let empowered = empower_gem(stats, gear, stock);
    let gem_price = match gear.socketed_gem {
        Some(g) => gem_upgrade_cost(g.rank),
        None => 0,
    };
    let gem_upgraded = if empowered {
        false
    } else {
        upgrade_gem(stats, gear, stock)
    };
    let charm_polished = step_pay_if(
        stats,
        gear,
        stock,
        stock.charm_equipped,
        crate::loot::MERCHANT_CHARM_POLISH_GOLD_COST,
        crate::loot::MERCHANT_CHARM_POLISH_SHARD_COST,
    );
    let mystery_charm = step_pay_if(
        stats,
        gear,
        stock,
        true,
        crate::loot::MERCHANT_MYSTERY_CHARM_GOLD_COST,
        crate::loot::MERCHANT_MYSTERY_CHARM_SHARD_COST,
    );
    let capacity_upgraded = step_capacity(stats, gear, stock);
    let potion_belt_upgraded = step_potion_belt(stats, gear, stock);
    let elixir_belt_upgraded = step_elixir_belt(stats, gear, stock);
    let mystery_weapon = step_pay_if(
        stats,
        gear,
        stock,
        true,
        crate::loot::MERCHANT_MYSTERY_WEAPON_GOLD_COST,
        crate::loot::MERCHANT_MYSTERY_WEAPON_SHARD_COST,
    );
    RecordB {
        empower_label,
        empowered,
        gem_price,
        gem_upgraded,
        charm_polished,
        mystery_charm,
        capacity_upgraded,
        potion_belt_upgraded,
        elixir_belt_upgraded,
        mystery_weapon,
    }
}

#[verifier::rlimit(40)]
fn run_services(
    stats: &mut RunStats,
    gear: &mut EquippedGear,
    stock: &mut MerchantStock,
    items: &mut Vec<BagItem>,
) -> (rec: ServiceRecord)
    requires
        trade_fits(
            trade_model(*old(stats), *old(gear), *old(stock)),
            old(items)@,
            opt_view(old(stock).enchant_target),
            old(stock).charm_equipped,
        ),
    ensures
        ({
            let m = trade_model(*old(stats), *old(gear), *old(stock));
            let target = opt_view(old(stock).enchant_target);
            let charm = old(stock).charm_equipped;
            let st = trade_stages(m, old(items)@, target, charm);
            &&& final(items)@ == kept_items(old(items)@, m.name, old(items)@.len())
            &&& tm(*final(stats), *final(gear), *final(stock)) == st.weapon_gambled
            &&& stock_kept(*old(stock), *final(stock))
            &&& services_recorded(rec, m, old(items)@, target, charm)
        }),
{
    let ghost m0 = trade_model(*stats, *gear, *stock);
    let ghost target = opt_view(stock.enchant_target);
    let ghost charm = stock.charm_equipped;
    let ghost items0 = items@;
    let ghost st = trade_stages(m0, items0, target, charm);
    let salvage = salvage_spare_inventory_into_stats(items, gear.weapon_name.as_str(), stats);
    assert(tm(*stats, *gear, *stock) == st.salvaged);
    let a = shop_a(stats, gear, stock);
    assert(tm(*stats, *gear, *stock) == st.infused);
    let b = shop_b(stats, gear, stock);
    ServiceRecord {
        salvage,
        bought_potions: a.bought_potions,
        bought_elixirs: a.bought_elixirs,
        temper_price: a.temper_price,
        tempered: a.tempered,
        reforged: a.reforged,
        enchanted: a.enchanted,
        awaken_gold: a.awaken_gold,
        awaken_shards: a.awaken_shards,
        awaken_essence: a.awaken_essence,
        awaken_label: a.awaken_label,
        awakened: a.awakened,
        augment_gold: a.augment_gold,
        augment_shards: a.augment_shards,
        augment_essence: a.augment_essence,
        augment_label: a.augment_label,
        augmented: a.augmented,
        infusion_label: a.infusion_label,
        infused: a.infused,
        empower_label: b.empower_label,
        empowered: b.empowered,
        gem_price: b.gem_price,
        gem_upgraded: b.gem_upgraded,
        charm_polished: b.charm_polished,
        mystery_charm: b.mystery_charm,
        capacity_upgraded: b.capacity_upgraded,
        potion_belt_upgraded: b.potion_belt_upgraded,
        elixir_belt_upgraded: b.elixir_belt_upgraded,
        mystery_weapon: b.mystery_weapon,
    }
}

/// The bag entry `n` is `e` brought up to the weapon `w` in the fields the
/// flags name: its name, quality, whether it carries a legendary power, its
/// temper level and its gem. Every other field, the sale value among them,
/// stays.
pub open spec fn entry_synced(
    e: BagItem,
    n: BagItem,
    w: TradeModel,
    name: bool,
    quality: bool,
    power: bool,
    temper: bool,
    gem: bool,
) -> bool {
    &&& n.name@ == (if name { w.name } else { e.name@ })
    &&& n.quality@ == (if quality { w.quality } else { e.quality@ })
    &&& n.has_legendary_power == (if power { w.power is Some } else { e.has_legendary_power })
    &&& n.temper_level == (if temper { w.temper_level } else { e.temper_level })
    &&& n.socketed_gem == (if gem { w.gem } else { e.socketed_gem })
    &&& n.sale_value == e.sale_value
}

/// The bag `n` is `b` with its first entry named `name`, if it has one,
/// brought up to the weapon `w` in the fields the flags name; every other
/// entry stays.
pub open spec fn bag_follows(
    b: Seq<BagItem>,
    n: Seq<BagItem>,
    name: Seq<char>,
    w: TradeModel,
    renamed: bool,
    quality: bool,
    power: bool,
    temper: bool,
    gem: bool,
) -> bool {
    &&& n.len() == b.len()
    &&& forall|i: int|
        0 <= i < b.len() ==> if is_kept(b, name, i) {
            entry_synced(b[i], #[trigger] n[i], w, renamed, quality, power, temper, gem)
        } else {
            n[i] == b[i]
        }
}

/// The bag `n` after a visit from `m` is the bag `b` that salvage kept with
/// the weapon's entry following each service taken: an awakening or
/// infusion renames it, an enchant, awakening or infusion sets its quality,
/// an enchant its power and a temper its temper level, and every service on
/// the weapon but the enchant sets its gem.
pub open spec fn bag_follows_visit(
    b: Seq<BagItem>,
    n: Seq<BagItem>,
    m: TradeModel,
    items: Seq<BagItem>,
    target: Option<Seq<char>>,
    charm: bool,
) -> bool {
    let st = trade_stages(m, items, target, charm);
    let tempered = can_temper(st.supplied);
    let reforged = can_reforge(st.tempered);
    let enchanted = can_enchant(st.reforged, target);
    let awakened = can_awaken(st.enchanted);
    let augmented = can_augment(st.awakened);
    let infused = can_infuse(st.augmented);
    let empowered = can_empower(st.infused);
    let upgraded = !empowered && can_upgrade_gem(st.empowered);
    bag_follows(
        b,
        n,
        m.name,
        st.weapon_gambled,
        awakened || infused,
        enchanted || awakened || infused,
        enchanted,
        tempered,
        tempered || reforged || awakened || augmented || infused || empowered || upgraded,
    )
}

/// Brings the first bag entry named `name` up to the weapon in the fields
/// the flags name.
fn follow_weapon_entry(
    items: &mut Vec<BagItem>,
    name: &String,
    stats: &RunStats,
    gear: &EquippedGear,
    stock: &MerchantStock,
    renamed: bool,
    quality: bool,
    power: bool,
    temper: bool,
    gem: bool,
)
    ensures
        bag_follows(
            old(items)@,
            final(items)@,
            name@,
            trade_model(*stats, *gear, *stock),
            renamed,
            quality,
            power,
            temper,
            gem,
        ),
{
    let ghost b = items@;
    let mut i: usize = 0;
    while i < items.len() && items[i].name != *name
        invariant
            items@ == b,
            0 <= i <= b.len(),
            !named_before(b, name@, i as int),
        decreases b.len() - i,
    {
        proof {
            lemma_named_step(b, name@, i as int);
        }
        i += 1;
    }
    if i < items.len() {
        let e = &items[i];
        let entry = BagItem {
            name: if renamed { gear.weapon_name.clone() } else { e.name.clone() },
            quality: if quality { gear.quality.clone() } else { e.quality.clone() },
            temper_level: if temper { gear.temper_level } else { e.temper_level },
            socketed_gem: if gem { gear.socketed_gem } else { e.socketed_gem },
            has_legendary_power: if power {
                gear.legendary_power.is_some()
            } else {
                e.has_legendary_power
            },
            sale_value: e.sale_value,
        };
        items.set(i, entry);
        proof {
            let k = i as int;
            assert(is_kept(b, name@, k));
            assert forall|j: int| 0 <= j < b.len() && j != k implies !is_kept(b, name@, j) by {
                if j > k {
                    assert(b[k].name@ == name@);
                }
            }
        }
    }
}

/// The two models hold the same flasks on their belts.
pub open spec fn belts_same(a: TradeModel, b: TradeModel) -> bool {
    a.potions_current == b.potions_current && a.elixirs_current == b.elixirs_current
}

/// A visit refills each belt by exactly what it buys and never past the
/// belt's size on arrival: the potions on the belt after a visit are those
/// before it plus the potions bought, at most the belt's old size, and the
/// same for elixirs (later belt upgrades raise the size, not the count).
pub proof fn lemma_visit_refills_within_belts(
    m: TradeModel,
    items: Seq<BagItem>,
    target: Option<Seq<char>>,
    charm: bool,
)
    requires
        m.potions_current <= m.potions_max,
        m.elixirs_current <= m.elixirs_max,
    ensures
        ({
            let st = trade_stages(m, items, target, charm);
            &&& st.weapon_gambled.potions_current == m.potions_current + potions_bought(st.salvaged)
            &&& st.weapon_gambled.potions_current <= m.potions_max
            &&& st.weapon_gambled.elixirs_current == m.elixirs_current + elixirs_bought(st.potions)
            &&& st.weapon_gambled.elixirs_current <= m.elixirs_max
        }),
{
    let st = trade_stages(m, items, target, charm);
    assert(st.potions.potions_current == m.potions_current + potions_bought(st.salvaged)
        <= m.potions_max && st.potions.elixirs_current == m.elixirs_current
        && st.potions.elixirs_max == m.elixirs_max) by {
        reveal(after_potions);
        reveal(potions_bought);
    }
    assert(st.supplied.elixirs_current == m.elixirs_current + elixirs_bought(st.potions)
        <= m.elixirs_max && st.supplied.potions_current == st.potions.potions_current) by {
        reveal(after_elixirs);
        reveal(elixirs_bought);
    }
    assert(belts_same(st.supplied, st.tempered)) by {
        reveal(after_temper);
    }
    assert(belts_same(st.tempered, st.reforged)) by {
        reveal(after_reforge);
    }
    assert(belts_same(st.reforged, st.enchanted)) by {
        reveal(after_enchant);
    }
    assert(belts_same(st.enchanted, st.awakened)) by {
        reveal(after_awaken);
    }
    assert(belts_same(st.awakened, st.augmented)) by {
        reveal(after_augment);
    }
    assert(belts_same(st.augmented, st.infused)) by {
        reveal(after_infuse);
    }
    assert(belts_same(st.infused, st.empowered)) by {
        reveal(after_empower);
    }
    assert(belts_same(st.empowered, st.upgraded)) by {
        reveal(after_upgrade_gem);
    }
    assert(belts_same(st.upgraded, st.polished) && belts_same(st.polished, st.charm_gambled)) by {
        reveal(after_pay_if);
    }
    assert(belts_same(st.charm_gambled, st.expanded)) by {
        reveal(after_capacity);
    }
    assert(belts_same(st.expanded, st.potion_belt)) by {
        reveal(after_potion_belt);
    }
    assert(belts_same(st.potion_belt, st.elixir_belt)) by {
        reveal(after_elixir_belt);
    }
    assert(belts_same(st.elixir_belt, st.weapon_gambled)) by {
        reveal(after_pay_if);
    }
}

/// A trophy cache or a round of alchemy comes only on a visit that did no
/// other business, and a visit that opens a cache runs no alchemy.
pub open spec fn fallback_alone(r: MerchantTransaction) -> bool {
    &&& (r.soul_sigil_cache || r.alchemy_gold || r.alchemy_essence || r.alchemy_keystone) ==> (
    r.sold_items == 0 && r.bought_potions == 0 && r.bought_elixirs == 0 && !r.tempered
        && !r.reforged && !r.enchanted && !r.ancient_awakened && !r.ancient_augmented
        && !r.primal_infused && !r.gem_empowered && !r.gem_upgraded && !r.charm_polished
        && !r.mystery_charm && !r.capacity_upgraded && !r.potion_belt_upgraded
        && !r.elixir_belt_upgraded && !r.mystery_weapon)
    &&& r.soul_sigil_cache ==> !r.alchemy_gold && !r.alchemy_essence && !r.alchemy_keystone
}

/// One visit to the quartermaster. In order: the spare gear is salvaged,
/// the belts restocked, and each service taken that the run can pay for at
/// its turn: temper, reforge, codex enchant, ancient awakening, ancient
/// augment, primal infusion, gem empowering or else a gem upgrade, charm
/// polish, the mystery charm, bag, potion belt and elixir belt upgrades, and
/// the mystery weapon. A visit that does none of these opens a trophy cache,
/// or failing that runs a round of alchemy. The weapon's own entry, the one
/// item salvage keeps, is brought up to the weapon by each service taken.
///
/// The mystery charm and the mystery weapon are paid for here; what they
/// turn out to be is rolled by the caller, who then completes the report
/// with `settle_merchant_gambles`. The weapon's
/// combat stats, which every service also raises, are the caller's too.
#[verifier::rlimit(100)]
pub fn trade_with_merchant(
    stats: &mut RunStats,
    gear: &mut EquippedGear,
    stock: &mut MerchantStock,
    items: &mut Vec<BagItem>,
) -> (r: MerchantTransaction)
    requires
        trade_fits(
            trade_model(*old(stats), *old(gear), *old(stock)),
            old(items)@,
            opt_view(old(stock).enchant_target),
            old(stock).charm_equipped,
        ),
    ensures
        ({
            let m = trade_model(*old(stats), *old(gear), *old(stock));
            let target = opt_view(old(stock).enchant_target);
            let charm = old(stock).charm_equipped;
            let st = trade_stages(m, old(items)@, target, charm);
            let fb = nothing_traded(m, old(items)@, st, target, charm);
            let kept = kept_items(old(items)@, m.name, old(items)@.len());
            &&& bag_follows_visit(kept, final(items)@, m, old(items)@, target, charm)
            &&& trade_model(*final(stats), *final(gear), *final(stock)) == (TradeModel {
                stats: after_fallback(fb, st.weapon_gambled.stats),
                ..st.weapon_gambled
            })
            &&& opt_view(final(stock).enchant_target) == target
            &&& final(stock).charm_equipped == charm
            &&& final(stock).charm_name@ == old(stock).charm_name@
            &&& reports_trade(r, m, old(items)@, target, charm, old(stock).charm_name@)
            &&& fallback_alone(r)
        }),
{
    let ghost m0 = trade_model(*stats, *gear, *stock);
    let ghost items0 = items@;
    let entry_name = gear.weapon_name.clone();
    let rec = run_services(stats, gear, stock, items);
    follow_weapon_entry(
        items,
        &entry_name,
        stats,
        gear,
        stock,
        rec.awakened || rec.infused,
        rec.enchanted || rec.awakened || rec.infused,
        rec.enchanted,
        rec.tempered,
        rec.tempered || rec.reforged || rec.awakened || rec.augmented || rec.infused
            || rec.empowered || rec.gem_upgraded,
    );
    let fallback = rec.salvage.items == 0 && rec.bought_potions == 0 && rec.bought_elixirs == 0
        && !rec.tempered && !rec.reforged && !rec.enchanted && !rec.awakened && !rec.augmented
        && !rec.infused && !rec.empowered && !rec.gem_upgraded && !rec.charm_polished
        && !rec.mystery_charm && !rec.capacity_upgraded && !rec.potion_belt_upgraded
        && !rec.elixir_belt_upgraded && !rec.mystery_weapon;
    let soul = if fallback {
        open_soul_sigil_cache(stats)
    } else {
        SoulSigilCacheReward::default()
    };
    let alchemy = if fallback && !soul.opened {
        apply_ashen_alchemy(stats)
    } else {
        AshenAlchemyBatch {
            gold_to_shards: false,
            shards_to_essence: false,
            essence_to_keystone: false,
        }
    };
    let enchanted_power = power_label_exec(&gear.legendary_power);
    let gem_label = gem_label_exec(gear.socketed_gem);
    let charm_label = stock.charm_name.clone();
    MerchantTransaction {
        sold_items: rec.salvage.items,
        sale_gold: rec.salvage.gold,
        salvaged_shards: rec.salvage.shards,
        salvaged_essence: rec.salvage.essence,
        salvage_cache_count: rec.salvage.cache.caches,
        salvage_cache_gold: rec.salvage.cache.gold,
        salvage_cache_shards: rec.salvage.cache.shards,
        salvage_cache_essence: rec.salvage.cache.essence,
        bought_potions: rec.bought_potions,
        bought_elixirs: rec.bought_elixirs,
        tempered: rec.tempered,
        temper_cost: rec.temper_price,
        reforged: rec.reforged,
        reforge_cost: crate::loot::MERCHANT_REFORGE_SHARD_COST,
        enchanted: rec.enchanted,
        enchant_gold_cost: crate::loot::MERCHANT_ENCHANT_GOLD_COST,
        enchant_shard_cost: crate::loot::MERCHANT_ENCHANT_SHARD_COST,
        enchant_essence_cost: crate::loot::MERCHANT_ENCHANT_ESSENCE_COST,
        enchanted_power,
        charm_polished: rec.charm_polished,
        charm_polish_gold_cost: crate::loot::MERCHANT_CHARM_POLISH_GOLD_COST,
        charm_polish_shard_cost: crate::loot::MERCHANT_CHARM_POLISH_SHARD_COST,
        charm_label,
        mystery_charm: rec.mystery_charm,
        mystery_charm_equipped: false,
        mystery_charm_gold_cost: crate::loot::MERCHANT_MYSTERY_CHARM_GOLD_COST,
        mystery_charm_shard_cost: crate::loot::MERCHANT_MYSTERY_CHARM_SHARD_COST,
        mystery_charm_label: String::new(),
        mystery_weapon: rec.mystery_weapon,
        mystery_weapon_equipped: false,
        mystery_weapon_stored: false,
        mystery_weapon_codex_unlocked: false,
        mystery_weapon_gold_cost: crate::loot::MERCHANT_MYSTERY_WEAPON_GOLD_COST,
        mystery_weapon_shard_cost: crate::loot::MERCHANT_MYSTERY_WEAPON_SHARD_COST,
        mystery_weapon_label: String::new(),
        capacity_upgraded: rec.capacity_upgraded,
        capacity_gold_cost: crate::loot::MERCHANT_STASH_GOLD_COST,
        capacity_shard_cost: crate::loot::MERCHANT_STASH_SHARD_COST,
        inventory_capacity: stock.inventory_capacity,
        potion_belt_upgraded: rec.potion_belt_upgraded,
        potion_belt_gold_cost: crate::loot::MERCHANT_POTION_BELT_GOLD_COST,
        potion_belt_shard_cost: crate::loot::MERCHANT_POTION_BELT_SHARD_COST,
        potion_capacity: stock.potions_max,
        elixir_belt_upgraded: rec.elixir_belt_upgraded,
        elixir_belt_gold_cost: crate::loot::MERCHANT_ELIXIR_BELT_GOLD_COST,
        elixir_belt_shard_cost: crate::loot::MERCHANT_ELIXIR_BELT_SHARD_COST,
        elixir_capacity: stock.elixirs_max,
        ancient_augmented: rec.augmented,
        ancient_augment_gold_cost: rec.augment_gold,
        ancient_augment_shard_cost: rec.augment_shards,
        ancient_augment_essence_cost: rec.augment_essence,
        ancient_augment_label: rec.augment_label,
        ancient_awakened: rec.awakened,
        ancient_awaken_gold_cost: rec.awaken_gold,
        ancient_awaken_shard_cost: rec.awaken_shards,
        ancient_awaken_essence_cost: rec.awaken_essence,
        ancient_awaken_label: rec.awaken_label,
        primal_infused: rec.infused,
        primal_infusion_gold_cost: crate::loot::PRIMAL_INFUSION_GOLD_COST,
        primal_infusion_shard_cost: crate::loot::PRIMAL_INFUSION_SHARD_COST,
        primal_infusion_essence_cost: crate::loot::PRIMAL_INFUSION_ESSENCE_COST,
        primal_infusion_echo_cost: crate::loot::PRIMAL_INFUSION_ECHO_KEYSTONE_COST,
        primal_infusion_label: rec.infusion_label,
        gem_empowered: rec.empowered,
        gem_empower_gold_cost: crate::loot::GEM_EMPOWER_GOLD_COST,
        gem_empower_essence_cost: crate::loot::GEM_EMPOWER_ESSENCE_COST,
        gem_empower_echo_cost: crate::loot::GEM_EMPOWER_ECHO_KEYSTONE_COST,
        gem_empower_label: rec.empower_label,
        gem_upgraded: rec.gem_upgraded,
        gem_cost: rec.gem_price,
        gem_label,
        alchemy_gold: alchemy.gold_to_shards,
        alchemy_gold_cost: crate::loot::ALCHEMY_GOLD_TO_SHARDS_COST,
        alchemy_shard_reward: crate::loot::ALCHEMY_GOLD_TO_SHARDS_REWARD,
        alchemy_essence: alchemy.shards_to_essence,
        alchemy_shard_cost: crate::loot::ALCHEMY_SHARDS_TO_ESSENCE_COST,
        alchemy_essence_reward: crate::loot::ALCHEMY_SHARDS_TO_ESSENCE_REWARD,
        alchemy_keystone: alchemy.essence_to_keystone,
        alchemy_keystone_shard_cost: crate::loot::ALCHEMY_KEYSTONE_SHARD_COST,
        alchemy_keystone_essence_cost: crate::loot::ALCHEMY_KEYSTONE_ESSENCE_COST,
        alchemy_keystone_reward: crate::loot::ALCHEMY_KEYSTONE_REWARD,
        soul_sigil_cache: soul.opened,
        soul_sigil_cache_cost: crate::loot::SOUL_SIGIL_CACHE_COST,
        soul_sigil_cache_gold: soul.gold,
        soul_sigil_cache_shards: soul.shards,
        soul_sigil_cache_essence: soul.essence,
        soul_sigil_cache_keystones: soul.keystones,
    }
}

/// What the mystery charm and the mystery weapon of a visit turned out to
/// be, as the caller rolled them.
pub struct GambleOutcome {
    /// Whether the mystery charm was better than the one worn and was put on.
    pub charm_equipped: bool,
    pub charm_label: String,
    /// Whether the mystery weapon was equipped, stored in the bag, and
    /// whether it added a power to the codex.
    pub weapon_equipped: bool,
    pub weapon_stored: bool,
    pub weapon_codex_unlocked: bool,
    pub weapon_label: String,
}

/// Completes a visit's report once the caller has rolled the mystery charm
/// and the mystery weapon: the outcome of each gamble the visit paid for,
/// and the weapon's power and gem and the charm's name as they stand after
/// the gambles (`gear` and `charm_name` are read after them). The rest of the
/// report stays.
pub fn settle_merchant_gambles(
    tx: &mut MerchantTransaction,
    gear: &EquippedGear,
    charm_name: &str,
    outcome: GambleOutcome,
)
    ensures
        final(tx).enchanted_power@ == power_label_or(opt_view(gear.legendary_power)),
        final(tx).gem_label@ == gem_label_or(gear.socketed_gem),
        final(tx).charm_label@ == charm_name@,
        final(tx).mystery_charm_equipped == (old(tx).mystery_charm && outcome.charm_equipped),
        final(tx).mystery_charm_label@ == (if old(tx).mystery_charm {
            outcome.charm_label@
        } else {
            Seq::<char>::empty()
        }),
        final(tx).mystery_weapon_equipped == (old(tx).mystery_weapon && outcome.weapon_equipped),
        final(tx).mystery_weapon_stored == (old(tx).mystery_weapon && outcome.weapon_stored),
        final(tx).mystery_weapon_codex_unlocked == (old(tx).mystery_weapon
            && outcome.weapon_codex_unlocked),
        final(tx).mystery_weapon_label@ == (if old(tx).mystery_weapon {
            outcome.weapon_label@
        } else {
            Seq::<char>::empty()
        }),
        *final(tx) == (MerchantTransaction {
            enchanted_power: final(tx).enchanted_power,
            gem_label: final(tx).gem_label,
            charm_label: final(tx).charm_label,
            mystery_charm_equipped: final(tx).mystery_charm_equipped,
            mystery_charm_label: final(tx).mystery_charm_label,
            mystery_weapon_equipped: final(tx).mystery_weapon_equipped,
            mystery_weapon_stored: final(tx).mystery_weapon_stored,
            mystery_weapon_codex_unlocked: final(tx).mystery_weapon_codex_unlocked,
            mystery_weapon_label: final(tx).mystery_weapon_label,
            ..*old(tx)
        }),
{
    let charm_paid = tx.mystery_charm;
    let weapon_paid = tx.mystery_weapon;
    let charm_label = if charm_paid { outcome.charm_label } else { String::new() };
    let weapon_label = if weapon_paid { outcome.weapon_label } else { String::new() };
    let mut before = MerchantTransaction::default();
    std::mem::swap(&mut before, tx);
    *tx = MerchantTransaction {
        enchanted_power: power_label_exec(&gear.legendary_power),
        gem_label: gem_label_exec(gear.socketed_gem),
        charm_label: String::from_str(charm_name),
        mystery_charm_equipped: charm_paid && outcome.charm_equipped,
        mystery_charm_label: charm_label,
        mystery_weapon_equipped: weapon_paid && outcome.weapon_equipped,
        mystery_weapon_stored: weapon_paid && outcome.weapon_stored,
        mystery_weapon_codex_unlocked: weapon_paid && outcome.weapon_codex_unlocked,
        mystery_weapon_label: weapon_label,
        ..before
    };
}

} // verus!
