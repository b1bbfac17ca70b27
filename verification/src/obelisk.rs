//! The blood obelisk event: awakened by the player, fed with kills before its
//! timer runs out, paying its reward once.
use vstd::prelude::*;
use crate::game::RunStats;
use crate::text::{decimal, push_decimal};

verus! {

/// Kills the obelisk asks for.
pub const OBELISK_TARGET_KILLS: u32 = 4;
/// Ember shards the obelisk pays.
pub const OBELISK_REWARD_SHARDS: u32 = 5;
/// Affix essence the obelisk pays.
pub const OBELISK_REWARD_ESSENCE: u32 = 3;
/// Gold the obelisk pays before the ordeal's reward scaling.
pub const OBELISK_REWARD_GOLD: u32 = 95;

/// Where the obelisk event stands.
#[derive(Clone, Copy, Debug, PartialEq, Eq, Structural)]
pub enum ObeliskState {
    Dormant,
    Active,
    Completed,
    Failed,
}

/// The obelisk's progress. Its countdown is kept by the caller.
#[derive(Clone, Copy, Debug, PartialEq, Eq, Structural)]
pub struct BloodObelisk {
    pub state: ObeliskState,
    pub kills: u32,
    pub target_kills: u32,
    pub reward_claimed: bool,
}

impl Default for ObeliskState {
    fn default() -> (r: ObeliskState)
        ensures
            r == ObeliskState::Dormant,
    {
        ObeliskState::Dormant
    }
}

/// A dormant obelisk that asks for four kills.
pub open spec fn fresh_obelisk() -> BloodObelisk {
    BloodObelisk {
        state: ObeliskState::Dormant,
        kills: 0,
        target_kills: OBELISK_TARGET_KILLS,
        reward_claimed: false,
    }
}

impl Default for BloodObelisk {
    fn default() -> (r: BloodObelisk)
        ensures
            r == fresh_obelisk(),
    {
        BloodObelisk {
            state: ObeliskState::Dormant,
            kills: 0,
            target_kills: OBELISK_TARGET_KILLS,
            reward_claimed: false,
        }
    }
}

/// The obelisk after an attempt to awaken it: only a dormant one wakes, with
/// no kills and a target of four.
pub open spec fn spec_activate(o: BloodObelisk) -> BloodObelisk {
    if o.state == ObeliskState::Dormant {
        BloodObelisk {
            state: ObeliskState::Active,
            kills: 0,
            target_kills: OBELISK_TARGET_KILLS,
            reward_claimed: false,
        }
    } else {
        o
    }
}

/// The obelisk after a kill: an active one counts it, up to its target.
pub open spec fn spec_record_kill(o: BloodObelisk) -> BloodObelisk {
    if o.state == ObeliskState::Active {
        BloodObelisk {
            kills: if o.kills + 1 < o.target_kills { (o.kills + 1) as u32 } else { o.target_kills },
            ..o
        }
    } else {
        o
    }
}

/// The obelisk when its countdown is checked: an active one whose time is
/// up fails unless it was fed its target.
pub open spec fn spec_tick(o: BloodObelisk, time_up: bool) -> BloodObelisk {
    if o.state == ObeliskState::Active && time_up && o.kills < o.target_kills {
        BloodObelisk { state: ObeliskState::Failed, ..o }
    } else {
        o
    }
}

/// Whether the obelisk can pay out now: active, fed and not yet paid.
pub open spec fn spec_ready(o: BloodObelisk) -> bool {
    o.state == ObeliskState::Active && o.kills >= o.target_kills && !o.reward_claimed
}

/// Awakens a dormant obelisk; any other obelisk stays as it is. Returns
/// whether it woke (the caller then starts its forty-second countdown).
pub fn activate_obelisk(obelisk: &mut BloodObelisk) -> (r: bool)
    ensures
        r == (old(obelisk).state == ObeliskState::Dormant),
        *final(obelisk) == spec_activate(*old(obelisk)),
{
    if obelisk.state != ObeliskState::Dormant {
        return false;
    }
    obelisk.state = ObeliskState::Active;
    obelisk.kills = 0;
    obelisk.target_kills = OBELISK_TARGET_KILLS;
    obelisk.reward_claimed = false;
    true
}

/// Counts a kill toward an active obelisk, never past its target.
pub fn record_obelisk_kill(obelisk: &mut BloodObelisk)
    requires
        old(obelisk).state == ObeliskState::Active ==> old(obelisk).kills < u32::MAX,
    ensures
        *final(obelisk) == spec_record_kill(*old(obelisk)),
{
    if obelisk.state != ObeliskState::Active {
        return;
    }
    let next = obelisk.kills + 1;
    obelisk.kills = if next < obelisk.target_kills { next } else { obelisk.target_kills };
}

/// Checks an active obelisk against its countdown: when `time_up` and it is
/// not fed, it fails.
pub fn tick_obelisk(obelisk: &mut BloodObelisk, time_up: bool)
    ensures
        *final(obelisk) == spec_tick(*old(obelisk), time_up),
{
    if obelisk.state != ObeliskState::Active {
        return;
    }
    if time_up && obelisk.kills < obelisk.target_kills {
        obelisk.state = ObeliskState::Failed;
    }
}

/// Pays a fed obelisk once: `gold` (the obelisk's gold after the ordeal's
/// scaling), five shards and three essence, and marks it completed.
pub fn complete_obelisk_if_ready(obelisk: &mut BloodObelisk, stats: &mut RunStats, gold: u32) -> (r: bool)
    requires
        spec_ready(*old(obelisk)) ==> old(stats).gold + gold <= u32::MAX && old(stats).ember_shards
            + OBELISK_REWARD_SHARDS <= u32::MAX && old(stats).affix_essence
            + OBELISK_REWARD_ESSENCE <= u32::MAX,
    ensures
        r == spec_ready(*old(obelisk)),
        r ==> *final(obelisk) == (BloodObelisk {
            state: ObeliskState::Completed,
            reward_claimed: true,
            ..*old(obelisk)
        }),
        r ==> *final(stats) == (RunStats {
            gold: (old(stats).gold + gold) as u32,
            ember_shards: (old(stats).ember_shards + OBELISK_REWARD_SHARDS) as u32,
            affix_essence: (old(stats).affix_essence + OBELISK_REWARD_ESSENCE) as u32,
            ..*old(stats)
        }),
        !r ==> *final(obelisk) == *old(obelisk) && *final(stats) == *old(stats),
{
    if obelisk.state != ObeliskState::Active || obelisk.kills < obelisk.target_kills
        || obelisk.reward_claimed {
        return false;
    }
    *stats = RunStats {
        gold: stats.gold + gold,
        ember_shards: stats.ember_shards + OBELISK_REWARD_SHARDS,
        affix_essence: stats.affix_essence + OBELISK_REWARD_ESSENCE,
        ..*stats
    };
    obelisk.state = ObeliskState::Completed;
    obelisk.reward_claimed = true;
    true
}

/// The obelisk after `kills` more kills.
pub open spec fn spec_record_kills(o: BloodObelisk, kills: u32) -> BloodObelisk {
    if kills == 0 || o.state != ObeliskState::Active {
        o
    } else {
        BloodObelisk {
            kills: if o.kills + kills < o.target_kills {
                (o.kills + kills) as u32
            } else {
                o.target_kills
            },
            ..o
        }
    }
}

/// What one update of the obelisk did, for the caller to act on and
/// announce.
#[derive(Clone, Copy, Debug, PartialEq, Eq, Structural)]
pub struct ObeliskUpdate {
    /// The player awakened it; the caller spawns its wave and starts its
    /// countdown.
    pub awakened: bool,
    /// It was fed and paid out; the caller grants its Momentum.
    pub completed: bool,
    /// Its time ran out before it was fed.
    pub faded: bool,
}

/// The obelisk once the player's interaction, if any, is handled.
pub open spec fn spec_after_interaction(o: BloodObelisk, interacted: bool) -> BloodObelisk {
    if interacted {
        spec_activate(o)
    } else {
        o
    }
}

/// One update of the obelisk: an interaction may awaken it; an active one
/// counts the update's kills and pays out once fed, or else is checked
/// against its countdown. Returns what happened; `gold` is its gold after
/// the ordeal's scaling.
pub fn update_obelisk(
    obelisk: &mut BloodObelisk,
    stats: &mut RunStats,
    interacted: bool,
    kills: u32,
    time_up: bool,
    gold: u32,
) -> (r: ObeliskUpdate)
    requires
        old(obelisk).kills < u32::MAX,
        old(obelisk).target_kills < u32::MAX,
        spec_ready(spec_record_kills(spec_after_interaction(*old(obelisk), interacted), kills))
            ==> old(stats).gold + gold <= u32::MAX && old(stats).ember_shards
            + OBELISK_REWARD_SHARDS <= u32::MAX && old(stats).affix_essence
            + OBELISK_REWARD_ESSENCE <= u32::MAX,
    ensures
        ({
            let o1 = spec_after_interaction(*old(obelisk), interacted);
            let o2 = spec_record_kills(o1, kills);
            &&& r.awakened == (interacted && old(obelisk).state == ObeliskState::Dormant)
            &&& o1.state != ObeliskState::Active ==> *final(obelisk) == o1 && *final(stats)
                == *old(stats) && !r.completed && !r.faded
            &&& o1.state == ObeliskState::Active ==> r.completed == spec_ready(o2)
            &&& o1.state == ObeliskState::Active && r.completed ==> *final(obelisk) == (BloodObelisk {
                state: ObeliskState::Completed,
                reward_claimed: true,
                ..o2
            }) && *final(stats) == (RunStats {
                gold: (old(stats).gold + gold) as u32,
                ember_shards: (old(stats).ember_shards + OBELISK_REWARD_SHARDS) as u32,
                affix_essence: (old(stats).affix_essence + OBELISK_REWARD_ESSENCE) as u32,
                ..*old(stats)
            }) && !r.faded
            &&& o1.state == ObeliskState::Active && !r.completed ==> *final(obelisk) == spec_tick(
                o2,
                time_up,
            ) && *final(stats) == *old(stats) && r.faded == (final(obelisk).state
                == ObeliskState::Failed)
        }),
{
    let awakened = interacted && activate_obelisk(obelisk);
    if obelisk.state != ObeliskState::Active {
        return ObeliskUpdate { awakened, completed: false, faded: false };
    }
    let ghost o1 = *obelisk;
    let mut i: u32 = 0;
    while i < kills
        invariant
            i <= kills,
            o1.state == ObeliskState::Active,
            o1.kills < u32::MAX,
            o1.target_kills < u32::MAX,
            *obelisk == spec_record_kills(o1, i),
        decreases kills - i,
    {
        record_obelisk_kill(obelisk);
        i += 1;
    }
    if complete_obelisk_if_ready(obelisk, stats, gold) {
        return ObeliskUpdate { awakened, completed: true, faded: false };
    }
    tick_obelisk(obelisk, time_up);
    ObeliskUpdate { awakened, completed: false, faded: obelisk.state == ObeliskState::Failed }
}

/// The obelisk line of the HUD; `remaining_secs` is the countdown shown, in
/// whole seconds.
pub open spec fn spec_obelisk_summary(o: BloodObelisk, remaining_secs: u32) -> Seq<char> {
    match o.state {
        ObeliskState::Dormant => "Obelisk: dormant"@,
        ObeliskState::Active => "Obelisk: "@ + decimal(o.kills as nat) + "/"@ + decimal(
            o.target_kills as nat,
        ) + " kills "@ + decimal(remaining_secs as nat) + "s"@,
        ObeliskState::Completed => "Obelisk: completed"@,
        ObeliskState::Failed => "Obelisk: failed"@,
    }
}

/// The obelisk line of the HUD.
pub fn obelisk_summary(obelisk: &BloodObelisk, remaining_secs: u32) -> (r: String)
    ensures
        r@ == spec_obelisk_summary(*obelisk, remaining_secs),
{
    match obelisk.state {
        ObeliskState::Dormant => String::from_str("Obelisk: dormant"),
        ObeliskState::Active => {
            let mut s = String::from_str("Obelisk: ");
            push_decimal(&mut s, obelisk.kills);
            s.append("/");
            push_decimal(&mut s, obelisk.target_kills);
            s.append(" kills ");
            push_decimal(&mut s, remaining_secs);
            s.append("s");
            s
        },
        ObeliskState::Completed => String::from_str("Obelisk: completed"),
        ObeliskState::Failed => String::from_str("Obelisk: failed"),
    }
}

/// The combat-log line of a completed obelisk, with the Momentum stacks it
/// granted when there are any.
pub fn obelisk_completion_text(gold: u32, shards: u32, essence: u32, momentum_stacks: Option<u32>) -> (r: String)
    ensures
        r@ == "Blood obelisk completed: +"@ + decimal(gold as nat) + " gold +"@ + decimal(shards as nat)
            + " shards +"@ + decimal(essence as nat) + " essence"@ + match momentum_stacks {
            Some(stacks) => ", Momentum "@ + decimal(stacks as nat) + "x"@,
            None => Seq::<char>::empty(),
        },
{
    let mut s = String::from_str("Blood obelisk completed: +");
    push_decimal(&mut s, gold);
    s.append(" gold +");
    push_decimal(&mut s, shards);
    s.append(" shards +");
    push_decimal(&mut s, essence);
    s.append(" essence");
    match momentum_stacks {
        Some(stacks) => {
            s.append(", Momentum ");
            push_decimal(&mut s, stacks);
            s.append("x");
        },
        None => {},
    }
    s
}

/// An obelisk never counts more kills than its target, whatever happens to
/// it, once it holds no more than its target.
pub proof fn lemma_obelisk_kills_bounded(o: BloodObelisk, time_up: bool)
    requires
        o.kills <= o.target_kills,
    ensures
        spec_record_kill(o).kills <= spec_record_kill(o).target_kills,
        spec_tick(o, time_up).kills <= spec_tick(o, time_up).target_kills,
        spec_activate(o).kills <= spec_activate(o).target_kills,
{
}

/// The obelisk pays at most once: a completed obelisk is no longer ready,
/// and neither kills, countdown checks nor awakening make it ready again.
pub proof fn lemma_obelisk_pays_once(o: BloodObelisk, time_up: bool)
    requires
        spec_ready(o),
    ensures
        ({
            let done = BloodObelisk { state: ObeliskState::Completed, reward_claimed: true, ..o };
            &&& !spec_ready(done)
            &&& !spec_ready(spec_record_kill(done))
            &&& !spec_ready(spec_tick(done, time_up))
            &&& !spec_ready(spec_activate(done))
        }),
{
}

/// A failed or completed obelisk stays so: awakening, kills and countdown
/// checks leave it unchanged.
pub proof fn lemma_obelisk_final_states(o: BloodObelisk, time_up: bool)
    requires
        o.state == ObeliskState::Completed || o.state == ObeliskState::Failed,
    ensures
        spec_activate(o) == o,
        spec_record_kill(o) == o,
        spec_tick(o, time_up) == o,
{
}

} // verus!
