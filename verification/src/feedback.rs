//! Combat feedback rules: the combat log, which sound cue a combat line
//! calls for, and when to (re)start the audio backend.
use vstd::prelude::*;
use std::collections::VecDeque;
use crate::game::AudioSettings;
use crate::text::{
    chars_are, chars_contain, chars_of, chars_start_with, has_prefix, has_sub, string_of_chars,
    trim_chars, trimmed,
};

verus! {

/// Lines the combat log keeps.
pub const LOG_CAPACITY: usize = 6;

/// A line of combat feedback.
#[derive(Debug)]
pub struct CombatEvent {
    pub text: String,
}

/// The sound cues of combat feedback.
#[derive(Clone, Copy, Debug, PartialEq, Eq, Structural)]
pub enum SoundCue {
    Hit,
    Critical,
    Loot,
    Danger,
    Death,
    Skill,
    Combo,
    Boss,
    Quest,
    Potion,
    Utility,
    Victory,
    Defeat,
}

impl SoundCue {
    /// The audio file that plays the cue.
    pub open spec fn spec_file(self) -> Seq<char> {
        match self {
            SoundCue::Hit => "hit.wav"@,
            SoundCue::Critical => "critical.wav"@,
            SoundCue::Loot => "loot.wav"@,
            SoundCue::Danger => "danger.wav"@,
            SoundCue::Death => "death.wav"@,
            SoundCue::Skill => "skill.wav"@,
            SoundCue::Combo => "combo.wav"@,
            SoundCue::Boss => "boss.wav"@,
            SoundCue::Quest => "quest.wav"@,
            SoundCue::Potion => "potion.wav"@,
            SoundCue::Utility => "utility.wav"@,
            SoundCue::Victory => "victory.wav"@,
            SoundCue::Defeat => "defeat.wav"@,
        }
    }
}

/// The audio file that plays a cue.
pub fn sound_cue_file(cue: SoundCue) -> (r: &'static str)
    ensures
        r@ == cue.spec_file(),
{
    match cue {
            SoundCue::Hit => "hit.wav",
            SoundCue::Critical => "critical.wav",
            SoundCue::Loot => "loot.wav",
            SoundCue::Danger => "danger.wav",
            SoundCue::Death => "death.wav",
            SoundCue::Skill => "skill.wav",
            SoundCue::Combo => "combo.wav",
            SoundCue::Boss => "boss.wav",
            SoundCue::Quest => "quest.wav",
            SoundCue::Potion => "potion.wav",
            SoundCue::Utility => "utility.wav",
            SoundCue::Victory => "victory.wav",
            SoundCue::Defeat => "defeat.wav",
    }
}

/// Rule 1 of the sound cue rules (Danger).
pub open spec fn cue_rule_1(t: Seq<char>) -> bool {
    has_sub(t, "collapsed before"@) ||
    has_sub(t, "faded before"@) ||
    has_sub(t, "failed"@) ||
    has_sub(t, "Low life"@) ||
    has_sub(t, "Need "@) ||
    has_sub(t, "INVENTORY FULL"@) ||
    has_sub(t, "Inventory full"@) ||
    has_sub(t, "MAKE ROOM"@)
}

fn cue_rule_1_holds(t: &Vec<char>) -> (r: bool)
    ensures
        r == cue_rule_1(t@),
{
    chars_contain(t, "collapsed before") ||
    chars_contain(t, "faded before") ||
    chars_contain(t, "failed") ||
    chars_contain(t, "Low life") ||
    chars_contain(t, "Need ") ||
    chars_contain(t, "INVENTORY FULL") ||
    chars_contain(t, "Inventory full") ||
    chars_contain(t, "MAKE ROOM")
}

/// Rule 2 of the sound cue rules (Boss).
pub open spec fn cue_rule_2(t: Seq<char>) -> bool {
    has_sub(t, "Boss Phase"@) ||
    has_sub(t, "BOSS "@) ||
    has_sub(t, "Malrec Awakened"@) ||
    has_sub(t, "Keeper awakens"@) ||
    has_sub(t, "Ashen Enrage"@) ||
    has_sub(t, "enrages"@) ||
    has_sub(t, "BREAK MALREC"@)
}

fn cue_rule_2_holds(t: &Vec<char>) -> (r: bool)
    ensures
        r == cue_rule_2(t@),
{
    chars_contain(t, "Boss Phase") ||
    chars_contain(t, "BOSS ") ||
    chars_contain(t, "Malrec Awakened") ||
    chars_contain(t, "Keeper awakens") ||
    chars_contain(t, "Ashen Enrage") ||
    chars_contain(t, "enrages") ||
    chars_contain(t, "BREAK MALREC")
}

/// Rule 3 of the sound cue rules (Combo).
pub open spec fn cue_rule_3(t: Seq<char>) -> bool {
    has_sub(t, "Combo Break"@) ||
    has_sub(t, "Combo Ready"@) ||
    has_sub(t, "Nephalem Surge ready"@) ||
    has_sub(t, "Shrine resonance"@) ||
    has_sub(t, "Ashen pylon reaping"@)
}

fn cue_rule_3_holds(t: &Vec<char>) -> (r: bool)
    ensures
        r == cue_rule_3(t@),
{
    chars_contain(t, "Combo Break") ||
    chars_contain(t, "Combo Ready") ||
    chars_contain(t, "Nephalem Surge ready") ||
    chars_contain(t, "Shrine resonance") ||
    chars_contain(t, "Ashen pylon reaping")
}

/// Rule 4 of the sound cue rules (Quest).
pub open spec fn cue_rule_4(t: Seq<char>) -> bool {
    has_sub(t, "Challenge complete"@) ||
    has_sub(t, "Milestone"@) ||
    has_sub(t, "Reliquary seal"@) ||
    has_sub(t, "Final seal"@) ||
    has_sub(t, "Final Seal"@) ||
    has_sub(t, "Quest complete"@) ||
    has_sub(t, "Chapter reward"@)
}

fn cue_rule_4_holds(t: &Vec<char>) -> (r: bool)
    ensures
        r == cue_rule_4(t@),
{
    chars_contain(t, "Challenge complete") ||
    chars_contain(t, "Milestone") ||
    chars_contain(t, "Reliquary seal") ||
    chars_contain(t, "Final seal") ||
    chars_contain(t, "Final Seal") ||
    chars_contain(t, "Quest complete") ||
    chars_contain(t, "Chapter reward")
}

/// Rule 5 of the sound cue rules (Critical).
pub open spec fn cue_rule_5(t: Seq<char>) -> bool {
    has_sub(t, "Nephalem Surge unleashed"@) ||
    has_sub(t, "Ashen pylon:"@) ||
    has_sub(t, "Critical"@) ||
    has_sub(t, "staggered"@) ||
    has_sub(t, "EXECUTE WINDOW"@) ||
    has_sub(t, "Execute window"@) ||
    has_sub(t, "Stormbrand chained"@) ||
    has_sub(t, "Legendary"@) ||
    has_sub(t, "legendary"@) ||
    has_sub(t, "Ancient"@) ||
    has_sub(t, "ancient"@) ||
    has_sub(t, "Primal"@) ||
    has_sub(t, "primal"@) ||
    has_sub(t, "BUILD POWER"@) ||
    has_sub(t, "POWER SPIKE"@) ||
    has_sub(t, "Level up"@) ||
    has_sub(t, "Level "@)
}

fn cue_rule_5_holds(t: &Vec<char>) -> (r: bool)
    ensures
        r == cue_rule_5(t@),
{
    chars_contain(t, "Nephalem Surge unleashed") ||
    chars_contain(t, "Ashen pylon:") ||
    chars_contain(t, "Critical") ||
    chars_contain(t, "staggered") ||
    chars_contain(t, "EXECUTE WINDOW") ||
    chars_contain(t, "Execute window") ||
    chars_contain(t, "Stormbrand chained") ||
    chars_contain(t, "Legendary") ||
    chars_contain(t, "legendary") ||
    chars_contain(t, "Ancient") ||
    chars_contain(t, "ancient") ||
    chars_contain(t, "Primal") ||
    chars_contain(t, "primal") ||
    chars_contain(t, "BUILD POWER") ||
    chars_contain(t, "POWER SPIKE") ||
    chars_contain(t, "Level up") ||
    chars_contain(t, "Level ")
}

/// Rule 6 of the sound cue rules (Potion).
pub open spec fn cue_rule_6(t: Seq<char>) -> bool {
    has_sub(t, "Potion restored"@) ||
    has_sub(t, "Renewal well restored"@) ||
    has_sub(t, "Elixir"@) ||
    has_sub(t, "Soulreaver restored"@) ||
    has_sub(t, "Aegisbrand granted"@)
}

fn cue_rule_6_holds(t: &Vec<char>) -> (r: bool)
    ensures
        r == cue_rule_6(t@),
{
    chars_contain(t, "Potion restored") ||
    chars_contain(t, "Renewal well restored") ||
    chars_contain(t, "Elixir") ||
    chars_contain(t, "Soulreaver restored") ||
    chars_contain(t, "Aegisbrand granted")
}

/// Rule 7 of the sound cue rules (Skill).
pub open spec fn cue_rule_7(t: Seq<char>) -> bool {
    has_sub(t, " Dash"@) ||
    has_sub(t, " Rupture"@) ||
    has_sub(t, " Nova"@) ||
    t == "Evade"@ ||
    has_sub(t, "Relic shrine"@) ||
    has_sub(t, "Storm shrine"@) ||
    has_sub(t, "conduit lightning"@) ||
    has_sub(t, "Town portal"@) ||
    has_sub(t, "Sentinel"@)
}

fn cue_rule_7_holds(t: &Vec<char>) -> (r: bool)
    ensures
        r == cue_rule_7(t@),
{
    chars_contain(t, " Dash") ||
    chars_contain(t, " Rupture") ||
    chars_contain(t, " Nova") ||
    chars_are(t, "Evade") ||
    chars_contain(t, "Relic shrine") ||
    chars_contain(t, "Storm shrine") ||
    chars_contain(t, "conduit lightning") ||
    chars_contain(t, "Town portal") ||
    chars_contain(t, "Sentinel")
}

/// Rule 8 of the sound cue rules (Danger).
pub open spec fn cue_rule_8(t: Seq<char>) -> bool {
    has_sub(t, "Cinder bolt"@) ||
    has_sub(t, "Arcane"@) ||
    has_sub(t, "Jailer"@) ||
    has_sub(t, "Frozen"@) ||
    has_sub(t, "Desecrator"@) ||
    has_sub(t, "Reflective"@) ||
    has_sub(t, "Molten"@) ||
    has_sub(t, "Hazard"@) ||
    has_sub(t, "burning"@)
}

fn cue_rule_8_holds(t: &Vec<char>) -> (r: bool)
    ensures
        r == cue_rule_8(t@),
{
    chars_contain(t, "Cinder bolt") ||
    chars_contain(t, "Arcane") ||
    chars_contain(t, "Jailer") ||
    chars_contain(t, "Frozen") ||
    chars_contain(t, "Desecrator") ||
    chars_contain(t, "Reflective") ||
    chars_contain(t, "Molten") ||
    chars_contain(t, "Hazard") ||
    chars_contain(t, "burning")
}

/// Rule 9 of the sound cue rules (Utility).
pub open spec fn cue_rule_9(t: Seq<char>) -> bool {
    has_sub(t, "opened:"@) ||
    has_sub(t, "awakened:"@)
}

fn cue_rule_9_holds(t: &Vec<char>) -> (r: bool)
    ensures
        r == cue_rule_9(t@),
{
    chars_contain(t, "opened:") ||
    chars_contain(t, "awakened:")
}

/// Rule 10 of the sound cue rules (Loot).
pub open spec fn cue_rule_10(t: Seq<char>) -> bool {
    has_sub(t, "Picked up"@) ||
    has_sub(t, "Equipped"@) ||
    has_sub(t, "Recovered"@) ||
    has_sub(t, "reward"@) ||
    has_sub(t, "Reward"@) ||
    has_sub(t, "cache"@) ||
    has_sub(t, "Cache"@) ||
    has_sub(t, "Bounty"@) ||
    has_sub(t, "opened"@) ||
    has_sub(t, "sealed"@) ||
    has_sub(t, "completed:"@) ||
    has_sub(t, "Quartermaster"@) ||
    has_sub(t, "Armory"@) ||
    has_sub(t, "Codex"@) ||
    has_sub(t, "Fortune shrine"@)
}

fn cue_rule_10_holds(t: &Vec<char>) -> (r: bool)
    ensures
        r == cue_rule_10(t@),
{
    chars_contain(t, "Picked up") ||
    chars_contain(t, "Equipped") ||
    chars_contain(t, "Recovered") ||
    chars_contain(t, "reward") ||
    chars_contain(t, "Reward") ||
    chars_contain(t, "cache") ||
    chars_contain(t, "Cache") ||
    chars_contain(t, "Bounty") ||
    chars_contain(t, "opened") ||
    chars_contain(t, "sealed") ||
    chars_contain(t, "completed:") ||
    chars_contain(t, "Quartermaster") ||
    chars_contain(t, "Armory") ||
    chars_contain(t, "Codex") ||
    chars_contain(t, "Fortune shrine")
}

/// Rule 11 of the sound cue rules (Utility).
pub open spec fn cue_rule_11(t: Seq<char>) -> bool {
    has_sub(t, "recharging"@) ||
    has_sub(t, "No weapons"@) ||
    has_sub(t, "failed"@) ||
    has_sub(t, "not ready"@) ||
    has_sub(t, "not enough"@) ||
    has_sub(t, "evaded"@) ||
    has_sub(t, "absorbed by ward"@) ||
    has_sub(t, "Nephalem Surge charging"@) ||
    has_sub(t, "Nephalem Surge extended"@) ||
    has_sub(t, "Dash rune"@) ||
    has_sub(t, "Nova rune"@) ||
    has_sub(t, "Rupture rune"@) ||
    has_sub(t, "checkpoint attuned"@)
}

fn cue_rule_11_holds(t: &Vec<char>) -> (r: bool)
    ensures
        r == cue_rule_11(t@),
{
    chars_contain(t, "recharging") ||
    chars_contain(t, "No weapons") ||
    chars_contain(t, "failed") ||
    chars_contain(t, "not ready") ||
    chars_contain(t, "not enough") ||
    chars_contain(t, "evaded") ||
    chars_contain(t, "absorbed by ward") ||
    chars_contain(t, "Nephalem Surge charging") ||
    chars_contain(t, "Nephalem Surge extended") ||
    chars_contain(t, "Dash rune") ||
    chars_contain(t, "Nova rune") ||
    chars_contain(t, "Rupture rune") ||
    chars_contain(t, "checkpoint attuned")
}

/// Rule 12 of the sound cue rules (Death).
pub open spec fn cue_rule_12(t: Seq<char>) -> bool {
    has_sub(t, "slain"@) ||
    has_sub(t, "death pool"@)
}

fn cue_rule_12_holds(t: &Vec<char>) -> (r: bool)
    ensures
        r == cue_rule_12(t@),
{
    chars_contain(t, "slain") ||
    chars_contain(t, "death pool")
}

/// Rule 13 of the sound cue rules (Hit).
pub open spec fn cue_rule_13(t: Seq<char>) -> bool {
    has_sub(t, "hit for"@) ||
    has_sub(t, "ignited"@) ||
    has_sub(t, "chilled"@)
}

fn cue_rule_13_holds(t: &Vec<char>) -> (r: bool)
    ensures
        r == cue_rule_13(t@),
{
    chars_contain(t, "hit for") ||
    chars_contain(t, "ignited") ||
    chars_contain(t, "chilled")
}

/// The sound cue a combat line calls for: the first rule whose patterns
/// occur in the line decides, in the order danger, boss, combo, quest,
/// critical, potion, skill, hazard danger, utility opening, loot, utility,
/// death, hit; lines matching none stay silent.
pub open spec fn spec_sound_cue(t: Seq<char>) -> Option<SoundCue> {
    if cue_rule_1(t) {
        Some(SoundCue::Danger)
    } else if cue_rule_2(t) {
        Some(SoundCue::Boss)
    } else if cue_rule_3(t) {
        Some(SoundCue::Combo)
    } else if cue_rule_4(t) {
        Some(SoundCue::Quest)
    } else if cue_rule_5(t) {
        Some(SoundCue::Critical)
    } else if cue_rule_6(t) {
        Some(SoundCue::Potion)
    } else if cue_rule_7(t) {
        Some(SoundCue::Skill)
    } else if cue_rule_8(t) {
        Some(SoundCue::Danger)
    } else if cue_rule_9(t) {
        Some(SoundCue::Utility)
    } else if cue_rule_10(t) {
        Some(SoundCue::Loot)
    } else if cue_rule_11(t) {
        Some(SoundCue::Utility)
    } else if cue_rule_12(t) {
        Some(SoundCue::Death)
    } else if cue_rule_13(t) {
        Some(SoundCue::Hit)
    } else {
        None
    }
}

/// The sound cue a combat line calls for.
pub fn sound_cue_for_combat_event(text: &str) -> (r: Option<SoundCue>)
    ensures
        r == spec_sound_cue(text@),
{
    let t = chars_of(text);
    if cue_rule_1_holds(&t) {
        return Some(SoundCue::Danger);
    }
    if cue_rule_2_holds(&t) {
        return Some(SoundCue::Boss);
    }
    if cue_rule_3_holds(&t) {
        return Some(SoundCue::Combo);
    }
    if cue_rule_4_holds(&t) {
        return Some(SoundCue::Quest);
    }
    if cue_rule_5_holds(&t) {
        return Some(SoundCue::Critical);
    }
    if cue_rule_6_holds(&t) {
        return Some(SoundCue::Potion);
    }
    if cue_rule_7_holds(&t) {
        return Some(SoundCue::Skill);
    }
    if cue_rule_8_holds(&t) {
        return Some(SoundCue::Danger);
    }
    if cue_rule_9_holds(&t) {
        return Some(SoundCue::Utility);
    }
    if cue_rule_10_holds(&t) {
        return Some(SoundCue::Loot);
    }
    if cue_rule_11_holds(&t) {
        return Some(SoundCue::Utility);
    }
    if cue_rule_12_holds(&t) {
        return Some(SoundCue::Death);
    }
    if cue_rule_13_holds(&t) {
        return Some(SoundCue::Hit);
    }
    None
}

/// Part 1 of the transient-feedback patterns.
pub open spec fn transient_part_1(t: Seq<char>) -> bool {
    has_prefix(t, "Picked up "@) ||
    has_prefix(t, "Generated "@) ||
    has_prefix(t, "Need "@) ||
    has_sub(t, " not ready "@) ||
    has_prefix(t, "Potion restored "@) ||
    has_prefix(t, "Potion recharging "@) ||
    has_prefix(t, "Health globe restored "@) ||
    t == "Health globe dropped"@ ||
    has_prefix(t, "Renewal well restored "@) ||
    has_prefix(t, "Ember altar extinguished"@)
}

fn transient_part_1_holds(t: &Vec<char>) -> (r: bool)
    ensures
        r == transient_part_1(t@),
{
    chars_start_with(t, "Picked up ") ||
    chars_start_with(t, "Generated ") ||
    chars_start_with(t, "Need ") ||
    chars_contain(t, " not ready ") ||
    chars_start_with(t, "Potion restored ") ||
    chars_start_with(t, "Potion recharging ") ||
    chars_start_with(t, "Health globe restored ") ||
    chars_are(t, "Health globe dropped") ||
    chars_start_with(t, "Renewal well restored ") ||
    chars_start_with(t, "Ember altar extinguished")
}

/// Part 2 of the transient-feedback patterns.
pub open spec fn transient_part_2(t: Seq<char>) -> bool {
    has_prefix(t, "Combo Ready: "@) ||
    has_prefix(t, "Combo Break: "@) ||
    t == "Evade"@ ||
    has_prefix(t, "Evade recharging "@) ||
    t == "Nephalem Surge ready"@ ||
    t == "Nephalem Surge unleashed"@ ||
    has_prefix(t, "Nephalem Surge charging "@) ||
    has_prefix(t, "Nephalem Surge extended "@) ||
    has_prefix(t, "Reap restored "@) ||
    has_prefix(t, "Rupture exposed "@)
}

fn transient_part_2_holds(t: &Vec<char>) -> (r: bool)
    ensures
        r == transient_part_2(t@),
{
    chars_start_with(t, "Combo Ready: ") ||
    chars_start_with(t, "Combo Break: ") ||
    chars_are(t, "Evade") ||
    chars_start_with(t, "Evade recharging ") ||
    chars_are(t, "Nephalem Surge ready") ||
    chars_are(t, "Nephalem Surge unleashed") ||
    chars_start_with(t, "Nephalem Surge charging ") ||
    chars_start_with(t, "Nephalem Surge extended ") ||
    chars_start_with(t, "Reap restored ") ||
    chars_start_with(t, "Rupture exposed ")
}

/// Part 3 of the transient-feedback patterns.
pub open spec fn transient_part_3(t: Seq<char>) -> bool {
    has_prefix(t, "Rupture bleeding "@) ||
    has_prefix(t, "Soulreaver restored "@) ||
    has_prefix(t, "Aegisbrand granted "@) ||
    has_prefix(t, "Emberbrand "@) ||
    has_prefix(t, "Frostbrand "@) ||
    has_prefix(t, "Stormbrand "@) ||
    has_prefix(t, "Elixir selected: "@) ||
    has_sub(t, " hit for "@)
}

fn transient_part_3_holds(t: &Vec<char>) -> (r: bool)
    ensures
        r == transient_part_3(t@),
{
    chars_start_with(t, "Rupture bleeding ") ||
    chars_start_with(t, "Soulreaver restored ") ||
    chars_start_with(t, "Aegisbrand granted ") ||
    chars_start_with(t, "Emberbrand ") ||
    chars_start_with(t, "Frostbrand ") ||
    chars_start_with(t, "Stormbrand ") ||
    chars_start_with(t, "Elixir selected: ") ||
    chars_contain(t, " hit for ")
}

/// Whether a (trimmed) combat line is transient feedback the log skips:
/// pickups, resource ticks, cooldown notices, hits, skill casts and the like.
pub open spec fn spec_is_transient(t: Seq<char>) -> bool {
    transient_part_1(t) || transient_part_2(t) || transient_part_3(t) || is_skill_cast(t)
}

/// Index of the first space in `t`, if any.
pub open spec fn first_space(t: Seq<char>) -> Option<int>
    decreases t.len(),
{
    if t.len() == 0 {
        None
    } else if t[0] == ' ' {
        Some(0)
    } else {
        match first_space(t.drop_first()) {
            Some(k) => Some(k + 1),
            None => None,
        }
    }
}

/// Whether `t` is a bare skill cast: "rune skill" split at its first space,
/// with Cleanse or Reap Dash, Expose or Hemorrhage Rupture, Ember or Frost
/// Nova.
pub open spec fn is_skill_cast(t: Seq<char>) -> bool {
    match first_space(t) {
        None => false,
        Some(k) => {
            let rune = t.take(k);
            let skill = t.skip(k + 1);
            ((rune == "Cleanse"@ || rune == "Reap"@) && skill == "Dash"@) || ((rune == "Expose"@
                || rune == "Hemorrhage"@) && skill == "Rupture"@) || ((rune == "Ember"@ || rune
                == "Frost"@) && skill == "Nova"@)
        },
    }
}

proof fn lemma_first_space_bounds(t: Seq<char>)
    ensures
        first_space(t) matches Some(k) ==> 0 <= k < t.len() && t[k] == ' ',
    decreases t.len(),
{
    if t.len() > 0 && t[0] != ' ' {
        lemma_first_space_bounds(t.drop_first());
    }
}

fn subvec(v: &Vec<char>, from: usize, to: usize) -> (r: Vec<char>)
    requires
        from <= to <= v@.len(),
    ensures
        r@ == v@.subrange(from as int, to as int),
{
    let mut r: Vec<char> = Vec::new();
    let mut i = from;
    while i < to
        invariant
            from <= i <= to <= v@.len(),
            r@ == v@.subrange(from as int, i as int),
        decreases to - i,
    {
        r.push(v[i]);
        i += 1;
        assert(r@ =~= v@.subrange(from as int, i as int));
    }
    r
}

/// Whether a combat line is a bare skill cast.
pub fn combat_log_is_skill_cast(t: &Vec<char>) -> (r: bool)
    ensures
        r == is_skill_cast(t@),
{
    let mut i: usize = 0;
    assert(t@.skip(0) =~= t@);
    while i < t.len() && t[i] != ' '
        invariant
            i <= t@.len(),
            first_space(t@) == match first_space(t@.skip(i as int)) {
                Some(k) => Some(k + i),
                None => None,
            },
        decreases t@.len() - i,
    {
        proof {
            assert(t@.skip(i as int).drop_first() =~= t@.skip(i + 1));
        }
        i += 1;
    }
    if i == t.len() {
        assert(t@.skip(i as int).len() == 0);
        return false;
    }
    assert(t@.skip(i as int)[0] == ' ');
    let rune = subvec(t, 0, i);
    let skill = subvec(t, i + 1, t.len());
    assert(rune@ =~= t@.take(i as int));
    assert(skill@ =~= t@.skip(i + 1));
    ((chars_are(&rune, "Cleanse") || chars_are(&rune, "Reap")) && chars_are(&skill, "Dash")) || ((
    chars_are(&rune, "Expose") || chars_are(&rune, "Hemorrhage")) && chars_are(&skill, "Rupture"))
        || ((chars_are(&rune, "Ember") || chars_are(&rune, "Frost")) && chars_are(&skill, "Nova"))
}

/// Whether a (trimmed) combat line is transient feedback the log skips.
pub fn combat_log_is_transient_feedback(t: &Vec<char>) -> (r: bool)
    ensures
        r == spec_is_transient(t@),
{
    transient_part_1_holds(t) || transient_part_2_holds(t) || transient_part_3_holds(t) || combat_log_is_skill_cast(t)
}

/// The log entry for a combat line: the line without surrounding white
/// space, unless that is empty or transient feedback.
pub open spec fn spec_log_entry(text: Seq<char>) -> Option<Seq<char>> {
    let t = trimmed(text);
    if t.len() == 0 || spec_is_transient(t) {
        None
    } else {
        Some(t)
    }
}

/// The log entry for a combat line, if the log keeps it.
pub fn combat_log_event_entry(text: &str) -> (r: Option<String>)
    ensures
        match r {
            Some(s) => spec_log_entry(text@) == Some(s@),
            None => spec_log_entry(text@) is None,
        },
{
    let raw = chars_of(text);
    let t = trim_chars(&raw);
    if t.len() == 0 || combat_log_is_transient_feedback(&t) {
        None
    } else {
        Some(string_of_chars(&t))
    }
}

/// The most recent combat lines, newest first, at most six.
#[derive(Debug)]
pub struct CombatLog {
    entries: VecDeque<String>,
}

/// The log's lines after `line` arrives: newest first, at most six.
pub open spec fn spec_log_push(lines: Seq<Seq<char>>, line: Seq<char>) -> Seq<Seq<char>> {
    let all = seq![line] + lines;
    if all.len() > LOG_CAPACITY {
        all.take(LOG_CAPACITY as int)
    } else {
        all
    }
}

impl CombatLog {
    /// The log never holds more than six lines.
    #[verifier::type_invariant]
    spec fn holds_at_most_six(&self) -> bool {
        self.entries@.len() <= LOG_CAPACITY
    }

    /// The log's lines, newest first.
    pub closed spec fn lines_view(&self) -> Seq<Seq<char>> {
        self.entries@.map_values(|s: String| s@)
    }

    /// An empty log.
    pub fn new() -> (r: CombatLog)
        ensures
            r.lines_view() == Seq::<Seq<char>>::empty(),
    {
        let r = CombatLog { entries: VecDeque::new() };
        assert(r.lines_view() =~= Seq::<Seq<char>>::empty());
        r
    }

    /// Adds `text` as the newest line, dropping the oldest beyond six.
    pub fn push(&mut self, text: String)
        ensures
            final(self).lines_view() == spec_log_push(old(self).lines_view(), text@),
            final(self).lines_view().len() <= LOG_CAPACITY,
    {
        proof {
            use_type_invariant(&*self);
        }
        let ghost before = self.lines_view();
        let ghost line = text@;
        let mut entries: VecDeque<String> = VecDeque::new();
        std::mem::swap(&mut entries, &mut self.entries);
        assert(entries@.map_values(|s: String| s@) == before);
        entries.push_front(text);
        assert(entries@.map_values(|s: String| s@) =~= seq![line] + before);
        if entries.len() > LOG_CAPACITY {
            let _ = entries.pop_back();
            assert(entries@.map_values(|s: String| s@) =~= (seq![line] + before).take(
                LOG_CAPACITY as int,
            ));
        }
        self.entries = entries;
    }

    /// Adds a combat line to the log when the log keeps it.
    pub fn push_event(&mut self, text: &str)
        ensures
            final(self).lines_view() == match spec_log_entry(text@) {
                Some(line) => spec_log_push(old(self).lines_view(), line),
                None => old(self).lines_view(),
            },
            final(self).lines_view().len() <= LOG_CAPACITY,
    {
        proof {
            use_type_invariant(&*self);
        }
        match combat_log_event_entry(text) {
            Some(entry) => self.push(entry),
            None => {},
        }
    }

    /// The log's lines, newest first.
    pub fn lines(&self) -> (r: Vec<String>)
        ensures
            r@.map_values(|s: String| s@) == self.lines_view(),
    {
        let mut r: Vec<String> = Vec::new();
        let mut i: usize = 0;
        while i < self.entries.len()
            invariant
                i <= self.entries@.len(),
                self.lines_view().len() == self.entries@.len(),
                r@.len() == i,
                forall|k: int| 0 <= k < i ==> #[trigger] r@[k]@ == self.lines_view()[k],
            decreases self.entries@.len() - i,
        {
            let e = self.entries[i].clone();
            assert(e@ == self.lines_view()[i as int]);
            r.push(e);
            i += 1;
        }
        assert(r@.map_values(|s: String| s@) =~= self.lines_view());
        r
    }

}

impl Default for CombatLog {
    fn default() -> (r: CombatLog)
        ensures
            r.lines_view() == Seq::<Seq<char>>::empty(),
    {
        CombatLog::new()
    }
}

/// The audio backend's state.
#[derive(Clone, Copy, Debug, PartialEq, Eq, Structural)]
pub enum AudioBackendStatus {
    Muted,
    Starting,
    Ready,
    NoOutputDevice,
    ThreadFailed,
}

impl Default for AudioBackendStatus {
    fn default() -> (r: AudioBackendStatus)
        ensures
            r == AudioBackendStatus::Starting,
    {
        AudioBackendStatus::Starting
    }
}

impl AudioBackendStatus {
    /// The audio line of the HUD: "audio muted" whenever audio is off,
    /// otherwise what the backend is doing.
    pub open spec fn spec_status_label(self, enabled: bool) -> Seq<char> {
        if !enabled {
            "audio muted"@
        } else {
            match self {
                AudioBackendStatus::Muted => "audio muted"@,
                AudioBackendStatus::Starting => "audio starting"@,
                AudioBackendStatus::Ready => "audio on"@,
                AudioBackendStatus::NoOutputDevice => "audio no device"@,
                AudioBackendStatus::ThreadFailed => "audio thread failed"@,
            }
        }
    }

    /// The audio line of the HUD.
    pub fn status_label(self, settings: &AudioSettings) -> (r: &'static str)
        ensures
            r@ == self.spec_status_label(settings.enabled),
    {
        if !settings.enabled {
            return "audio muted";
        }
        match self {
            AudioBackendStatus::Muted => "audio muted",
            AudioBackendStatus::Starting => "audio starting",
            AudioBackendStatus::Ready => "audio on",
            AudioBackendStatus::NoOutputDevice => "audio no device",
            AudioBackendStatus::ThreadFailed => "audio thread failed",
        }
    }
}

/// Whether to try starting the audio backend: only when audio is on and no
/// backend runs; then when it is starting or muted, when the settings
/// changed, or when a retry is due after a failed start.
pub open spec fn spec_should_attempt(
    enabled: bool,
    status: AudioBackendStatus,
    has_sender: bool,
    settings_changed: bool,
    retry_due: bool,
) -> bool {
    enabled && !has_sender && (status == AudioBackendStatus::Starting || status
        == AudioBackendStatus::Muted || settings_changed || (retry_due && (status
        == AudioBackendStatus::NoOutputDevice || status == AudioBackendStatus::ThreadFailed)))
}

/// Whether to try starting the audio backend now.
pub fn audio_backend_should_attempt(
    audio_settings: &AudioSettings,
    status: AudioBackendStatus,
    has_sender: bool,
    settings_changed: bool,
    retry_due: bool,
) -> (r: bool)
    ensures
        r == spec_should_attempt(audio_settings.enabled, status, has_sender, settings_changed, retry_due),
{
    if !audio_settings.enabled || has_sender {
        return false;
    }
    status == AudioBackendStatus::Starting || status == AudioBackendStatus::Muted
        || settings_changed || (retry_due && (status == AudioBackendStatus::NoOutputDevice
        || status == AudioBackendStatus::ThreadFailed))
}

/// How a floating combat text is styled.
#[derive(Clone, Copy, Debug, PartialEq, Eq, Structural)]
pub enum FloatingTextKind {
    BossDown,
    EliteSlay,
    Slay,
    Critical,
    Normal,
}

/// The style of a floating combat text: boss kills, elite kills or execute
/// windows, other kills, then critical or normal hits.
pub open spec fn spec_floating_text_kind(t: Seq<char>, critical: bool) -> FloatingTextKind {
    if has_sub(t, "BOSS DOWN"@) {
        FloatingTextKind::BossDown
    } else if has_sub(t, "ELITE SLAY"@) || has_sub(t, "EXECUTE"@) {
        FloatingTextKind::EliteSlay
    } else if has_sub(t, "SLAY"@) {
        FloatingTextKind::Slay
    } else if critical {
        FloatingTextKind::Critical
    } else {
        FloatingTextKind::Normal
    }
}

/// The style of a floating combat text.
pub fn floating_text_kind(text: &str, critical: bool) -> (r: FloatingTextKind)
    ensures
        r == spec_floating_text_kind(text@, critical),
{
    let t = chars_of(text);
    if chars_contain(&t, "BOSS DOWN") {
        FloatingTextKind::BossDown
    } else if chars_contain(&t, "ELITE SLAY") || chars_contain(&t, "EXECUTE") {
        FloatingTextKind::EliteSlay
    } else if chars_contain(&t, "SLAY") {
        FloatingTextKind::Slay
    } else if critical {
        FloatingTextKind::Critical
    } else {
        FloatingTextKind::Normal
    }
}


/// Pushing a line puts it first, keeps the older lines after it in order,
/// and drops only the oldest, so that at most six lines are kept.
pub proof fn lemma_log_keeps_newest(lines: Seq<Seq<char>>, line: Seq<char>)
    requires
        lines.len() <= LOG_CAPACITY,
    ensures
        spec_log_push(lines, line).len() == if lines.len() < LOG_CAPACITY {
            lines.len() + 1
        } else {
            LOG_CAPACITY as nat
        },
        spec_log_push(lines, line)[0] == line,
        forall|i: int|
            0 <= i < spec_log_push(lines, line).len() - 1 ==> #[trigger] spec_log_push(
                lines,
                line,
            )[i + 1] == lines[i],
{
}


/// Every line that mentions a milestone, the line each unlock writes among
/// them, calls for the Quest cue unless it also carries a danger, boss or
/// combo pattern, which take precedence.
pub proof fn lemma_milestone_lines_call_for_quest(t: Seq<char>)
    requires
        has_sub(t, "Milestone"@),
        !cue_rule_1(t),
        !cue_rule_2(t),
        !cue_rule_3(t),
    ensures
        spec_sound_cue(t) == Some(SoundCue::Quest),
{
}
} // verus!
