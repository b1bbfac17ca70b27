//! What the target panel and the nameplates say about an enemy: its tier,
//! role, attack, status, and how to answer its affixes.
use vstd::prelude::*;
use crate::config::{lowered, lower_chars};
use crate::text::{chars_of, chars_are, join, views, push_part, join_strings, decimal, push_decimal};

verus! {

/// An enemy's tier badge: BOSS for Malrec, WARDEN for the seal warden,
/// VAULT for a treasure imp, ELITE with two affixes or more, RARE with one,
/// none otherwise.
pub open spec fn spec_tier_label(id: Seq<char>, affix_count: usize) -> Seq<char> {
    if id == "keeper"@ {
        "BOSS"@
    } else if id == "seal_warden"@ {
        "WARDEN"@
    } else if id == "treasure_imp"@ {
        "VAULT"@
    } else if affix_count >= 2 {
        "ELITE"@
    } else if affix_count > 0 {
        "RARE"@
    } else {
        ""@
    }
}

/// An enemy's tier badge.
pub fn enemy_tier_label(enemy_id: &str, affix_count: usize) -> (r: &'static str)
    ensures
        r@ == spec_tier_label(enemy_id@, affix_count),
{
    let id = chars_of(enemy_id);
    if chars_are(&id, "keeper") {
        "BOSS"
    } else if chars_are(&id, "seal_warden") {
        "WARDEN"
    } else if chars_are(&id, "treasure_imp") {
        "VAULT"
    } else if affix_count >= 2 {
        "ELITE"
    } else if affix_count > 0 {
        "RARE"
    } else {
        ""
    }
}

/// The control effects on an enemy: "stagger" before "chill", joined by a
/// space.
pub open spec fn spec_status_label(chilled: bool, staggered: bool) -> Seq<char> {
    if staggered && chilled {
        "stagger chill"@
    } else if staggered {
        "stagger"@
    } else if chilled {
        "chill"@
    } else {
        ""@
    }
}

/// The control effects on an enemy.
pub fn enemy_status_label(chilled: bool, staggered: bool) -> (r: &'static str)
    ensures
        r@ == spec_status_label(chilled, staggered),
{
    if staggered && chilled {
        "stagger chill"
    } else if staggered {
        "stagger"
    } else if chilled {
        "chill"
    } else {
        ""
    }
}

/// The role of an enemy kind in a fight, when it has one.
pub open spec fn spec_role_label(id: Seq<char>) -> Option<Seq<char>> {
    if id == "skeleton"@ {
        Some("Guard"@)
    } else if id == "bone_stalker"@ {
        Some("Chaser"@)
    } else if id == "cultist"@ {
        Some("Caster"@)
    } else if id == "seal_warden"@ {
        Some("Warden"@)
    } else if id == "ashen_marksman"@ {
        Some("Marksman"@)
    } else if id == "reliquary_brute"@ {
        Some("Heavy"@)
    } else if id == "treasure_imp"@ {
        Some("Treasure"@)
    } else if id == "keeper"@ {
        Some("Boss"@)
    } else if id == "nemesis"@ {
        Some("Nemesis"@)
    } else {
        None
    }
}

/// The role of an enemy kind in a fight, when it has one.
pub fn enemy_role_label(enemy_id: &str) -> (r: Option<&'static str>)
    ensures
        match r {
            Some(s) => spec_role_label(enemy_id@) == Some(s@),
            None => spec_role_label(enemy_id@) is None,
        },
{
    let id = chars_of(enemy_id);
    if chars_are(&id, "skeleton") {
        Some("Guard")
    } else if chars_are(&id, "bone_stalker") {
        Some("Chaser")
    } else if chars_are(&id, "cultist") {
        Some("Caster")
    } else if chars_are(&id, "seal_warden") {
        Some("Warden")
    } else if chars_are(&id, "ashen_marksman") {
        Some("Marksman")
    } else if chars_are(&id, "reliquary_brute") {
        Some("Heavy")
    } else if chars_are(&id, "treasure_imp") {
        Some("Treasure")
    } else if chars_are(&id, "keeper") {
        Some("Boss")
    } else if chars_are(&id, "nemesis") {
        Some("Nemesis")
    } else {
        None
    }
}

/// How an enemy attacks.
#[derive(Clone, Copy, Debug, PartialEq, Eq, Structural)]
pub enum EnemyAttackKind {
    Melee,
    Projectile,
    Shockwave,
}

impl EnemyAttackKind {
    pub open spec fn spec_label(self) -> Seq<char> {
        match self {
            EnemyAttackKind::Melee => "Melee"@,
            EnemyAttackKind::Projectile => "Projectile"@,
            EnemyAttackKind::Shockwave => "Shockwave"@,
        }
    }

    /// The attack's name.
    pub fn label(self) -> (r: &'static str)
        ensures
            r@ == self.spec_label(),
    {
        match self {
            EnemyAttackKind::Melee => "Melee",
            EnemyAttackKind::Projectile => "Projectile",
            EnemyAttackKind::Shockwave => "Shockwave",
        }
    }

    pub open spec fn spec_response(self) -> Seq<char> {
        match self {
            EnemyAttackKind::Melee => "sidestep melee"@,
            EnemyAttackKind::Projectile => "strafe shot"@,
            EnemyAttackKind::Shockwave => "dodge wave"@,
        }
    }

    /// How to answer the attack.
    pub fn response_label(self) -> (r: &'static str)
        ensures
            r@ == self.spec_response(),
    {
        match self {
            EnemyAttackKind::Melee => "sidestep melee",
            EnemyAttackKind::Projectile => "strafe shot",
            EnemyAttackKind::Shockwave => "dodge wave",
        }
    }
}

/// How far Malrec's fight has gone.
#[derive(Clone, Copy, Debug, PartialEq, Eq, Structural)]
pub enum BossPhaseStatus {
    PhaseOne,
    PhaseTwo,
    Enraged,
}

/// The subtitle under a target's name: the boss phase for Malrec; else the
/// tier and role (once, where they name the same thing) and the attack.
pub open spec fn spec_target_subtitle(
    id: Seq<char>,
    affix_count: usize,
    attack: EnemyAttackKind,
    boss_phase: Option<BossPhaseStatus>,
) -> Seq<char> {
    let tier = spec_tier_label(id, affix_count);
    let a = attack.spec_label();
    match boss_phase {
        Some(BossPhaseStatus::Enraged) => "BOSS - ENRAGED"@,
        Some(BossPhaseStatus::PhaseTwo) => "BOSS - PHASE II"@,
        Some(BossPhaseStatus::PhaseOne) => "BOSS - PHASE I"@,
        None => match spec_role_label(id) {
            Some(role) => if tier.len() == 0 {
                role + " - "@ + a
            } else if lowered(tier) == lowered(role) {
                tier + " - "@ + a
            } else {
                tier + " "@ + role + " - "@ + a
            },
            None => if tier.len() == 0 {
                a
            } else {
                tier + " - "@ + a
            },
        },
    }
}

/// The subtitle under a target's name.
pub fn enemy_target_subtitle(
    enemy_id: &str,
    affix_count: usize,
    attack: EnemyAttackKind,
    boss_phase: Option<BossPhaseStatus>,
) -> (r: String)
    ensures
        r@ == spec_target_subtitle(enemy_id@, affix_count, attack, boss_phase),
{
    match boss_phase {
        Some(BossPhaseStatus::Enraged) => {
            return String::from_str("BOSS - ENRAGED");
        },
        Some(BossPhaseStatus::PhaseTwo) => {
            return String::from_str("BOSS - PHASE II");
        },
        Some(BossPhaseStatus::PhaseOne) => {
            return String::from_str("BOSS - PHASE I");
        },
        None => {},
    }
    let tier = enemy_tier_label(enemy_id, affix_count);
    let attack_label = attack.label();
    let tier_chars = chars_of(tier);
    match enemy_role_label(enemy_id) {
        Some(role) => {
            let role_chars = chars_of(role);
            let same = crate::text::chars_eq(&lower_chars(&tier_chars), &lower_chars(&role_chars));
            if tier_chars.len() == 0 {
                let mut s = String::from_str(role);
                s.append(" - ");
                s.append(attack_label);
                s
            } else if same {
                let mut s = String::from_str(tier);
                s.append(" - ");
                s.append(attack_label);
                s
            } else {
                let mut s = String::from_str(tier);
                s.append(" ");
                s.append(role);
                s.append(" - ");
                s.append(attack_label);
                s
            }
        },
        None => {
            if tier_chars.len() == 0 {
                String::from_str(attack_label)
            } else {
                let mut s = String::from_str(tier);
                s.append(" - ");
                s.append(attack_label);
                s
            }
        },
    }
}

/// An elite affix.
#[derive(Clone, Copy, Debug, PartialEq, Eq, Structural)]
pub enum EnemyAffix {
    Frenzied,
    Vampiric,
    Molten,
    Shielded,
    Arcane,
    Jailer,
    Frozen,
    Desecrator,
    Reflective,
}

impl EnemyAffix {
    pub open spec fn spec_threat(self) -> Seq<char> {
        match self {
            EnemyAffix::Frenzied => "fast engage"@,
            EnemyAffix::Vampiric => "lifesteal"@,
            EnemyAffix::Molten => "death pool"@,
            EnemyAffix::Shielded => "shield window"@,
            EnemyAffix::Arcane => "beam hazard"@,
            EnemyAffix::Jailer => "root trap"@,
            EnemyAffix::Frozen => "freeze burst"@,
            EnemyAffix::Desecrator => "ground fire"@,
            EnemyAffix::Reflective => "reflect"@,
        }
    }

    /// What the affix threatens.
    pub fn threat_label(self) -> (r: &'static str)
        ensures
            r@ == self.spec_threat(),
    {
        match self {
            EnemyAffix::Frenzied => "fast engage",
            EnemyAffix::Vampiric => "lifesteal",
            EnemyAffix::Molten => "death pool",
            EnemyAffix::Shielded => "shield window",
            EnemyAffix::Arcane => "beam hazard",
            EnemyAffix::Jailer => "root trap",
            EnemyAffix::Frozen => "freeze burst",
            EnemyAffix::Desecrator => "ground fire",
            EnemyAffix::Reflective => "reflect",
        }
    }

    pub open spec fn spec_reaction(self) -> Seq<char> {
        match self {
            EnemyAffix::Frenzied => "kite first swing"@,
            EnemyAffix::Vampiric => "burst or disengage"@,
            EnemyAffix::Molten => "step off death pool"@,
            EnemyAffix::Shielded => "wait shield, then burst"@,
            EnemyAffix::Arcane => "strafe beam"@,
            EnemyAffix::Jailer => "save Shift"@,
            EnemyAffix::Frozen => "leave circle"@,
            EnemyAffix::Desecrator => "move out"@,
            EnemyAffix::Reflective => "stop into reflect"@,
        }
    }

    /// How to answer the affix.
    pub fn reaction_label(self) -> (r: &'static str)
        ensures
            r@ == self.spec_reaction(),
    {
        match self {
            EnemyAffix::Frenzied => "kite first swing",
            EnemyAffix::Vampiric => "burst or disengage",
            EnemyAffix::Molten => "step off death pool",
            EnemyAffix::Shielded => "wait shield, then burst",
            EnemyAffix::Arcane => "strafe beam",
            EnemyAffix::Jailer => "save Shift",
            EnemyAffix::Frozen => "leave circle",
            EnemyAffix::Desecrator => "move out",
            EnemyAffix::Reflective => "stop into reflect",
        }
    }
}

/// The labels in order, each kept only where it first appears.
pub open spec fn dedupe(labels: Seq<Seq<char>>) -> Seq<Seq<char>>
    decreases labels.len(),
{
    if labels.len() == 0 {
        Seq::empty()
    } else {
        let d = dedupe(labels.drop_last());
        if d.contains(labels.last()) {
            d
        } else {
            d.push(labels.last())
        }
    }
}

/// `labels` with repeats dropped, first occurrences kept in order.
pub fn dedupe_labels(labels: &Vec<String>) -> (r: Vec<String>)
    ensures
        views(r@) == dedupe(views(labels@)),
{
    let ghost l = views(labels@);
    let mut unique: Vec<String> = Vec::new();
    let mut i: usize = 0;
    while i < labels.len()
        invariant
            l == views(labels@),
            i <= labels@.len(),
            views(unique@) == dedupe(l.take(i as int)),
        decreases labels@.len() - i,
    {
        let mut found = false;
        let mut j: usize = 0;
        while j < unique.len()
            invariant
                i < labels@.len(),
                j <= unique@.len(),
                found == views(unique@).take(j as int).contains(labels@[i as int]@),
            decreases unique@.len() - j,
        {
            let same = unique[j] == labels[i];
            proof {
                let x = labels@[i as int]@;
                let u = views(unique@);
                let t = u.take(j as int);
                let t1 = u.take(j + 1);
                assert(t1 =~= t.push(u[j as int]));
                assert(u[j as int] == unique@[j as int]@);
                if t.contains(x) {
                    let k = choose|k: int| 0 <= k < t.len() && t[k] == x;
                    assert(t1[k] == x);
                }
                if same {
                    assert(t1[j as int] == x);
                }
                if t1.contains(x) && !same {
                    let k = choose|k: int| 0 <= k < t1.len() && t1[k] == x;
                    assert(k < j);
                    assert(t[k] == x);
                }
            }
            if same {
                found = true;
            }
            j += 1;
        }
        proof {
            assert(views(unique@).take(unique@.len() as int) =~= views(unique@));
            assert(l.take(i + 1).drop_last() =~= l.take(i as int));
            assert(l.take(i + 1).last() == labels@[i as int]@);
        }
        if !found {
            push_part(&mut unique, labels[i].clone());
        }
        i += 1;
    }
    proof {
        assert(l.take(labels@.len() as int) =~= l);
    }
    unique
}

/// The threats of the affixes, in order.
pub open spec fn threats(a: Seq<EnemyAffix>) -> Seq<Seq<char>> {
    a.map_values(|x: EnemyAffix| x.spec_threat())
}

/// The answers to the affixes, in order.
pub open spec fn reactions(a: Seq<EnemyAffix>) -> Seq<Seq<char>> {
    a.map_values(|x: EnemyAffix| x.spec_reaction())
}

/// "threat: " and what each affix threatens.
pub fn enemy_affix_threat_summary(affixes: &Vec<EnemyAffix>) -> (r: String)
    ensures
        r@ == "threat: "@ + join(threats(affixes@), ", "@),
{
    let mut parts: Vec<String> = Vec::new();
    let mut i: usize = 0;
    while i < affixes.len()
        invariant
            i <= affixes@.len(),
            views(parts@) == threats(affixes@.take(i as int)),
        decreases affixes@.len() - i,
    {
        push_part(&mut parts, String::from_str(affixes[i].threat_label()));
        i += 1;
        proof {
            assert(threats(affixes@.take(i as int)) =~= threats(affixes@.take(i - 1)).push(
                affixes@[i - 1].spec_threat(),
            ));
        }
    }
    proof {
        assert(affixes@.take(affixes@.len() as int) =~= affixes@);
    }
    let mut s = String::from_str("threat: ");
    let body = join_strings(&parts, ", ");
    s.append(body.as_str());
    s
}

/// "react: " and the first three different answers to the affixes.
pub open spec fn spec_reaction_summary(a: Seq<EnemyAffix>) -> Seq<char> {
    let d = dedupe(reactions(a));
    "react: "@ + join(
        if d.len() > 3 {
            d.take(3)
        } else {
            d
        },
        ", "@,
    )
}

/// How to answer an enemy's affixes, at most three different answers.
pub fn enemy_affix_reaction_summary(affixes: &Vec<EnemyAffix>) -> (r: String)
    ensures
        r@ == spec_reaction_summary(affixes@),
{
    let mut parts: Vec<String> = Vec::new();
    let mut i: usize = 0;
    while i < affixes.len()
        invariant
            i <= affixes@.len(),
            views(parts@) == reactions(affixes@.take(i as int)),
        decreases affixes@.len() - i,
    {
        push_part(&mut parts, String::from_str(affixes[i].reaction_label()));
        i += 1;
        proof {
            assert(reactions(affixes@.take(i as int)) =~= reactions(affixes@.take(i - 1)).push(
                affixes@[i - 1].spec_reaction(),
            ));
        }
    }
    proof {
        assert(affixes@.take(affixes@.len() as int) =~= affixes@);
    }
    let mut unique = dedupe_labels(&parts);
    unique.truncate(3);
    proof {
        let d = dedupe(reactions(affixes@));
        assert(views(unique@) =~= (if d.len() > 3 {
            d.take(3)
        } else {
            d
        }));
    }
    let mut s = String::from_str("react: ");
    let body = join_strings(&unique, ", ");
    s.append(body.as_str());
    s
}


/// Dropping repeats keeps each label once and loses none: the result has
/// no duplicates and holds exactly the labels given.
pub proof fn lemma_dedupe_distinct(labels: Seq<Seq<char>>)
    ensures
        dedupe(labels).no_duplicates(),
        forall|x: Seq<char>| labels.contains(x) <==> #[trigger] dedupe(labels).contains(x),
    decreases labels.len(),
{
    if labels.len() > 0 {
        let rest = labels.drop_last();
        lemma_dedupe_distinct(rest);
        let d = dedupe(rest);
        let x = labels.last();
        assert forall|y: Seq<char>| labels.contains(y) <==> #[trigger] dedupe(labels).contains(y) by {
            if labels.contains(y) {
                let k = choose|k: int| 0 <= k < labels.len() && labels[k] == y;
                if k < labels.len() - 1 {
                    assert(rest[k] == y);
                }
            }
            if rest.contains(y) {
                let k = choose|k: int| 0 <= k < rest.len() && rest[k] == y;
                assert(labels[k] == y);
            }
            if !d.contains(x) {
                assert(dedupe(labels) == d.push(x));
                if d.push(x).contains(y) {
                    let k = choose|k: int| 0 <= k < d.push(x).len() && d.push(x)[k] == y;
                    if k < d.len() {
                        assert(d[k] == y);
                    }
                }
                if d.contains(y) {
                    let k = choose|k: int| 0 <= k < d.len() && d[k] == y;
                    assert(d.push(x)[k] == y);
                }
                assert(d.push(x)[d.len() as int] == x);
            }
            assert(labels[labels.len() - 1] == x);
        }
        if !d.contains(x) {
            assert(dedupe(labels) == d.push(x));
            assert forall|a: int, b: int| 0 <= a < b < d.push(x).len() implies d.push(x)[a] != d.push(x)[b] by {
                if b == d.len() {
                    assert(d[a] == d.push(x)[a]);
                }
            }
        }
    }
}


/// The word a role tactic names an enemy kind by, when it has a role.
pub open spec fn spec_role_word(id: Seq<char>) -> Option<Seq<char>> {
    if id == "skeleton"@ {
        Some("guard"@)
    } else if id == "bone_stalker"@ {
        Some("chaser"@)
    } else if id == "cultist"@ {
        Some("caster"@)
    } else if id == "seal_warden"@ {
        Some("warden"@)
    } else if id == "ashen_marksman"@ {
        Some("marksman"@)
    } else if id == "reliquary_brute"@ {
        Some("heavy"@)
    } else if id == "treasure_imp"@ {
        Some("treasure"@)
    } else if id == "keeper"@ {
        Some("boss"@)
    } else if id == "nemesis"@ {
        Some("nemesis"@)
    } else {
        None
    }
}

/// "role: <role> | tip: <tip>" for an enemy kind with a role.
pub open spec fn spec_role_tactic(id: Seq<char>, tip: Seq<char>) -> Option<Seq<char>> {
    match spec_role_word(id) {
        Some(role) => Some("role: "@ + role + " | tip: "@ + tip),
        None => None,
    }
}

/// The role and the chapter's counterplay tip for an enemy kind with a role.
pub fn enemy_role_tactic(enemy_id: &str, counterplay: &str) -> (r: Option<String>)
    ensures
        match r {
            Some(s) => spec_role_tactic(enemy_id@, counterplay@) == Some(s@),
            None => spec_role_tactic(enemy_id@, counterplay@) is None,
        },
{
    let id = chars_of(enemy_id);
    let role = if chars_are(&id, "skeleton") {
        "guard"
    } else if chars_are(&id, "bone_stalker") {
        "chaser"
    } else if chars_are(&id, "cultist") {
        "caster"
    } else if chars_are(&id, "seal_warden") {
        "warden"
    } else if chars_are(&id, "ashen_marksman") {
        "marksman"
    } else if chars_are(&id, "reliquary_brute") {
        "heavy"
    } else if chars_are(&id, "treasure_imp") {
        "treasure"
    } else if chars_are(&id, "keeper") {
        "boss"
    } else if chars_are(&id, "nemesis") {
        "nemesis"
    } else {
        return None;
    };
    let mut s = String::from_str("role: ");
    s.append(role);
    s.append(" | tip: ");
    s.append(counterplay);
    Some(s)
}

/// A seal warden's ward as the panel reads it: whether it is broken, and
/// its strength and its maximum in whole points.
#[derive(Clone, Copy, Debug, PartialEq, Eq, Structural)]
pub struct WardReading {
    pub broken: bool,
    pub current: u32,
    pub max: u32,
}

/// "ward broken: punish" once broken, else "ward <strength>/<maximum>".
pub open spec fn spec_ward_detail(w: WardReading) -> Seq<char> {
    if w.broken {
        "ward broken: punish"@
    } else {
        "ward "@ + decimal(w.current as nat) + "/"@ + decimal(w.max as nat)
    }
}

/// What the panel says of a seal warden's ward.
pub fn seal_warden_ward_detail(ward: WardReading) -> (r: String)
    ensures
        r@ == spec_ward_detail(ward),
{
    if ward.broken {
        return String::from_str("ward broken: punish");
    }
    let mut s = String::from_str("ward ");
    push_decimal(&mut s, ward.current);
    s.append("/");
    push_decimal(&mut s, ward.max);
    s
}

/// A time in tenths of a second, as seconds with one decimal: 3 tenths is
/// "0.3".
pub open spec fn tenths_text(t: u32) -> Seq<char> {
    decimal((t / 10) as nat) + "."@ + decimal((t % 10) as nat)
}

/// What the player should do about an enemy right now, if anything: burst
/// a staggered enemy; mind an enraged boss, or one about to enrage in its
/// second phase; step out of an attack about to land (a seal warden's is
/// its seal rune), with the time left; else plan around an elite with two
/// affixes or more.
pub open spec fn spec_threat_action(
    id: Seq<char>,
    attack: EnemyAttackKind,
    affix_count: usize,
    staggered: bool,
    boss_phase: Option<BossPhaseStatus>,
    enrage_soon: bool,
    attack_imminent: bool,
    attack_tenths: u32,
) -> Option<Seq<char>> {
    if staggered {
        Some("window: burst now"@)
    } else if boss_phase == Some(BossPhaseStatus::Enraged) {
        Some("danger: kite fire, burst after slam"@)
    } else if boss_phase == Some(BossPhaseStatus::PhaseTwo) && enrage_soon {
        Some("danger: break before enrage"@)
    } else if attack_imminent && id == "seal_warden"@ {
        Some("incoming: leave seal rune "@ + tenths_text(attack_tenths) + "s"@)
    } else if attack_imminent {
        Some("incoming: "@ + attack.spec_response() + " "@ + tenths_text(attack_tenths) + "s"@)
    } else if affix_count >= 2 {
        Some("plan: control elite, then burst"@)
    } else {
        None
    }
}

fn push_tenths(s: &mut String, t: u32)
    ensures
        final(s)@ == old(s)@ + tenths_text(t),
{
    push_decimal(s, t / 10);
    s.append(".");
    push_decimal(s, t % 10);
}

/// What the player should do about an enemy right now, if anything.
/// `enrage_soon` tells whether a boss in its second phase enrages within six
/// seconds; `attack_imminent` whether the enemy's attack lands within its
/// warning window, `attack_tenths` tenths of a second from now.
pub fn enemy_threat_action_summary(
    enemy_id: &str,
    attack: EnemyAttackKind,
    affix_count: usize,
    staggered: bool,
    boss_phase: Option<BossPhaseStatus>,
    enrage_soon: bool,
    attack_imminent: bool,
    attack_tenths: u32,
) -> (r: Option<String>)
    ensures
        match r {
            Some(s) => spec_threat_action(
                enemy_id@,
                attack,
                affix_count,
                staggered,
                boss_phase,
                enrage_soon,
                attack_imminent,
                attack_tenths,
            ) == Some(s@),
            None => spec_threat_action(
                enemy_id@,
                attack,
                affix_count,
                staggered,
                boss_phase,
                enrage_soon,
                attack_imminent,
                attack_tenths,
            ) is None,
        },
{
    if staggered {
        return Some(String::from_str("window: burst now"));
    }
    match boss_phase {
        Some(BossPhaseStatus::Enraged) => {
            return Some(String::from_str("danger: kite fire, burst after slam"));
        },
        Some(BossPhaseStatus::PhaseTwo) => {
            if enrage_soon {
                return Some(String::from_str("danger: break before enrage"));
            }
        },
        _ => {},
    }
    if attack_imminent {
        let id = chars_of(enemy_id);
        let mut s = if chars_are(&id, "seal_warden") {
            String::from_str("incoming: leave seal rune ")
        } else {
            let mut s = String::from_str("incoming: ");
            s.append(attack.response_label());
            s.append(" ");
            s
        };
        push_tenths(&mut s, attack_tenths);
        s.append("s");
        return Some(s);
    }
    if affix_count >= 2 {
        return Some(String::from_str("plan: control elite, then burst"));
    }
    None
}

/// An enemy under the cursor, as the target panel reads it.
pub struct TargetReading {
    pub enemy_id: String,
    pub affixes: Vec<EnemyAffix>,
    /// The names of the affixes, in order, as the enemy roster spells them.
    pub affix_labels: Vec<String>,
    pub attack: EnemyAttackKind,
    /// The chapter's counterplay tip for this kind of enemy.
    pub counterplay: String,
    pub chilled: bool,
    pub staggered: bool,
    pub boss_phase: Option<BossPhaseStatus>,
    /// Whole seconds until a boss in its second phase enrages.
    pub enrage_secs: u32,
    /// Whether a boss in its second phase enrages within six seconds.
    pub enrage_soon: bool,
    pub ward: Option<WardReading>,
    /// Whether the enemy's attack lands within its warning window, and in
    /// how many tenths of a second.
    pub attack_imminent: bool,
    pub attack_tenths: u32,
}

/// A part that is there only when `o` holds one.
pub open spec fn opt_part(o: Option<Seq<char>>) -> Seq<Seq<char>> {
    match o {
        Some(p) => seq![p],
        None => Seq::empty(),
    }
}

/// The parts of the target panel's detail line, in order: the affixes with
/// their threats and answers (or "no affixes"), the role tactic, the ward,
/// the control effects, what to do now, and a second-phase boss's time to
/// enrage.
pub open spec fn spec_detail_parts(t: TargetReading) -> Seq<Seq<char>> {
    let id = t.enemy_id@;
    let status = spec_status_label(t.chilled, t.staggered);
    (if t.affixes@.len() == 0 {
        seq!["no affixes"@]
    } else {
        seq![
            join(views(t.affix_labels@), " / "@),
            "threat: "@ + join(threats(t.affixes@), ", "@),
            spec_reaction_summary(t.affixes@),
        ]
    }) + opt_part(spec_role_tactic(id, t.counterplay@)) + (match t.ward {
        Some(w) => seq![spec_ward_detail(w)],
        None => Seq::empty(),
    }) + (if t.chilled || t.staggered {
        seq![status]
    } else {
        Seq::empty()
    }) + opt_part(
        spec_threat_action(
            id,
            t.attack,
            t.affixes.len(),
            t.staggered,
            t.boss_phase,
            t.enrage_soon,
            t.attack_imminent,
            t.attack_tenths,
        ),
    ) + (if t.boss_phase == Some(BossPhaseStatus::PhaseTwo) {
        seq!["enrage "@ + decimal(t.enrage_secs as nat) + "s"@]
    } else {
        Seq::empty()
    })
}

fn push_opt(parts: &mut Vec<String>, o: Option<String>)
    ensures
        views(final(parts)@) == views(old(parts)@) + opt_part(
            match o {
                Some(s) => Some(s@),
                None => None,
            },
        ),
{
    match o {
        Some(s) => {
            push_part(parts, s);
            proof {
                assert(views(old(parts)@).push(s@) =~= views(old(parts)@) + seq![s@]);
            }
        },
        None => {
            proof {
                assert(views(parts@) =~= views(parts@) + Seq::<Seq<char>>::empty());
            }
        },
    }
}

/// The target panel's detail line: its parts joined by " | ".
pub fn enemy_target_details(t: &TargetReading) -> (r: String)
    ensures
        r@ == join(spec_detail_parts(*t), " | "@),
{
    let ghost id = t.enemy_id@;
    let ghost seg1: Seq<Seq<char>> = if t.affixes@.len() == 0 {
        seq!["no affixes"@]
    } else {
        seq![
            join(views(t.affix_labels@), " / "@),
            "threat: "@ + join(threats(t.affixes@), ", "@),
            spec_reaction_summary(t.affixes@),
        ]
    };
    let ghost seg2 = opt_part(spec_role_tactic(id, t.counterplay@));
    let ghost seg3: Seq<Seq<char>> = match t.ward {
        Some(w) => seq![spec_ward_detail(w)],
        None => Seq::empty(),
    };
    let ghost status_text = spec_status_label(t.chilled, t.staggered);
    let ghost seg4: Seq<Seq<char>> = if t.chilled || t.staggered {
        seq![status_text]
    } else {
        Seq::empty()
    };
    let ghost seg5 = opt_part(
        spec_threat_action(
            id,
            t.attack,
            t.affixes.len(),
            t.staggered,
            t.boss_phase,
            t.enrage_soon,
            t.attack_imminent,
            t.attack_tenths,
        ),
    );
    let ghost seg6: Seq<Seq<char>> = if t.boss_phase == Some(BossPhaseStatus::PhaseTwo) {
        seq!["enrage "@ + decimal(t.enrage_secs as nat) + "s"@]
    } else {
        Seq::empty()
    };
    let mut parts: Vec<String> = Vec::new();
    if t.affixes.len() == 0 {
        push_part(&mut parts, String::from_str("no affixes"));
    } else {
        push_part(&mut parts, join_strings(&t.affix_labels, " / "));
        push_part(&mut parts, enemy_affix_threat_summary(&t.affixes));
        push_part(&mut parts, enemy_affix_reaction_summary(&t.affixes));
    }
    assert(views(parts@) =~= seg1);
    push_opt(&mut parts, enemy_role_tactic(t.enemy_id.as_str(), t.counterplay.as_str()));
    assert(views(parts@) =~= seg1 + seg2);
    match t.ward {
        Some(w) => {
            push_part(&mut parts, seal_warden_ward_detail(w));
        },
        None => {},
    }
    assert(views(parts@) =~= seg1 + seg2 + seg3);
    if t.chilled || t.staggered {
        push_part(&mut parts, String::from_str(enemy_status_label(t.chilled, t.staggered)));
    }
    assert(views(parts@) =~= seg1 + seg2 + seg3 + seg4);
    push_opt(
        &mut parts,
        enemy_threat_action_summary(
            t.enemy_id.as_str(),
            t.attack,
            t.affixes.len(),
            t.staggered,
            t.boss_phase,
            t.enrage_soon,
            t.attack_imminent,
            t.attack_tenths,
        ),
    );
    assert(views(parts@) =~= seg1 + seg2 + seg3 + seg4 + seg5);
    if t.boss_phase == Some(BossPhaseStatus::PhaseTwo) {
        let mut e = String::from_str("enrage ");
        push_decimal(&mut e, t.enrage_secs);
        e.append("s");
        push_part(&mut parts, e);
    }
    assert(views(parts@) =~= seg1 + seg2 + seg3 + seg4 + seg5 + seg6);
    join_strings(&parts, " | ")
}

/// A nameplate: the tier badge, the enemy's name, its control effects in
/// brackets when it has any, and its health as a whole percentage when
/// shown.
pub open spec fn spec_nameplate(
    id: Seq<char>,
    name: Seq<char>,
    affix_count: usize,
    health_percent: Option<u32>,
    chilled: bool,
    staggered: bool,
) -> Seq<char> {
    let suffix = match health_percent {
        Some(p) => " "@ + decimal(p as nat) + "%"@,
        None => Seq::empty(),
    };
    if chilled || staggered {
        spec_tier_label(id, affix_count) + " "@ + name + " ["@ + spec_status_label(chilled, staggered)
            + "]"@ + suffix
    } else {
        spec_tier_label(id, affix_count) + " "@ + name + suffix
    }
}

/// The text over an enemy's head, with its control effects and its health
/// (already rounded to a whole percentage) where given.
pub fn enemy_nameplate_text_with_status(
    enemy_id: &str,
    display_name: &str,
    affix_count: usize,
    health_percent: Option<u32>,
    chilled: bool,
    staggered: bool,
) -> (r: String)
    ensures
        r@ == spec_nameplate(enemy_id@, display_name@, affix_count, health_percent, chilled, staggered),
{
    let mut s = String::from_str(enemy_tier_label(enemy_id, affix_count));
    s.append(" ");
    s.append(display_name);
    if chilled || staggered {
        s.append(" [");
        s.append(enemy_status_label(chilled, staggered));
        s.append("]");
    }
    let ghost head = s@;
    match health_percent {
        Some(p) => {
            s.append(" ");
            push_decimal(&mut s, p);
            s.append("%");
            assert(s@ =~= head + (" "@ + decimal(p as nat) + "%"@));
        },
        None => {
            assert(s@ =~= head + Seq::<char>::empty());
        },
    }
    s
}

/// The text over an enemy's head before it is hurt or slowed.
pub fn enemy_nameplate_text(enemy_id: &str, display_name: &str, affix_count: usize) -> (r: String)
    ensures
        r@ == spec_nameplate(enemy_id@, display_name@, affix_count, None, false, false),
{
    enemy_nameplate_text_with_status(enemy_id, display_name, affix_count, None, false, false)
}

/// Whether an enemy's health bar is drawn.
#[derive(Clone, Copy, Debug, PartialEq, Eq, Structural)]
pub enum EnemyBarVisibility {
    Hidden,
    Visible,
}

/// A health bar shows for a hovered, hurt or controlled enemy, and always
/// for a priority target: Malrec, a seal warden, a treasure imp, any enemy
/// with an affix, or one in a boss phase. Healthy trash stays bare.
pub open spec fn spec_bar_visible(
    damaged: bool,
    id: Seq<char>,
    affix_count: usize,
    chilled: bool,
    staggered: bool,
    in_boss_phase: bool,
    hovered: bool,
) -> bool {
    hovered || damaged || chilled || staggered || id == "keeper"@ || id == "seal_warden"@ || id
        == "treasure_imp"@ || affix_count > 0 || in_boss_phase
}

/// Whether an enemy's health bar is drawn; `damaged` tells whether it has
/// lost any health.
pub fn enemy_bar_visibility(
    damaged: bool,
    enemy_id: &str,
    affix_count: usize,
    chilled: bool,
    staggered: bool,
    in_boss_phase: bool,
    hovered: bool,
) -> (r: EnemyBarVisibility)
    ensures
        (r == EnemyBarVisibility::Visible) == spec_bar_visible(
            damaged,
            enemy_id@,
            affix_count,
            chilled,
            staggered,
            in_boss_phase,
            hovered,
        ),
{
    let id = chars_of(enemy_id);
    let priority = chars_are(&id, "keeper") || chars_are(&id, "seal_warden") || chars_are(
        &id,
        "treasure_imp",
    ) || affix_count > 0 || in_boss_phase;
    if hovered || damaged || chilled || staggered || priority {
        EnemyBarVisibility::Visible
    } else {
        EnemyBarVisibility::Hidden
    }
}

} // verus!
