//! The combat-log lines a kill writes.
use vstd::prelude::*;
use crate::game::{
    RunStats, AshenThreatKill, CHAMPION_PACK_TARGET, ASHEN_THREAT_MAX, TREASURE_VAULT_REWARD_GOLD,
    TREASURE_VAULT_REWARD_SHARDS, TREASURE_VAULT_REWARD_ESSENCE,
};
use crate::kill::KillReport;
use crate::loot::{elite_affix_break_reward_text, part_if};
use crate::text::{decimal, push_decimal, join, views, push_part, join_strings};

verus! {

/// "count/target", the count shown no higher than the target.
pub open spec fn progress_text(count: u32, target: u32) -> Seq<char> {
    decimal((if count < target { count } else { target }) as nat) + "/"@ + decimal(target as nat)
}

fn push_progress(s: &mut String, count: u32, target: u32)
    ensures
        final(s)@ == old(s)@ + progress_text(count, target),
{
    push_decimal(s, if count < target { count } else { target });
    s.append("/");
    push_decimal(s, target);
}

/// "NAME slain", followed by the enemy's affixes in brackets when it had any.
pub open spec fn spec_slain_line(name: Seq<char>, affix_labels: Seq<Seq<char>>) -> Seq<char> {
    name + " slain"@ + if affix_labels.len() == 0 {
        Seq::<char>::empty()
    } else {
        " ["@ + join(affix_labels, ", "@) + "]"@
    }
}

/// The combat-log lines of a kill, in order: the kill with its affixes,
/// the valor gained, the affix break and the Affix Hunter count, the
/// champion pack count, and the shards and essence recovered. `stats` is the
/// run after the kill, `report` what the kill did.
pub open spec fn spec_kill_lines(
    name: Seq<char>,
    affix_labels: Seq<Seq<char>>,
    champion_pack_member: bool,
    report: KillReport,
    stats: RunStats,
    affix_hunter_target: u32,
) -> Seq<Seq<char>> {
    seq![spec_slain_line(name, affix_labels)] + match report.valor_stacks {
        Some(v) => seq!["Valor "@ + decimal(v as nat) + "x: elite rewards empowered"@],
        None => Seq::empty(),
    } + part_if(
        report.affix_hunter && report.break_essence > 0,
        "Affix Break: "@ + name + " shattered, +"@ + decimal(report.break_essence as nat)
            + " essence"@,
    ) + part_if(
        report.affix_hunter,
        "Affix Hunter "@ + progress_text(stats.elite_affix_kills, affix_hunter_target),
    ) + part_if(
        champion_pack_member,
        "Champion pack "@ + progress_text(stats.champion_pack_kills, CHAMPION_PACK_TARGET),
    ) + part_if(
        report.shard_reward > 0,
        "Recovered "@ + decimal(report.shard_reward as nat) + " ember shards"@,
    ) + part_if(
        report.essence_reward > 0,
        "Recovered "@ + decimal(report.essence_reward as nat) + " affix essence"@,
    )
}

/// The combat-log lines of a kill. The lines that name Reliquary Momentum
/// (a cleared cursed ambush, a broken champion pack) are the caller's, who
/// grants the momentum.
pub fn kill_log_lines(
    enemy_name: &str,
    affix_labels: &Vec<String>,
    champion_pack_member: bool,
    report: &KillReport,
    stats: &RunStats,
    affix_hunter_target: u32,
) -> (r: Vec<String>)
    ensures
        views(r@) == spec_kill_lines(
            enemy_name@,
            views(affix_labels@),
            champion_pack_member,
            *report,
            *stats,
            affix_hunter_target,
        ),
{
    let mut lines: Vec<String> = Vec::new();
    let mut slain = String::from_str(enemy_name);
    slain.append(" slain");
    if affix_labels.len() > 0 {
        slain.append(" [");
        let joined = join_strings(affix_labels, ", ");
        slain.append(joined.as_str());
        slain.append("]");
    }
    assert(slain@ == spec_slain_line(enemy_name@, views(affix_labels@)));
    assert(views(lines@) =~= Seq::<Seq<char>>::empty());
    push_part(&mut lines, slain);
    let ghost l1 = views(lines@);
    match report.valor_stacks {
        Some(v) => {
            let mut t = String::from_str("Valor ");
            push_decimal(&mut t, v);
            t.append("x: elite rewards empowered");
            push_part(&mut lines, t);
        },
        None => {},
    }
    let ghost l2 = views(lines@);
    if report.affix_hunter && report.break_essence > 0 {
        push_part(&mut lines, elite_affix_break_reward_text(enemy_name, report.break_essence));
    }
    let ghost l3 = views(lines@);
    if report.affix_hunter {
        let mut t = String::from_str("Affix Hunter ");
        push_progress(&mut t, stats.elite_affix_kills, affix_hunter_target);
        push_part(&mut lines, t);
    }
    let ghost l4 = views(lines@);
    if champion_pack_member {
        let mut t = String::from_str("Champion pack ");
        push_progress(&mut t, stats.champion_pack_kills, CHAMPION_PACK_TARGET);
        push_part(&mut lines, t);
    }
    let ghost l5 = views(lines@);
    if report.shard_reward > 0 {
        let mut t = String::from_str("Recovered ");
        push_decimal(&mut t, report.shard_reward);
        t.append(" ember shards");
        push_part(&mut lines, t);
    }
    let ghost l6 = views(lines@);
    if report.essence_reward > 0 {
        let mut t = String::from_str("Recovered ");
        push_decimal(&mut t, report.essence_reward);
        t.append(" affix essence");
        push_part(&mut lines, t);
    }
    proof {
        let name = enemy_name@;
        let labels = views(affix_labels@);
        assert(l1 =~= seq![spec_slain_line(name, labels)]);
        assert(l2 =~= l1 + match report.valor_stacks {
            Some(v) => seq!["Valor "@ + decimal(v as nat) + "x: elite rewards empowered"@],
            None => Seq::<Seq<char>>::empty(),
        });
        assert(views(lines@) =~= spec_kill_lines(
            name,
            labels,
            champion_pack_member,
            *report,
            *stats,
            affix_hunter_target,
        ));
    }
    lines
}

/// The line of one Ashen Threat surge.
pub open spec fn surge_line(surge: int) -> Seq<char> {
    "Ashen threat surge "@ + decimal(surge as nat) + ": +25 gold, +1 shard"@
}

/// The combat-log lines of a kill's Ashen Threat, in order: the treasure
/// vault when the kill opened it, the threat gained with the meter after it,
/// and one line per surge, numbered from `first_surge`.
pub open spec fn spec_threat_lines(kill: AshenThreatKill, threat: u32) -> Seq<Seq<char>> {
    part_if(
        kill.vault_opened,
        "Treasure vault opened: +"@ + decimal(TREASURE_VAULT_REWARD_GOLD as nat) + " gold, +"@
            + decimal(TREASURE_VAULT_REWARD_SHARDS as nat) + " shards, +"@ + decimal(
            TREASURE_VAULT_REWARD_ESSENCE as nat,
        ) + " essence"@,
    ) + part_if(
        kill.gained > 0,
        "Ashen threat +"@ + decimal(kill.gained as nat) + " ("@ + decimal(threat as nat) + "/"@
            + decimal(ASHEN_THREAT_MAX as nat) + ")"@,
    ) + Seq::new(kill.surges as nat, |i: int| surge_line(kill.first_surge + i))
}

/// The combat-log lines of a kill's Ashen Threat; `threat` is the meter
/// after the kill.
pub fn ashen_threat_log_lines(kill: AshenThreatKill, threat: u32) -> (r: Vec<String>)
    requires
        kill.first_surge + kill.surges <= u32::MAX + 1,
    ensures
        views(r@) == spec_threat_lines(kill, threat),
{
    let mut lines: Vec<String> = Vec::new();
    if kill.vault_opened {
        let mut t = String::from_str("Treasure vault opened: +");
        push_decimal(&mut t, TREASURE_VAULT_REWARD_GOLD);
        t.append(" gold, +");
        push_decimal(&mut t, TREASURE_VAULT_REWARD_SHARDS);
        t.append(" shards, +");
        push_decimal(&mut t, TREASURE_VAULT_REWARD_ESSENCE);
        t.append(" essence");
        push_part(&mut lines, t);
    }
    if kill.gained > 0 {
        let mut t = String::from_str("Ashen threat +");
        push_decimal(&mut t, kill.gained);
        t.append(" (");
        push_decimal(&mut t, threat);
        t.append("/");
        push_decimal(&mut t, ASHEN_THREAT_MAX);
        t.append(")");
        push_part(&mut lines, t);
    }
    let ghost head = views(lines@);
    proof {
        assert(views(Seq::<String>::empty()) =~= Seq::<Seq<char>>::empty());
    }
    assert(head =~= part_if(
        kill.vault_opened,
        "Treasure vault opened: +"@ + decimal(TREASURE_VAULT_REWARD_GOLD as nat) + " gold, +"@
            + decimal(TREASURE_VAULT_REWARD_SHARDS as nat) + " shards, +"@ + decimal(
            TREASURE_VAULT_REWARD_ESSENCE as nat,
        ) + " essence"@,
    ) + part_if(
        kill.gained > 0,
        "Ashen threat +"@ + decimal(kill.gained as nat) + " ("@ + decimal(threat as nat) + "/"@
            + decimal(ASHEN_THREAT_MAX as nat) + ")"@,
    ));
    let mut i: u32 = 0;
    while i < kill.surges
        invariant
            i <= kill.surges,
            kill.first_surge + kill.surges <= u32::MAX + 1,
            views(lines@) == head + Seq::new(i as nat, |k: int| surge_line(kill.first_surge + k)),
        decreases kill.surges - i,
    {
        let mut t = String::from_str("Ashen threat surge ");
        push_decimal(&mut t, kill.first_surge + i);
        t.append(": +25 gold, +1 shard");
        push_part(&mut lines, t);
        i += 1;
        proof {
            assert(views(lines@) =~= head + Seq::new(i as nat, |k: int| surge_line(kill.first_surge + k)));
        }
    }
    lines
}

} // verus!
