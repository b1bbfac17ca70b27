use open_arpg::target::{
    dedupe_labels, enemy_affix_reaction_summary, enemy_affix_threat_summary,
    enemy_nameplate_text, enemy_nameplate_text_with_status, enemy_role_label, enemy_role_tactic,
    enemy_status_label, enemy_target_details, enemy_target_subtitle, enemy_threat_action_summary,
    enemy_tier_label, enemy_bar_visibility, seal_warden_ward_detail, BossPhaseStatus, EnemyAffix,
    EnemyAttackKind, EnemyBarVisibility, TargetReading, WardReading,
};

/// A target at rest: no control effects, no boss phase, no ward, no attack
/// about to land.
fn reading(
    id: &str,
    affixes: Vec<EnemyAffix>,
    labels: &[&str],
    attack: EnemyAttackKind,
    counterplay: &str,
) -> TargetReading {
    TargetReading {
        enemy_id: id.to_string(),
        affixes,
        affix_labels: labels.iter().map(|l| l.to_string()).collect(),
        attack,
        counterplay: counterplay.to_string(),
        chilled: false,
        staggered: false,
        boss_phase: None,
        enrage_secs: 0,
        enrage_soon: false,
        ward: None,
        attack_imminent: false,
        attack_tenths: 0,
    }
}

#[test]
fn target_info_surfaces_enemy_tier_affixes_health_and_status() {
    let affixes = vec![EnemyAffix::Frenzied, EnemyAffix::Arcane];
    assert_eq!(
        enemy_target_subtitle("cultist", affixes.len(), EnemyAttackKind::Projectile, None),
        "ELITE Caster - Projectile"
    );
    assert!(enemy_affix_threat_summary(&affixes).contains("threat: fast engage, beam hazard"));
    assert!(enemy_affix_reaction_summary(&affixes).contains("react: kite first swing, strafe beam"));

    let mut target = reading(
        "cultist",
        affixes,
        &["Frenzied", "Arcane"],
        EnemyAttackKind::Projectile,
        "dash through fire",
    );
    target.chilled = true;
    let details = enemy_target_details(&target);
    assert!(details.contains("Frenzied / Arcane"));
    assert!(details.contains("threat: fast engage, beam hazard"));
    assert!(details.contains("react: kite first swing, strafe beam"));
    assert!(details.contains("chill"));
}

#[test]
fn target_info_names_chapter_enemy_roles_and_counterplay() {
    assert_eq!(
        enemy_target_subtitle("bone_stalker", 0, EnemyAttackKind::Melee, None),
        "Chaser - Melee"
    );
    assert_eq!(
        enemy_target_subtitle("ashen_marksman", 0, EnemyAttackKind::Projectile, None),
        "Marksman - Projectile"
    );
    assert_eq!(
        enemy_target_subtitle("reliquary_brute", 1, EnemyAttackKind::Shockwave, None),
        "RARE Heavy - Shockwave"
    );
    assert_eq!(enemy_target_subtitle("skeleton", 0, EnemyAttackKind::Melee, None), "Guard - Melee");
    assert_eq!(
        enemy_target_subtitle("cultist", 0, EnemyAttackKind::Projectile, None),
        "Caster - Projectile"
    );
    assert_eq!(
        enemy_target_subtitle("seal_warden", 0, EnemyAttackKind::Projectile, None),
        "WARDEN - Projectile"
    );
    assert_eq!(enemy_target_subtitle("keeper", 0, EnemyAttackKind::Melee, None), "BOSS - Melee");
    assert_eq!(enemy_role_label("bone_stalker"), Some("Chaser"));

    let cases = [
        ("bone_stalker", EnemyAttackKind::Melee, "kite rush, punish whiffs", "role: chaser | tip: kite rush, punish whiffs"),
        ("ashen_marksman", EnemyAttackKind::Projectile, "close gap, sidestep bolts", "role: marksman | tip: close gap, sidestep bolts"),
        ("skeleton", EnemyAttackKind::Melee, "flank shield guard", "role: guard | tip: flank shield guard"),
        ("cultist", EnemyAttackKind::Projectile, "dash through fire", "role: caster | tip: dash through fire"),
        ("seal_warden", EnemyAttackKind::Projectile, "break ward, sidestep runes", "role: warden | tip: break ward, sidestep runes"),
        ("keeper", EnemyAttackKind::Melee, "break stagger, deny enrage", "role: boss | tip: break stagger, deny enrage"),
    ];
    for (id, attack, tip, expected) in cases {
        assert!(enemy_target_details(&reading(id, vec![], &[], attack, tip)).contains(expected));
    }
    let brute = reading(
        "reliquary_brute",
        vec![EnemyAffix::Molten],
        &["Molten"],
        EnemyAttackKind::Shockwave,
        "bait shockwave, punish slam",
    );
    assert!(enemy_target_details(&brute).contains("role: heavy | tip: bait shockwave, punish slam"));

    let mut warden = reading(
        "seal_warden",
        vec![],
        &[],
        EnemyAttackKind::Projectile,
        "break ward, sidestep runes",
    );
    warden.ward = Some(WardReading { broken: false, current: 18, max: 45 });
    assert!(enemy_target_details(&warden).contains("ward 18/45"));
    warden.ward = Some(WardReading { broken: true, current: 0, max: 45 });
    assert!(enemy_target_details(&warden).contains("ward broken: punish"));
}

#[test]
fn target_info_surfaces_immediate_threat_actions() {
    // The attack lands in 0.28 s, inside a projectile's warning window.
    let mut target = reading(
        "cultist",
        vec![EnemyAffix::Arcane, EnemyAffix::Jailer],
        &["Arcane", "Jailer"],
        EnemyAttackKind::Projectile,
        "dash through fire",
    );
    target.attack_imminent = true;
    target.attack_tenths = 3;
    assert!(enemy_target_details(&target).contains("incoming: strafe shot 0.3s"));

    target.enemy_id = "seal_warden".to_string();
    assert!(enemy_target_details(&target).contains("incoming: leave seal rune"));

    target.staggered = true;
    assert!(enemy_target_details(&target).contains("window: burst now"));
    target.staggered = false;

    // Second phase, 5.8 s from enrage.
    target.boss_phase = Some(BossPhaseStatus::PhaseTwo);
    target.enrage_soon = true;
    target.enrage_secs = 6;
    assert!(enemy_target_details(&target).contains("danger: break before enrage"));

    target.boss_phase = Some(BossPhaseStatus::Enraged);
    target.enrage_secs = 0;
    assert!(enemy_target_details(&target).contains("danger: kite fire, burst after slam"));
}

#[test]
fn enemy_nameplates_scale_for_bosses_and_elites() {
    assert!(enemy_nameplate_text("keeper", "Malrec, Keeper of Ash", 0)
        .contains("BOSS Malrec, Keeper of Ash"));
    assert!(enemy_nameplate_text("skeleton", "Frenzied Molten Ashbone Guard", 2).contains("ELITE"));
}

#[test]
fn enemy_nameplates_surface_health_and_control_states() {
    // 25 of 100 health.
    let text =
        enemy_nameplate_text_with_status("skeleton", "Frenzied Ashbone Guard", 1, Some(25), true, true);
    assert!(text.contains("RARE"));
    assert!(text.contains("stagger chill"));
    assert!(text.contains("25%"));
}

#[test]
fn boss_phase_replaces_the_subtitle() {
    assert_eq!(
        enemy_target_subtitle("keeper", 0, EnemyAttackKind::Melee, Some(BossPhaseStatus::PhaseTwo)),
        "BOSS - PHASE II"
    );
    assert_eq!(
        enemy_target_subtitle("keeper", 0, EnemyAttackKind::Melee, Some(BossPhaseStatus::Enraged)),
        "BOSS - ENRAGED"
    );
    assert_eq!(EnemyAttackKind::Projectile.response_label(), "strafe shot");
}

#[test]
fn enemy_affix_threat_summary_names_every_combat_hazard() {
    let affixes = vec![
        EnemyAffix::Vampiric,
        EnemyAffix::Molten,
        EnemyAffix::Shielded,
        EnemyAffix::Jailer,
        EnemyAffix::Frozen,
        EnemyAffix::Desecrator,
        EnemyAffix::Reflective,
    ];

    let summary = enemy_affix_threat_summary(&affixes);

    for expected in [
        "lifesteal",
        "death pool",
        "shield window",
        "root trap",
        "freeze burst",
        "ground fire",
        "reflect",
    ] {
        assert!(summary.contains(expected));
    }
}

#[test]
fn enemy_affix_reaction_summary_guides_player_response_without_repetition() {
    let affixes = vec![
        EnemyAffix::Jailer,
        EnemyAffix::Frozen,
        EnemyAffix::Arcane,
        EnemyAffix::Desecrator,
    ];

    let summary = enemy_affix_reaction_summary(&affixes);

    assert_eq!(summary, "react: save Shift, leave circle, strafe beam");
    assert!(!summary.contains("move out"));
}

#[test]
fn dedupe_keeps_first_occurrences_in_order() {
    let labels: Vec<String> = ["a", "b", "a", "c", "b"].iter().map(|s| s.to_string()).collect();
    assert_eq!(dedupe_labels(&labels), vec!["a", "b", "c"]);
}

#[test]
fn tier_and_status_labels() {
    assert_eq!(enemy_tier_label("keeper", 0), "BOSS");
    assert_eq!(enemy_tier_label("skeleton", 0), "");
    assert_eq!(enemy_status_label(false, false), "");
    assert!(enemy_status_label(true, false).contains("chill"));
}

#[test]
fn threat_action_orders_its_warnings() {
    let act = |staggered, phase, soon, imminent| {
        enemy_threat_action_summary(
            "skeleton",
            EnemyAttackKind::Melee,
            2,
            staggered,
            phase,
            soon,
            imminent,
            12,
        )
    };
    assert_eq!(act(true, Some(BossPhaseStatus::Enraged), true, true).as_deref(), Some("window: burst now"));
    assert_eq!(
        act(false, Some(BossPhaseStatus::PhaseTwo), false, true).as_deref(),
        Some("incoming: sidestep melee 1.2s")
    );
    assert_eq!(
        act(false, Some(BossPhaseStatus::PhaseOne), true, false).as_deref(),
        Some("plan: control elite, then burst")
    );
    assert_eq!(
        enemy_threat_action_summary("skeleton", EnemyAttackKind::Melee, 1, false, None, false, false, 0),
        None
    );
}

#[test]
fn target_details_without_affixes_or_role() {
    let plain = reading("wisp", vec![], &[], EnemyAttackKind::Melee, "");
    assert_eq!(enemy_target_details(&plain), "no affixes");
    assert_eq!(enemy_role_tactic("wisp", "anything"), None);
    assert_eq!(seal_warden_ward_detail(WardReading { broken: false, current: 0, max: 1 }), "ward 0/1");
    assert_eq!(enemy_nameplate_text("skeleton", "Ashbone Guard", 0), " Ashbone Guard");
}

#[test]
fn enemy_bars_hide_full_health_trash_but_show_priority_targets() {
    // Full health is not damaged; 0.72 of it is.
    assert_eq!(
        enemy_bar_visibility(false, "skeleton", 0, false, false, false, false),
        EnemyBarVisibility::Hidden
    );
    assert_eq!(
        enemy_bar_visibility(false, "skeleton", 0, false, false, false, true),
        EnemyBarVisibility::Visible
    );
    assert_eq!(
        enemy_bar_visibility(true, "skeleton", 0, false, false, false, false),
        EnemyBarVisibility::Visible
    );
    assert_eq!(
        enemy_bar_visibility(false, "skeleton", 2, false, false, false, false),
        EnemyBarVisibility::Visible
    );
    assert_eq!(
        enemy_bar_visibility(false, "keeper", 0, false, false, false, false),
        EnemyBarVisibility::Visible
    );
}

#[test]
fn controlled_or_phased_enemies_show_their_bars() {
    assert_eq!(
        enemy_bar_visibility(false, "skeleton", 0, true, false, false, false),
        EnemyBarVisibility::Visible
    );
    assert_eq!(
        enemy_bar_visibility(false, "cultist", 0, false, false, true, false),
        EnemyBarVisibility::Visible
    );
    assert_eq!(
        enemy_bar_visibility(false, "treasure_imp", 0, false, false, false, false),
        EnemyBarVisibility::Visible
    );
}
