use open_arpg::feedback::{
    audio_backend_should_attempt, combat_log_event_entry, floating_text_kind, sound_cue_file,
    sound_cue_for_combat_event, AudioBackendStatus, CombatLog, FloatingTextKind, SoundCue,
    LOG_CAPACITY,
};
use open_arpg::game::AudioSettings;

#[test]
fn combat_log_keeps_recent_entries_only() {
    let mut log = CombatLog::default();
    for index in 0..10 {
        log.push(format!("event {index}"));
    }
    let lines = log.lines();
    assert_eq!(lines.len(), LOG_CAPACITY);
    assert_eq!(lines[0], "event 9");
    assert_eq!(lines[LOG_CAPACITY - 1], "event 4");
}

#[test]
fn combat_log_event_filter_keeps_progress_and_drops_transient_spam() {
    let mut log = CombatLog::default();
    for event in [
        "Generated 18 fury",
        "Picked up rare Moonforged Cleaver (+9 damage)",
        "Critical basic hit for 12",
        "Combo Break: Rupture into Nova hit 3 targets +17 fury",
        "Potion restored 45 health",
        "Reap Dash",
        "Main Quest Complete: the Ashen Reliquary is cleansed",
        "HUD mode: clean",
        "Armory 1 saved: Stormcall Reliquary Brand",
    ] {
        log.push_event(event);
    }

    let lines = log.lines();
    assert_eq!(
        lines,
        vec![
            "Armory 1 saved: Stormcall Reliquary Brand",
            "HUD mode: clean",
            "Main Quest Complete: the Ashen Reliquary is cleansed",
        ]
    );
    assert_eq!(combat_log_event_entry("Generated 18 fury"), None);
    assert_eq!(combat_log_event_entry("HUD mode: clean").as_deref(), Some("HUD mode: clean"));
}

#[test]
fn floating_text_kinds_escalate_from_hits_to_boss_kills() {
    assert_eq!(floating_text_kind("20", false), FloatingTextKind::Normal);
    assert_eq!(floating_text_kind("CRIT 35", true), FloatingTextKind::Critical);
    assert_eq!(floating_text_kind("SLAY", false), FloatingTextKind::Slay);
    assert_eq!(floating_text_kind("ELITE SLAY", true), FloatingTextKind::EliteSlay);
    assert_eq!(floating_text_kind("EXECUTE WINDOW", false), FloatingTextKind::EliteSlay);
    assert_eq!(floating_text_kind("BOSS DOWN", true), FloatingTextKind::BossDown);
}

#[test]
fn combat_event_text_maps_to_distinct_sound_cues() {
    assert_eq!(
        sound_cue_for_combat_event("Critical Strike hit for 42"),
        Some(SoundCue::Critical)
    );
    assert_eq!(
        sound_cue_for_combat_event("Desecrator pool hit for 12; burning"),
        Some(SoundCue::Danger)
    );
    assert_eq!(
        sound_cue_for_combat_event("Picked up rare Moonforged Cleaver and 15 gold"),
        Some(SoundCue::Loot)
    );
    assert_eq!(
        sound_cue_for_combat_event("Picked up legendary Soulreaver Reliquary Fang"),
        Some(SoundCue::Critical)
    );
    assert_eq!(
        sound_cue_for_combat_event("AUTO-EQUIP BUILD POWER | PWR +24"),
        Some(SoundCue::Critical)
    );
    assert_eq!(
        sound_cue_for_combat_event("INVENTORY FULL MAKE ROOM | common Iron Fang"),
        Some(SoundCue::Danger)
    );
    assert_eq!(
        sound_cue_for_combat_event(
            "Boss Phase II: BREAK MALREC before enrage 22s | stagger opens EXECUTE WINDOW"
        ),
        Some(SoundCue::Boss)
    );
    assert_eq!(
        sound_cue_for_combat_event("Ashen Enrage: floor burning | Primal cache downgraded"),
        Some(SoundCue::Boss)
    );
    assert_eq!(
        sound_cue_for_combat_event("Potion restored 45 health"),
        Some(SoundCue::Potion)
    );
    assert_eq!(
        sound_cue_for_combat_event("Frost Nova"),
        Some(SoundCue::Skill)
    );
    assert_eq!(
        sound_cue_for_combat_event("Combo Ready: finish Rupture with Dash or Nova"),
        Some(SoundCue::Combo)
    );
    assert_eq!(
        sound_cue_for_combat_event("Combo Break: Rupture into Nova hit 3 targets +17 fury"),
        Some(SoundCue::Combo)
    );
    assert_eq!(
        sound_cue_for_combat_event("Nephalem Surge ready"),
        Some(SoundCue::Combo)
    );
    assert_eq!(
        sound_cue_for_combat_event("Nephalem Surge unleashed"),
        Some(SoundCue::Critical)
    );
    assert_eq!(
        sound_cue_for_combat_event("Nephalem Surge charging 32/60"),
        Some(SoundCue::Utility)
    );
    assert_eq!(
        sound_cue_for_combat_event("Nephalem Surge extended +1.4s"),
        Some(SoundCue::Utility)
    );
    assert_eq!(
        sound_cue_for_combat_event(
            "Ashen pylon: +55% damage, +24% speed, +42 barrier, +38 fury"
        ),
        Some(SoundCue::Critical)
    );
    assert_eq!(
        sound_cue_for_combat_event("Ashen pylon reaping 4/12"),
        Some(SoundCue::Combo)
    );
    assert_eq!(
        sound_cue_for_combat_event("Shrine resonance x2: +16 barrier, +14 fury"),
        Some(SoundCue::Combo)
    );
    assert_eq!(
        sound_cue_for_combat_event("Relic shrine: +35% damage and +18% speed"),
        Some(SoundCue::Skill)
    );
    assert_eq!(
        sound_cue_for_combat_event("Storm shrine: conduit lightning awakened"),
        Some(SoundCue::Skill)
    );
    assert_eq!(
        sound_cue_for_combat_event("Fortune shrine: +50% gold, +25% XP, and better drops"),
        Some(SoundCue::Loot)
    );
    assert_eq!(
        sound_cue_for_combat_event("Sentinel Vanguard command hit 3 for 40"),
        Some(SoundCue::Skill)
    );
    assert_eq!(sound_cue_for_combat_event("Evade"), Some(SoundCue::Skill));
    assert_eq!(
        sound_cue_for_combat_event("Potion recharging 6s"),
        Some(SoundCue::Utility)
    );
    assert_eq!(
        sound_cue_for_combat_event("Dash rune: Reap"),
        Some(SoundCue::Utility)
    );
    assert_eq!(
        sound_cue_for_combat_event("Nova rune: Frost"),
        Some(SoundCue::Utility)
    );
    assert_eq!(
        sound_cue_for_combat_event("Rupture rune: Hemorrhage"),
        Some(SoundCue::Utility)
    );
    assert_eq!(
        sound_cue_for_combat_event("Need 25 fury for dash"),
        Some(SoundCue::Danger)
    );
    assert_eq!(
        sound_cue_for_combat_event("Low life: Ashbone Guard hit for 11"),
        Some(SoundCue::Danger)
    );
    assert_eq!(
        sound_cue_for_combat_event("Ashbone Guard absorbed by ward for 14"),
        Some(SoundCue::Utility)
    );
    assert_eq!(
        sound_cue_for_combat_event("Ashbone Guard evaded"),
        Some(SoundCue::Utility)
    );
    assert_eq!(
        sound_cue_for_combat_event("Soulreaver restored 12 health"),
        Some(SoundCue::Potion)
    );
    assert_eq!(
        sound_cue_for_combat_event("Aegisbrand granted 8 barrier"),
        Some(SoundCue::Potion)
    );
    assert_eq!(
        sound_cue_for_combat_event("Level 2 reached; gained 1 talent point"),
        Some(SoundCue::Critical)
    );
    assert_eq!(
        sound_cue_for_combat_event("Final seal claimed: the Keeper awakens"),
        Some(SoundCue::Boss)
    );
    assert_eq!(
        sound_cue_for_combat_event("BOSS Malrec Awakened | NEXT break stagger, deny enrage"),
        Some(SoundCue::Boss)
    );
    assert_eq!(
        sound_cue_for_combat_event("Reliquary seal restored: Quartermaster reward unlocked"),
        Some(SoundCue::Quest)
    );
    assert_eq!(
        sound_cue_for_combat_event(
            "MAIN Final Seal Claimed | NEXT face Malrec | REWARD essence + boss gate"
        ),
        Some(SoundCue::Quest)
    );
    assert_eq!(
        sound_cue_for_combat_event("Challenge complete: Ashen Vault cleared"),
        Some(SoundCue::Quest)
    );
    assert_eq!(
        sound_cue_for_combat_event(
            "Ember rift opened: defeat six invaders before it collapses"
        ),
        Some(SoundCue::Utility)
    );
    assert_eq!(
        sound_cue_for_combat_event(
            "Ember rift sealed swiftly, Echo Keystone claimed: +80 gold +4 shards +1 essence"
        ),
        Some(SoundCue::Loot)
    );
    assert_eq!(
        sound_cue_for_combat_event("Ember rift collapsed before it was sealed"),
        Some(SoundCue::Danger)
    );
    assert_eq!(
        sound_cue_for_combat_event("Blood obelisk awakened: feed it four kills"),
        Some(SoundCue::Utility)
    );
    assert_eq!(
        sound_cue_for_combat_event("Blood obelisk completed: +70 gold +3 shards +1 essence"),
        Some(SoundCue::Loot)
    );
    assert_eq!(
        sound_cue_for_combat_event("Blood obelisk faded before it was fed"),
        Some(SoundCue::Danger)
    );
    assert_eq!(
        sound_cue_for_combat_event("Quartermaster restocked potions"),
        Some(SoundCue::Loot)
    );
    assert_eq!(
        sound_cue_for_combat_event("Ashbone Guard slain"),
        Some(SoundCue::Death)
    );
    assert_eq!(
        sound_cue_for_combat_event("Strike hit for 20"),
        Some(SoundCue::Hit)
    );
    assert_eq!(sound_cue_for_combat_event("Generated 12 fury"), None);
    assert_eq!(sound_cue_for_combat_event("No combat events yet"), None);
}

#[test]
fn support_sound_cues_use_distinct_audio_files() {
    assert_eq!(sound_cue_file(SoundCue::Skill), "skill.wav");
    assert_eq!(sound_cue_file(SoundCue::Combo), "combo.wav");
    assert_eq!(sound_cue_file(SoundCue::Boss), "boss.wav");
    assert_eq!(sound_cue_file(SoundCue::Quest), "quest.wav");
    assert_eq!(sound_cue_file(SoundCue::Potion), "potion.wav");
    assert_eq!(sound_cue_file(SoundCue::Utility), "utility.wav");
    assert_ne!(
        sound_cue_file(SoundCue::Skill),
        sound_cue_file(SoundCue::Loot)
    );
    assert_ne!(
        sound_cue_file(SoundCue::Potion),
        sound_cue_file(SoundCue::Loot)
    );
    assert_ne!(
        sound_cue_file(SoundCue::Utility),
        sound_cue_file(SoundCue::Loot)
    );
    assert_ne!(
        sound_cue_file(SoundCue::Skill),
        sound_cue_file(SoundCue::Critical)
    );
    assert_ne!(
        sound_cue_file(SoundCue::Combo),
        sound_cue_file(SoundCue::Critical)
    );
    assert_ne!(
        sound_cue_file(SoundCue::Boss),
        sound_cue_file(SoundCue::Danger)
    );
    assert_ne!(
        sound_cue_file(SoundCue::Quest),
        sound_cue_file(SoundCue::Loot)
    );
}

#[test]
fn audio_backend_status_labels_explain_runtime_failures() {
    let enabled = AudioSettings { enabled: true };
    let muted = AudioSettings { enabled: false };

    assert_eq!(AudioBackendStatus::Ready.status_label(&enabled), "audio on");
    assert_eq!(
        AudioBackendStatus::NoOutputDevice.status_label(&enabled),
        "audio no device"
    );
    assert_eq!(
        AudioBackendStatus::ThreadFailed.status_label(&enabled),
        "audio thread failed"
    );
    assert_eq!(
        AudioBackendStatus::Ready.status_label(&muted),
        "audio muted"
    );
}

#[test]
fn audio_backend_retry_policy_recovers_after_failed_start_without_spam() {
    let enabled = AudioSettings { enabled: true };
    let muted = AudioSettings { enabled: false };

    assert!(!audio_backend_should_attempt(
        &muted,
        AudioBackendStatus::NoOutputDevice,
        false,
        true,
        true
    ));
    assert!(!audio_backend_should_attempt(
        &enabled,
        AudioBackendStatus::Ready,
        true,
        false,
        true
    ));
    assert!(audio_backend_should_attempt(
        &enabled,
        AudioBackendStatus::Starting,
        false,
        false,
        false
    ));
    assert!(audio_backend_should_attempt(
        &enabled,
        AudioBackendStatus::Muted,
        false,
        true,
        false
    ));
    assert!(!audio_backend_should_attempt(
        &enabled,
        AudioBackendStatus::NoOutputDevice,
        false,
        false,
        false
    ));
    assert!(audio_backend_should_attempt(
        &enabled,
        AudioBackendStatus::NoOutputDevice,
        false,
        false,
        true
    ));
    assert!(audio_backend_should_attempt(
        &enabled,
        AudioBackendStatus::ThreadFailed,
        false,
        false,
        true
    ));
}
