use open_arpg::milestone::{all_milestones, milestone_summary, MilestoneId, Milestones};

#[test]
fn vault_milestone_has_distinct_title_and_summary() {
    let mut milestones = Milestones::default();

    assert!(milestones.unlock(MilestoneId::VaultOpened));

    assert!(milestones.latest.contains("Resplendent Vault"));
    assert!(milestone_summary(&milestones).contains("resplendent reliquary vault"));
    assert!(all_milestones().contains(&MilestoneId::VaultOpened));
}

#[test]
fn treasure_fiend_milestone_has_distinct_title_and_summary() {
    let mut milestones = Milestones::default();

    assert!(milestones.unlock(MilestoneId::TreasureFiend));

    assert!(milestones.latest.contains("Treasure Fiend"));
    assert!(milestone_summary(&milestones).contains("treasure imp"));
    assert!(all_milestones().contains(&MilestoneId::TreasureFiend));
}

#[test]
fn healing_well_milestone_has_distinct_title_and_summary() {
    let mut milestones = Milestones::default();

    assert!(milestones.unlock(MilestoneId::HealingWell));

    assert!(milestones.latest.contains("Renewal Well"));
    assert!(milestone_summary(&milestones).contains("renewal well"));
    assert!(all_milestones().contains(&MilestoneId::HealingWell));
}

#[test]
fn ashen_pylon_milestone_has_distinct_title_and_summary() {
    let mut milestones = Milestones::default();

    assert!(milestones.unlock(MilestoneId::AshenPylon));

    assert!(milestones.latest.contains("Ashen Pylon"));
    assert!(milestone_summary(&milestones).contains("Overloaded"));
    assert!(all_milestones().contains(&MilestoneId::AshenPylon));
}

#[test]
fn codex_archivist_milestone_has_distinct_title_and_summary() {
    let mut milestones = Milestones::default();

    assert!(milestones.unlock(MilestoneId::CodexArchivist));

    assert!(milestones.latest.contains("Codex Archivist"));
    assert!(milestone_summary(&milestones).contains("legendary codex power"));
    assert!(all_milestones().contains(&MilestoneId::CodexArchivist));
}

#[test]
fn codex_adept_milestone_has_distinct_title_and_summary() {
    let mut milestones = Milestones::default();

    assert!(milestones.unlock(MilestoneId::CodexAdept));

    assert!(milestones.latest.contains("Codex Adept"));
    assert!(milestone_summary(&milestones).contains("attuned codex power"));
    assert!(all_milestones().contains(&MilestoneId::CodexAdept));
}

#[test]
fn set_resonance_milestone_has_distinct_title_and_summary() {
    let mut milestones = Milestones::default();

    assert!(milestones.unlock(MilestoneId::SetResonance));

    assert!(milestones.latest.contains("Set Resonance"));
    assert!(milestone_summary(&milestones).contains("themed weapon and charm"));
    assert!(all_milestones().contains(&MilestoneId::SetResonance));
}

#[test]
fn set_adept_milestone_has_distinct_title_and_summary() {
    let mut milestones = Milestones::default();

    assert!(milestones.unlock(MilestoneId::SetAdept));

    assert!(milestones.latest.contains("Set Adept"));
    assert!(milestone_summary(&milestones).contains("themed set resonance"));
    assert!(all_milestones().contains(&MilestoneId::SetAdept));
}

#[test]
fn ancient_weapon_milestone_has_distinct_title_and_summary() {
    let mut milestones = Milestones::default();

    assert!(milestones.unlock(MilestoneId::AncientWeapon));

    assert!(milestones.latest.contains("Ancient Weapon"));
    assert!(milestone_summary(&milestones).contains("ancient weapon"));
    assert!(all_milestones().contains(&MilestoneId::AncientWeapon));
}

#[test]
fn ancient_augment_milestone_has_distinct_title_and_summary() {
    let mut milestones = Milestones::default();

    assert!(milestones.unlock(MilestoneId::AncientAugment));

    assert!(milestones.latest.contains("Ancient Augment"));
    assert!(milestone_summary(&milestones).contains("ancient augment"));
    assert!(all_milestones().contains(&MilestoneId::AncientAugment));
}

#[test]
fn primal_infusion_milestone_has_distinct_title_and_summary() {
    let mut milestones = Milestones::default();

    assert!(milestones.unlock(MilestoneId::PrimalInfusion));

    assert!(milestones.latest.contains("Primal Infusion"));
    assert!(milestone_summary(&milestones).contains("Primal-infused"));
    assert!(all_milestones().contains(&MilestoneId::PrimalInfusion));
}

#[test]
fn master_gemcutter_milestone_has_distinct_title_and_summary() {
    let mut milestones = Milestones::default();

    assert!(milestones.unlock(MilestoneId::MasterGemcutter));

    assert!(milestones.latest.contains("Master Gemcutter"));
    assert!(milestone_summary(&milestones).contains("rank 5 socketed gem"));
    assert!(all_milestones().contains(&MilestoneId::MasterGemcutter));
}

#[test]
fn gem_resonance_milestone_has_distinct_title_and_summary() {
    let mut milestones = Milestones::default();

    assert!(milestones.unlock(MilestoneId::GemResonance));

    assert!(milestones.latest.contains("Gem Resonance"));
    assert!(milestone_summary(&milestones).contains("rank 3 resonant"));
    assert!(all_milestones().contains(&MilestoneId::GemResonance));
}

#[test]
fn gem_adept_milestone_has_distinct_title_and_summary() {
    let mut milestones = Milestones::default();

    assert!(milestones.unlock(MilestoneId::GemAdept));

    assert!(milestones.latest.contains("Gem Adept"));
    assert!(milestone_summary(&milestones).contains("ruby, emerald, amethyst, and topaz"));
    assert!(all_milestones().contains(&MilestoneId::GemAdept));
}

#[test]
fn battle_trance_milestone_has_distinct_title_and_summary() {
    let mut milestones = Milestones::default();

    assert!(milestones.unlock(MilestoneId::BattleTrance));

    assert!(milestones.latest.contains("Battle Trance"));
    assert!(milestone_summary(&milestones).contains("full Valor"));
    assert!(all_milestones().contains(&MilestoneId::BattleTrance));
}

#[test]
fn treasure_vault_milestone_has_distinct_title_and_summary() {
    let mut milestones = Milestones::default();

    assert!(milestones.unlock(MilestoneId::TreasureVault));

    assert!(milestones.latest.contains("Treasure Vault"));
    assert!(milestone_summary(&milestones).contains("reliquary vault"));
    assert!(all_milestones().contains(&MilestoneId::TreasureVault));
}

#[test]
fn carnage_master_milestone_has_distinct_title_and_summary() {
    let mut milestones = Milestones::default();

    assert!(milestones.unlock(MilestoneId::CarnageMaster));

    assert!(milestones.latest.contains("Carnage Master"));
    assert!(milestone_summary(&milestones).contains("ten-kill massacre"));
    assert!(all_milestones().contains(&MilestoneId::CarnageMaster));
}

#[test]
fn surge_mastery_milestone_has_distinct_title_and_summary() {
    let mut milestones = Milestones::default();

    assert!(milestones.unlock(MilestoneId::SurgeMastery));

    assert!(milestones.latest.contains("Surge Mastery"));
    assert!(milestone_summary(&milestones).contains("Nephalem Surge"));
    assert!(all_milestones().contains(&MilestoneId::SurgeMastery));
}

#[test]
fn rune_weaver_milestone_has_distinct_title_and_summary() {
    let mut milestones = Milestones::default();

    assert!(milestones.unlock(MilestoneId::RuneWeaver));

    assert!(milestones.latest.contains("Rune Weaver"));
    assert!(milestone_summary(&milestones).contains("Reap"));
    assert!(all_milestones().contains(&MilestoneId::RuneWeaver));
}

#[test]
fn armory_adept_milestone_has_distinct_title_and_summary() {
    let mut milestones = Milestones::default();

    assert!(milestones.unlock(MilestoneId::ArmoryAdept));

    assert!(milestones.latest.contains("Armory Adept"));
    assert!(milestone_summary(&milestones).contains("three armory loadouts"));
    assert!(all_milestones().contains(&MilestoneId::ArmoryAdept));
}

#[test]
fn portal_wayfarer_milestone_has_distinct_title_and_summary() {
    let mut milestones = Milestones::default();

    assert!(milestones.unlock(MilestoneId::PortalWayfarer));

    assert!(milestones.latest.contains("Portal Wayfarer"));
    assert!(milestone_summary(&milestones).contains("town portal"));
    assert!(all_milestones().contains(&MilestoneId::PortalWayfarer));
}

#[test]
fn glory_seeker_milestone_has_distinct_title_and_summary() {
    let mut milestones = Milestones::default();

    assert!(milestones.unlock(MilestoneId::GlorySeeker));

    assert!(milestones.latest.contains("Glory Seeker"));
    assert!(milestone_summary(&milestones).contains("health globes"));
    assert!(all_milestones().contains(&MilestoneId::GlorySeeker));
}

#[test]
fn pylon_reaper_milestone_has_distinct_title_and_summary() {
    let mut milestones = Milestones::default();

    assert!(milestones.unlock(MilestoneId::PylonReaper));

    assert!(milestones.latest.contains("Pylon Reaper"));
    assert!(milestone_summary(&milestones).contains("Ashen Pylon"));
    assert!(all_milestones().contains(&MilestoneId::PylonReaper));
}

#[test]
fn boss_breaker_milestone_has_distinct_title_and_summary() {
    let mut milestones = Milestones::default();

    assert!(milestones.unlock(MilestoneId::BossBreaker));

    assert!(milestones.latest.contains("Boss Breaker"));
    assert!(milestone_summary(&milestones).contains("Malrec"));
    assert!(all_milestones().contains(&MilestoneId::BossBreaker));
}

#[test]
fn soul_sigil_milestone_has_distinct_title_and_summary() {
    let mut milestones = Milestones::default();

    assert!(milestones.unlock(MilestoneId::SoulSigil));

    assert!(milestones.latest.contains("Malrec Soul Sigil"));
    assert!(milestone_summary(&milestones).contains("Soul Sigil"));
    assert!(all_milestones().contains(&MilestoneId::SoulSigil));
}

#[test]
fn trophy_cache_milestone_has_distinct_title_and_summary() {
    let mut milestones = Milestones::default();

    assert!(milestones.unlock(MilestoneId::TrophyCache));

    assert!(milestones.latest.contains("Malrec Trophy Cache"));
    assert!(milestone_summary(&milestones).contains("Trophy Cache"));
    assert!(all_milestones().contains(&MilestoneId::TrophyCache));
}

#[test]
fn primal_cache_milestone_has_distinct_title_and_summary() {
    let mut milestones = Milestones::default();

    assert!(milestones.unlock(MilestoneId::PrimalCache));

    assert!(milestones.latest.contains("Primal Ember Cache"));
    assert!(milestone_summary(&milestones).contains("Primal Ember Cache"));
    assert!(all_milestones().contains(&MilestoneId::PrimalCache));
}

#[test]
fn breaker_milestone_has_distinct_title_and_summary() {
    let mut milestones = Milestones::default();

    assert!(milestones.unlock(MilestoneId::Breaker));

    assert!(milestones.latest.contains("Breaker"));
    assert!(milestone_summary(&milestones).contains("reliquary urn"));
    assert!(all_milestones().contains(&MilestoneId::Breaker));
}

#[test]
fn shrine_resonance_milestone_has_distinct_title_and_summary() {
    let mut milestones = Milestones::default();

    assert!(milestones.unlock(MilestoneId::ShrineResonance));

    assert!(milestones.latest.contains("Shrine Resonance"));
    assert!(milestone_summary(&milestones).contains("overlapping blessings"));
    assert!(all_milestones().contains(&MilestoneId::ShrineResonance));
}

#[test]
fn shrinekeeper_milestone_has_distinct_title_and_summary() {
    let mut milestones = Milestones::default();

    assert!(milestones.unlock(MilestoneId::Shrinekeeper));

    assert!(milestones.latest.contains("Shrinekeeper"));
    assert!(milestone_summary(&milestones).contains("every reliquary shrine"));
    assert!(all_milestones().contains(&MilestoneId::Shrinekeeper));
}

#[test]
fn affix_hunter_milestone_has_distinct_title_and_summary() {
    let mut milestones = Milestones::default();

    assert!(milestones.unlock(MilestoneId::AffixHunter));

    assert!(milestones.latest.contains("Affix Hunter"));
    assert!(milestone_summary(&milestones).contains("multi-affix elite"));
    assert!(all_milestones().contains(&MilestoneId::AffixHunter));
}

#[test]
fn affix_codex_milestone_has_distinct_title_and_summary() {
    let mut milestones = Milestones::default();

    assert!(milestones.unlock(MilestoneId::AffixCodex));

    assert!(milestones.latest.contains("Affix Codex"));
    assert!(milestone_summary(&milestones).contains("six distinct elite affixes"));
    assert!(all_milestones().contains(&MilestoneId::AffixCodex));
}

#[test]
fn seal_warden_milestone_has_distinct_title_and_summary() {
    let mut milestones = Milestones::default();

    assert!(milestones.unlock(MilestoneId::SealWarden));

    assert!(milestones.latest.contains("Seal Warden"));
    assert!(milestone_summary(&milestones).contains("inner sanctum"));
    assert!(all_milestones().contains(&MilestoneId::SealWarden));
}

#[test]
fn ashen_threat_milestone_has_distinct_title_and_summary() {
    let mut milestones = Milestones::default();

    assert!(milestones.unlock(MilestoneId::AshenThreat));

    assert!(milestones.latest.contains("Ashen Threat"));
    assert!(milestone_summary(&milestones).contains("three Ashen Threat surges"));
    assert!(all_milestones().contains(&MilestoneId::AshenThreat));
}

#[test]
fn champion_pack_milestone_has_distinct_title_and_summary() {
    let mut milestones = Milestones::default();

    assert!(milestones.unlock(MilestoneId::ChampionPack));

    assert!(milestones.latest.contains("Champion Pack"));
    assert!(milestone_summary(&milestones).contains("roaming champion pack"));
    assert!(all_milestones().contains(&MilestoneId::ChampionPack));
}

#[test]
fn cursed_pact_milestone_has_distinct_title_and_summary() {
    let mut milestones = Milestones::default();

    assert!(milestones.unlock(MilestoneId::CursedPact));

    assert!(milestones.latest.contains("Cursed Pact"));
    assert!(milestone_summary(&milestones).contains("cursed shrine ambusher"));
    assert!(all_milestones().contains(&MilestoneId::CursedPact));
}

#[test]
fn ember_paragon_milestone_has_distinct_title_and_summary() {
    let mut milestones = Milestones::default();

    assert!(milestones.unlock(MilestoneId::EmberParagon));

    assert!(milestones.latest.contains("Ember Paragon"));
    assert!(milestone_summary(&milestones).contains("Ember Paragon rank"));
    assert!(all_milestones().contains(&MilestoneId::EmberParagon));
}

#[test]
fn talent_adept_milestone_has_distinct_title_and_summary() {
    let mut milestones = Milestones::default();

    assert!(milestones.unlock(MilestoneId::TalentAdept));

    assert!(milestones.latest.contains("Talent Adept"));
    assert!(milestone_summary(&milestones).contains("Wrath"));
    assert!(all_milestones().contains(&MilestoneId::TalentAdept));
}

#[test]
fn quartermaster_patron_milestone_has_distinct_title_and_summary() {
    let mut milestones = Milestones::default();

    assert!(milestones.unlock(MilestoneId::QuartermasterPatron));

    assert!(milestones.latest.contains("Quartermaster Patron"));
    assert!(milestone_summary(&milestones).contains("potion belt"));
    assert!(all_milestones().contains(&MilestoneId::QuartermasterPatron));
}

#[test]
fn alchemist_milestone_has_distinct_title_and_summary() {
    let mut milestones = Milestones::default();

    assert!(milestones.unlock(MilestoneId::Alchemist));

    assert!(milestones.latest.contains("Alchemist"));
    assert!(milestone_summary(&milestones).contains("iron, wrath, and haste elixirs"));
    assert!(all_milestones().contains(&MilestoneId::Alchemist));
}

#[test]
fn ashen_alchemy_milestone_has_distinct_title_and_summary() {
    let mut milestones = Milestones::default();

    assert!(milestones.unlock(MilestoneId::AshenAlchemy));

    assert!(milestones.latest.contains("Ashen Alchemy"));
    assert!(milestone_summary(&milestones).contains("keystone transmutations"));
    assert!(all_milestones().contains(&MilestoneId::AshenAlchemy));
}

#[test]
fn loot_curator_milestone_has_distinct_title_and_summary() {
    let mut milestones = Milestones::default();

    assert!(milestones.unlock(MilestoneId::LootCurator));

    assert!(milestones.latest.contains("Loot Curator"));
    assert!(milestone_summary(&milestones).contains("loot filter"));
    assert!(all_milestones().contains(&MilestoneId::LootCurator));
}

#[test]
fn last_stand_milestone_has_distinct_title_and_summary() {
    let mut milestones = Milestones::default();

    assert!(milestones.unlock(MilestoneId::LastStand));

    assert!(milestones.latest.contains("Last Stand"));
    assert!(milestone_summary(&milestones).contains("30% health"));
    assert!(all_milestones().contains(&MilestoneId::LastStand));
}

#[test]
fn salvage_cache_milestone_has_distinct_title_and_summary() {
    let mut milestones = Milestones::default();

    assert!(milestones.unlock(MilestoneId::SalvageCache));

    assert!(milestones.latest.contains("Salvage Cache"));
    assert!(milestone_summary(&milestones).contains("quartermaster cache"));
    assert!(all_milestones().contains(&MilestoneId::SalvageCache));
}

#[test]
fn ember_rift_milestone_has_distinct_title_and_summary() {
    let mut milestones = Milestones::default();

    assert!(milestones.unlock(MilestoneId::EmberRift));

    assert!(milestones.latest.contains("Ember Rift"));
    assert!(milestone_summary(&milestones).contains("Ember Rift invasion"));
    assert!(all_milestones().contains(&MilestoneId::EmberRift));
}

#[test]
fn riftbreaker_milestone_has_distinct_title_and_summary() {
    let mut milestones = Milestones::default();

    assert!(milestones.unlock(MilestoneId::Riftbreaker));

    assert!(milestones.latest.contains("Riftbreaker"));
    assert!(milestone_summary(&milestones).contains("30 seconds"));
    assert!(all_milestones().contains(&MilestoneId::Riftbreaker));
}

#[test]
fn reliquary_seal_milestone_has_distinct_title_and_summary() {
    let mut milestones = Milestones::default();

    assert!(milestones.unlock(MilestoneId::ReliquarySeal));

    assert!(milestones.latest.contains("Reliquary Seal"));
    assert!(milestone_summary(&milestones).contains("vault, blood obelisk, and Ember Rift"));
    assert!(all_milestones().contains(&MilestoneId::ReliquarySeal));
}

#[test]
fn ashen_duel_milestone_has_distinct_title_and_summary() {
    let mut milestones = Milestones::default();

    assert!(milestones.unlock(MilestoneId::AshenDuel));

    assert!(milestones.latest.contains("Ashen Duel"));
    assert!(milestone_summary(&milestones).contains("before Ashen Enrage"));
    assert!(all_milestones().contains(&MilestoneId::AshenDuel));
}

#[test]
fn sentinel_veteran_milestone_has_distinct_title_and_summary() {
    let mut milestones = Milestones::default();

    assert!(milestones.unlock(MilestoneId::SentinelVeteran));

    assert!(milestones.latest.contains("Sentinel Veteran"));
    assert!(milestone_summary(&milestones).contains("Reliquary Sentinel"));
    assert!(all_milestones().contains(&MilestoneId::SentinelVeteran));
}

#[test]
fn boonbound_milestone_has_distinct_title_and_summary() {
    let mut milestones = Milestones::default();

    assert!(milestones.unlock(MilestoneId::Boonbound));

    assert!(milestones.latest.contains("Boonbound"));
    assert!(milestone_summary(&milestones).contains("Reliquary Boon"));
    assert!(all_milestones().contains(&MilestoneId::Boonbound));
}

#[test]
fn every_milestone_title_is_its_own() {
    let all = all_milestones();
    for (i, a) in all.iter().enumerate() {
        assert!(!a.title().is_empty());
        for b in all.iter().skip(i + 1) {
            assert_ne!(a.title(), b.title());
        }
    }
}
