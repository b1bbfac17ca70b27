//! Chapter milestones: what each one is called, which are unlocked, and the
//! rules that unlock them as the run goes on.
use vstd::prelude::*;
use crate::game::{
    RunStats, AFFIX_CODEX_TARGET, ASHEN_THREAT_SURGE_TARGET, BOSS_BREAK_TARGET, CARNAGE_MASTER_STREAK,
    CHAMPION_PACK_TARGET, CODEX_ADEPT_KILLS, GEM_ADEPT_KINDS, GLORY_SEEKER_GLOBES,
    LAST_STAND_POTIONS, SET_ADEPT_KILLS,
};
use crate::text::{decimal, push_decimal, push_decimal_usize, chars_of, chars_are};
use crate::world::InteractableKind;

verus! {

/// Number of distinct milestones.
pub const MILESTONE_COUNT: usize = 63;

/// Every milestone of a chapter.
#[derive(Clone, Copy, Debug, PartialEq, Eq, Structural)]
pub enum MilestoneId {
    CacheOpened,
    VaultOpened,
    Breaker,
    RelicEmpowered,
    FortuneBlessed,
    StormConduit,
    ShrineResonance,
    Shrinekeeper,
    AffixHunter,
    AffixCodex,
    SealWarden,
    AshenThreat,
    ChampionPack,
    AshenPylon,
    HealingWell,
    CursedShrine,
    CursedPact,
    BloodObelisk,
    EmberRift,
    Riftbreaker,
    ReliquarySeal,
    TreasureFiend,
    TreasureVault,
    BountyCompleted,
    Lorekeeper,
    EmberParagon,
    TalentAdept,
    QuartermasterPatron,
    Alchemist,
    AshenAlchemy,
    LootCurator,
    LastStand,
    SalvageCache,
    SentinelVeteran,
    Boonbound,
    TemperedSteel,
    LegendaryFound,
    AncientWeapon,
    AncientAugment,
    PrimalInfusion,
    GemResonance,
    MasterGemcutter,
    GemAdept,
    SetResonance,
    SetAdept,
    CodexAdept,
    CodexArchivist,
    Massacre,
    CarnageMaster,
    BattleTrance,
    SurgeMastery,
    RuneWeaver,
    ArmoryAdept,
    PortalWayfarer,
    GlorySeeker,
    PylonReaper,
    BossBreaker,
    SoulSigil,
    TrophyCache,
    PrimalCache,
    NemesisSlain,
    AshenDuel,
    BossSlain,
}

impl MilestoneId {
    /// The milestone's title.
    pub open spec fn spec_title(self) -> Seq<char> {
        match self {
            MilestoneId::CacheOpened => "Reliquary Cache"@,
            MilestoneId::VaultOpened => "Resplendent Vault"@,
            MilestoneId::Breaker => "Breaker"@,
            MilestoneId::RelicEmpowered => "Relic Blade"@,
            MilestoneId::FortuneBlessed => "Fortune Shrine"@,
            MilestoneId::StormConduit => "Storm Conduit"@,
            MilestoneId::ShrineResonance => "Shrine Resonance"@,
            MilestoneId::Shrinekeeper => "Shrinekeeper"@,
            MilestoneId::AffixHunter => "Affix Hunter"@,
            MilestoneId::AffixCodex => "Affix Codex"@,
            MilestoneId::SealWarden => "Seal Warden"@,
            MilestoneId::AshenThreat => "Ashen Threat"@,
            MilestoneId::ChampionPack => "Champion Pack"@,
            MilestoneId::AshenPylon => "Ashen Pylon"@,
            MilestoneId::HealingWell => "Renewal Well"@,
            MilestoneId::CursedShrine => "Blood Price"@,
            MilestoneId::CursedPact => "Cursed Pact"@,
            MilestoneId::BloodObelisk => "Blood Obelisk"@,
            MilestoneId::EmberRift => "Ember Rift"@,
            MilestoneId::Riftbreaker => "Riftbreaker"@,
            MilestoneId::ReliquarySeal => "Reliquary Seal"@,
            MilestoneId::TreasureFiend => "Treasure Fiend"@,
            MilestoneId::TreasureVault => "Treasure Vault"@,
            MilestoneId::BountyCompleted => "Reliquary Bounty"@,
            MilestoneId::Lorekeeper => "Lorekeeper"@,
            MilestoneId::EmberParagon => "Ember Paragon"@,
            MilestoneId::TalentAdept => "Talent Adept"@,
            MilestoneId::QuartermasterPatron => "Quartermaster Patron"@,
            MilestoneId::Alchemist => "Alchemist"@,
            MilestoneId::AshenAlchemy => "Ashen Alchemy"@,
            MilestoneId::LootCurator => "Loot Curator"@,
            MilestoneId::LastStand => "Last Stand"@,
            MilestoneId::SalvageCache => "Salvage Cache"@,
            MilestoneId::SentinelVeteran => "Sentinel Veteran"@,
            MilestoneId::Boonbound => "Boonbound"@,
            MilestoneId::TemperedSteel => "Tempered Steel"@,
            MilestoneId::LegendaryFound => "Legendary Power"@,
            MilestoneId::AncientWeapon => "Ancient Weapon"@,
            MilestoneId::AncientAugment => "Ancient Augment"@,
            MilestoneId::PrimalInfusion => "Primal Infusion"@,
            MilestoneId::GemResonance => "Gem Resonance"@,
            MilestoneId::MasterGemcutter => "Master Gemcutter"@,
            MilestoneId::GemAdept => "Gem Adept"@,
            MilestoneId::SetResonance => "Set Resonance"@,
            MilestoneId::SetAdept => "Set Adept"@,
            MilestoneId::CodexAdept => "Codex Adept"@,
            MilestoneId::CodexArchivist => "Codex Archivist"@,
            MilestoneId::Massacre => "Massacre"@,
            MilestoneId::CarnageMaster => "Carnage Master"@,
            MilestoneId::BattleTrance => "Battle Trance"@,
            MilestoneId::SurgeMastery => "Surge Mastery"@,
            MilestoneId::RuneWeaver => "Rune Weaver"@,
            MilestoneId::ArmoryAdept => "Armory Adept"@,
            MilestoneId::PortalWayfarer => "Portal Wayfarer"@,
            MilestoneId::GlorySeeker => "Glory Seeker"@,
            MilestoneId::PylonReaper => "Pylon Reaper"@,
            MilestoneId::BossBreaker => "Boss Breaker"@,
            MilestoneId::SoulSigil => "Malrec Soul Sigil"@,
            MilestoneId::TrophyCache => "Malrec Trophy Cache"@,
            MilestoneId::PrimalCache => "Primal Ember Cache"@,
            MilestoneId::NemesisSlain => "Nemesis Slain"@,
            MilestoneId::AshenDuel => "Ashen Duel"@,
            MilestoneId::BossSlain => "Keeper Slain"@,
        }
    }

    /// The one-line account of what the milestone took.
    pub open spec fn spec_summary(self) -> Seq<char> {
        match self {
            MilestoneId::CacheOpened => "Opened the sealed cache"@,
            MilestoneId::VaultOpened => "Opened the resplendent reliquary vault"@,
            MilestoneId::Breaker => "Smashed every reliquary urn and offering box"@,
            MilestoneId::RelicEmpowered => "Claimed the relic shrine buff"@,
            MilestoneId::FortuneBlessed => "Claimed the gilded fortune blessing"@,
            MilestoneId::StormConduit => "Awakened the storm conduit shrine"@,
            MilestoneId::ShrineResonance => "Triggered shrine resonance from overlapping blessings"@,
            MilestoneId::Shrinekeeper => "Activated every reliquary shrine and pylon"@,
            MilestoneId::AffixHunter => "Slew three multi-affix elite enemies"@,
            MilestoneId::AffixCodex => "Catalogued six distinct elite affixes"@,
            MilestoneId::SealWarden => "Defeated Seal Warden Vhal in the inner sanctum"@,
            MilestoneId::AshenThreat => "Triggered three Ashen Threat surges"@,
            MilestoneId::ChampionPack => "Broke the roaming champion pack"@,
            MilestoneId::AshenPylon => "Overloaded the Ashen Pylon"@,
            MilestoneId::HealingWell => "Restored at the renewal well"@,
            MilestoneId::CursedShrine => "Survived the cursed shrine bargain"@,
            MilestoneId::CursedPact => "Slew every cursed shrine ambusher"@,
            MilestoneId::BloodObelisk => "Completed the obelisk kill rite"@,
            MilestoneId::EmberRift => "Sealed the Ember Rift invasion"@,
            MilestoneId::Riftbreaker => "Sealed the Ember Rift with 30 seconds remaining"@,
            MilestoneId::ReliquarySeal => "Completed the vault, blood obelisk, and Ember Rift"@,
            MilestoneId::TreasureFiend => "Caught the reliquary treasure imp before it escaped"@,
            MilestoneId::TreasureVault => "Opened the treasure imp's reliquary vault"@,
            MilestoneId::BountyCompleted => "Completed an optional bounty"@,
            MilestoneId::Lorekeeper => "Recovered every lore page"@,
            MilestoneId::EmberParagon => "Earned an Ember Paragon rank"@,
            MilestoneId::TalentAdept => "Invested in Wrath, Vigor, and Focus"@,
            MilestoneId::QuartermasterPatron => "Upgraded stash, potion belt, and elixir belt"@,
            MilestoneId::Alchemist => "Used iron, wrath, and haste elixirs"@,
            MilestoneId::AshenAlchemy => "Completed gold, essence, and keystone transmutations"@,
            MilestoneId::LootCurator => "Cycled the loot filter through three tiers"@,
            MilestoneId::LastStand => "Drank three potions while below 30% health"@,
            MilestoneId::SalvageCache => "Earned a quartermaster cache from spare gear"@,
            MilestoneId::SentinelVeteran => "Raised the Reliquary Sentinel to rank 3"@,
            MilestoneId::Boonbound => "Claimed a Reliquary Boon"@,
            MilestoneId::TemperedSteel => "Tempered a weapon at the quartermaster"@,
            MilestoneId::LegendaryFound => "Equipped a legendary power"@,
            MilestoneId::AncientWeapon => "Equipped an ancient weapon"@,
            MilestoneId::AncientAugment => "Applied an ancient augment"@,
            MilestoneId::PrimalInfusion => "Primal-infused an ancient weapon"@,
            MilestoneId::GemResonance => "Equipped a rank 3 resonant socketed gem"@,
            MilestoneId::MasterGemcutter => "Equipped a rank 5 socketed gem"@,
            MilestoneId::GemAdept => "Socketed ruby, emerald, amethyst, and topaz gems"@,
            MilestoneId::SetResonance => "Equipped a themed weapon and charm resonance"@,
            MilestoneId::SetAdept => "Slew enemies while a themed set resonance was active"@,
            MilestoneId::CodexAdept => "Slew enemies with an attuned codex power"@,
            MilestoneId::CodexArchivist => "Unlocked every legendary codex power"@,
            MilestoneId::Massacre => "Chained a five-kill massacre"@,
            MilestoneId::CarnageMaster => "Chained a ten-kill massacre"@,
            MilestoneId::BattleTrance => "Reached full Valor during a massacre run"@,
            MilestoneId::SurgeMastery => "Extended Nephalem Surge through three kills"@,
            MilestoneId::RuneWeaver => "Landed Reap, Hemorrhage, and Frost rune hits"@,
            MilestoneId::ArmoryAdept => "Saved three armory loadouts"@,
            MilestoneId::PortalWayfarer => "Returned to the fight through town portal"@,
            MilestoneId::GlorySeeker => "Collected three health globes for Glory"@,
            MilestoneId::PylonReaper => "Slew three enemies during Ashen Pylon overload"@,
            MilestoneId::BossBreaker => "Broke Malrec's stagger twice"@,
            MilestoneId::SoulSigil => "Recovered a Malrec Soul Sigil"@,
            MilestoneId::TrophyCache => "Opened a Malrec trophy cache"@,
            MilestoneId::PrimalCache => "Claimed a Primal Ember Cache on Torment"@,
            MilestoneId::NemesisSlain => "Defeated an ashbound nemesis"@,
            MilestoneId::AshenDuel => "Defeated Malrec before Ashen Enrage"@,
            MilestoneId::BossSlain => "Defeated Malrec, Keeper of Ash"@,
        }
    }

    /// The milestone's title.
    pub fn title(self) -> (r: &'static str)
        ensures
            r@ == self.spec_title(),
    {
        match self {
            MilestoneId::CacheOpened => "Reliquary Cache",
            MilestoneId::VaultOpened => "Resplendent Vault",
            MilestoneId::Breaker => "Breaker",
            MilestoneId::RelicEmpowered => "Relic Blade",
            MilestoneId::FortuneBlessed => "Fortune Shrine",
            MilestoneId::StormConduit => "Storm Conduit",
            MilestoneId::ShrineResonance => "Shrine Resonance",
            MilestoneId::Shrinekeeper => "Shrinekeeper",
            MilestoneId::AffixHunter => "Affix Hunter",
            MilestoneId::AffixCodex => "Affix Codex",
            MilestoneId::SealWarden => "Seal Warden",
            MilestoneId::AshenThreat => "Ashen Threat",
            MilestoneId::ChampionPack => "Champion Pack",
            MilestoneId::AshenPylon => "Ashen Pylon",
            MilestoneId::HealingWell => "Renewal Well",
            MilestoneId::CursedShrine => "Blood Price",
            MilestoneId::CursedPact => "Cursed Pact",
            MilestoneId::BloodObelisk => "Blood Obelisk",
            MilestoneId::EmberRift => "Ember Rift",
            MilestoneId::Riftbreaker => "Riftbreaker",
            MilestoneId::ReliquarySeal => "Reliquary Seal",
            MilestoneId::TreasureFiend => "Treasure Fiend",
            MilestoneId::TreasureVault => "Treasure Vault",
            MilestoneId::BountyCompleted => "Reliquary Bounty",
            MilestoneId::Lorekeeper => "Lorekeeper",
            MilestoneId::EmberParagon => "Ember Paragon",
            MilestoneId::TalentAdept => "Talent Adept",
            MilestoneId::QuartermasterPatron => "Quartermaster Patron",
            MilestoneId::Alchemist => "Alchemist",
            MilestoneId::AshenAlchemy => "Ashen Alchemy",
            MilestoneId::LootCurator => "Loot Curator",
            MilestoneId::LastStand => "Last Stand",
            MilestoneId::SalvageCache => "Salvage Cache",
            MilestoneId::SentinelVeteran => "Sentinel Veteran",
            MilestoneId::Boonbound => "Boonbound",
            MilestoneId::TemperedSteel => "Tempered Steel",
            MilestoneId::LegendaryFound => "Legendary Power",
            MilestoneId::AncientWeapon => "Ancient Weapon",
            MilestoneId::AncientAugment => "Ancient Augment",
            MilestoneId::PrimalInfusion => "Primal Infusion",
            MilestoneId::GemResonance => "Gem Resonance",
            MilestoneId::MasterGemcutter => "Master Gemcutter",
            MilestoneId::GemAdept => "Gem Adept",
            MilestoneId::SetResonance => "Set Resonance",
            MilestoneId::SetAdept => "Set Adept",
            MilestoneId::CodexAdept => "Codex Adept",
            MilestoneId::CodexArchivist => "Codex Archivist",
            MilestoneId::Massacre => "Massacre",
            MilestoneId::CarnageMaster => "Carnage Master",
            MilestoneId::BattleTrance => "Battle Trance",
            MilestoneId::SurgeMastery => "Surge Mastery",
            MilestoneId::RuneWeaver => "Rune Weaver",
            MilestoneId::ArmoryAdept => "Armory Adept",
            MilestoneId::PortalWayfarer => "Portal Wayfarer",
            MilestoneId::GlorySeeker => "Glory Seeker",
            MilestoneId::PylonReaper => "Pylon Reaper",
            MilestoneId::BossBreaker => "Boss Breaker",
            MilestoneId::SoulSigil => "Malrec Soul Sigil",
            MilestoneId::TrophyCache => "Malrec Trophy Cache",
            MilestoneId::PrimalCache => "Primal Ember Cache",
            MilestoneId::NemesisSlain => "Nemesis Slain",
            MilestoneId::AshenDuel => "Ashen Duel",
            MilestoneId::BossSlain => "Keeper Slain",
        }
    }

    /// The one-line account of what the milestone took.
    pub fn summary(self) -> (r: &'static str)
        ensures
            r@ == self.spec_summary(),
    {
        match self {
            MilestoneId::CacheOpened => "Opened the sealed cache",
            MilestoneId::VaultOpened => "Opened the resplendent reliquary vault",
            MilestoneId::Breaker => "Smashed every reliquary urn and offering box",
            MilestoneId::RelicEmpowered => "Claimed the relic shrine buff",
            MilestoneId::FortuneBlessed => "Claimed the gilded fortune blessing",
            MilestoneId::StormConduit => "Awakened the storm conduit shrine",
            MilestoneId::ShrineResonance => "Triggered shrine resonance from overlapping blessings",
            MilestoneId::Shrinekeeper => "Activated every reliquary shrine and pylon",
            MilestoneId::AffixHunter => "Slew three multi-affix elite enemies",
            MilestoneId::AffixCodex => "Catalogued six distinct elite affixes",
            MilestoneId::SealWarden => "Defeated Seal Warden Vhal in the inner sanctum",
            MilestoneId::AshenThreat => "Triggered three Ashen Threat surges",
            MilestoneId::ChampionPack => "Broke the roaming champion pack",
            MilestoneId::AshenPylon => "Overloaded the Ashen Pylon",
            MilestoneId::HealingWell => "Restored at the renewal well",
            MilestoneId::CursedShrine => "Survived the cursed shrine bargain",
            MilestoneId::CursedPact => "Slew every cursed shrine ambusher",
            MilestoneId::BloodObelisk => "Completed the obelisk kill rite",
            MilestoneId::EmberRift => "Sealed the Ember Rift invasion",
            MilestoneId::Riftbreaker => "Sealed the Ember Rift with 30 seconds remaining",
            MilestoneId::ReliquarySeal => "Completed the vault, blood obelisk, and Ember Rift",
            MilestoneId::TreasureFiend => "Caught the reliquary treasure imp before it escaped",
            MilestoneId::TreasureVault => "Opened the treasure imp's reliquary vault",
            MilestoneId::BountyCompleted => "Completed an optional bounty",
            MilestoneId::Lorekeeper => "Recovered every lore page",
            MilestoneId::EmberParagon => "Earned an Ember Paragon rank",
            MilestoneId::TalentAdept => "Invested in Wrath, Vigor, and Focus",
            MilestoneId::QuartermasterPatron => "Upgraded stash, potion belt, and elixir belt",
            MilestoneId::Alchemist => "Used iron, wrath, and haste elixirs",
            MilestoneId::AshenAlchemy => "Completed gold, essence, and keystone transmutations",
            MilestoneId::LootCurator => "Cycled the loot filter through three tiers",
            MilestoneId::LastStand => "Drank three potions while below 30% health",
            MilestoneId::SalvageCache => "Earned a quartermaster cache from spare gear",
            MilestoneId::SentinelVeteran => "Raised the Reliquary Sentinel to rank 3",
            MilestoneId::Boonbound => "Claimed a Reliquary Boon",
            MilestoneId::TemperedSteel => "Tempered a weapon at the quartermaster",
            MilestoneId::LegendaryFound => "Equipped a legendary power",
            MilestoneId::AncientWeapon => "Equipped an ancient weapon",
            MilestoneId::AncientAugment => "Applied an ancient augment",
            MilestoneId::PrimalInfusion => "Primal-infused an ancient weapon",
            MilestoneId::GemResonance => "Equipped a rank 3 resonant socketed gem",
            MilestoneId::MasterGemcutter => "Equipped a rank 5 socketed gem",
            MilestoneId::GemAdept => "Socketed ruby, emerald, amethyst, and topaz gems",
            MilestoneId::SetResonance => "Equipped a themed weapon and charm resonance",
            MilestoneId::SetAdept => "Slew enemies while a themed set resonance was active",
            MilestoneId::CodexAdept => "Slew enemies with an attuned codex power",
            MilestoneId::CodexArchivist => "Unlocked every legendary codex power",
            MilestoneId::Massacre => "Chained a five-kill massacre",
            MilestoneId::CarnageMaster => "Chained a ten-kill massacre",
            MilestoneId::BattleTrance => "Reached full Valor during a massacre run",
            MilestoneId::SurgeMastery => "Extended Nephalem Surge through three kills",
            MilestoneId::RuneWeaver => "Landed Reap, Hemorrhage, and Frost rune hits",
            MilestoneId::ArmoryAdept => "Saved three armory loadouts",
            MilestoneId::PortalWayfarer => "Returned to the fight through town portal",
            MilestoneId::GlorySeeker => "Collected three health globes for Glory",
            MilestoneId::PylonReaper => "Slew three enemies during Ashen Pylon overload",
            MilestoneId::BossBreaker => "Broke Malrec's stagger twice",
            MilestoneId::SoulSigil => "Recovered a Malrec Soul Sigil",
            MilestoneId::TrophyCache => "Opened a Malrec trophy cache",
            MilestoneId::PrimalCache => "Claimed a Primal Ember Cache on Torment",
            MilestoneId::NemesisSlain => "Defeated an ashbound nemesis",
            MilestoneId::AshenDuel => "Defeated Malrec before Ashen Enrage",
            MilestoneId::BossSlain => "Defeated Malrec, Keeper of Ash",
        }
    }
}

/// All milestones, in the order the chapter lists them.
pub open spec fn spec_all_milestones() -> Seq<MilestoneId> {
    seq![MilestoneId::CacheOpened, MilestoneId::VaultOpened, MilestoneId::Breaker, MilestoneId::RelicEmpowered, MilestoneId::FortuneBlessed, MilestoneId::StormConduit, MilestoneId::ShrineResonance, MilestoneId::Shrinekeeper, MilestoneId::AffixHunter, MilestoneId::AffixCodex, MilestoneId::SealWarden, MilestoneId::AshenThreat, MilestoneId::ChampionPack, MilestoneId::AshenPylon, MilestoneId::HealingWell, MilestoneId::CursedShrine, MilestoneId::CursedPact, MilestoneId::BloodObelisk, MilestoneId::EmberRift, MilestoneId::Riftbreaker, MilestoneId::ReliquarySeal, MilestoneId::TreasureFiend, MilestoneId::TreasureVault, MilestoneId::BountyCompleted, MilestoneId::Lorekeeper, MilestoneId::EmberParagon, MilestoneId::TalentAdept, MilestoneId::QuartermasterPatron, MilestoneId::Alchemist, MilestoneId::AshenAlchemy, MilestoneId::LootCurator, MilestoneId::LastStand, MilestoneId::SalvageCache, MilestoneId::SentinelVeteran, MilestoneId::Boonbound, MilestoneId::TemperedSteel, MilestoneId::LegendaryFound, MilestoneId::AncientWeapon, MilestoneId::AncientAugment, MilestoneId::PrimalInfusion, MilestoneId::GemResonance, MilestoneId::MasterGemcutter, MilestoneId::GemAdept, MilestoneId::SetResonance, MilestoneId::SetAdept, MilestoneId::CodexAdept, MilestoneId::CodexArchivist, MilestoneId::Massacre, MilestoneId::CarnageMaster, MilestoneId::BattleTrance, MilestoneId::SurgeMastery, MilestoneId::RuneWeaver, MilestoneId::ArmoryAdept, MilestoneId::PortalWayfarer, MilestoneId::GlorySeeker, MilestoneId::PylonReaper, MilestoneId::BossBreaker, MilestoneId::SoulSigil, MilestoneId::TrophyCache, MilestoneId::PrimalCache, MilestoneId::NemesisSlain, MilestoneId::AshenDuel, MilestoneId::BossSlain]
}

/// All milestones, in the order the chapter lists them.
pub fn all_milestones() -> (r: [MilestoneId; 63])
    ensures
        r@ == spec_all_milestones(),
{
    let r = [
        MilestoneId::CacheOpened,
        MilestoneId::VaultOpened,
        MilestoneId::Breaker,
        MilestoneId::RelicEmpowered,
        MilestoneId::FortuneBlessed,
        MilestoneId::StormConduit,
        MilestoneId::ShrineResonance,
        MilestoneId::Shrinekeeper,
        MilestoneId::AffixHunter,
        MilestoneId::AffixCodex,
        MilestoneId::SealWarden,
        MilestoneId::AshenThreat,
        MilestoneId::ChampionPack,
        MilestoneId::AshenPylon,
        MilestoneId::HealingWell,
        MilestoneId::CursedShrine,
        MilestoneId::CursedPact,
        MilestoneId::BloodObelisk,
        MilestoneId::EmberRift,
        MilestoneId::Riftbreaker,
        MilestoneId::ReliquarySeal,
        MilestoneId::TreasureFiend,
        MilestoneId::TreasureVault,
        MilestoneId::BountyCompleted,
        MilestoneId::Lorekeeper,
        MilestoneId::EmberParagon,
        MilestoneId::TalentAdept,
        MilestoneId::QuartermasterPatron,
        MilestoneId::Alchemist,
        MilestoneId::AshenAlchemy,
        MilestoneId::LootCurator,
        MilestoneId::LastStand,
        MilestoneId::SalvageCache,
        MilestoneId::SentinelVeteran,
        MilestoneId::Boonbound,
        MilestoneId::TemperedSteel,
        MilestoneId::LegendaryFound,
        MilestoneId::AncientWeapon,
        MilestoneId::AncientAugment,
        MilestoneId::PrimalInfusion,
        MilestoneId::GemResonance,
        MilestoneId::MasterGemcutter,
        MilestoneId::GemAdept,
        MilestoneId::SetResonance,
        MilestoneId::SetAdept,
        MilestoneId::CodexAdept,
        MilestoneId::CodexArchivist,
        MilestoneId::Massacre,
        MilestoneId::CarnageMaster,
        MilestoneId::BattleTrance,
        MilestoneId::SurgeMastery,
        MilestoneId::RuneWeaver,
        MilestoneId::ArmoryAdept,
        MilestoneId::PortalWayfarer,
        MilestoneId::GlorySeeker,
        MilestoneId::PylonReaper,
        MilestoneId::BossBreaker,
        MilestoneId::SoulSigil,
        MilestoneId::TrophyCache,
        MilestoneId::PrimalCache,
        MilestoneId::NemesisSlain,
        MilestoneId::AshenDuel,
        MilestoneId::BossSlain,
    ];
    assert(r@ =~= spec_all_milestones());
    r
}


impl MilestoneId {
    /// Position of the milestone in the chapter's list.
    pub open spec fn ordinal(self) -> int {
        match self {
            MilestoneId::CacheOpened => 0,
            MilestoneId::VaultOpened => 1,
            MilestoneId::Breaker => 2,
            MilestoneId::RelicEmpowered => 3,
            MilestoneId::FortuneBlessed => 4,
            MilestoneId::StormConduit => 5,
            MilestoneId::ShrineResonance => 6,
            MilestoneId::Shrinekeeper => 7,
            MilestoneId::AffixHunter => 8,
            MilestoneId::AffixCodex => 9,
            MilestoneId::SealWarden => 10,
            MilestoneId::AshenThreat => 11,
            MilestoneId::ChampionPack => 12,
            MilestoneId::AshenPylon => 13,
            MilestoneId::HealingWell => 14,
            MilestoneId::CursedShrine => 15,
            MilestoneId::CursedPact => 16,
            MilestoneId::BloodObelisk => 17,
            MilestoneId::EmberRift => 18,
            MilestoneId::Riftbreaker => 19,
            MilestoneId::ReliquarySeal => 20,
            MilestoneId::TreasureFiend => 21,
            MilestoneId::TreasureVault => 22,
            MilestoneId::BountyCompleted => 23,
            MilestoneId::Lorekeeper => 24,
            MilestoneId::EmberParagon => 25,
            MilestoneId::TalentAdept => 26,
            MilestoneId::QuartermasterPatron => 27,
            MilestoneId::Alchemist => 28,
            MilestoneId::AshenAlchemy => 29,
            MilestoneId::LootCurator => 30,
            MilestoneId::LastStand => 31,
            MilestoneId::SalvageCache => 32,
            MilestoneId::SentinelVeteran => 33,
            MilestoneId::Boonbound => 34,
            MilestoneId::TemperedSteel => 35,
            MilestoneId::LegendaryFound => 36,
            MilestoneId::AncientWeapon => 37,
            MilestoneId::AncientAugment => 38,
            MilestoneId::PrimalInfusion => 39,
            MilestoneId::GemResonance => 40,
            MilestoneId::MasterGemcutter => 41,
            MilestoneId::GemAdept => 42,
            MilestoneId::SetResonance => 43,
            MilestoneId::SetAdept => 44,
            MilestoneId::CodexAdept => 45,
            MilestoneId::CodexArchivist => 46,
            MilestoneId::Massacre => 47,
            MilestoneId::CarnageMaster => 48,
            MilestoneId::BattleTrance => 49,
            MilestoneId::SurgeMastery => 50,
            MilestoneId::RuneWeaver => 51,
            MilestoneId::ArmoryAdept => 52,
            MilestoneId::PortalWayfarer => 53,
            MilestoneId::GlorySeeker => 54,
            MilestoneId::PylonReaper => 55,
            MilestoneId::BossBreaker => 56,
            MilestoneId::SoulSigil => 57,
            MilestoneId::TrophyCache => 58,
            MilestoneId::PrimalCache => 59,
            MilestoneId::NemesisSlain => 60,
            MilestoneId::AshenDuel => 61,
            MilestoneId::BossSlain => 62,
        }
    }
}

/// The chapter's list names every milestone, each exactly once.
pub proof fn lemma_all_milestones_complete()
    ensures
        spec_all_milestones().len() == MILESTONE_COUNT,
        forall|m: MilestoneId| #[trigger] spec_all_milestones().contains(m),
        spec_all_milestones().no_duplicates(),
{
    let all = spec_all_milestones();
    assert forall|i: int| 0 <= i < all.len() implies (#[trigger] all[i]).ordinal() == i by {
        assert(all[i].ordinal() == i);
    }
    assert forall|m: MilestoneId| #[trigger] all.contains(m) by {
        assert(all[m.ordinal()] == m);
    }
    assert forall|i: int, j: int| 0 <= i < all.len() && 0 <= j < all.len() && i != j implies all[i]
        != all[j] by {
        assert(all[i].ordinal() == i);
        assert(all[j].ordinal() == j);
    }
}

/// The line a newly unlocked milestone is announced with: "title: summary".
pub open spec fn unlock_line(m: MilestoneId) -> Seq<char> {
    m.spec_title() + ": "@ + m.spec_summary()
}

/// The milestones unlocked so far in the run, and the line of the latest one.
#[derive(Debug)]
pub struct Milestones {
    pub unlocked: Vec<MilestoneId>,
    pub latest: String,
}

/// The unlocked list after unlocking `m` when `cond` holds: `m` is appended
/// unless it is already there.
#[verifier::opaque]
pub open spec fn add_if(s: Seq<MilestoneId>, cond: bool, m: MilestoneId) -> Seq<MilestoneId> {
    if cond && !s.contains(m) {
        s.push(m)
    } else {
        s
    }
}

fn unlock_line_string(m: MilestoneId) -> (r: String)
    ensures
        r@ == unlock_line(m),
{
    let mut s = String::from_str(m.title());
    s.append(": ");
    s.append(m.summary());
    s
}

impl Milestones {
    /// A run with nothing unlocked and no latest line.
    pub fn new() -> (r: Milestones)
        ensures
            r.unlocked@ == Seq::<MilestoneId>::empty(),
            r.latest@ == Seq::<char>::empty(),
    {
        Milestones { unlocked: Vec::new(), latest: String::new() }
    }

    /// Whether `m` is unlocked.
    pub fn has(&self, m: MilestoneId) -> (r: bool)
        ensures
            r == self.unlocked@.contains(m),
    {
        let mut i: usize = 0;
        while i < self.unlocked.len()
            invariant
                i <= self.unlocked@.len(),
                forall|k: int| 0 <= k < i ==> self.unlocked@[k] != m,
            decreases self.unlocked@.len() - i,
        {
            if self.unlocked[i] == m {
                return true;
            }
            i += 1;
        }
        false
    }

    /// Unlocks `milestone` unless it already is; only a new unlock is
    /// recorded, as the latest line, and reported with `true`.
    pub fn unlock(&mut self, milestone: MilestoneId) -> (r: bool)
        ensures
            r == !old(self).unlocked@.contains(milestone),
            final(self).unlocked@ == add_if(old(self).unlocked@, true, milestone),
            final(self).latest@ == if r { unlock_line(milestone) } else { old(self).latest@ },
            old(self).unlocked@.no_duplicates() ==> final(self).unlocked@.no_duplicates(),
    {
        proof {
            reveal(add_if);
        }
        if self.has(milestone) {
            return false;
        }
        self.unlocked.push(milestone);
        self.latest = unlock_line_string(milestone);
        true
    }

    /// Replaces the unlocked list with a saved one; the latest line becomes
    /// that of its last milestone, or empty when the list is empty.
    pub fn restore(&mut self, unlocked: Vec<MilestoneId>)
        ensures
            final(self).unlocked@ == unlocked@,
            final(self).latest@ == if unlocked@.len() == 0 {
                Seq::<char>::empty()
            } else {
                unlock_line(unlocked@.last())
            },
    {
        self.latest = if unlocked.len() == 0 {
            String::new()
        } else {
            unlock_line_string(unlocked[unlocked.len() - 1])
        };
        self.unlocked = unlocked;
    }

    /// Unlocks `milestone` when `cond` holds.
    fn unlock_when(&mut self, cond: bool, milestone: MilestoneId)
        ensures
            final(self).unlocked@ == add_if(old(self).unlocked@, cond, milestone),
            grows_from(old(self).unlocked@, final(self).unlocked@),
            latest_tracks(old(self).unlocked@, old(self).latest@, final(self).unlocked@, final(self).latest@),
            old(self).unlocked@.no_duplicates() ==> final(self).unlocked@.no_duplicates(),
    {
        proof {
            reveal(add_if);
        }
        if cond {
            self.unlock(milestone);
        }
        assert(self.unlocked@.subrange(0, old(self).unlocked@.len() as int) =~= old(self).unlocked@);
    }
}

impl Default for Milestones {
    fn default() -> (r: Milestones)
        ensures
            r.unlocked@ == Seq::<MilestoneId>::empty(),
            r.latest@ == Seq::<char>::empty(),
    {
        Milestones::new()
    }
}

/// "Milestones n/63", followed by ": latest" once a latest line exists.
pub open spec fn spec_milestone_summary(unlocked: nat, latest: Seq<char>) -> Seq<char> {
    let head = "Milestones "@ + decimal(unlocked) + "/"@ + decimal(MILESTONE_COUNT as nat);
    if latest.len() == 0 {
        head
    } else {
        head + ": "@ + latest
    }
}

/// The milestone line of the HUD: how many of the 63 are unlocked and the
/// latest one.
pub fn milestone_summary(milestones: &Milestones) -> (r: String)
    ensures
        r@ == spec_milestone_summary(milestones.unlocked@.len(), milestones.latest@),
{
    let mut s = String::from_str("Milestones ");
    push_decimal_usize(&mut s, milestones.unlocked.len());
    s.append("/");
    push_decimal_usize(&mut s, MILESTONE_COUNT);
    if milestones.latest.as_str().unicode_len() == 0 {
        return s;
    }
    s.append(": ");
    s.append(milestones.latest.as_str());
    s
}

/// The combat-log line for a newly unlocked milestone.
pub fn milestone_event_text(m: MilestoneId) -> (r: String)
    ensures
        r@ == "Milestone: "@ + m.spec_title(),
{
    let mut s = String::from_str("Milestone: ");
    s.append(m.title());
    s
}

/// Whether the run's counters meet the `alchemist` milestone rule: `iron_elixir_used && wrath_elixir_used && haste_elixir_used`.
pub open spec fn spec_alchemist_complete(s: RunStats) -> bool {
    s.iron_elixir_used && s.wrath_elixir_used && s.haste_elixir_used
}

/// Whether the run's counters meet the `alchemist` milestone rule.
pub fn alchemist_complete(stats: &RunStats) -> (r: bool)
    ensures
        r == spec_alchemist_complete(*stats),
{
    let s = stats;
    s.iron_elixir_used && s.wrath_elixir_used && s.haste_elixir_used
}

/// Whether the run's counters meet the `ashen_alchemy` milestone rule: `alchemy_gold_transmutes > 0 && alchemy_essence_transmutes > 0 && alchemy_keystone_transmutes > 0`.
pub open spec fn spec_ashen_alchemy_complete(s: RunStats) -> bool {
    s.alchemy_gold_transmutes > 0 && s.alchemy_essence_transmutes > 0 && s.alchemy_keystone_transmutes > 0
}

/// Whether the run's counters meet the `ashen_alchemy` milestone rule.
pub fn ashen_alchemy_complete(stats: &RunStats) -> (r: bool)
    ensures
        r == spec_ashen_alchemy_complete(*stats),
{
    let s = stats;
    s.alchemy_gold_transmutes > 0 && s.alchemy_essence_transmutes > 0 && s.alchemy_keystone_transmutes > 0
}

/// Whether the run's counters meet the `loot_curator` milestone rule: `loot_filter_cycles >= 3`.
pub open spec fn spec_loot_curator_complete(s: RunStats) -> bool {
    s.loot_filter_cycles >= 3
}

/// Whether the run's counters meet the `loot_curator` milestone rule.
pub fn loot_curator_complete(stats: &RunStats) -> (r: bool)
    ensures
        r == spec_loot_curator_complete(*stats),
{
    let s = stats;
    s.loot_filter_cycles >= 3
}

/// Whether the run's counters meet the `last_stand` milestone rule: `last_stand_potions >= LAST_STAND_POTIONS`.
pub open spec fn spec_last_stand_complete(s: RunStats) -> bool {
    s.last_stand_potions >= LAST_STAND_POTIONS
}

/// Whether the run's counters meet the `last_stand` milestone rule.
pub fn last_stand_complete(stats: &RunStats) -> (r: bool)
    ensures
        r == spec_last_stand_complete(*stats),
{
    let s = stats;
    s.last_stand_potions >= LAST_STAND_POTIONS
}

/// Whether the run's counters meet the `salvage_cache` milestone rule: `salvage_caches > 0`.
pub open spec fn spec_salvage_cache_complete(s: RunStats) -> bool {
    s.salvage_caches > 0
}

/// Whether the run's counters meet the `salvage_cache` milestone rule.
pub fn salvage_cache_complete(stats: &RunStats) -> (r: bool)
    ensures
        r == spec_salvage_cache_complete(*stats),
{
    let s = stats;
    s.salvage_caches > 0
}

/// Whether the run's counters meet the `codex_adept` milestone rule: `codex_attuned_kills >= CODEX_ADEPT_KILLS`.
pub open spec fn spec_codex_adept_complete(s: RunStats) -> bool {
    s.codex_attuned_kills >= CODEX_ADEPT_KILLS
}

/// Whether the run's counters meet the `codex_adept` milestone rule.
pub fn codex_adept_complete(stats: &RunStats) -> (r: bool)
    ensures
        r == spec_codex_adept_complete(*stats),
{
    let s = stats;
    s.codex_attuned_kills >= CODEX_ADEPT_KILLS
}

/// Whether the run's counters meet the `set_adept` milestone rule: `set_resonance_kills >= SET_ADEPT_KILLS`.
pub open spec fn spec_set_adept_complete(s: RunStats) -> bool {
    s.set_resonance_kills >= SET_ADEPT_KILLS
}

/// Whether the run's counters meet the `set_adept` milestone rule.
pub fn set_adept_complete(stats: &RunStats) -> (r: bool)
    ensures
        r == spec_set_adept_complete(*stats),
{
    let s = stats;
    s.set_resonance_kills >= SET_ADEPT_KILLS
}

/// Whether the run's counters meet the `battle_trance` milestone rule: `best_massacre_streak >= 5 && best_valor_stacks >= 5`.
pub open spec fn spec_battle_trance_complete(s: RunStats) -> bool {
    s.best_massacre_streak >= 5 && s.best_valor_stacks >= 5
}

/// Whether the run's counters meet the `battle_trance` milestone rule.
pub fn battle_trance_complete(stats: &RunStats) -> (r: bool)
    ensures
        r == spec_battle_trance_complete(*stats),
{
    let s = stats;
    s.best_massacre_streak >= 5 && s.best_valor_stacks >= 5
}

/// Whether the run's counters meet the `carnage_master` milestone rule: `best_massacre_streak >= CARNAGE_MASTER_STREAK`.
pub open spec fn spec_carnage_master_complete(s: RunStats) -> bool {
    s.best_massacre_streak >= CARNAGE_MASTER_STREAK
}

/// Whether the run's counters meet the `carnage_master` milestone rule.
pub fn carnage_master_complete(stats: &RunStats) -> (r: bool)
    ensures
        r == spec_carnage_master_complete(*stats),
{
    let s = stats;
    s.best_massacre_streak >= CARNAGE_MASTER_STREAK
}

/// Whether the run's counters meet the `rune_weaver` milestone rule: `reap_dash_hits > 0 && hemorrhage_rupture_hits > 0 && frost_nova_hits > 0`.
pub open spec fn spec_rune_weaver_complete(s: RunStats) -> bool {
    s.reap_dash_hits > 0 && s.hemorrhage_rupture_hits > 0 && s.frost_nova_hits > 0
}

/// Whether the run's counters meet the `rune_weaver` milestone rule.
pub fn rune_weaver_complete(stats: &RunStats) -> (r: bool)
    ensures
        r == spec_rune_weaver_complete(*stats),
{
    let s = stats;
    s.reap_dash_hits > 0 && s.hemorrhage_rupture_hits > 0 && s.frost_nova_hits > 0
}

/// Whether the run's counters meet the `portal_wayfarer` milestone rule: `town_portal_returns > 0`.
pub open spec fn spec_portal_wayfarer_complete(s: RunStats) -> bool {
    s.town_portal_returns > 0
}

/// Whether the run's counters meet the `portal_wayfarer` milestone rule.
pub fn portal_wayfarer_complete(stats: &RunStats) -> (r: bool)
    ensures
        r == spec_portal_wayfarer_complete(*stats),
{
    let s = stats;
    s.town_portal_returns > 0
}

/// Whether the run's counters meet the `glory_seeker` milestone rule: `health_globes_collected >= GLORY_SEEKER_GLOBES`.
pub open spec fn spec_glory_seeker_complete(s: RunStats) -> bool {
    s.health_globes_collected >= GLORY_SEEKER_GLOBES
}

/// Whether the run's counters meet the `glory_seeker` milestone rule.
pub fn glory_seeker_complete(stats: &RunStats) -> (r: bool)
    ensures
        r == spec_glory_seeker_complete(*stats),
{
    let s = stats;
    s.health_globes_collected >= GLORY_SEEKER_GLOBES
}

/// Whether the run's counters meet the `boss_breaker` milestone rule: `boss_staggers >= BOSS_BREAK_TARGET`.
pub open spec fn spec_boss_breaker_complete(s: RunStats) -> bool {
    s.boss_staggers >= BOSS_BREAK_TARGET
}

/// Whether the run's counters meet the `boss_breaker` milestone rule.
pub fn boss_breaker_complete(stats: &RunStats) -> (r: bool)
    ensures
        r == spec_boss_breaker_complete(*stats),
{
    let s = stats;
    s.boss_staggers >= BOSS_BREAK_TARGET
}

/// Whether the run's counters meet the `soul_sigil` milestone rule: `malrec_soul_sigils > 0`.
pub open spec fn spec_soul_sigil_complete(s: RunStats) -> bool {
    s.malrec_soul_sigils > 0
}

/// Whether the run's counters meet the `soul_sigil` milestone rule.
pub fn soul_sigil_complete(stats: &RunStats) -> (r: bool)
    ensures
        r == spec_soul_sigil_complete(*stats),
{
    let s = stats;
    s.malrec_soul_sigils > 0
}

/// Whether the run's counters meet the `trophy_cache` milestone rule: `soul_sigil_caches > 0`.
pub open spec fn spec_trophy_cache_complete(s: RunStats) -> bool {
    s.soul_sigil_caches > 0
}

/// Whether the run's counters meet the `trophy_cache` milestone rule.
pub fn trophy_cache_complete(stats: &RunStats) -> (r: bool)
    ensures
        r == spec_trophy_cache_complete(*stats),
{
    let s = stats;
    s.soul_sigil_caches > 0
}

/// Whether the run's counters meet the `primal_cache` milestone rule: `primal_caches > 0`.
pub open spec fn spec_primal_cache_complete(s: RunStats) -> bool {
    s.primal_caches > 0
}

/// Whether the run's counters meet the `primal_cache` milestone rule.
pub fn primal_cache_complete(stats: &RunStats) -> (r: bool)
    ensures
        r == spec_primal_cache_complete(*stats),
{
    let s = stats;
    s.primal_caches > 0
}

/// Whether the run's counters meet the `primal_infusion` milestone rule: `primal_infusions > 0`.
pub open spec fn spec_primal_infusion_complete(s: RunStats) -> bool {
    s.primal_infusions > 0
}

/// Whether the run's counters meet the `primal_infusion` milestone rule.
pub fn primal_infusion_complete(stats: &RunStats) -> (r: bool)
    ensures
        r == spec_primal_infusion_complete(*stats),
{
    let s = stats;
    s.primal_infusions > 0
}

/// Whether the run's counters meet the `shrine_resonance` milestone rule: `shrine_resonance_triggered`.
pub open spec fn spec_shrine_resonance_complete(s: RunStats) -> bool {
    s.shrine_resonance_triggered
}

/// Whether the run's counters meet the `shrine_resonance` milestone rule.
pub fn shrine_resonance_complete(stats: &RunStats) -> (r: bool)
    ensures
        r == spec_shrine_resonance_complete(*stats),
{
    let s = stats;
    s.shrine_resonance_triggered
}

/// Whether the run's counters meet the `seal_warden` milestone rule: `seal_warden_slain`.
pub open spec fn spec_seal_warden_complete(s: RunStats) -> bool {
    s.seal_warden_slain
}

/// Whether the run's counters meet the `seal_warden` milestone rule.
pub fn seal_warden_complete(stats: &RunStats) -> (r: bool)
    ensures
        r == spec_seal_warden_complete(*stats),
{
    let s = stats;
    s.seal_warden_slain
}

/// Whether the run's counters meet the `ashen_threat` milestone rule: `ashen_threat_surges >= ASHEN_THREAT_SURGE_TARGET`.
pub open spec fn spec_ashen_threat_complete(s: RunStats) -> bool {
    s.ashen_threat_surges >= ASHEN_THREAT_SURGE_TARGET
}

/// Whether the run's counters meet the `ashen_threat` milestone rule.
pub fn ashen_threat_complete(stats: &RunStats) -> (r: bool)
    ensures
        r == spec_ashen_threat_complete(*stats),
{
    let s = stats;
    s.ashen_threat_surges >= ASHEN_THREAT_SURGE_TARGET
}

/// Whether the run's counters meet the `champion_pack` milestone rule: `champion_pack_reward_claimed && champion_pack_kills >= CHAMPION_PACK_TARGET`.
pub open spec fn spec_champion_pack_complete(s: RunStats) -> bool {
    s.champion_pack_reward_claimed && s.champion_pack_kills >= CHAMPION_PACK_TARGET
}

/// Whether the run's counters meet the `champion_pack` milestone rule.
pub fn champion_pack_complete(stats: &RunStats) -> (r: bool)
    ensures
        r == spec_champion_pack_complete(*stats),
{
    let s = stats;
    s.champion_pack_reward_claimed && s.champion_pack_kills >= CHAMPION_PACK_TARGET
}

/// Whether the run's counters meet the `surge_mastery` milestone rule against
/// the chapter's `target`: `surge_kills >= target`.
pub open spec fn spec_surge_mastery_complete(s: RunStats, target: u32) -> bool {
    s.surge_kills >= target
}

/// Whether the run's counters meet the `surge_mastery` milestone rule against
/// the chapter's `target`.
pub fn surge_mastery_complete(stats: &RunStats, target: u32) -> (r: bool)
    ensures
        r == spec_surge_mastery_complete(*stats, target),
{
    let s = stats;
    s.surge_kills >= target
}

/// Whether the run's counters meet the `armory_adept` milestone rule against
/// the chapter's `target`: `armory_loadouts_saved >= target`.
pub open spec fn spec_armory_adept_complete(s: RunStats, target: u32) -> bool {
    s.armory_loadouts_saved >= target
}

/// Whether the run's counters meet the `armory_adept` milestone rule against
/// the chapter's `target`.
pub fn armory_adept_complete(stats: &RunStats, target: u32) -> (r: bool)
    ensures
        r == spec_armory_adept_complete(*stats, target),
{
    let s = stats;
    s.armory_loadouts_saved >= target
}

/// Whether the run's counters meet the `pylon_reaper` milestone rule against
/// the chapter's `target`: `pylon_kills >= target`.
pub open spec fn spec_pylon_reaper_complete(s: RunStats, target: u32) -> bool {
    s.pylon_kills >= target
}

/// Whether the run's counters meet the `pylon_reaper` milestone rule against
/// the chapter's `target`.
pub fn pylon_reaper_complete(stats: &RunStats, target: u32) -> (r: bool)
    ensures
        r == spec_pylon_reaper_complete(*stats, target),
{
    let s = stats;
    s.pylon_kills >= target
}

/// Whether the run's counters meet the `breaker` milestone rule against
/// the chapter's `target`: `breakables_smashed >= target`.
pub open spec fn spec_breaker_complete(s: RunStats, target: u32) -> bool {
    s.breakables_smashed >= target
}

/// Whether the run's counters meet the `breaker` milestone rule against
/// the chapter's `target`.
pub fn breaker_complete(stats: &RunStats, target: u32) -> (r: bool)
    ensures
        r == spec_breaker_complete(*stats, target),
{
    let s = stats;
    s.breakables_smashed >= target
}

/// Whether the run's counters meet the `affix_hunter` milestone rule against
/// the chapter's `target`: `elite_affix_kills >= target`.
pub open spec fn spec_affix_hunter_complete(s: RunStats, target: u32) -> bool {
    s.elite_affix_kills >= target
}

/// Whether the run's counters meet the `affix_hunter` milestone rule against
/// the chapter's `target`.
pub fn affix_hunter_complete(stats: &RunStats, target: u32) -> (r: bool)
    ensures
        r == spec_affix_hunter_complete(*stats, target),
{
    let s = stats;
    s.elite_affix_kills >= target
}

/// Whether the run's counters meet the `cursed_pact` milestone rule against
/// the chapter's `target`: `cursed_ambush_kills >= target`.
pub open spec fn spec_cursed_pact_complete(s: RunStats, target: u32) -> bool {
    s.cursed_ambush_kills >= target
}

/// Whether the run's counters meet the `cursed_pact` milestone rule against
/// the chapter's `target`.
pub fn cursed_pact_complete(stats: &RunStats, target: u32) -> (r: bool)
    ensures
        r == spec_cursed_pact_complete(*stats, target),
{
    let s = stats;
    s.cursed_ambush_kills >= target
}

/// Number of set bits in a mask.
pub open spec fn popcount(x: u16) -> nat
    decreases x,
{
    if x == 0 {
        0
    } else {
        (x % 2) as nat + popcount(x / 2)
    }
}

proof fn lemma_popcount_bounded(x: u16)
    ensures
        popcount(x) <= x,
    decreases x,
{
    if x != 0 {
        lemma_popcount_bounded(x / 2);
    }
}

/// Number of set bits in `x` (`u16::count_ones`).
pub fn count_bits(x: u16) -> (r: u32)
    ensures
        r == popcount(x),
{
    proof {
        lemma_popcount_bounded(x);
    }
    let mut v: u16 = x;
    let mut n: u32 = 0;
    while v != 0
        invariant
            n + popcount(v) == popcount(x),
            popcount(x) <= x,
        decreases v,
    {
        n = n + (v % 2) as u32;
        v = v / 2;
    }
    n
}

/// Distinct elite affixes catalogued: the set bits of the affix mask.
pub fn affix_codex_count(stats: &RunStats) -> (r: u32)
    ensures
        r == popcount(stats.affix_codex_mask),
{
    count_bits(stats.affix_codex_mask)
}

/// Whether six distinct elite affixes are catalogued.
pub open spec fn spec_affix_codex_complete(s: RunStats) -> bool {
    popcount(s.affix_codex_mask) >= AFFIX_CODEX_TARGET
}

/// Whether six distinct elite affixes are catalogued.
pub fn affix_codex_complete(stats: &RunStats) -> (r: bool)
    ensures
        r == spec_affix_codex_complete(*stats),
{
    affix_codex_count(stats) >= AFFIX_CODEX_TARGET
}

/// Gem kinds socketed this run (ruby, emerald, amethyst, topaz).
pub open spec fn spec_gem_adept_count(s: RunStats) -> nat {
    (if s.ruby_socketed { 1nat } else { 0 }) + (if s.emerald_socketed { 1nat } else { 0 }) + (
    if s.amethyst_socketed {
        1nat
    } else {
        0
    }) + (if s.topaz_socketed { 1nat } else { 0 })
}

/// Gem kinds socketed this run (ruby, emerald, amethyst, topaz).
pub fn gem_adept_count(stats: &RunStats) -> (r: u32)
    ensures
        r == spec_gem_adept_count(*stats),
{
    (if stats.ruby_socketed { 1u32 } else { 0 }) + (if stats.emerald_socketed { 1u32 } else { 0 })
        + (if stats.amethyst_socketed { 1u32 } else { 0 }) + (if stats.topaz_socketed {
        1u32
    } else {
        0
    })
}

/// Whether all four gem kinds were socketed.
pub open spec fn spec_gem_adept_complete(s: RunStats) -> bool {
    spec_gem_adept_count(s) >= GEM_ADEPT_KINDS
}

/// Whether all four gem kinds were socketed.
pub fn gem_adept_complete(stats: &RunStats) -> (r: bool)
    ensures
        r == spec_gem_adept_complete(*stats),
{
    gem_adept_count(stats) >= GEM_ADEPT_KINDS
}

/// Whether all four reliquary shrine milestones are unlocked.
pub open spec fn spec_shrinekeeper_complete(s: Seq<MilestoneId>) -> bool {
    s.contains(MilestoneId::RelicEmpowered) && s.contains(MilestoneId::FortuneBlessed) && s.contains(
        MilestoneId::StormConduit,
    ) && s.contains(MilestoneId::AshenPylon)
}

/// Whether all four reliquary shrine milestones are unlocked.
pub fn shrinekeeper_complete(milestones: &Milestones) -> (r: bool)
    ensures
        r == spec_shrinekeeper_complete(milestones.unlocked@),
{
    milestones.has(MilestoneId::RelicEmpowered) && milestones.has(MilestoneId::FortuneBlessed)
        && milestones.has(MilestoneId::StormConduit) && milestones.has(MilestoneId::AshenPylon)
}

/// Whether the vault, the blood obelisk and the Ember Rift milestones are
/// all unlocked.
pub open spec fn spec_reliquary_seal_complete(s: Seq<MilestoneId>) -> bool {
    s.contains(MilestoneId::VaultOpened) && s.contains(MilestoneId::BloodObelisk) && s.contains(
        MilestoneId::EmberRift,
    )
}

/// Whether the vault, the blood obelisk and the Ember Rift milestones are
/// all unlocked.
pub fn reliquary_seal_complete(milestones: &Milestones) -> (r: bool)
    ensures
        r == spec_reliquary_seal_complete(milestones.unlocked@),
{
    milestones.has(MilestoneId::VaultOpened) && milestones.has(MilestoneId::BloodObelisk)
        && milestones.has(MilestoneId::EmberRift)
}

/// Whether Malrec fell before Ashen Enrage.
pub fn ashen_duel_complete(boss_slain: bool, stats: &RunStats) -> (r: bool)
    ensures
        r == (boss_slain && !stats.boss_enraged),
{
    boss_slain && !stats.boss_enraged
}

/// Whether the stash, potion belt and elixir belt were all upgraded.
pub fn quartermaster_patron_complete(inventory_capacity: usize, potion_max: u32, elixir_max: u32) -> (r:
    bool)
    ensures
        r == (inventory_capacity > 12 && potion_max > 5 && elixir_max > 3),
{
    inventory_capacity > 12 && potion_max > 5 && elixir_max > 3
}

/// Whether Wrath, Vigor and Focus all hold points.
pub fn talent_adept_complete(wrath: u32, vigor: u32, focus: u32) -> (r: bool)
    ensures
        r == (wrath > 0 && vigor > 0 && focus > 0),
{
    wrath > 0 && vigor > 0 && focus > 0
}

/// Whether the socketed gem (if any) reached rank 3.
pub fn gem_resonance_complete(socketed_gem_rank: Option<u32>) -> (r: bool)
    ensures
        r == (socketed_gem_rank matches Some(rank) && rank >= 3),
{
    match socketed_gem_rank {
        Some(rank) => rank >= 3,
        None => false,
    }
}

/// Whether the socketed gem (if any) reached rank 5.
pub fn master_gemcutter_complete(socketed_gem_rank: Option<u32>) -> (r: bool)
    ensures
        r == (socketed_gem_rank matches Some(rank) && rank >= 5),
{
    match socketed_gem_rank {
        Some(rank) => rank >= 5,
        None => false,
    }
}



/// `b` is `a` with zero or more milestones appended.
pub open spec fn grows_from(a: Seq<MilestoneId>, b: Seq<MilestoneId>) -> bool {
    a.len() <= b.len() && b.subrange(0, a.len() as int) == a
}

/// The latest line `lb` is that of the last milestone of `b` when `b` grew
/// past `a`, and is `la` otherwise.
pub open spec fn latest_tracks(a: Seq<MilestoneId>, la: Seq<char>, b: Seq<MilestoneId>, lb: Seq<char>) -> bool {
    lb == if b.len() > a.len() {
        unlock_line(b.last())
    } else {
        la
    }
}

proof fn lemma_growth_chain(
    a: Seq<MilestoneId>,
    la: Seq<char>,
    b: Seq<MilestoneId>,
    lb: Seq<char>,
    c: Seq<MilestoneId>,
    lc: Seq<char>,
)
    requires
        grows_from(a, b),
        grows_from(b, c),
        latest_tracks(a, la, b, lb),
        latest_tracks(b, lb, c, lc),
    ensures
        grows_from(a, c),
        latest_tracks(a, la, c, lc),
{
    assert(c.subrange(0, a.len() as int) =~= b.subrange(0, a.len() as int));
    if c.len() == b.len() {
        assert(c =~= c.subrange(0, b.len() as int));
    }
}

proof fn lemma_growth_refl(a: Seq<MilestoneId>, la: Seq<char>)
    ensures
        grows_from(a, a),
        latest_tracks(a, la, a, la),
{
    assert(a.subrange(0, a.len() as int) =~= a);
}

/// Counts from the chapter's other rules that some milestones are measured
/// against.
#[derive(Clone, Copy, Debug, PartialEq, Eq, Structural)]
pub struct ChapterTargets {
    /// Armory loadout slots (Armory Adept).
    pub armory_slots: u32,
    /// Kills during an Ashen Pylon overload (Pylon Reaper).
    pub pylon_reaper_kills: u32,
    /// Kills that extend one Nephalem Surge (Surge Mastery).
    pub surge_chain_kills: u32,
    /// Breakables in the chapter (Breaker).
    pub breakables: u32,
    /// Multi-affix elite kills (Affix Hunter).
    pub affix_hunter_kills: u32,
    /// Cursed shrine ambushers (Cursed Pact).
    pub cursed_ambush_kills: u32,
    /// Companion rank of a veteran sentinel (Sentinel Veteran).
    pub sentinel_veteran_rank: u32,
}

/// What the player's gear and build show, as far as milestones read it.
#[derive(Clone, Copy, Debug, PartialEq, Eq, Structural)]
pub struct PlayerMilestones {
    pub paragon_rank: u32,
    pub talent_wrath: u32,
    pub talent_vigor: u32,
    pub talent_focus: u32,
    pub inventory_capacity: usize,
    pub potion_max: u32,
    pub elixir_max: u32,
    pub companion_rank: u32,
    /// A Reliquary Boon was chosen.
    pub boon_chosen: bool,
    pub temper_level: u32,
    /// The equipped weapon carries a legendary power.
    pub has_legendary_power: bool,
    /// The equipped weapon is ancient or primal.
    pub ancient_or_better: bool,
    /// Rank of the socketed gem, if one is socketed.
    pub socketed_gem_rank: Option<u32>,
    /// A themed weapon and charm resonate.
    pub set_resonance: bool,
    /// Every legendary codex power is unlocked.
    pub codex_complete: bool,
}

/// Everything one update of the milestone rules reads.
#[derive(Debug)]
pub struct MilestoneFrame {
    /// Interactables used since the last update, in order.
    pub interactions: Vec<InteractableKind>,
    /// Ids of the enemies slain since the last update, in order.
    pub killed: Vec<String>,
    pub lore_entries: usize,
    pub boss_slain: bool,
    pub bounty_reward_claimed: bool,
    pub obelisk_completed: bool,
    pub rift_completed: bool,
    /// The Ember Rift was sealed with its swift-seal time left.
    pub rift_swift_seal: bool,
    pub targets: ChapterTargets,
    /// The player's side, when there is exactly one player.
    pub player: Option<PlayerMilestones>,
}

/// The milestone an interactable unlocks when used, if any.
pub open spec fn interaction_milestone(k: InteractableKind) -> Option<MilestoneId> {
    match k {
        InteractableKind::Cache => Some(MilestoneId::CacheOpened),
        InteractableKind::WeaponShrine => Some(MilestoneId::RelicEmpowered),
        InteractableKind::FortuneShrine => Some(MilestoneId::FortuneBlessed),
        InteractableKind::StormShrine => Some(MilestoneId::StormConduit),
        InteractableKind::AshenPylon => Some(MilestoneId::AshenPylon),
        InteractableKind::HealingWell => Some(MilestoneId::HealingWell),
        InteractableKind::CursedShrine => Some(MilestoneId::CursedShrine),
        InteractableKind::ReliquaryVault => Some(MilestoneId::VaultOpened),
        _ => None,
    }
}

/// The unlocked list after one interactable of kind `k` was used.
pub open spec fn after_interaction(s: Seq<MilestoneId>, k: InteractableKind) -> Seq<MilestoneId> {
    match interaction_milestone(k) {
        Some(m) => add_if(s, true, m),
        None => s,
    }
}

/// The unlocked list after the interactables `ks` were used, in order.
pub open spec fn after_interactions(s: Seq<MilestoneId>, ks: Seq<InteractableKind>) -> Seq<
    MilestoneId,
>
    decreases ks.len(),
{
    if ks.len() == 0 {
        s
    } else {
        after_interaction(after_interactions(s, ks.drop_last()), ks.last())
    }
}

/// The unlocked list after one enemy with id `id` was slain.
pub open spec fn after_kill(s: Seq<MilestoneId>, id: Seq<char>, st: RunStats) -> Seq<MilestoneId> {
    let s = add_if(s, id == "treasure_imp"@, MilestoneId::TreasureFiend);
    let s = add_if(s, st.treasure_vaults_opened > 0, MilestoneId::TreasureVault);
    let s = add_if(s, id == "nemesis"@, MilestoneId::NemesisSlain);
    add_if(s, id == "seal_warden"@, MilestoneId::SealWarden)
}

/// The unlocked list after the enemies `ids` were slain, in order.
pub open spec fn after_kills(s: Seq<MilestoneId>, ids: Seq<String>, st: RunStats) -> Seq<MilestoneId>
    decreases ids.len(),
{
    if ids.len() == 0 {
        s
    } else {
        after_kill(after_kills(s, ids.drop_last(), st), ids.last()@, st)
    }
}

/// Rules 1 to 10 of those that read the run's counters, in order.
pub open spec fn after_run_rules_1(s: Seq<MilestoneId>, f: MilestoneFrame, st: RunStats) -> Seq<
    MilestoneId,
> {
    let t = f.targets;
    let s = add_if(s, f.lore_entries >= 3, MilestoneId::Lorekeeper);
    let s = add_if(s, spec_codex_adept_complete(st), MilestoneId::CodexAdept);
    let s = add_if(s, spec_set_adept_complete(st), MilestoneId::SetAdept);
    let s = add_if(s, spec_gem_adept_complete(st), MilestoneId::GemAdept);
    let s = add_if(s, st.best_massacre_streak >= 5, MilestoneId::Massacre);
    let s = add_if(s, spec_carnage_master_complete(st), MilestoneId::CarnageMaster);
    let s = add_if(s, spec_battle_trance_complete(st), MilestoneId::BattleTrance);
    let s = add_if(s, spec_surge_mastery_complete(st, t.surge_chain_kills), MilestoneId::SurgeMastery);
    let s = add_if(s, spec_rune_weaver_complete(st), MilestoneId::RuneWeaver);
    let s = add_if(s, spec_armory_adept_complete(st, t.armory_slots), MilestoneId::ArmoryAdept);
    s
}

/// Rules 11 to 20 of those that read the run's counters, in order.
pub open spec fn after_run_rules_2(s: Seq<MilestoneId>, f: MilestoneFrame, st: RunStats) -> Seq<
    MilestoneId,
> {
    let t = f.targets;
    let s = add_if(s, spec_portal_wayfarer_complete(st), MilestoneId::PortalWayfarer);
    let s = add_if(s, spec_glory_seeker_complete(st), MilestoneId::GlorySeeker);
    let s = add_if(s, spec_pylon_reaper_complete(st, t.pylon_reaper_kills), MilestoneId::PylonReaper);
    let s = add_if(s, spec_boss_breaker_complete(st), MilestoneId::BossBreaker);
    let s = add_if(s, spec_soul_sigil_complete(st), MilestoneId::SoulSigil);
    let s = add_if(s, spec_trophy_cache_complete(st), MilestoneId::TrophyCache);
    let s = add_if(s, spec_primal_cache_complete(st), MilestoneId::PrimalCache);
    let s = add_if(s, spec_breaker_complete(st, t.breakables), MilestoneId::Breaker);
    let s = add_if(s, spec_shrine_resonance_complete(st), MilestoneId::ShrineResonance);
    let s = add_if(s, spec_shrinekeeper_complete(s), MilestoneId::Shrinekeeper);
    s
}

/// Rules 21 to 30 of those that read the run's counters, in order.
pub open spec fn after_run_rules_3(s: Seq<MilestoneId>, f: MilestoneFrame, st: RunStats) -> Seq<
    MilestoneId,
> {
    let t = f.targets;
    let s = add_if(s, spec_affix_hunter_complete(st, t.affix_hunter_kills), MilestoneId::AffixHunter);
    let s = add_if(s, spec_affix_codex_complete(st), MilestoneId::AffixCodex);
    let s = add_if(s, spec_seal_warden_complete(st), MilestoneId::SealWarden);
    let s = add_if(s, spec_ashen_threat_complete(st), MilestoneId::AshenThreat);
    let s = add_if(s, spec_champion_pack_complete(st), MilestoneId::ChampionPack);
    let s = add_if(s, spec_cursed_pact_complete(st, t.cursed_ambush_kills), MilestoneId::CursedPact);
    let s = add_if(s, st.ancient_augments > 0, MilestoneId::AncientAugment);
    let s = add_if(s, spec_primal_infusion_complete(st), MilestoneId::PrimalInfusion);
    let s = add_if(s, spec_alchemist_complete(st), MilestoneId::Alchemist);
    let s = add_if(s, spec_ashen_alchemy_complete(st), MilestoneId::AshenAlchemy);
    s
}

/// Rules 31 to 40 of those that read the run's counters, in order.
pub open spec fn after_run_rules_4(s: Seq<MilestoneId>, f: MilestoneFrame, st: RunStats) -> Seq<
    MilestoneId,
> {
    let t = f.targets;
    let s = add_if(s, spec_loot_curator_complete(st), MilestoneId::LootCurator);
    let s = add_if(s, spec_last_stand_complete(st), MilestoneId::LastStand);
    let s = add_if(s, spec_salvage_cache_complete(st), MilestoneId::SalvageCache);
    let s = add_if(s, f.boss_slain && !st.boss_enraged, MilestoneId::AshenDuel);
    let s = add_if(s, f.boss_slain, MilestoneId::BossSlain);
    let s = add_if(s, f.bounty_reward_claimed, MilestoneId::BountyCompleted);
    let s = add_if(s, f.obelisk_completed, MilestoneId::BloodObelisk);
    let s = add_if(s, f.rift_completed, MilestoneId::EmberRift);
    let s = add_if(s, f.rift_swift_seal, MilestoneId::Riftbreaker);
    let s = add_if(s, spec_reliquary_seal_complete(s), MilestoneId::ReliquarySeal);
    s
}

/// The rules that read the player's gear and build; none apply without a player.
pub open spec fn after_player_rules(s: Seq<MilestoneId>, f: MilestoneFrame) -> Seq<MilestoneId> {
    let t = f.targets;
    match f.player {
        None => s,
        Some(p) => {
            let s = add_if(s, p.paragon_rank > 0, MilestoneId::EmberParagon);
            let s = add_if(s, p.talent_wrath > 0 && p.talent_vigor > 0 && p.talent_focus > 0, MilestoneId::TalentAdept);
            let s = add_if(s, p.inventory_capacity > 12 && p.potion_max > 5 && p.elixir_max > 3, MilestoneId::QuartermasterPatron);
            let s = add_if(s, p.companion_rank >= t.sentinel_veteran_rank, MilestoneId::SentinelVeteran);
            let s = add_if(s, p.boon_chosen, MilestoneId::Boonbound);
            let s = add_if(s, p.temper_level > 0, MilestoneId::TemperedSteel);
            let s = add_if(s, p.has_legendary_power, MilestoneId::LegendaryFound);
            let s = add_if(s, p.ancient_or_better, MilestoneId::AncientWeapon);
            let s = add_if(s, (p.socketed_gem_rank matches Some(rank) && rank >= 3), MilestoneId::GemResonance);
            let s = add_if(s, (p.socketed_gem_rank matches Some(rank) && rank >= 5), MilestoneId::MasterGemcutter);
            let s = add_if(s, p.set_resonance, MilestoneId::SetResonance);
            let s = add_if(s, p.codex_complete, MilestoneId::CodexArchivist);
            s
        },
    }
}

/// The unlocked list after one update of the milestone rules: interactions,
/// then kills, then the run's counters, then the player's gear.
pub open spec fn after_frame(s: Seq<MilestoneId>, f: MilestoneFrame, st: RunStats) -> Seq<
    MilestoneId,
> {
    let s = after_interactions(s, f.interactions@);
    let s = after_kills(s, f.killed@, st);
    let s = after_run_rules_1(s, f, st);
    let s = after_run_rules_2(s, f, st);
    let s = after_run_rules_3(s, f, st);
    let s = after_run_rules_4(s, f, st);
    after_player_rules(s, f)
}

impl Milestones {
    fn apply_interactions(&mut self, kinds: &Vec<InteractableKind>)
        ensures
            final(self).unlocked@ == after_interactions(old(self).unlocked@, kinds@),
            grows_from(old(self).unlocked@, final(self).unlocked@),
            latest_tracks(old(self).unlocked@, old(self).latest@, final(self).unlocked@, final(self).latest@),
            old(self).unlocked@.no_duplicates() ==> final(self).unlocked@.no_duplicates(),
    {
        let ghost s0 = self.unlocked@;
        let ghost l0 = self.latest@;
        proof {
            lemma_growth_refl(s0, l0);
        }
        let mut i: usize = 0;
        assert(kinds@.take(0) =~= Seq::<InteractableKind>::empty());
        while i < kinds.len()
            invariant
                i <= kinds@.len(),
                self.unlocked@ == after_interactions(s0, kinds@.take(i as int)),
                grows_from(s0, self.unlocked@),
                latest_tracks(s0, l0, self.unlocked@, self.latest@),
                s0.no_duplicates() ==> self.unlocked@.no_duplicates(),
            decreases kinds@.len() - i,
        {
            let ghost u = self.unlocked@;
            let ghost lu = self.latest@;
            let k = kinds[i];
            let m = match k {
                InteractableKind::Cache => Some(MilestoneId::CacheOpened),
                InteractableKind::WeaponShrine => Some(MilestoneId::RelicEmpowered),
                InteractableKind::FortuneShrine => Some(MilestoneId::FortuneBlessed),
                InteractableKind::StormShrine => Some(MilestoneId::StormConduit),
                InteractableKind::AshenPylon => Some(MilestoneId::AshenPylon),
                InteractableKind::HealingWell => Some(MilestoneId::HealingWell),
                InteractableKind::CursedShrine => Some(MilestoneId::CursedShrine),
                InteractableKind::ReliquaryVault => Some(MilestoneId::VaultOpened),
                _ => None,
            };
            match m {
                Some(id) => {
                    self.unlock_when(true, id);
                },
                None => {
                    proof {
                        lemma_growth_refl(u, lu);
                    }
                },
            }
            proof {
                lemma_growth_chain(s0, l0, u, lu, self.unlocked@, self.latest@);
                assert(kinds@.take(i + 1).drop_last() =~= kinds@.take(i as int));
                assert(kinds@.take(i + 1).last() == k);
            }
            i += 1;
        }
        assert(kinds@.take(kinds@.len() as int) =~= kinds@);
    }

    fn apply_kill(&mut self, id: &str, stats: &RunStats)
        ensures
            final(self).unlocked@ == after_kill(old(self).unlocked@, id@, *stats),
            grows_from(old(self).unlocked@, final(self).unlocked@),
            latest_tracks(old(self).unlocked@, old(self).latest@, final(self).unlocked@, final(self).latest@),
            old(self).unlocked@.no_duplicates() ==> final(self).unlocked@.no_duplicates(),
    {
        let chars = chars_of(id);
        let ghost s0 = self.unlocked@;
        let ghost l0 = self.latest@;
        let c1 = chars_are(&chars, "treasure_imp");
        self.unlock_when(c1, MilestoneId::TreasureFiend);
        let ghost u = self.unlocked@;
        let ghost lu = self.latest@;
        self.unlock_when(stats.treasure_vaults_opened > 0, MilestoneId::TreasureVault);
        proof {
            lemma_growth_chain(s0, l0, u, lu, self.unlocked@, self.latest@);
        }
        let ghost u = self.unlocked@;
        let ghost lu = self.latest@;
        let c3 = chars_are(&chars, "nemesis");
        self.unlock_when(c3, MilestoneId::NemesisSlain);
        proof {
            lemma_growth_chain(s0, l0, u, lu, self.unlocked@, self.latest@);
        }
        let ghost u = self.unlocked@;
        let ghost lu = self.latest@;
        let c4 = chars_are(&chars, "seal_warden");
        self.unlock_when(c4, MilestoneId::SealWarden);
        proof {
            lemma_growth_chain(s0, l0, u, lu, self.unlocked@, self.latest@);
        }
    }

    fn apply_kills(&mut self, killed: &Vec<String>, stats: &RunStats)
        ensures
            final(self).unlocked@ == after_kills(old(self).unlocked@, killed@, *stats),
            grows_from(old(self).unlocked@, final(self).unlocked@),
            latest_tracks(old(self).unlocked@, old(self).latest@, final(self).unlocked@, final(self).latest@),
            old(self).unlocked@.no_duplicates() ==> final(self).unlocked@.no_duplicates(),
    {
        let ghost s0 = self.unlocked@;
        let ghost l0 = self.latest@;
        proof {
            lemma_growth_refl(s0, l0);
        }
        let mut i: usize = 0;
        assert(killed@.take(0) =~= Seq::<String>::empty());
        while i < killed.len()
            invariant
                i <= killed@.len(),
                self.unlocked@ == after_kills(s0, killed@.take(i as int), *stats),
                grows_from(s0, self.unlocked@),
                latest_tracks(s0, l0, self.unlocked@, self.latest@),
                s0.no_duplicates() ==> self.unlocked@.no_duplicates(),
            decreases killed@.len() - i,
        {
            let ghost u = self.unlocked@;
            let ghost lu = self.latest@;
            self.apply_kill(killed[i].as_str(), stats);
            proof {
                lemma_growth_chain(s0, l0, u, lu, self.unlocked@, self.latest@);
                assert(killed@.take(i + 1).drop_last() =~= killed@.take(i as int));
                assert(killed@.take(i + 1).last() == killed@[i as int]);
            }
            i += 1;
        }
        assert(killed@.take(killed@.len() as int) =~= killed@);
    }

    fn apply_run_rules_1(&mut self, frame: &MilestoneFrame, stats: &RunStats)
        ensures
            final(self).unlocked@ == after_run_rules_1(old(self).unlocked@, *frame, *stats),
            grows_from(old(self).unlocked@, final(self).unlocked@),
            latest_tracks(old(self).unlocked@, old(self).latest@, final(self).unlocked@, final(self).latest@),
            old(self).unlocked@.no_duplicates() ==> final(self).unlocked@.no_duplicates(),
    {
        let t = frame.targets;
        proof {
            lemma_growth_refl(self.unlocked@, self.latest@);
        }
        let ghost s0 = self.unlocked@;
        let ghost l0 = self.latest@;
        let ghost u = self.unlocked@;
        let ghost lu = self.latest@;
        self.unlock_when(frame.lore_entries >= 3, MilestoneId::Lorekeeper);
        proof {
            lemma_growth_chain(s0, l0, u, lu, self.unlocked@, self.latest@);
        }
        let ghost u = self.unlocked@;
        let ghost lu = self.latest@;
        self.unlock_when(codex_adept_complete(stats), MilestoneId::CodexAdept);
        proof {
            lemma_growth_chain(s0, l0, u, lu, self.unlocked@, self.latest@);
        }
        let ghost u = self.unlocked@;
        let ghost lu = self.latest@;
        self.unlock_when(set_adept_complete(stats), MilestoneId::SetAdept);
        proof {
            lemma_growth_chain(s0, l0, u, lu, self.unlocked@, self.latest@);
        }
        let ghost u = self.unlocked@;
        let ghost lu = self.latest@;
        self.unlock_when(gem_adept_complete(stats), MilestoneId::GemAdept);
        proof {
            lemma_growth_chain(s0, l0, u, lu, self.unlocked@, self.latest@);
        }
        let ghost u = self.unlocked@;
        let ghost lu = self.latest@;
        self.unlock_when(stats.best_massacre_streak >= 5, MilestoneId::Massacre);
        proof {
            lemma_growth_chain(s0, l0, u, lu, self.unlocked@, self.latest@);
        }
        let ghost u = self.unlocked@;
        let ghost lu = self.latest@;
        self.unlock_when(carnage_master_complete(stats), MilestoneId::CarnageMaster);
        proof {
            lemma_growth_chain(s0, l0, u, lu, self.unlocked@, self.latest@);
        }
        let ghost u = self.unlocked@;
        let ghost lu = self.latest@;
        self.unlock_when(battle_trance_complete(stats), MilestoneId::BattleTrance);
        proof {
            lemma_growth_chain(s0, l0, u, lu, self.unlocked@, self.latest@);
        }
        let ghost u = self.unlocked@;
        let ghost lu = self.latest@;
        self.unlock_when(surge_mastery_complete(stats, t.surge_chain_kills), MilestoneId::SurgeMastery);
        proof {
            lemma_growth_chain(s0, l0, u, lu, self.unlocked@, self.latest@);
        }
        let ghost u = self.unlocked@;
        let ghost lu = self.latest@;
        self.unlock_when(rune_weaver_complete(stats), MilestoneId::RuneWeaver);
        proof {
            lemma_growth_chain(s0, l0, u, lu, self.unlocked@, self.latest@);
        }
        let ghost u = self.unlocked@;
        let ghost lu = self.latest@;
        self.unlock_when(armory_adept_complete(stats, t.armory_slots), MilestoneId::ArmoryAdept);
        proof {
            lemma_growth_chain(s0, l0, u, lu, self.unlocked@, self.latest@);
        }
    }

    fn apply_run_rules_2(&mut self, frame: &MilestoneFrame, stats: &RunStats)
        ensures
            final(self).unlocked@ == after_run_rules_2(old(self).unlocked@, *frame, *stats),
            grows_from(old(self).unlocked@, final(self).unlocked@),
            latest_tracks(old(self).unlocked@, old(self).latest@, final(self).unlocked@, final(self).latest@),
            old(self).unlocked@.no_duplicates() ==> final(self).unlocked@.no_duplicates(),
    {
        let t = frame.targets;
        proof {
            lemma_growth_refl(self.unlocked@, self.latest@);
        }
        let ghost s0 = self.unlocked@;
        let ghost l0 = self.latest@;
        let ghost u = self.unlocked@;
        let ghost lu = self.latest@;
        self.unlock_when(portal_wayfarer_complete(stats), MilestoneId::PortalWayfarer);
        proof {
            lemma_growth_chain(s0, l0, u, lu, self.unlocked@, self.latest@);
        }
        let ghost u = self.unlocked@;
        let ghost lu = self.latest@;
        self.unlock_when(glory_seeker_complete(stats), MilestoneId::GlorySeeker);
        proof {
            lemma_growth_chain(s0, l0, u, lu, self.unlocked@, self.latest@);
        }
        let ghost u = self.unlocked@;
        let ghost lu = self.latest@;
        self.unlock_when(pylon_reaper_complete(stats, t.pylon_reaper_kills), MilestoneId::PylonReaper);
        proof {
            lemma_growth_chain(s0, l0, u, lu, self.unlocked@, self.latest@);
        }
        let ghost u = self.unlocked@;
        let ghost lu = self.latest@;
        self.unlock_when(boss_breaker_complete(stats), MilestoneId::BossBreaker);
        proof {
            lemma_growth_chain(s0, l0, u, lu, self.unlocked@, self.latest@);
        }
        let ghost u = self.unlocked@;
        let ghost lu = self.latest@;
        self.unlock_when(soul_sigil_complete(stats), MilestoneId::SoulSigil);
        proof {
            lemma_growth_chain(s0, l0, u, lu, self.unlocked@, self.latest@);
        }
        let ghost u = self.unlocked@;
        let ghost lu = self.latest@;
        self.unlock_when(trophy_cache_complete(stats), MilestoneId::TrophyCache);
        proof {
            lemma_growth_chain(s0, l0, u, lu, self.unlocked@, self.latest@);
        }
        let ghost u = self.unlocked@;
        let ghost lu = self.latest@;
        self.unlock_when(primal_cache_complete(stats), MilestoneId::PrimalCache);
        proof {
            lemma_growth_chain(s0, l0, u, lu, self.unlocked@, self.latest@);
        }
        let ghost u = self.unlocked@;
        let ghost lu = self.latest@;
        self.unlock_when(breaker_complete(stats, t.breakables), MilestoneId::Breaker);
        proof {
            lemma_growth_chain(s0, l0, u, lu, self.unlocked@, self.latest@);
        }
        let ghost u = self.unlocked@;
        let ghost lu = self.latest@;
        self.unlock_when(shrine_resonance_complete(stats), MilestoneId::ShrineResonance);
        proof {
            lemma_growth_chain(s0, l0, u, lu, self.unlocked@, self.latest@);
        }
        let ghost u = self.unlocked@;
        let ghost lu = self.latest@;
        let c = shrinekeeper_complete(self);
        self.unlock_when(c, MilestoneId::Shrinekeeper);
        proof {
            lemma_growth_chain(s0, l0, u, lu, self.unlocked@, self.latest@);
        }
    }

    fn apply_run_rules_3(&mut self, frame: &MilestoneFrame, stats: &RunStats)
        ensures
            final(self).unlocked@ == after_run_rules_3(old(self).unlocked@, *frame, *stats),
            grows_from(old(self).unlocked@, final(self).unlocked@),
            latest_tracks(old(self).unlocked@, old(self).latest@, final(self).unlocked@, final(self).latest@),
            old(self).unlocked@.no_duplicates() ==> final(self).unlocked@.no_duplicates(),
    {
        let t = frame.targets;
        proof {
            lemma_growth_refl(self.unlocked@, self.latest@);
        }
        let ghost s0 = self.unlocked@;
        let ghost l0 = self.latest@;
        let ghost u = self.unlocked@;
        let ghost lu = self.latest@;
        self.unlock_when(affix_hunter_complete(stats, t.affix_hunter_kills), MilestoneId::AffixHunter);
        proof {
            lemma_growth_chain(s0, l0, u, lu, self.unlocked@, self.latest@);
        }
        let ghost u = self.unlocked@;
        let ghost lu = self.latest@;
        self.unlock_when(affix_codex_complete(stats), MilestoneId::AffixCodex);
        proof {
            lemma_growth_chain(s0, l0, u, lu, self.unlocked@, self.latest@);
        }
        let ghost u = self.unlocked@;
        let ghost lu = self.latest@;
        self.unlock_when(seal_warden_complete(stats), MilestoneId::SealWarden);
        proof {
            lemma_growth_chain(s0, l0, u, lu, self.unlocked@, self.latest@);
        }
        let ghost u = self.unlocked@;
        let ghost lu = self.latest@;
        self.unlock_when(ashen_threat_complete(stats), MilestoneId::AshenThreat);
        proof {
            lemma_growth_chain(s0, l0, u, lu, self.unlocked@, self.latest@);
        }
        let ghost u = self.unlocked@;
        let ghost lu = self.latest@;
        self.unlock_when(champion_pack_complete(stats), MilestoneId::ChampionPack);
        proof {
            lemma_growth_chain(s0, l0, u, lu, self.unlocked@, self.latest@);
        }
        let ghost u = self.unlocked@;
        let ghost lu = self.latest@;
        self.unlock_when(cursed_pact_complete(stats, t.cursed_ambush_kills), MilestoneId::CursedPact);
        proof {
            lemma_growth_chain(s0, l0, u, lu, self.unlocked@, self.latest@);
        }
        let ghost u = self.unlocked@;
        let ghost lu = self.latest@;
        self.unlock_when(stats.ancient_augments > 0, MilestoneId::AncientAugment);
        proof {
            lemma_growth_chain(s0, l0, u, lu, self.unlocked@, self.latest@);
        }
        let ghost u = self.unlocked@;
        let ghost lu = self.latest@;
        self.unlock_when(primal_infusion_complete(stats), MilestoneId::PrimalInfusion);
        proof {
            lemma_growth_chain(s0, l0, u, lu, self.unlocked@, self.latest@);
        }
        let ghost u = self.unlocked@;
        let ghost lu = self.latest@;
        self.unlock_when(alchemist_complete(stats), MilestoneId::Alchemist);
        proof {
            lemma_growth_chain(s0, l0, u, lu, self.unlocked@, self.latest@);
        }
        let ghost u = self.unlocked@;
        let ghost lu = self.latest@;
        self.unlock_when(ashen_alchemy_complete(stats), MilestoneId::AshenAlchemy);
        proof {
            lemma_growth_chain(s0, l0, u, lu, self.unlocked@, self.latest@);
        }
    }

    fn apply_run_rules_4(&mut self, frame: &MilestoneFrame, stats: &RunStats)
        ensures
            final(self).unlocked@ == after_run_rules_4(old(self).unlocked@, *frame, *stats),
            grows_from(old(self).unlocked@, final(self).unlocked@),
            latest_tracks(old(self).unlocked@, old(self).latest@, final(self).unlocked@, final(self).latest@),
            old(self).unlocked@.no_duplicates() ==> final(self).unlocked@.no_duplicates(),
    {
        let t = frame.targets;
        proof {
            lemma_growth_refl(self.unlocked@, self.latest@);
        }
        let ghost s0 = self.unlocked@;
        let ghost l0 = self.latest@;
        let ghost u = self.unlocked@;
        let ghost lu = self.latest@;
        self.unlock_when(loot_curator_complete(stats), MilestoneId::LootCurator);
        proof {
            lemma_growth_chain(s0, l0, u, lu, self.unlocked@, self.latest@);
        }
        let ghost u = self.unlocked@;
        let ghost lu = self.latest@;
        self.unlock_when(last_stand_complete(stats), MilestoneId::LastStand);
        proof {
            lemma_growth_chain(s0, l0, u, lu, self.unlocked@, self.latest@);
        }
        let ghost u = self.unlocked@;
        let ghost lu = self.latest@;
        self.unlock_when(salvage_cache_complete(stats), MilestoneId::SalvageCache);
        proof {
            lemma_growth_chain(s0, l0, u, lu, self.unlocked@, self.latest@);
        }
        let ghost u = self.unlocked@;
        let ghost lu = self.latest@;
        self.unlock_when(ashen_duel_complete(frame.boss_slain, stats), MilestoneId::AshenDuel);
        proof {
            lemma_growth_chain(s0, l0, u, lu, self.unlocked@, self.latest@);
        }
        let ghost u = self.unlocked@;
        let ghost lu = self.latest@;
        self.unlock_when(frame.boss_slain, MilestoneId::BossSlain);
        proof {
            lemma_growth_chain(s0, l0, u, lu, self.unlocked@, self.latest@);
        }
        let ghost u = self.unlocked@;
        let ghost lu = self.latest@;
        self.unlock_when(frame.bounty_reward_claimed, MilestoneId::BountyCompleted);
        proof {
            lemma_growth_chain(s0, l0, u, lu, self.unlocked@, self.latest@);
        }
        let ghost u = self.unlocked@;
        let ghost lu = self.latest@;
        self.unlock_when(frame.obelisk_completed, MilestoneId::BloodObelisk);
        proof {
            lemma_growth_chain(s0, l0, u, lu, self.unlocked@, self.latest@);
        }
        let ghost u = self.unlocked@;
        let ghost lu = self.latest@;
        self.unlock_when(frame.rift_completed, MilestoneId::EmberRift);
        proof {
            lemma_growth_chain(s0, l0, u, lu, self.unlocked@, self.latest@);
        }
        let ghost u = self.unlocked@;
        let ghost lu = self.latest@;
        self.unlock_when(frame.rift_swift_seal, MilestoneId::Riftbreaker);
        proof {
            lemma_growth_chain(s0, l0, u, lu, self.unlocked@, self.latest@);
        }
        let ghost u = self.unlocked@;
        let ghost lu = self.latest@;
        let c = reliquary_seal_complete(self);
        self.unlock_when(c, MilestoneId::ReliquarySeal);
        proof {
            lemma_growth_chain(s0, l0, u, lu, self.unlocked@, self.latest@);
        }
    }

    fn apply_player_rules(&mut self, frame: &MilestoneFrame)
        ensures
            final(self).unlocked@ == after_player_rules(old(self).unlocked@, *frame),
            grows_from(old(self).unlocked@, final(self).unlocked@),
            latest_tracks(old(self).unlocked@, old(self).latest@, final(self).unlocked@, final(self).latest@),
            old(self).unlocked@.no_duplicates() ==> final(self).unlocked@.no_duplicates(),
    {
        let t = frame.targets;
        proof {
            lemma_growth_refl(self.unlocked@, self.latest@);
        }
        match frame.player {
            None => {},
            Some(p) => {
                let ghost s0 = self.unlocked@;
                let ghost l0 = self.latest@;
                let ghost u = self.unlocked@;
                let ghost lu = self.latest@;
                self.unlock_when(p.paragon_rank > 0, MilestoneId::EmberParagon);
                proof {
                    lemma_growth_chain(s0, l0, u, lu, self.unlocked@, self.latest@);
                }
                let ghost u = self.unlocked@;
                let ghost lu = self.latest@;
                self.unlock_when(talent_adept_complete(p.talent_wrath, p.talent_vigor, p.talent_focus), MilestoneId::TalentAdept);
                proof {
                    lemma_growth_chain(s0, l0, u, lu, self.unlocked@, self.latest@);
                }
                let ghost u = self.unlocked@;
                let ghost lu = self.latest@;
                self.unlock_when(quartermaster_patron_complete(p.inventory_capacity, p.potion_max, p.elixir_max), MilestoneId::QuartermasterPatron);
                proof {
                    lemma_growth_chain(s0, l0, u, lu, self.unlocked@, self.latest@);
                }
                let ghost u = self.unlocked@;
                let ghost lu = self.latest@;
                self.unlock_when(p.companion_rank >= t.sentinel_veteran_rank, MilestoneId::SentinelVeteran);
                proof {
                    lemma_growth_chain(s0, l0, u, lu, self.unlocked@, self.latest@);
                }
                let ghost u = self.unlocked@;
                let ghost lu = self.latest@;
                self.unlock_when(p.boon_chosen, MilestoneId::Boonbound);
                proof {
                    lemma_growth_chain(s0, l0, u, lu, self.unlocked@, self.latest@);
                }
                let ghost u = self.unlocked@;
                let ghost lu = self.latest@;
                self.unlock_when(p.temper_level > 0, MilestoneId::TemperedSteel);
                proof {
                    lemma_growth_chain(s0, l0, u, lu, self.unlocked@, self.latest@);
                }
                let ghost u = self.unlocked@;
                let ghost lu = self.latest@;
                self.unlock_when(p.has_legendary_power, MilestoneId::LegendaryFound);
                proof {
                    lemma_growth_chain(s0, l0, u, lu, self.unlocked@, self.latest@);
                }
                let ghost u = self.unlocked@;
                let ghost lu = self.latest@;
                self.unlock_when(p.ancient_or_better, MilestoneId::AncientWeapon);
                proof {
                    lemma_growth_chain(s0, l0, u, lu, self.unlocked@, self.latest@);
                }
                let ghost u = self.unlocked@;
                let ghost lu = self.latest@;
                self.unlock_when(gem_resonance_complete(p.socketed_gem_rank), MilestoneId::GemResonance);
                proof {
                    lemma_growth_chain(s0, l0, u, lu, self.unlocked@, self.latest@);
                }
                let ghost u = self.unlocked@;
                let ghost lu = self.latest@;
                self.unlock_when(master_gemcutter_complete(p.socketed_gem_rank), MilestoneId::MasterGemcutter);
                proof {
                    lemma_growth_chain(s0, l0, u, lu, self.unlocked@, self.latest@);
                }
                let ghost u = self.unlocked@;
                let ghost lu = self.latest@;
                self.unlock_when(p.set_resonance, MilestoneId::SetResonance);
                proof {
                    lemma_growth_chain(s0, l0, u, lu, self.unlocked@, self.latest@);
                }
                let ghost u = self.unlocked@;
                let ghost lu = self.latest@;
                self.unlock_when(p.codex_complete, MilestoneId::CodexArchivist);
                proof {
                    lemma_growth_chain(s0, l0, u, lu, self.unlocked@, self.latest@);
                }
            },
        }
    }
}

/// Applies one update of the milestone rules: interactables used, enemies
/// slain, the run's counters and the player's gear, in that order, each
/// unlocking its milestone at most once. Returns the milestones this update
/// newly unlocked, in order; the latest line is that of the last of them.
pub fn update_milestones(milestones: &mut Milestones, frame: &MilestoneFrame, stats: &RunStats) -> (newly: Vec<MilestoneId>)
    ensures
        final(milestones).unlocked@ == after_frame(old(milestones).unlocked@, *frame, *stats),
        final(milestones).unlocked@ == old(milestones).unlocked@ + newly@,
        old(milestones).unlocked@.no_duplicates() ==> final(milestones).unlocked@.no_duplicates(),
        final(milestones).latest@ == if newly@.len() > 0 {
            unlock_line(newly@.last())
        } else {
            old(milestones).latest@
        },
{
    let ghost s0 = milestones.unlocked@;
    let ghost l0 = milestones.latest@;
    let start = milestones.unlocked.len();
    milestones.apply_interactions(&frame.interactions);
    let ghost u = milestones.unlocked@;
    let ghost lu = milestones.latest@;
    milestones.apply_kills(&frame.killed, stats);
    proof {
        lemma_growth_chain(s0, l0, u, lu, milestones.unlocked@, milestones.latest@);
    }
    let ghost u = milestones.unlocked@;
    let ghost lu = milestones.latest@;
    milestones.apply_run_rules_1(frame, stats);
    proof {
        lemma_growth_chain(s0, l0, u, lu, milestones.unlocked@, milestones.latest@);
    }
    let ghost u = milestones.unlocked@;
    let ghost lu = milestones.latest@;
    milestones.apply_run_rules_2(frame, stats);
    proof {
        lemma_growth_chain(s0, l0, u, lu, milestones.unlocked@, milestones.latest@);
    }
    let ghost u = milestones.unlocked@;
    let ghost lu = milestones.latest@;
    milestones.apply_run_rules_3(frame, stats);
    proof {
        lemma_growth_chain(s0, l0, u, lu, milestones.unlocked@, milestones.latest@);
    }
    let ghost u = milestones.unlocked@;
    let ghost lu = milestones.latest@;
    milestones.apply_run_rules_4(frame, stats);
    proof {
        lemma_growth_chain(s0, l0, u, lu, milestones.unlocked@, milestones.latest@);
    }
    let ghost u = milestones.unlocked@;
    let ghost lu = milestones.latest@;
    milestones.apply_player_rules(frame);
    proof {
        lemma_growth_chain(s0, l0, u, lu, milestones.unlocked@, milestones.latest@);
    }
    let mut newly: Vec<MilestoneId> = Vec::new();
    let mut i: usize = start;
    while i < milestones.unlocked.len()
        invariant
            start == s0.len(),
            start <= i <= milestones.unlocked@.len(),
            newly@ == milestones.unlocked@.subrange(start as int, i as int),
        decreases milestones.unlocked@.len() - i,
    {
        newly.push(milestones.unlocked[i]);
        i += 1;
        assert(newly@ =~= milestones.unlocked@.subrange(start as int, i as int));
    }
    assert(milestones.unlocked@ =~= s0 + newly@);
    newly
}


/// The milestone a title names, read from its length and a few of its
/// letters.
spec fn milestone_for_title(t: Seq<char>) -> Option<MilestoneId> {
    if t.len() == 15 && t[0] == 'R' {
        Some(MilestoneId::CacheOpened)
    } else if t.len() == 17 && t[0] == 'R' {
        Some(MilestoneId::VaultOpened)
    } else if t.len() == 7 {
        Some(MilestoneId::Breaker)
    } else if t.len() == 11 && t[0] == 'R' && t[1] == 'e' {
        Some(MilestoneId::RelicEmpowered)
    } else if t.len() == 14 && t[0] == 'F' {
        Some(MilestoneId::FortuneBlessed)
    } else if t.len() == 13 && t[0] == 'S' && t[1] == 't' {
        Some(MilestoneId::StormConduit)
    } else if t.len() == 16 && t[0] == 'S' && t[1] == 'h' {
        Some(MilestoneId::ShrineResonance)
    } else if t.len() == 12 && t[0] == 'S' {
        Some(MilestoneId::Shrinekeeper)
    } else if t.len() == 12 && t[0] == 'A' && t[1] == 'f' {
        Some(MilestoneId::AffixHunter)
    } else if t.len() == 11 && t[0] == 'A' && t[1] == 'f' {
        Some(MilestoneId::AffixCodex)
    } else if t.len() == 11 && t[0] == 'S' {
        Some(MilestoneId::SealWarden)
    } else if t.len() == 12 && t[0] == 'A' && t[1] == 's' {
        Some(MilestoneId::AshenThreat)
    } else if t.len() == 13 && t[0] == 'C' {
        Some(MilestoneId::ChampionPack)
    } else if t.len() == 11 && t[0] == 'A' && t[1] == 's' {
        Some(MilestoneId::AshenPylon)
    } else if t.len() == 12 && t[0] == 'R' {
        Some(MilestoneId::HealingWell)
    } else if t.len() == 11 && t[0] == 'B' {
        Some(MilestoneId::CursedShrine)
    } else if t.len() == 11 && t[0] == 'C' && t[1] == 'u' {
        Some(MilestoneId::CursedPact)
    } else if t.len() == 13 && t[0] == 'B' && t[1] == 'l' {
        Some(MilestoneId::BloodObelisk)
    } else if t.len() == 10 && t[0] == 'E' {
        Some(MilestoneId::EmberRift)
    } else if t.len() == 11 && t[0] == 'R' && t[1] == 'i' {
        Some(MilestoneId::Riftbreaker)
    } else if t.len() == 14 && t[0] == 'R' {
        Some(MilestoneId::ReliquarySeal)
    } else if t.len() == 14 && t[0] == 'T' && t[1] == 'r' && t[9] == 'F' {
        Some(MilestoneId::TreasureFiend)
    } else if t.len() == 14 && t[0] == 'T' && t[1] == 'r' && t[9] == 'V' {
        Some(MilestoneId::TreasureVault)
    } else if t.len() == 16 && t[0] == 'R' {
        Some(MilestoneId::BountyCompleted)
    } else if t.len() == 10 && t[0] == 'L' && t[1] == 'o' {
        Some(MilestoneId::Lorekeeper)
    } else if t.len() == 13 && t[0] == 'E' {
        Some(MilestoneId::EmberParagon)
    } else if t.len() == 12 && t[0] == 'T' {
        Some(MilestoneId::TalentAdept)
    } else if t.len() == 20 {
        Some(MilestoneId::QuartermasterPatron)
    } else if t.len() == 9 && t[0] == 'A' {
        Some(MilestoneId::Alchemist)
    } else if t.len() == 13 && t[0] == 'A' {
        Some(MilestoneId::AshenAlchemy)
    } else if t.len() == 12 && t[0] == 'L' {
        Some(MilestoneId::LootCurator)
    } else if t.len() == 10 && t[0] == 'L' && t[1] == 'a' {
        Some(MilestoneId::LastStand)
    } else if t.len() == 13 && t[0] == 'S' && t[1] == 'a' {
        Some(MilestoneId::SalvageCache)
    } else if t.len() == 16 && t[0] == 'S' && t[1] == 'e' {
        Some(MilestoneId::SentinelVeteran)
    } else if t.len() == 9 && t[0] == 'B' {
        Some(MilestoneId::Boonbound)
    } else if t.len() == 14 && t[0] == 'T' && t[1] == 'e' {
        Some(MilestoneId::TemperedSteel)
    } else if t.len() == 15 && t[0] == 'L' {
        Some(MilestoneId::LegendaryFound)
    } else if t.len() == 14 && t[0] == 'A' {
        Some(MilestoneId::AncientWeapon)
    } else if t.len() == 15 && t[0] == 'A' {
        Some(MilestoneId::AncientAugment)
    } else if t.len() == 15 && t[0] == 'P' && t[1] == 'r' {
        Some(MilestoneId::PrimalInfusion)
    } else if t.len() == 13 && t[0] == 'G' {
        Some(MilestoneId::GemResonance)
    } else if t.len() == 16 && t[0] == 'M' {
        Some(MilestoneId::MasterGemcutter)
    } else if t.len() == 9 && t[0] == 'G' {
        Some(MilestoneId::GemAdept)
    } else if t.len() == 13 && t[0] == 'S' && t[1] == 'e' {
        Some(MilestoneId::SetResonance)
    } else if t.len() == 9 && t[0] == 'S' {
        Some(MilestoneId::SetAdept)
    } else if t.len() == 11 && t[0] == 'C' && t[1] == 'o' {
        Some(MilestoneId::CodexAdept)
    } else if t.len() == 15 && t[0] == 'C' {
        Some(MilestoneId::CodexArchivist)
    } else if t.len() == 8 {
        Some(MilestoneId::Massacre)
    } else if t.len() == 14 && t[0] == 'C' {
        Some(MilestoneId::CarnageMaster)
    } else if t.len() == 13 && t[0] == 'B' && t[1] == 'a' {
        Some(MilestoneId::BattleTrance)
    } else if t.len() == 13 && t[0] == 'S' && t[1] == 'u' {
        Some(MilestoneId::SurgeMastery)
    } else if t.len() == 11 && t[0] == 'R' && t[1] == 'u' {
        Some(MilestoneId::RuneWeaver)
    } else if t.len() == 12 && t[0] == 'A' && t[1] == 'r' {
        Some(MilestoneId::ArmoryAdept)
    } else if t.len() == 15 && t[0] == 'P' && t[1] == 'o' {
        Some(MilestoneId::PortalWayfarer)
    } else if t.len() == 12 && t[0] == 'G' {
        Some(MilestoneId::GlorySeeker)
    } else if t.len() == 12 && t[0] == 'P' {
        Some(MilestoneId::PylonReaper)
    } else if t.len() == 12 && t[0] == 'B' {
        Some(MilestoneId::BossBreaker)
    } else if t.len() == 17 && t[0] == 'M' {
        Some(MilestoneId::SoulSigil)
    } else if t.len() == 19 {
        Some(MilestoneId::TrophyCache)
    } else if t.len() == 18 {
        Some(MilestoneId::PrimalCache)
    } else if t.len() == 13 && t[0] == 'N' {
        Some(MilestoneId::NemesisSlain)
    } else if t.len() == 10 && t[0] == 'A' {
        Some(MilestoneId::AshenDuel)
    } else if t.len() == 12 && t[0] == 'K' {
        Some(MilestoneId::BossSlain)
    } else {
        None
    }
}

proof fn lemma_title_names_its_milestone(m: MilestoneId)
    ensures
        milestone_for_title(m.spec_title()) == Some(m),
        m.spec_title().len() > 0,
{
    match m {
        MilestoneId::CacheOpened => {
            reveal_strlit("Reliquary Cache");
        },
        MilestoneId::VaultOpened => {
            reveal_strlit("Resplendent Vault");
        },
        MilestoneId::Breaker => {
            reveal_strlit("Breaker");
        },
        MilestoneId::RelicEmpowered => {
            reveal_strlit("Relic Blade");
        },
        MilestoneId::FortuneBlessed => {
            reveal_strlit("Fortune Shrine");
        },
        MilestoneId::StormConduit => {
            reveal_strlit("Storm Conduit");
        },
        MilestoneId::ShrineResonance => {
            reveal_strlit("Shrine Resonance");
        },
        MilestoneId::Shrinekeeper => {
            reveal_strlit("Shrinekeeper");
        },
        MilestoneId::AffixHunter => {
            reveal_strlit("Affix Hunter");
        },
        MilestoneId::AffixCodex => {
            reveal_strlit("Affix Codex");
        },
        MilestoneId::SealWarden => {
            reveal_strlit("Seal Warden");
        },
        MilestoneId::AshenThreat => {
            reveal_strlit("Ashen Threat");
        },
        MilestoneId::ChampionPack => {
            reveal_strlit("Champion Pack");
        },
        MilestoneId::AshenPylon => {
            reveal_strlit("Ashen Pylon");
        },
        MilestoneId::HealingWell => {
            reveal_strlit("Renewal Well");
        },
        MilestoneId::CursedShrine => {
            reveal_strlit("Blood Price");
        },
        MilestoneId::CursedPact => {
            reveal_strlit("Cursed Pact");
        },
        MilestoneId::BloodObelisk => {
            reveal_strlit("Blood Obelisk");
        },
        MilestoneId::EmberRift => {
            reveal_strlit("Ember Rift");
        },
        MilestoneId::Riftbreaker => {
            reveal_strlit("Riftbreaker");
        },
        MilestoneId::ReliquarySeal => {
            reveal_strlit("Reliquary Seal");
        },
        MilestoneId::TreasureFiend => {
            reveal_strlit("Treasure Fiend");
        },
        MilestoneId::TreasureVault => {
            reveal_strlit("Treasure Vault");
        },
        MilestoneId::BountyCompleted => {
            reveal_strlit("Reliquary Bounty");
        },
        MilestoneId::Lorekeeper => {
            reveal_strlit("Lorekeeper");
        },
        MilestoneId::EmberParagon => {
            reveal_strlit("Ember Paragon");
        },
        MilestoneId::TalentAdept => {
            reveal_strlit("Talent Adept");
        },
        MilestoneId::QuartermasterPatron => {
            reveal_strlit("Quartermaster Patron");
        },
        MilestoneId::Alchemist => {
            reveal_strlit("Alchemist");
        },
        MilestoneId::AshenAlchemy => {
            reveal_strlit("Ashen Alchemy");
        },
        MilestoneId::LootCurator => {
            reveal_strlit("Loot Curator");
        },
        MilestoneId::LastStand => {
            reveal_strlit("Last Stand");
        },
        MilestoneId::SalvageCache => {
            reveal_strlit("Salvage Cache");
        },
        MilestoneId::SentinelVeteran => {
            reveal_strlit("Sentinel Veteran");
        },
        MilestoneId::Boonbound => {
            reveal_strlit("Boonbound");
        },
        MilestoneId::TemperedSteel => {
            reveal_strlit("Tempered Steel");
        },
        MilestoneId::LegendaryFound => {
            reveal_strlit("Legendary Power");
        },
        MilestoneId::AncientWeapon => {
            reveal_strlit("Ancient Weapon");
        },
        MilestoneId::AncientAugment => {
            reveal_strlit("Ancient Augment");
        },
        MilestoneId::PrimalInfusion => {
            reveal_strlit("Primal Infusion");
        },
        MilestoneId::GemResonance => {
            reveal_strlit("Gem Resonance");
        },
        MilestoneId::MasterGemcutter => {
            reveal_strlit("Master Gemcutter");
        },
        MilestoneId::GemAdept => {
            reveal_strlit("Gem Adept");
        },
        MilestoneId::SetResonance => {
            reveal_strlit("Set Resonance");
        },
        MilestoneId::SetAdept => {
            reveal_strlit("Set Adept");
        },
        MilestoneId::CodexAdept => {
            reveal_strlit("Codex Adept");
        },
        MilestoneId::CodexArchivist => {
            reveal_strlit("Codex Archivist");
        },
        MilestoneId::Massacre => {
            reveal_strlit("Massacre");
        },
        MilestoneId::CarnageMaster => {
            reveal_strlit("Carnage Master");
        },
        MilestoneId::BattleTrance => {
            reveal_strlit("Battle Trance");
        },
        MilestoneId::SurgeMastery => {
            reveal_strlit("Surge Mastery");
        },
        MilestoneId::RuneWeaver => {
            reveal_strlit("Rune Weaver");
        },
        MilestoneId::ArmoryAdept => {
            reveal_strlit("Armory Adept");
        },
        MilestoneId::PortalWayfarer => {
            reveal_strlit("Portal Wayfarer");
        },
        MilestoneId::GlorySeeker => {
            reveal_strlit("Glory Seeker");
        },
        MilestoneId::PylonReaper => {
            reveal_strlit("Pylon Reaper");
        },
        MilestoneId::BossBreaker => {
            reveal_strlit("Boss Breaker");
        },
        MilestoneId::SoulSigil => {
            reveal_strlit("Malrec Soul Sigil");
        },
        MilestoneId::TrophyCache => {
            reveal_strlit("Malrec Trophy Cache");
        },
        MilestoneId::PrimalCache => {
            reveal_strlit("Primal Ember Cache");
        },
        MilestoneId::NemesisSlain => {
            reveal_strlit("Nemesis Slain");
        },
        MilestoneId::AshenDuel => {
            reveal_strlit("Ashen Duel");
        },
        MilestoneId::BossSlain => {
            reveal_strlit("Keeper Slain");
        },
    }
}

/// Every milestone has its own title, and none is empty: two different
/// milestones never share a title.
pub proof fn lemma_milestone_titles_distinct(a: MilestoneId, b: MilestoneId)
    ensures
        a.spec_title().len() > 0,
        a != b ==> a.spec_title() != b.spec_title(),
{
    lemma_title_names_its_milestone(a);
    lemma_title_names_its_milestone(b);
}

/// A rule that fires leaves every milestone already unlocked in place.
pub broadcast proof fn lemma_add_if_keeps(s: Seq<MilestoneId>, cond: bool, m: MilestoneId, x: MilestoneId)
    requires
        s.contains(x),
    ensures
        #[trigger] add_if(s, cond, m).contains(x),
{
    reveal(add_if);
    if cond && !s.contains(m) {
        let i = choose|i: int| 0 <= i < s.len() && s[i] == x;
        let t = s.push(m);
        assert(0 <= i < t.len() && t[i] == x);
        assert(t.contains(x));
    }
}

/// A run whose best massacre streak reached the Carnage Master mark has
/// Carnage Master among its milestones after any update of the rules.
pub proof fn lemma_carnage_master_unlocks(s: Seq<MilestoneId>, f: MilestoneFrame, st: RunStats)
    requires
        spec_carnage_master_complete(st),
    ensures
        after_frame(s, f, st).contains(MilestoneId::CarnageMaster),
{
    broadcast use lemma_add_if_keeps;
    let s1 = after_kills(after_interactions(s, f.interactions@), f.killed@, st);
    let t = f.targets;
    let a = add_if(s1, f.lore_entries >= 3, MilestoneId::Lorekeeper);
    let a = add_if(a, spec_codex_adept_complete(st), MilestoneId::CodexAdept);
    let a = add_if(a, spec_set_adept_complete(st), MilestoneId::SetAdept);
    let a = add_if(a, spec_gem_adept_complete(st), MilestoneId::GemAdept);
    let a = add_if(a, st.best_massacre_streak >= 5, MilestoneId::Massacre);
    let a = add_if(a, spec_carnage_master_complete(st), MilestoneId::CarnageMaster);
    assert(a.contains(MilestoneId::CarnageMaster)) by {
        reveal(add_if);
        let b = add_if(s1, f.lore_entries >= 3, MilestoneId::Lorekeeper);
        let b = add_if(b, spec_codex_adept_complete(st), MilestoneId::CodexAdept);
        let b = add_if(b, spec_set_adept_complete(st), MilestoneId::SetAdept);
        let b = add_if(b, spec_gem_adept_complete(st), MilestoneId::GemAdept);
        let b = add_if(b, st.best_massacre_streak >= 5, MilestoneId::Massacre);
        if !b.contains(MilestoneId::CarnageMaster) {
            let t = b.push(MilestoneId::CarnageMaster);
            assert(t[b.len() as int] == MilestoneId::CarnageMaster);
            assert(t.contains(MilestoneId::CarnageMaster));
        }
    }
    let r1 = after_run_rules_1(s1, f, st);
    assert(r1.contains(MilestoneId::CarnageMaster));
    let r2 = after_run_rules_2(r1, f, st);
    assert(r2.contains(MilestoneId::CarnageMaster));
    let r3 = after_run_rules_3(r2, f, st);
    assert(r3.contains(MilestoneId::CarnageMaster));
    let r4 = after_run_rules_4(r3, f, st);
    assert(r4.contains(MilestoneId::CarnageMaster));
    assert(after_player_rules(r4, f).contains(MilestoneId::CarnageMaster));
}

/// The combat-log lines of an update's new milestones: "Milestone: " and
/// the title of each, in the order they were unlocked.
pub open spec fn spec_event_lines(newly: Seq<MilestoneId>) -> Seq<Seq<char>> {
    newly.map_values(|m: MilestoneId| "Milestone: "@ + m.spec_title())
}

/// The combat-log lines an update writes for the milestones it newly
/// unlocked, one per milestone, in order.
pub fn milestone_event_lines(newly: &Vec<MilestoneId>) -> (r: Vec<String>)
    ensures
        r@.len() == newly@.len(),
        forall|i: int| 0 <= i < newly@.len() ==> (#[trigger] r@[i])@ == spec_event_lines(newly@)[i],
{
    let mut lines: Vec<String> = Vec::new();
    let mut i: usize = 0;
    while i < newly.len()
        invariant
            i <= newly@.len(),
            lines@.len() == i,
            forall|j: int| 0 <= j < i ==> (#[trigger] lines@[j])@ == spec_event_lines(newly@)[j],
        decreases newly@.len() - i,
    {
        lines.push(milestone_event_text(newly[i]));
        i += 1;
    }
    lines
}

/// A rule for another milestone never unlocks `x`.
pub broadcast proof fn lemma_add_if_excludes(s: Seq<MilestoneId>, cond: bool, m: MilestoneId, x: MilestoneId)
    requires
        !s.contains(x),
        m != x,
    ensures
        !(#[trigger] add_if(s, cond, m).contains(x)),
{
    reveal(add_if);
    if cond && !s.contains(m) {
        let t = s.push(m);
        assert forall|i: int| 0 <= i < t.len() implies t[i] != x by {
            if i < s.len() {
                assert(t[i] == s[i]);
            }
        }
    }
}

proof fn lemma_interactions_skip_lorekeeper(s: Seq<MilestoneId>, ks: Seq<InteractableKind>)
    requires
        !s.contains(MilestoneId::Lorekeeper),
    ensures
        !after_interactions(s, ks).contains(MilestoneId::Lorekeeper),
    decreases ks.len(),
{
    broadcast use lemma_add_if_excludes;
    if ks.len() > 0 {
        lemma_interactions_skip_lorekeeper(s, ks.drop_last());
    }
}

proof fn lemma_kills_skip_lorekeeper(s: Seq<MilestoneId>, ids: Seq<String>, st: RunStats)
    requires
        !s.contains(MilestoneId::Lorekeeper),
    ensures
        !after_kills(s, ids, st).contains(MilestoneId::Lorekeeper),
    decreases ids.len(),
{
    broadcast use lemma_add_if_excludes;
    if ids.len() > 0 {
        lemma_kills_skip_lorekeeper(s, ids.drop_last(), st);
    }
}

/// Lorekeeper takes every lore page of the chapter: an update unlocks it
/// when the frame holds all `LORE_ENTRY_COUNT` pages, and with fewer it is
/// unlocked afterwards only if it already was.
pub proof fn lemma_lorekeeper_needs_every_page(s: Seq<MilestoneId>, f: MilestoneFrame, st: RunStats)
    ensures
        f.lore_entries >= crate::lore::LORE_ENTRY_COUNT ==> after_frame(s, f, st).contains(
            MilestoneId::Lorekeeper,
        ),
        f.lore_entries < crate::lore::LORE_ENTRY_COUNT && !s.contains(MilestoneId::Lorekeeper)
            ==> !after_frame(s, f, st).contains(MilestoneId::Lorekeeper),
{
    let s1 = after_kills(after_interactions(s, f.interactions@), f.killed@, st);
    let lore_step = add_if(s1, f.lore_entries >= 3, MilestoneId::Lorekeeper);
    if f.lore_entries >= crate::lore::LORE_ENTRY_COUNT {
        broadcast use lemma_add_if_keeps;
        assert(lore_step.contains(MilestoneId::Lorekeeper)) by {
            reveal(add_if);
            if !s1.contains(MilestoneId::Lorekeeper) {
                let t = s1.push(MilestoneId::Lorekeeper);
                assert(t[s1.len() as int] == MilestoneId::Lorekeeper);
                assert(t.contains(MilestoneId::Lorekeeper));
            }
        }
        let r1 = after_run_rules_1(s1, f, st);
        assert(r1.contains(MilestoneId::Lorekeeper));
        let r2 = after_run_rules_2(r1, f, st);
        assert(r2.contains(MilestoneId::Lorekeeper));
        let r3 = after_run_rules_3(r2, f, st);
        assert(r3.contains(MilestoneId::Lorekeeper));
        let r4 = after_run_rules_4(r3, f, st);
        assert(r4.contains(MilestoneId::Lorekeeper));
        assert(after_player_rules(r4, f).contains(MilestoneId::Lorekeeper));
    } else if !s.contains(MilestoneId::Lorekeeper) {
        broadcast use lemma_add_if_excludes;
        lemma_interactions_skip_lorekeeper(s, f.interactions@);
        lemma_kills_skip_lorekeeper(after_interactions(s, f.interactions@), f.killed@, st);
        assert(lore_step == s1) by {
            reveal(add_if);
        }
        let r1 = after_run_rules_1(s1, f, st);
        assert(!r1.contains(MilestoneId::Lorekeeper));
        let r2 = after_run_rules_2(r1, f, st);
        assert(!r2.contains(MilestoneId::Lorekeeper));
        let r3 = after_run_rules_3(r2, f, st);
        assert(!r3.contains(MilestoneId::Lorekeeper));
        let r4 = after_run_rules_4(r3, f, st);
        assert(!r4.contains(MilestoneId::Lorekeeper));
        assert(!after_player_rules(r4, f).contains(MilestoneId::Lorekeeper));
    }
}

} // verus!
