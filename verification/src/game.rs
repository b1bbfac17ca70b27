//! Run-wide rules: difficulty, the run counters and the rewards and streaks
//! that a chapter run accumulates.
use vstd::prelude::*;
use crate::text::{decimal, has_sub, push_decimal, chars_are, chars_of};

verus! {

/// Kills needed in one massacre chain for the Carnage Master milestone.
pub const CARNAGE_MASTER_STREAK: u32 = 10;
/// Threat points that fill the Ashen Threat meter once.
pub const ASHEN_THREAT_MAX: u32 = 100;
/// Ashen Threat surges needed for the Ashen Threat milestone.
pub const ASHEN_THREAT_SURGE_TARGET: u32 = 3;
/// Boss stagger breaks that count as breaking Malrec.
pub const BOSS_BREAK_TARGET: u32 = 2;
/// Champion pack members to slay before the pack reward is paid.
pub const CHAMPION_PACK_TARGET: u32 = 4;
/// Health globes needed for the Glory Seeker milestone.
pub const GLORY_SEEKER_GLOBES: u32 = 3;
/// Potions drunk at low health needed for the Last Stand milestone.
pub const LAST_STAND_POTIONS: u32 = 3;
/// Attuned-codex kills needed for the Codex Adept milestone.
pub const CODEX_ADEPT_KILLS: u32 = 5;
/// Set-resonance kills needed for the Set Adept milestone.
pub const SET_ADEPT_KILLS: u32 = 8;
/// Distinct gem kinds needed for the Gem Adept milestone.
pub const GEM_ADEPT_KINDS: u32 = 4;
/// Distinct elite affixes needed for the Affix Codex milestone.
pub const AFFIX_CODEX_TARGET: u32 = 6;
/// Gold paid when the champion pack is broken.
pub const CHAMPION_PACK_REWARD_GOLD: u32 = 85;
/// Ember shards paid when the champion pack is broken.
pub const CHAMPION_PACK_REWARD_SHARDS: u32 = 3;
/// Affix essence paid when the champion pack is broken.
pub const CHAMPION_PACK_REWARD_ESSENCE: u32 = 1;
/// Gold paid when the treasure vault opens.
pub const TREASURE_VAULT_REWARD_GOLD: u32 = 180;
/// Ember shards paid when the treasure vault opens.
pub const TREASURE_VAULT_REWARD_SHARDS: u32 = 5;
/// Affix essence paid when the treasure vault opens.
pub const TREASURE_VAULT_REWARD_ESSENCE: u32 = 3;
/// Gold paid for each Ashen Threat surge.
pub const ASHEN_THREAT_SURGE_GOLD: u32 = 25;
/// Ember shards paid for each Ashen Threat surge.
pub const ASHEN_THREAT_SURGE_SHARDS: u32 = 1;
/// Valor stacks cap.
pub const VALOR_MAX_STACKS: u32 = 5;

/// The counters of one chapter run. The run's clocks (elapsed time and the
/// massacre and valor windows) are kept by the caller beside these.
#[derive(Clone, Copy, Debug, PartialEq, Eq, Structural)]
pub struct RunStats {
    pub kills: u32,
    pub gold: u32,
    pub ember_shards: u32,
    pub affix_essence: u32,
    pub valor_stacks: u32,
    pub best_valor_stacks: u32,
    pub completion_bonus_gold: u32,
    pub completion_bonus_shards: u32,
    pub completion_bonus_essence: u32,
    pub chapter_clear_bonus_gold: u32,
    pub chapter_clear_bonus_shards: u32,
    pub chapter_clear_bonus_essence: u32,
    pub chapter_clear_reward_claimed: bool,
    pub journey_score: u32,
    pub journey_bonus_gold: u32,
    pub journey_bonus_shards: u32,
    pub journey_bonus_essence: u32,
    pub journey_reward_claimed: bool,
    pub renown_rank: u32,
    pub renown_bonus_gold: u32,
    pub renown_bonus_shards: u32,
    pub renown_bonus_essence: u32,
    pub renown_bonus_claimed: bool,
    pub stash_bonus_gold: u32,
    pub stash_bonus_shards: u32,
    pub stash_bonus_essence: u32,
    pub stash_bonus_claimed: bool,
    pub altar_seals: u32,
    pub altar_bonus_gold: u32,
    pub altar_bonus_shards: u32,
    pub altar_bonus_essence: u32,
    pub altar_bonus_claimed: bool,
    pub primal_caches: u32,
    pub primal_cache_bonus_gold: u32,
    pub primal_cache_bonus_shards: u32,
    pub primal_cache_bonus_essence: u32,
    pub primal_cache_items_claimed: u32,
    pub echo_keystones: u32,
    pub primal_cache_echo_items: u32,
    pub malrec_soul_sigils: u32,
    pub malrec_soul_sigils_earned: u32,
    pub soul_sigil_caches: u32,
    pub completion_reward_claimed: bool,
    pub massacre_streak: u32,
    pub best_massacre_streak: u32,
    pub massacre_bonus_gold: u32,
    pub ancient_augments: u32,
    pub primal_infusions: u32,
    pub potions_used: u32,
    pub last_stand_potions: u32,
    pub boss_enraged: bool,
    pub boss_staggers: u32,
    pub shrine_resonance_triggered: bool,
    pub elite_affix_kills: u32,
    pub affix_codex_mask: u16,
    pub seal_warden_slain: bool,
    pub cursed_ambush_kills: u32,
    pub champion_pack_kills: u32,
    pub champion_pack_reward_claimed: bool,
    pub nemesis_kills: u32,
    pub treasure_vaults_opened: u32,
    pub breakables_smashed: u32,
    pub health_globes_collected: u32,
    pub surge_kills: u32,
    pub reap_dash_hits: u32,
    pub hemorrhage_rupture_hits: u32,
    pub frost_nova_hits: u32,
    pub armory_loadouts_saved: u32,
    pub town_portal_returns: u32,
    pub pylon_kills: u32,
    pub salvage_progress: u32,
    pub salvage_caches: u32,
    pub alchemy_gold_transmutes: u32,
    pub alchemy_essence_transmutes: u32,
    pub alchemy_keystone_transmutes: u32,
    pub loot_filter_cycles: u32,
    pub codex_attuned_kills: u32,
    pub set_resonance_kills: u32,
    pub ruby_socketed: bool,
    pub emerald_socketed: bool,
    pub amethyst_socketed: bool,
    pub topaz_socketed: bool,
    pub iron_elixir_used: bool,
    pub wrath_elixir_used: bool,
    pub haste_elixir_used: bool,
    pub reliquary_momentum: u32,
    pub best_reliquary_momentum: u32,
    pub ashen_threat: u32,
    pub ashen_threat_surges: u32,
}

impl RunStats {
    /// The counters of a run that has not started.
    pub open spec fn fresh() -> RunStats {
        RunStats {
            kills: 0,
            gold: 0,
            ember_shards: 0,
            affix_essence: 0,
            valor_stacks: 0,
            best_valor_stacks: 0,
            completion_bonus_gold: 0,
            completion_bonus_shards: 0,
            completion_bonus_essence: 0,
            chapter_clear_bonus_gold: 0,
            chapter_clear_bonus_shards: 0,
            chapter_clear_bonus_essence: 0,
            chapter_clear_reward_claimed: false,
            journey_score: 0,
            journey_bonus_gold: 0,
            journey_bonus_shards: 0,
            journey_bonus_essence: 0,
            journey_reward_claimed: false,
            renown_rank: 0,
            renown_bonus_gold: 0,
            renown_bonus_shards: 0,
            renown_bonus_essence: 0,
            renown_bonus_claimed: false,
            stash_bonus_gold: 0,
            stash_bonus_shards: 0,
            stash_bonus_essence: 0,
            stash_bonus_claimed: false,
            altar_seals: 0,
            altar_bonus_gold: 0,
            altar_bonus_shards: 0,
            altar_bonus_essence: 0,
            altar_bonus_claimed: false,
            primal_caches: 0,
            primal_cache_bonus_gold: 0,
            primal_cache_bonus_shards: 0,
            primal_cache_bonus_essence: 0,
            primal_cache_items_claimed: 0,
            echo_keystones: 0,
            primal_cache_echo_items: 0,
            malrec_soul_sigils: 0,
            malrec_soul_sigils_earned: 0,
            soul_sigil_caches: 0,
            completion_reward_claimed: false,
            massacre_streak: 0,
            best_massacre_streak: 0,
            massacre_bonus_gold: 0,
            ancient_augments: 0,
            primal_infusions: 0,
            potions_used: 0,
            last_stand_potions: 0,
            boss_enraged: false,
            boss_staggers: 0,
            shrine_resonance_triggered: false,
            elite_affix_kills: 0,
            affix_codex_mask: 0,
            seal_warden_slain: false,
            cursed_ambush_kills: 0,
            champion_pack_kills: 0,
            champion_pack_reward_claimed: false,
            nemesis_kills: 0,
            treasure_vaults_opened: 0,
            breakables_smashed: 0,
            health_globes_collected: 0,
            surge_kills: 0,
            reap_dash_hits: 0,
            hemorrhage_rupture_hits: 0,
            frost_nova_hits: 0,
            armory_loadouts_saved: 0,
            town_portal_returns: 0,
            pylon_kills: 0,
            salvage_progress: 0,
            salvage_caches: 0,
            alchemy_gold_transmutes: 0,
            alchemy_essence_transmutes: 0,
            alchemy_keystone_transmutes: 0,
            loot_filter_cycles: 0,
            codex_attuned_kills: 0,
            set_resonance_kills: 0,
            ruby_socketed: false,
            emerald_socketed: false,
            amethyst_socketed: false,
            topaz_socketed: false,
            iron_elixir_used: false,
            wrath_elixir_used: false,
            haste_elixir_used: false,
            reliquary_momentum: 0,
            best_reliquary_momentum: 0,
            ashen_threat: 0,
            ashen_threat_surges: 0,
        }
    }

    /// Counters of a run that has not started: everything zero or false.
    pub fn new() -> (r: RunStats)
        ensures
            r == RunStats::fresh(),
    {
        RunStats {
            kills: 0,
            gold: 0,
            ember_shards: 0,
            affix_essence: 0,
            valor_stacks: 0,
            best_valor_stacks: 0,
            completion_bonus_gold: 0,
            completion_bonus_shards: 0,
            completion_bonus_essence: 0,
            chapter_clear_bonus_gold: 0,
            chapter_clear_bonus_shards: 0,
            chapter_clear_bonus_essence: 0,
            chapter_clear_reward_claimed: false,
            journey_score: 0,
            journey_bonus_gold: 0,
            journey_bonus_shards: 0,
            journey_bonus_essence: 0,
            journey_reward_claimed: false,
            renown_rank: 0,
            renown_bonus_gold: 0,
            renown_bonus_shards: 0,
            renown_bonus_essence: 0,
            renown_bonus_claimed: false,
            stash_bonus_gold: 0,
            stash_bonus_shards: 0,
            stash_bonus_essence: 0,
            stash_bonus_claimed: false,
            altar_seals: 0,
            altar_bonus_gold: 0,
            altar_bonus_shards: 0,
            altar_bonus_essence: 0,
            altar_bonus_claimed: false,
            primal_caches: 0,
            primal_cache_bonus_gold: 0,
            primal_cache_bonus_shards: 0,
            primal_cache_bonus_essence: 0,
            primal_cache_items_claimed: 0,
            echo_keystones: 0,
            primal_cache_echo_items: 0,
            malrec_soul_sigils: 0,
            malrec_soul_sigils_earned: 0,
            soul_sigil_caches: 0,
            completion_reward_claimed: false,
            massacre_streak: 0,
            best_massacre_streak: 0,
            massacre_bonus_gold: 0,
            ancient_augments: 0,
            primal_infusions: 0,
            potions_used: 0,
            last_stand_potions: 0,
            boss_enraged: false,
            boss_staggers: 0,
            shrine_resonance_triggered: false,
            elite_affix_kills: 0,
            affix_codex_mask: 0,
            seal_warden_slain: false,
            cursed_ambush_kills: 0,
            champion_pack_kills: 0,
            champion_pack_reward_claimed: false,
            nemesis_kills: 0,
            treasure_vaults_opened: 0,
            breakables_smashed: 0,
            health_globes_collected: 0,
            surge_kills: 0,
            reap_dash_hits: 0,
            hemorrhage_rupture_hits: 0,
            frost_nova_hits: 0,
            armory_loadouts_saved: 0,
            town_portal_returns: 0,
            pylon_kills: 0,
            salvage_progress: 0,
            salvage_caches: 0,
            alchemy_gold_transmutes: 0,
            alchemy_essence_transmutes: 0,
            alchemy_keystone_transmutes: 0,
            loot_filter_cycles: 0,
            codex_attuned_kills: 0,
            set_resonance_kills: 0,
            ruby_socketed: false,
            emerald_socketed: false,
            amethyst_socketed: false,
            topaz_socketed: false,
            iron_elixir_used: false,
            wrath_elixir_used: false,
            haste_elixir_used: false,
            reliquary_momentum: 0,
            best_reliquary_momentum: 0,
            ashen_threat: 0,
            ashen_threat_surges: 0,
        }
    }
}

impl Default for RunStats {
    fn default() -> (r: RunStats)
        ensures
            r == RunStats::fresh(),
    {
        RunStats::new()
    }
}


/// The difficulty a chapter is played on.
#[derive(Clone, Copy, Debug, PartialEq, Eq, Structural)]
pub enum Difficulty {
    Normal,
    Nightmare,
    Hell,
    Torment,
}

impl Difficulty {
    /// The difficulty's display name.
    pub open spec fn spec_label(self) -> Seq<char> {
        match self {
            Difficulty::Normal => "Normal"@,
            Difficulty::Nightmare => "Nightmare"@,
            Difficulty::Hell => "Hell"@,
            Difficulty::Torment => "Torment"@,
        }
    }

    /// The difficulty that follows in the selection cycle.
    pub open spec fn spec_next(self) -> Difficulty {
        match self {
            Difficulty::Normal => Difficulty::Nightmare,
            Difficulty::Nightmare => Difficulty::Hell,
            Difficulty::Hell => Difficulty::Torment,
            Difficulty::Torment => Difficulty::Normal,
        }
    }

    /// Position of the difficulty in the ladder, from 0 (Normal) to 3 (Torment).
    pub open spec fn rank(self) -> nat {
        match self {
            Difficulty::Normal => 0,
            Difficulty::Nightmare => 1,
            Difficulty::Hell => 2,
            Difficulty::Torment => 3,
        }
    }

    /// The difficulty's display name.
    pub fn label(self) -> (r: &'static str)
        ensures
            r@ == self.spec_label(),
    {
        match self {
            Difficulty::Normal => "Normal",
            Difficulty::Nightmare => "Nightmare",
            Difficulty::Hell => "Hell",
            Difficulty::Torment => "Torment",
        }
    }

    /// The next difficulty in the selection cycle; Torment wraps to Normal.
    pub fn next(self) -> (r: Difficulty)
        ensures
            r == self.spec_next(),
    {
        match self {
            Difficulty::Normal => Difficulty::Nightmare,
            Difficulty::Nightmare => Difficulty::Hell,
            Difficulty::Hell => Difficulty::Torment,
            Difficulty::Torment => Difficulty::Normal,
        }
    }
}

impl Default for Difficulty {
    fn default() -> (r: Difficulty)
        ensures
            r == Difficulty::Normal,
    {
        Difficulty::Normal
    }
}

/// Cycling the difficulty four times brings it back where it started, each
/// step one rung up the ladder until Torment wraps to Normal.
pub proof fn lemma_difficulty_cycle(d: Difficulty)
    ensures
        d.spec_next().spec_next().spec_next().spec_next() == d,
        d != Difficulty::Torment ==> d.spec_next().rank() == d.rank() + 1,
        d == Difficulty::Torment ==> d.spec_next() == Difficulty::Normal,
{
}

/// The difficulty a cleared chapter escalates to: one step up the ladder,
/// staying at Torment once there.
pub fn escalated_difficulty_after_clear(difficulty: Difficulty) -> (r: Difficulty)
    ensures
        r.rank() == if difficulty.rank() < 3 { difficulty.rank() + 1 } else { 3 },
        r == if difficulty == Difficulty::Torment { Difficulty::Torment } else { difficulty.spec_next() },
{
    match difficulty {
        Difficulty::Normal => Difficulty::Nightmare,
        Difficulty::Nightmare => Difficulty::Hell,
        Difficulty::Hell | Difficulty::Torment => Difficulty::Torment,
    }
}

/// The state the game is in.
#[derive(Clone, Copy, Debug, PartialEq, Eq, Structural)]
pub enum GameState {
    Loading,
    MainMenu,
    InGame,
    GameOver,
    Victory,
}

impl GameState {
    /// The state's name as it appears in runtime summaries.
    pub open spec fn spec_label(self) -> Seq<char> {
        match self {
            GameState::Loading => "loading"@,
            GameState::MainMenu => "main_menu"@,
            GameState::InGame => "in_game"@,
            GameState::GameOver => "game_over"@,
            GameState::Victory => "victory"@,
        }
    }

    /// The state's name as it appears in runtime summaries.
    pub fn label(self) -> (r: &'static str)
        ensures
            r@ == self.spec_label(),
    {
        match self {
            GameState::Loading => "loading",
            GameState::MainMenu => "main_menu",
            GameState::InGame => "in_game",
            GameState::GameOver => "game_over",
            GameState::Victory => "victory",
        }
    }
}

/// Whether combat audio is enabled.
#[derive(Clone, Copy, Debug, PartialEq, Eq, Structural)]
pub struct AudioSettings {
    pub enabled: bool,
}

impl AudioSettings {
    /// Flips audio on or off.
    pub fn toggle(&mut self)
        ensures
            final(self).enabled == !old(self).enabled,
    {
        self.enabled = !self.enabled;
    }

    /// "audio on" when enabled, "audio muted" otherwise.
    pub fn status_label(&self) -> (r: &'static str)
        ensures
            r@ == if self.enabled { "audio on"@ } else { "audio muted"@ },
    {
        if self.enabled {
            "audio on"
        } else {
            "audio muted"
        }
    }
}

/// The extra gold, shards and essence of a Primal Ember Cache.
#[derive(Clone, Copy, Debug, PartialEq, Eq, Structural)]
pub struct PrimalCacheReward {
    pub gold: u32,
    pub shards: u32,
    pub essence: u32,
}

impl PrimalCacheReward {
    /// Whether the reward pays nothing at all.
    pub fn is_empty(self) -> (r: bool)
        ensures
            r == (self.gold == 0 && self.shards == 0 && self.essence == 0),
    {
        self.gold == 0 && self.shards == 0 && self.essence == 0
    }
}

/// The counters after one more champion pack kill, unless the pack reward
/// was already paid (then nothing changes).
pub open spec fn champion_kill_spec(s: RunStats) -> RunStats {
    if s.champion_pack_reward_claimed {
        s
    } else {
        RunStats {
            champion_pack_kills: if s.champion_pack_kills + 1 > CHAMPION_PACK_TARGET {
                CHAMPION_PACK_TARGET
            } else {
                (s.champion_pack_kills + 1) as u32
            },
            ..s
        }
    }
}

/// Counts a champion pack kill (capped at the pack size) and reports whether
/// the whole pack is now down. Once the pack reward is paid, kills no longer
/// count and the answer is `false`.
pub fn register_champion_pack_kill(stats: &mut RunStats) -> (r: bool)
    ensures
        *final(stats) == champion_kill_spec(*old(stats)),
        r == (!old(stats).champion_pack_reward_claimed && final(stats).champion_pack_kills
            >= CHAMPION_PACK_TARGET),
{
    if stats.champion_pack_reward_claimed {
        return false;
    }
    let next = stats.champion_pack_kills.saturating_add(1);
    stats.champion_pack_kills = if next < CHAMPION_PACK_TARGET { next } else { CHAMPION_PACK_TARGET };
    stats.champion_pack_kills >= CHAMPION_PACK_TARGET
}

/// Pays the champion pack reward once the whole pack is down and it was not
/// paid yet.
pub fn grant_champion_pack_reward(stats: &mut RunStats) -> (r: bool)
    requires
        !old(stats).champion_pack_reward_claimed && old(stats).champion_pack_kills
            >= CHAMPION_PACK_TARGET ==> old(stats).gold + CHAMPION_PACK_REWARD_GOLD <= u32::MAX
            && old(stats).ember_shards + CHAMPION_PACK_REWARD_SHARDS <= u32::MAX
            && old(stats).affix_essence + CHAMPION_PACK_REWARD_ESSENCE <= u32::MAX,
    ensures
        r == (!old(stats).champion_pack_reward_claimed && old(stats).champion_pack_kills
            >= CHAMPION_PACK_TARGET),
        r ==> *final(stats) == (RunStats {
            gold: (old(stats).gold + CHAMPION_PACK_REWARD_GOLD) as u32,
            ember_shards: (old(stats).ember_shards + CHAMPION_PACK_REWARD_SHARDS) as u32,
            affix_essence: (old(stats).affix_essence + CHAMPION_PACK_REWARD_ESSENCE) as u32,
            champion_pack_reward_claimed: true,
            ..*old(stats)
        }),
        !r ==> *final(stats) == *old(stats),
{
    if stats.champion_pack_reward_claimed || stats.champion_pack_kills < CHAMPION_PACK_TARGET {
        return false;
    }
    stats.gold += CHAMPION_PACK_REWARD_GOLD;
    stats.ember_shards += CHAMPION_PACK_REWARD_SHARDS;
    stats.affix_essence += CHAMPION_PACK_REWARD_ESSENCE;
    stats.champion_pack_reward_claimed = true;
    true
}

/// Opens the treasure vault the first time, paying its reward; later calls
/// change nothing.
pub fn grant_treasure_vault_reward(stats: &mut RunStats) -> (r: bool)
    requires
        old(stats).treasure_vaults_opened == 0 ==> old(stats).gold + TREASURE_VAULT_REWARD_GOLD
            <= u32::MAX && old(stats).ember_shards + TREASURE_VAULT_REWARD_SHARDS <= u32::MAX
            && old(stats).affix_essence + TREASURE_VAULT_REWARD_ESSENCE <= u32::MAX,
    ensures
        r == (old(stats).treasure_vaults_opened == 0),
        r ==> *final(stats) == (RunStats {
            treasure_vaults_opened: 1,
            gold: (old(stats).gold + TREASURE_VAULT_REWARD_GOLD) as u32,
            ember_shards: (old(stats).ember_shards + TREASURE_VAULT_REWARD_SHARDS) as u32,
            affix_essence: (old(stats).affix_essence + TREASURE_VAULT_REWARD_ESSENCE) as u32,
            ..*old(stats)
        }),
        !r ==> *final(stats) == *old(stats),
{
    if stats.treasure_vaults_opened > 0 {
        return false;
    }
    stats.treasure_vaults_opened = 1;
    stats.gold += TREASURE_VAULT_REWARD_GOLD;
    stats.ember_shards += TREASURE_VAULT_REWARD_SHARDS;
    stats.affix_essence += TREASURE_VAULT_REWARD_ESSENCE;
    true
}

/// Ashen Threat a kill feeds into the meter: 60 for the keeper, 34 for the
/// nemesis or the treasure imp, 28 plus 4 per affix for an affixed elite and
/// 16 otherwise.
pub open spec fn spec_ashen_threat_gain(enemy_id: Seq<char>, affix_count: usize) -> int {
    if enemy_id == "keeper"@ {
        60
    } else if enemy_id == "nemesis"@ || enemy_id == "treasure_imp"@ {
        34
    } else if affix_count > 0 {
        28 + (affix_count as u32) * 4
    } else {
        16
    }
}

/// Ashen Threat that a kill of `enemy_id` with `affix_count` affixes adds.
pub fn ashen_threat_gain(enemy_id: &str, affix_count: usize) -> (r: u32)
    requires
        #[verifier::truncate] (affix_count as u32) <= (u32::MAX - 28) / 4,
    ensures
        r == spec_ashen_threat_gain(enemy_id@, affix_count),
{
    let id = chars_of(enemy_id);
    if chars_are(&id, "keeper") {
        60
    } else if chars_are(&id, "nemesis") || chars_are(&id, "treasure_imp") {
        34
    } else if affix_count > 0 {
        28 + affix_count as u32 * 4
    } else {
        16
    }
}

/// `a + b` for `u32` counters, saturating at `u32::MAX`.
pub open spec fn sat_add(a: int, b: int) -> int {
    if a + b > u32::MAX {
        u32::MAX as int
    } else {
        a + b
    }
}

/// The meter after `gained` threat: saturating sum, less every full meter.
pub open spec fn threat_after(threat: u32, gained: u32) -> int {
    sat_add(threat as int, gained as int) % 100
}

/// Surges that `gained` threat triggers on a meter at `threat`.
pub open spec fn surges_after(threat: u32, gained: u32) -> int {
    sat_add(threat as int, gained as int) / 100
}

/// Adds `gained` to the Ashen Threat meter (saturating), turns every full
/// meter into a surge and returns how many surges that made.
pub fn register_ashen_threat(stats: &mut RunStats, gained: u32) -> (surges: u32)
    ensures
        surges == surges_after(old(stats).ashen_threat, gained),
        *final(stats) == (RunStats {
            ashen_threat: threat_after(old(stats).ashen_threat, gained) as u32,
            ashen_threat_surges: sat_add(old(stats).ashen_threat_surges as int, surges as int) as u32,
            ..*old(stats)
        }),
{
    let total = stats.ashen_threat.saturating_add(gained);
    let surges = total / 100;
    stats.ashen_threat = total % 100;
    stats.ashen_threat_surges = stats.ashen_threat_surges.saturating_add(surges);
    surges
}

/// What one kill did to the run's Ashen Threat.
#[derive(Clone, Copy, Debug, PartialEq, Eq, Structural)]
pub struct AshenThreatKill {
    /// The kill opened the treasure vault (the treasure imp, the first time).
    pub vault_opened: bool,
    /// Threat the kill added.
    pub gained: u32,
    /// Surges the kill triggered.
    pub surges: u32,
    /// Number of the first surge the kill triggered (surges are numbered from 1).
    pub first_surge: u32,
}

/// Applies one enemy kill to the run's Ashen Threat: a treasure imp opens the
/// vault (once), a nemesis kill is counted, the threat rises by the kill's
/// gain and each surge pays 25 gold and 1 shard.
pub fn apply_ashen_threat_kill(stats: &mut RunStats, enemy_id: &str, affix_count: usize) -> (r:
    AshenThreatKill)
    requires
        (affix_count as u32) <= (u32::MAX - 28) / 4,
        ({
            let vault = enemy_id@ == "treasure_imp"@ && old(stats).treasure_vaults_opened == 0;
            let surges = surges_after(
                old(stats).ashen_threat,
                spec_ashen_threat_gain(enemy_id@, affix_count) as u32,
            );
            &&& old(stats).gold + (if vault { TREASURE_VAULT_REWARD_GOLD } else { 0 })
                + 25 * surges <= u32::MAX
            &&& old(stats).ember_shards + (if vault { TREASURE_VAULT_REWARD_SHARDS } else { 0 })
                + surges <= u32::MAX
            &&& old(stats).affix_essence + TREASURE_VAULT_REWARD_ESSENCE <= u32::MAX
            &&& sat_add(old(stats).ashen_threat_surges as int, surges) < u32::MAX
        }),
    ensures
        r.vault_opened == (enemy_id@ == "treasure_imp"@ && old(stats).treasure_vaults_opened == 0),
        r.gained == spec_ashen_threat_gain(enemy_id@, affix_count),
        r.surges == surges_after(old(stats).ashen_threat, r.gained),
        final(stats).ashen_threat == threat_after(old(stats).ashen_threat, r.gained),
        final(stats).ashen_threat_surges == sat_add(
            old(stats).ashen_threat_surges as int,
            r.surges as int,
        ),
        r.first_surge == final(stats).ashen_threat_surges - r.surges + 1,
        final(stats).nemesis_kills == if enemy_id@ == "nemesis"@ {
            sat_add(old(stats).nemesis_kills as int, 1)
        } else {
            old(stats).nemesis_kills as int
        },
        final(stats).treasure_vaults_opened == if r.vault_opened {
            1
        } else {
            old(stats).treasure_vaults_opened
        },
        final(stats).gold == old(stats).gold + (if r.vault_opened {
            TREASURE_VAULT_REWARD_GOLD
        } else {
            0
        }) + 25 * r.surges,
        final(stats).ember_shards == old(stats).ember_shards + (if r.vault_opened {
            TREASURE_VAULT_REWARD_SHARDS
        } else {
            0
        }) + r.surges,
        final(stats).affix_essence == old(stats).affix_essence + (if r.vault_opened {
            TREASURE_VAULT_REWARD_ESSENCE
        } else {
            0
        }),
        *final(stats) == (RunStats {
            gold: final(stats).gold,
            ember_shards: final(stats).ember_shards,
            affix_essence: final(stats).affix_essence,
            treasure_vaults_opened: final(stats).treasure_vaults_opened,
            nemesis_kills: final(stats).nemesis_kills,
            ashen_threat: final(stats).ashen_threat,
            ashen_threat_surges: final(stats).ashen_threat_surges,
            ..*old(stats)
        }),
{
    let id = chars_of(enemy_id);
    let vault_opened = chars_are(&id, "treasure_imp") && stats.treasure_vaults_opened == 0;
    let is_nemesis = chars_are(&id, "nemesis");
    let gained = ashen_threat_gain(enemy_id, affix_count);
    let total = stats.ashen_threat.saturating_add(gained);
    let surges = total / 100;
    let surge_count = stats.ashen_threat_surges.saturating_add(surges);
    let first_surge = surge_count - surges + 1;
    let mut gold = stats.gold + 25 * surges;
    let mut shards = stats.ember_shards + surges;
    let mut essence = stats.affix_essence;
    let mut vaults = stats.treasure_vaults_opened;
    if vault_opened {
        gold = gold + TREASURE_VAULT_REWARD_GOLD;
        shards = shards + TREASURE_VAULT_REWARD_SHARDS;
        essence = essence + TREASURE_VAULT_REWARD_ESSENCE;
        vaults = 1;
    }
    let nemesis_kills = if is_nemesis {
        stats.nemesis_kills.saturating_add(1)
    } else {
        stats.nemesis_kills
    };
    *stats = RunStats {
        gold: gold,
        ember_shards: shards,
        affix_essence: essence,
        treasure_vaults_opened: vaults,
        nemesis_kills: nemesis_kills,
        ashen_threat: total % 100,
        ashen_threat_surges: surge_count,
        ..*stats
    };
    AshenThreatKill { vault_opened, gained, surges, first_surge }
}

/// The rating letter of a cleared chapter from its difficulty, its pace and
/// its kills: difficulty rank plus pace score plus one for seven or more
/// kills; 6 or more is "S", 4-5 "A", 2-3 "B", else "C". The pace score is 3
/// for a clear within 240 seconds, 2 within 360, 1 within 540 and 0 beyond.
pub open spec fn spec_chapter_rating(d: Difficulty, pace_score: u32, kills: u32) -> Seq<char> {
    let total = d.rank() + pace_score + if kills >= 7 { 1int } else { 0 };
    if total >= 6 {
        "S"@
    } else if total >= 4 {
        "A"@
    } else if total >= 2 {
        "B"@
    } else {
        "C"@
    }
}

/// The rating tier of a clear: 3 for "S", 2 for "A", 1 for "B", 0 for "C".
pub open spec fn rating_tier(d: Difficulty, pace_score: u32, kills: u32) -> int {
    let total = d.rank() + pace_score + if kills >= 7 { 1int } else { 0 };
    if total >= 6 {
        3
    } else if total >= 4 {
        2
    } else if total >= 2 {
        1
    } else {
        0
    }
}

fn rating_tier_exec(difficulty: Difficulty, pace_score: u32, kills: u32) -> (r: u32)
    requires
        pace_score <= 3,
    ensures
        r == rating_tier(difficulty, pace_score, kills),
{
    let bonus: u32 = match difficulty {
        Difficulty::Normal => 0,
        Difficulty::Nightmare => 1,
        Difficulty::Hell => 2,
        Difficulty::Torment => 3,
    };
    let kill_score: u32 = if kills >= 7 { 1 } else { 0 };
    let total = bonus + pace_score + kill_score;
    if total >= 6 {
        3
    } else if total >= 4 {
        2
    } else if total >= 2 {
        1
    } else {
        0
    }
}

/// The rating letter of a cleared chapter; `pace_score` (0 to 3) is how fast
/// the clear was.
pub fn chapter_rating(difficulty: Difficulty, pace_score: u32, kills: u32) -> (r: &'static str)
    requires
        pace_score <= 3,
    ensures
        r@ == spec_chapter_rating(difficulty, pace_score, kills),
{
    let tier = rating_tier_exec(difficulty, pace_score, kills);
    if tier == 3 {
        "S"
    } else if tier == 2 {
        "A"
    } else if tier == 1 {
        "B"
    } else {
        "C"
    }
}

/// Ember shards a cleared chapter pays: 8/6/4/2 by rating, plus 0/2/4/7 by
/// difficulty, plus one per lore page.
pub open spec fn spec_completion_shards(d: Difficulty, pace_score: u32, kills: u32, lore_entries: usize) -> int {
    let t = rating_tier(d, pace_score, kills);
    (if t == 3 { 8int } else if t == 2 { 6 } else if t == 1 { 4 } else { 2 }) + match d {
        Difficulty::Normal => 0int,
        Difficulty::Nightmare => 2,
        Difficulty::Hell => 4,
        Difficulty::Torment => 7,
    } + (lore_entries as u32)
}

/// Ember shards a cleared chapter pays.
pub fn chapter_completion_shard_reward(difficulty: Difficulty, pace_score: u32, kills: u32, lore_entries: usize) -> (r: u32)
    requires
        pace_score <= 3,
        #[verifier::truncate] (lore_entries as u32) + 15 <= u32::MAX,
    ensures
        r == spec_completion_shards(difficulty, pace_score, kills, lore_entries),
{
    let tier = rating_tier_exec(difficulty, pace_score, kills);
    let base: u32 = if tier == 3 { 8 } else if tier == 2 { 6 } else if tier == 1 { 4 } else { 2 };
    let bonus: u32 = match difficulty {
        Difficulty::Normal => 0,
        Difficulty::Nightmare => 2,
        Difficulty::Hell => 4,
        Difficulty::Torment => 7,
    };
    base + bonus + #[verifier::truncate] (lore_entries as u32)
}

/// Affix essence a cleared chapter pays: 5/3/2/1 by rating, plus 0/1/3/5 by
/// difficulty, plus one per two lore pages.
pub open spec fn spec_completion_essence(d: Difficulty, pace_score: u32, kills: u32, lore_entries: usize) -> int {
    let t = rating_tier(d, pace_score, kills);
    (if t == 3 { 5int } else if t == 2 { 3 } else if t == 1 { 2 } else { 1 }) + match d {
        Difficulty::Normal => 0int,
        Difficulty::Nightmare => 1,
        Difficulty::Hell => 3,
        Difficulty::Torment => 5,
    } + (lore_entries as u32) / 2
}

/// Affix essence a cleared chapter pays.
pub fn chapter_completion_essence_reward(difficulty: Difficulty, pace_score: u32, kills: u32, lore_entries: usize) -> (r: u32)
    requires
        pace_score <= 3,
    ensures
        r == spec_completion_essence(difficulty, pace_score, kills, lore_entries),
{
    let tier = rating_tier_exec(difficulty, pace_score, kills);
    let base: u32 = if tier == 3 { 5 } else if tier == 2 { 3 } else if tier == 1 { 2 } else { 1 };
    let bonus: u32 = match difficulty {
        Difficulty::Normal => 0,
        Difficulty::Nightmare => 1,
        Difficulty::Hell => 3,
        Difficulty::Torment => 5,
    };
    base + bonus + (#[verifier::truncate] (lore_entries as u32)) / 2
}

/// The Primal Ember Cache of a Torment clear: 180 gold, 10 shards and 8
/// essence, plus 80/4/4 for an "S" or 50/3/2 for an "A", 50/3/3 for breaking
/// Malrec, 40/2/2 for beating him before Ashen Enrage and 100/5/4 when an
/// Echo Keystone is held. Other difficulties pay nothing.
pub open spec fn spec_primal_cache(
    d: Difficulty,
    pace_score: u32,
    kills: u32,
    boss_staggers: u32,
    boss_enraged: bool,
    echo_keystones: u32,
) -> PrimalCacheReward {
    if d != Difficulty::Torment {
        PrimalCacheReward { gold: 0, shards: 0, essence: 0 }
    } else {
        let t = rating_tier(d, pace_score, kills);
        let r = if t == 3 { (80int, 4int, 4int) } else if t == 2 { (50, 3, 2) } else { (0, 0, 0) };
        let b = if boss_staggers >= BOSS_BREAK_TARGET { (50int, 3int, 3int) } else { (0, 0, 0) };
        let e = if !boss_enraged { (40int, 2int, 2int) } else { (0, 0, 0) };
        let k = if echo_keystones > 0 { (100int, 5int, 4int) } else { (0, 0, 0) };
        PrimalCacheReward {
            gold: (180 + r.0 + b.0 + e.0 + k.0) as u32,
            shards: (10 + r.1 + b.1 + e.1 + k.1) as u32,
            essence: (8 + r.2 + b.2 + e.2 + k.2) as u32,
        }
    }
}

/// The Primal Ember Cache a clear earns.
pub fn primal_ember_cache_reward(
    difficulty: Difficulty,
    pace_score: u32,
    kills: u32,
    boss_staggers: u32,
    boss_enraged: bool,
    echo_keystones: u32,
) -> (r: PrimalCacheReward)
    requires
        pace_score <= 3,
    ensures
        r == spec_primal_cache(difficulty, pace_score, kills, boss_staggers, boss_enraged, echo_keystones),
{
    if difficulty != Difficulty::Torment {
        return PrimalCacheReward { gold: 0, shards: 0, essence: 0 };
    }
    let mut reward = PrimalCacheReward { gold: 180, shards: 10, essence: 8 };
    let tier = rating_tier_exec(difficulty, pace_score, kills);
    if tier == 3 {
        reward.gold = reward.gold + 80;
        reward.shards = reward.shards + 4;
        reward.essence = reward.essence + 4;
    } else if tier == 2 {
        reward.gold = reward.gold + 50;
        reward.shards = reward.shards + 3;
        reward.essence = reward.essence + 2;
    }
    if boss_staggers >= BOSS_BREAK_TARGET {
        reward.gold = reward.gold + 50;
        reward.shards = reward.shards + 3;
        reward.essence = reward.essence + 3;
    }
    if !boss_enraged {
        reward.gold = reward.gold + 40;
        reward.shards = reward.shards + 2;
        reward.essence = reward.essence + 2;
    }
    if echo_keystones > 0 {
        reward.gold = reward.gold + 100;
        reward.shards = reward.shards + 5;
        reward.essence = reward.essence + 4;
    }
    reward
}

/// The massacre tier of a kill streak: 0 below 3 kills, 1 for 3-4, 2 for
/// 5-6, 3 from 7.
pub open spec fn spec_massacre_tier(streak: u32) -> u32 {
    if streak <= 2 {
        0
    } else if streak <= 4 {
        1
    } else if streak <= 6 {
        2
    } else {
        3
    }
}

/// The massacre tier of a kill streak.
pub fn massacre_tier(streak: u32) -> (r: u32)
    ensures
        r == spec_massacre_tier(streak),
{
    if streak <= 2 {
        0
    } else if streak <= 4 {
        1
    } else if streak <= 6 {
        2
    } else {
        3
    }
}

/// Gold a massacre kill pays: five per massacre tier.
pub fn massacre_gold_bonus(streak: u32) -> (r: u32)
    ensures
        r == 5 * spec_massacre_tier(streak),
{
    massacre_tier(streak) * 5
}

/// Counts a kill toward the massacre streak: the streak restarts unless
/// `window_open` (the previous kill's massacre window is still running),
/// the best streak follows it, and the streak's gold bonus is paid. Returns
/// the gold bonus; the caller opens the next four-second window.
pub fn register_massacre_kill(stats: &mut RunStats, window_open: bool) -> (gold: u32)
    requires
        window_open ==> old(stats).massacre_streak < u32::MAX,
        ({
            let streak = if window_open { old(stats).massacre_streak + 1 } else { 1 };
            &&& old(stats).gold + 5 * spec_massacre_tier(streak as u32) <= u32::MAX
            &&& old(stats).massacre_bonus_gold + 5 * spec_massacre_tier(streak as u32) <= u32::MAX
        }),
    ensures
        ({
            let streak = if window_open { old(stats).massacre_streak + 1 } else { 1 };
            &&& gold == 5 * spec_massacre_tier(streak as u32)
            &&& *final(stats) == (RunStats {
                massacre_streak: streak as u32,
                best_massacre_streak: if old(stats).best_massacre_streak >= streak {
                    old(stats).best_massacre_streak
                } else {
                    streak as u32
                },
                gold: (old(stats).gold + gold) as u32,
                massacre_bonus_gold: (old(stats).massacre_bonus_gold + gold) as u32,
                ..*old(stats)
            })
        }),
{
    let streak = if window_open { stats.massacre_streak + 1 } else { 1 };
    let best = if stats.best_massacre_streak >= streak { stats.best_massacre_streak } else { streak };
    let gold = massacre_gold_bonus(streak);
    *stats = RunStats {
        massacre_streak: streak,
        best_massacre_streak: best,
        gold: stats.gold + gold,
        massacre_bonus_gold: stats.massacre_bonus_gold + gold,
        ..*stats
    };
    gold
}

/// Adds a Valor stack (at most five) and keeps the best count; returns the
/// stacks now held. The caller restarts the ninety-second Valor window.
pub fn register_valor_kill(stats: &mut RunStats) -> (stacks: u32)
    requires
        old(stats).valor_stacks < u32::MAX,
    ensures
        stacks == if old(stats).valor_stacks + 1 < VALOR_MAX_STACKS {
            old(stats).valor_stacks + 1
        } else {
            VALOR_MAX_STACKS as int
        },
        *final(stats) == (RunStats {
            valor_stacks: stacks,
            best_valor_stacks: if old(stats).best_valor_stacks >= stacks {
                old(stats).best_valor_stacks
            } else {
                stacks
            },
            ..*old(stats)
        }),
{
    let next = stats.valor_stacks + 1;
    let stacks = if next < VALOR_MAX_STACKS { next } else { VALOR_MAX_STACKS };
    let best = if stats.best_valor_stacks >= stacks { stats.best_valor_stacks } else { stacks };
    *stats = RunStats { valor_stacks: stacks, best_valor_stacks: best, ..*stats };
    stacks
}

/// Starts the counters of a new chapter: everything resets except the Malrec
/// Soul Sigils, which carry over.
pub fn reset_run_stats_for_new_chapter(stats: &mut RunStats)
    ensures
        *final(stats) == (RunStats { malrec_soul_sigils: old(stats).malrec_soul_sigils, ..RunStats::fresh() }),
{
    let carried = stats.malrec_soul_sigils;
    let fresh = RunStats::new();
    *stats = RunStats { malrec_soul_sigils: carried, ..fresh };
}

/// "on", "off" or "unavailable" for the UI debug overlay.
pub fn ui_debug_overlay_status(enabled: Option<bool>) -> (r: &'static str)
    ensures
        r@ == match enabled {
            Some(true) => "on"@,
            Some(false) => "off"@,
            None => "unavailable"@,
        },
{
    match enabled {
        Some(true) => "on",
        Some(false) => "off",
        None => "unavailable",
    }
}


/// After any kill the Ashen Threat meter stays below a full meter, and the
/// threat gained is all accounted for: the surges it made, a hundred each,
/// plus what is left on the meter, make up the meter before plus the gain
/// (short of where the meter saturates).
pub proof fn lemma_ashen_threat_meter(threat: u32, gained: u32)
    ensures
        0 <= threat_after(threat, gained) < 100,
        100 * surges_after(threat, gained) + threat_after(threat, gained) == sat_add(
            threat as int,
            gained as int,
        ),
{
}

/// A better clear never pays fewer completion materials: with a harder
/// difficulty, a faster pace, more kills or more lore pages (and nothing
/// else worse), the shards and the essence are at least as many.
pub proof fn lemma_completion_rewards_grow(
    d1: Difficulty,
    d2: Difficulty,
    pace1: u32,
    pace2: u32,
    kills1: u32,
    kills2: u32,
    lore1: usize,
    lore2: usize,
)
    requires
        d1.rank() <= d2.rank(),
        pace1 <= pace2,
        kills1 <= kills2,
        lore1 <= lore2 <= u32::MAX,
    ensures
        rating_tier(d1, pace1, kills1) <= rating_tier(d2, pace2, kills2),
        spec_completion_shards(d1, pace1, kills1, lore1) <= spec_completion_shards(
            d2,
            pace2,
            kills2,
            lore2,
        ),
        spec_completion_essence(d1, pace1, kills1, lore1) <= spec_completion_essence(
            d2,
            pace2,
            kills2,
            lore2,
        ),
{
    assert((lore1 as u32) as int == lore1 as int);
    assert((lore2 as u32) as int == lore2 as int);
}

/// A longer kill streak never reaches a lower massacre tier nor pays less
/// gold per kill, and the tier tops out at three.
pub proof fn lemma_massacre_tiers_climb(a: u32, b: u32)
    ensures
        a <= b ==> spec_massacre_tier(a) <= spec_massacre_tier(b),
        spec_massacre_tier(a) <= 3,
{
}


/// The rating letter follows the clear's total (difficulty rung 0 to 3,
/// pace score, and one for seven kills or more): "S" from 6, "A" for 4 or
/// 5, "B" for 2 or 3 and "C" below; and it names the same tier that the
/// completion rewards are paid by.
pub proof fn lemma_rating_follows_total(d: Difficulty, pace_score: u32, kills: u32)
    ensures
        ({
            let rung: int = match d {
                Difficulty::Normal => 0,
                Difficulty::Nightmare => 1,
                Difficulty::Hell => 2,
                Difficulty::Torment => 3,
            };
            let total = rung + pace_score + if kills >= 7 { 1int } else { 0 };
            let r = spec_chapter_rating(d, pace_score, kills);
            &&& (r == "S"@) <==> total >= 6
            &&& (r == "A"@) <==> (4 <= total && total <= 5)
            &&& (r == "B"@) <==> (2 <= total && total <= 3)
            &&& (r == "C"@) <==> total <= 1
            &&& r == (if rating_tier(d, pace_score, kills) == 3 {
                "S"@
            } else if rating_tier(d, pace_score, kills) == 2 {
                "A"@
            } else if rating_tier(d, pace_score, kills) == 1 {
                "B"@
            } else {
                "C"@
            })
        }),
{
    reveal_strlit("S");
    reveal_strlit("A");
    reveal_strlit("B");
    reveal_strlit("C");
    assert("S"@[0] == 'S' && "A"@[0] == 'A' && "B"@[0] == 'B' && "C"@[0] == 'C');
    assert("S"@ != "A"@ && "S"@ != "B"@ && "S"@ != "C"@ && "A"@ != "B"@ && "A"@ != "C"@
        && "B"@ != "C"@);
}

/// What a kill feeds the Ashen Threat meter: 60 for Malrec; 34 for the
/// nemesis and for a treasure imp alike, whatever their affixes; 28 plus 4
/// per affix for any other affixed enemy, more than the 16 a plain kill
/// feeds.
pub proof fn lemma_ashen_threat_gain_by_enemy(enemy_id: Seq<char>, affix_count: usize)
    requires
        affix_count <= u32::MAX,
    ensures
        spec_ashen_threat_gain("keeper"@, affix_count) == 60,
        spec_ashen_threat_gain("nemesis"@, affix_count) == 34,
        spec_ashen_threat_gain("treasure_imp"@, affix_count) == 34,
        enemy_id != "keeper"@ && enemy_id != "nemesis"@ && enemy_id != "treasure_imp"@ ==> (
        spec_ashen_threat_gain(enemy_id, affix_count) == if affix_count > 0 {
            28 + 4 * affix_count
        } else {
            16
        }),
        spec_ashen_threat_gain(enemy_id, affix_count) >= 16,
{
    reveal_strlit("keeper");
    reveal_strlit("nemesis");
    reveal_strlit("treasure_imp");
    assert("keeper"@.len() == 6 && "nemesis"@.len() == 7 && "treasure_imp"@.len() == 12);
    assert("nemesis"@ != "keeper"@ && "treasure_imp"@ != "keeper"@);
}
} // verus!
