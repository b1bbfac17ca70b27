//! Chapter ordeals: the rule set a difficulty brings and the rotating affix
//! added on top of it.
use vstd::prelude::*;
use crate::game::Difficulty;

verus! {

/// The chapter's base rule set.
#[derive(Clone, Copy, Debug, PartialEq, Eq, Structural)]
pub enum ChapterModifierKind {
    AshenEchoes,
    BloodTithe,
    Emberstorm,
    TormentBrand,
}

/// The rotating secondary rule of a run.
#[derive(Clone, Copy, Debug, PartialEq, Eq, Structural)]
pub enum OrdealAffix {
    NoAffix,
    AshenHunger,
    GlassRelics,
    TreasureFever,
    CinderVeins,
}

/// A run's ordeal: base rule set and rotating affix.
#[derive(Clone, Copy, Debug, PartialEq, Eq, Structural)]
pub struct ChapterModifier {
    pub kind: ChapterModifierKind,
    pub affix: OrdealAffix,
}

impl Default for ChapterModifierKind {
    fn default() -> (r: ChapterModifierKind)
        ensures
            r == ChapterModifierKind::AshenEchoes,
    {
        ChapterModifierKind::AshenEchoes
    }
}

impl Default for OrdealAffix {
    fn default() -> (r: OrdealAffix)
        ensures
            r == OrdealAffix::NoAffix,
    {
        OrdealAffix::NoAffix
    }
}

impl Default for ChapterModifier {
    fn default() -> (r: ChapterModifier)
        ensures
            r == (ChapterModifier { kind: ChapterModifierKind::AshenEchoes, affix: OrdealAffix::NoAffix }),
    {
        ChapterModifier { kind: ChapterModifierKind::AshenEchoes, affix: OrdealAffix::NoAffix }
    }
}

impl ChapterModifierKind {
    /// The rule set's name.
    pub open spec fn spec_label(self) -> Seq<char> {
        match self {
            ChapterModifierKind::AshenEchoes => "Ashen Echoes"@,
            ChapterModifierKind::BloodTithe => "Blood Tithe"@,
            ChapterModifierKind::Emberstorm => "Emberstorm"@,
            ChapterModifierKind::TormentBrand => "Torment Brand"@,
        }
    }

    /// What the rule set does.
    pub open spec fn spec_summary(self) -> Seq<char> {
        match self {
            ChapterModifierKind::AshenEchoes => "standard enemy rules and rewards"@,
            ChapterModifierKind::BloodTithe => "harder enemy hits, richer monster rewards"@,
            ChapterModifierKind::Emberstorm => "deadlier enemies and vents, highest rewards"@,
            ChapterModifierKind::TormentBrand => "brutal enemies, lethal vents, and torment-grade rewards"@,
        }
    }

    /// The rule set's name.
    pub fn label(self) -> (r: &'static str)
        ensures
            r@ == self.spec_label(),
    {
        match self {
            ChapterModifierKind::AshenEchoes => "Ashen Echoes",
            ChapterModifierKind::BloodTithe => "Blood Tithe",
            ChapterModifierKind::Emberstorm => "Emberstorm",
            ChapterModifierKind::TormentBrand => "Torment Brand",
        }
    }

    /// What the rule set does.
    pub fn summary(self) -> (r: &'static str)
        ensures
            r@ == self.spec_summary(),
    {
        match self {
            ChapterModifierKind::AshenEchoes => "standard enemy rules and rewards",
            ChapterModifierKind::BloodTithe => "harder enemy hits, richer monster rewards",
            ChapterModifierKind::Emberstorm => "deadlier enemies and vents, highest rewards",
            ChapterModifierKind::TormentBrand => "brutal enemies, lethal vents, and torment-grade rewards",
        }
    }
}

impl OrdealAffix {
    /// The affix's name.
    pub open spec fn spec_label(self) -> Seq<char> {
        match self {
            OrdealAffix::NoAffix => "No Affix"@,
            OrdealAffix::AshenHunger => "Ashen Hunger"@,
            OrdealAffix::GlassRelics => "Glass Relics"@,
            OrdealAffix::TreasureFever => "Treasure Fever"@,
            OrdealAffix::CinderVeins => "Cinder Veins"@,
        }
    }

    /// What the affix does.
    pub open spec fn spec_summary(self) -> Seq<char> {
        match self {
            OrdealAffix::NoAffix => "no rotating secondary rule"@,
            OrdealAffix::AshenHunger => "enemies hit harder, rewards rise"@,
            OrdealAffix::GlassRelics => "enemies endure longer, rewards rise"@,
            OrdealAffix::TreasureFever => "bonus rewards without extra combat pressure"@,
            OrdealAffix::CinderVeins => "vents and hazards bite harder, rewards rise"@,
        }
    }

    /// The affix's name.
    pub fn label(self) -> (r: &'static str)
        ensures
            r@ == self.spec_label(),
    {
        match self {
            OrdealAffix::NoAffix => "No Affix",
            OrdealAffix::AshenHunger => "Ashen Hunger",
            OrdealAffix::GlassRelics => "Glass Relics",
            OrdealAffix::TreasureFever => "Treasure Fever",
            OrdealAffix::CinderVeins => "Cinder Veins",
        }
    }

    /// What the affix does.
    pub fn summary(self) -> (r: &'static str)
        ensures
            r@ == self.spec_summary(),
    {
        match self {
            OrdealAffix::NoAffix => "no rotating secondary rule",
            OrdealAffix::AshenHunger => "enemies hit harder, rewards rise",
            OrdealAffix::GlassRelics => "enemies endure longer, rewards rise",
            OrdealAffix::TreasureFever => "bonus rewards without extra combat pressure",
            OrdealAffix::CinderVeins => "vents and hazards bite harder, rewards rise",
        }
    }
}

impl ChapterModifier {
    /// The ordeal's name: the rule set's, with " + affix" when an affix is set.
    pub open spec fn spec_label(self) -> Seq<char> {
        if self.affix == OrdealAffix::NoAffix {
            self.kind.spec_label()
        } else {
            self.kind.spec_label() + " + "@ + self.affix.spec_label()
        }
    }

    /// What the ordeal does: the rule set's summary, with "; affix summary"
    /// when an affix is set.
    pub open spec fn spec_summary(self) -> Seq<char> {
        if self.affix == OrdealAffix::NoAffix {
            self.kind.spec_summary()
        } else {
            self.kind.spec_summary() + "; "@ + self.affix.spec_summary()
        }
    }

    /// The ordeal's name.
    pub fn label(self) -> (r: String)
        ensures
            r@ == self.spec_label(),
    {
        let mut s = String::from_str(self.kind.label());
        if self.affix != OrdealAffix::NoAffix {
            s.append(" + ");
            s.append(self.affix.label());
        }
        s
    }

    /// What the ordeal does.
    pub fn summary(self) -> (r: String)
        ensures
            r@ == self.spec_summary(),
    {
        let mut s = String::from_str(self.kind.summary());
        if self.affix != OrdealAffix::NoAffix {
            s.append("; ");
            s.append(self.affix.summary());
        }
        s
    }
}

/// The rule set each difficulty brings.
pub open spec fn spec_modifier_for_difficulty(d: Difficulty) -> ChapterModifierKind {
    match d {
        Difficulty::Normal => ChapterModifierKind::AshenEchoes,
        Difficulty::Nightmare => ChapterModifierKind::BloodTithe,
        Difficulty::Hell => ChapterModifierKind::Emberstorm,
        Difficulty::Torment => ChapterModifierKind::TormentBrand,
    }
}

/// The rule set a difficulty brings.
pub fn modifier_for_difficulty(difficulty: Difficulty) -> (r: ChapterModifierKind)
    ensures
        r == spec_modifier_for_difficulty(difficulty),
{
    match difficulty {
        Difficulty::Normal => ChapterModifierKind::AshenEchoes,
        Difficulty::Nightmare => ChapterModifierKind::BloodTithe,
        Difficulty::Hell => ChapterModifierKind::Emberstorm,
        Difficulty::Torment => ChapterModifierKind::TormentBrand,
    }
}

/// The rotating affix of a run: none on the very first Normal run; otherwise
/// the clears plus the difficulty's rank, taken modulo 4, pick Ashen Hunger,
/// Glass Relics, Treasure Fever or Cinder Veins.
pub open spec fn spec_affix_for_run(d: Difficulty, clear_count: u32) -> OrdealAffix {
    if d == Difficulty::Normal && clear_count == 0 {
        OrdealAffix::NoAffix
    } else {
        let k = (clear_count + d.rank()) % 4;
        if k == 0 {
            OrdealAffix::AshenHunger
        } else if k == 1 {
            OrdealAffix::GlassRelics
        } else if k == 2 {
            OrdealAffix::TreasureFever
        } else {
            OrdealAffix::CinderVeins
        }
    }
}

/// The rotating affix of a run on `difficulty` after `clear_count` clears.
pub fn affix_for_run(difficulty: Difficulty, clear_count: u32) -> (r: OrdealAffix)
    requires
        clear_count + 3 <= u32::MAX,
    ensures
        r == spec_affix_for_run(difficulty, clear_count),
{
    if difficulty == Difficulty::Normal && clear_count == 0 {
        return OrdealAffix::NoAffix;
    }
    let offset: u32 = match difficulty {
        Difficulty::Normal => 0,
        Difficulty::Nightmare => 1,
        Difficulty::Hell => 2,
        Difficulty::Torment => 3,
    };
    let k = (clear_count + offset) % 4;
    if k == 0 {
        OrdealAffix::AshenHunger
    } else if k == 1 {
        OrdealAffix::GlassRelics
    } else if k == 2 {
        OrdealAffix::TreasureFever
    } else {
        OrdealAffix::CinderVeins
    }
}

/// The ordeal of a run: the difficulty's rule set and the rotating affix.
pub fn modifier_for_run(difficulty: Difficulty, clear_count: u32) -> (r: ChapterModifier)
    requires
        clear_count + 3 <= u32::MAX,
    ensures
        r.kind == spec_modifier_for_difficulty(difficulty),
        r.affix == spec_affix_for_run(difficulty, clear_count),
{
    ChapterModifier {
        kind: modifier_for_difficulty(difficulty),
        affix: affix_for_run(difficulty, clear_count),
    }
}

/// Every run after the first Normal one carries an affix, and the affix
/// cycles with period four in the clear count.
pub proof fn lemma_affix_rotation(d: Difficulty, clears: u32)
    requires
        clears + 4 <= u32::MAX,
        !(d == Difficulty::Normal && clears == 0),
    ensures
        spec_affix_for_run(d, clears) != OrdealAffix::NoAffix,
        spec_affix_for_run(d, (clears + 4) as u32) == spec_affix_for_run(d, clears),
        spec_affix_for_run(d, (clears + 1) as u32) != spec_affix_for_run(d, clears),
{
}

} // verus!
