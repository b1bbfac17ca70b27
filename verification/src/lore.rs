//! The lore journal: pages found in the chapter, each recovered once.
use vstd::prelude::*;
use crate::text::{decimal, push_decimal_usize};

verus! {

/// Lore pages in a chapter.
pub const LORE_ENTRY_COUNT: usize = 3;

/// The chapter's lore pages.
#[derive(Clone, Copy, Debug, PartialEq, Eq, Structural)]
pub enum LoreEntryId {
    StewardWarning,
    AcolyteOath,
    MalrecPact,
}

impl LoreEntryId {
    /// The page's title.
    pub open spec fn spec_title(self) -> Seq<char> {
        match self {
            LoreEntryId::StewardWarning => "Steward's Warning"@,
            LoreEntryId::AcolyteOath => "Acolyte's Oath"@,
            LoreEntryId::MalrecPact => "Malrec's Pact"@,
        }
    }

    /// The page's text.
    pub open spec fn spec_body(self) -> Seq<char> {
        match self {
            LoreEntryId::StewardWarning => "The reliquary was sealed when ash began to answer prayer."@,
            LoreEntryId::AcolyteOath => "We trade names for embers and keep watch until Malrec wakes."@,
            LoreEntryId::MalrecPact => "Blood opens the keeper's gate; only a relic blade can close it."@,
        }
    }

    /// The page's title.
    pub fn title(self) -> (r: &'static str)
        ensures
            r@ == self.spec_title(),
    {
        match self {
            LoreEntryId::StewardWarning => "Steward's Warning",
            LoreEntryId::AcolyteOath => "Acolyte's Oath",
            LoreEntryId::MalrecPact => "Malrec's Pact",
        }
    }

    /// The page's text.
    pub fn body(self) -> (r: &'static str)
        ensures
            r@ == self.spec_body(),
    {
        match self {
            LoreEntryId::StewardWarning => "The reliquary was sealed when ash began to answer prayer.",
            LoreEntryId::AcolyteOath => "We trade names for embers and keep watch until Malrec wakes.",
            LoreEntryId::MalrecPact => "Blood opens the keeper's gate; only a relic blade can close it.",
        }
    }
}

/// The pages recovered so far and the line of the latest one.
#[derive(Debug)]
pub struct LoreJournal {
    pub entries: Vec<LoreEntryId>,
    pub latest: String,
}

impl Default for LoreJournal {
    fn default() -> (r: LoreJournal)
        ensures
            r.entries@ == Seq::<LoreEntryId>::empty(),
            r.latest@ == Seq::<char>::empty(),
    {
        LoreJournal { entries: Vec::new(), latest: String::new() }
    }
}

/// The line a recovered page is recorded with: "title: text".
pub open spec fn discover_line(e: LoreEntryId) -> Seq<char> {
    e.spec_title() + ": "@ + e.spec_body()
}

/// Titles of `es` joined by " | ".
pub open spec fn joined_titles(es: Seq<LoreEntryId>) -> Seq<char>
    decreases es.len(),
{
    if es.len() == 0 {
        Seq::empty()
    } else if es.len() == 1 {
        es[0].spec_title()
    } else {
        joined_titles(es.drop_last()) + " | "@ + es.last().spec_title()
    }
}

/// "title - text" of each page of `es`, joined by " | ".
pub open spec fn joined_pages(es: Seq<LoreEntryId>) -> Seq<char>
    decreases es.len(),
{
    if es.len() == 0 {
        Seq::empty()
    } else if es.len() == 1 {
        es[0].spec_title() + " - "@ + es[0].spec_body()
    } else {
        joined_pages(es.drop_last()) + " | "@ + es.last().spec_title() + " - "@ + es.last().spec_body()
    }
}

/// The journal line: "Journal n/3: titles", or that no lore is recovered.
pub open spec fn spec_journal_summary(es: Seq<LoreEntryId>) -> Seq<char> {
    if es.len() == 0 {
        "Journal 0/3: no lore recovered"@
    } else {
        "Journal "@ + decimal(es.len()) + "/"@ + decimal(LORE_ENTRY_COUNT as nat) + ": "@
            + joined_titles(es)
    }
}

/// The opened journal: every recovered page with its text, or that no lore
/// is recovered.
pub open spec fn spec_open_text(es: Seq<LoreEntryId>) -> Seq<char> {
    if es.len() == 0 {
        "Journal: no lore recovered"@
    } else {
        joined_pages(es)
    }
}

impl LoreJournal {
    /// Whether `entry` is recovered.
    pub fn has(&self, entry: LoreEntryId) -> (r: bool)
        ensures
            r == self.entries@.contains(entry),
    {
        let mut i: usize = 0;
        while i < self.entries.len()
            invariant
                i <= self.entries@.len(),
                forall|k: int| 0 <= k < i ==> self.entries@[k] != entry,
            decreases self.entries@.len() - i,
        {
            if self.entries[i] == entry {
                return true;
            }
            i += 1;
        }
        false
    }

    /// Recovers `entry` unless it already is; a new page becomes the latest
    /// line and is reported with `true`.
    pub fn discover(&mut self, entry: LoreEntryId) -> (r: bool)
        ensures
            r == !old(self).entries@.contains(entry),
            r ==> final(self).entries@ == old(self).entries@.push(entry) && final(self).latest@
                == discover_line(entry),
            !r ==> final(self).entries@ == old(self).entries@ && final(self).latest@
                == old(self).latest@,
            old(self).entries@.no_duplicates() ==> final(self).entries@.no_duplicates(),
            final(self).entries@.contains(entry),
    {
        if self.has(entry) {
            return false;
        }
        self.entries.push(entry);
        let mut line = String::from_str(entry.title());
        line.append(": ");
        line.append(entry.body());
        self.latest = line;
        assert(self.entries@[self.entries@.len() - 1] == entry);
        true
    }

    /// The journal line of the HUD.
    pub fn summary(&self) -> (r: String)
        ensures
            r@ == spec_journal_summary(self.entries@),
    {
        if self.entries.len() == 0 {
            return String::from_str("Journal 0/3: no lore recovered");
        }
        let mut s = String::from_str("Journal ");
        push_decimal_usize(&mut s, self.entries.len());
        s.append("/");
        push_decimal_usize(&mut s, LORE_ENTRY_COUNT);
        s.append(": ");
        let ghost head = s@;
        let mut i: usize = 0;
        while i < self.entries.len()
            invariant
                i <= self.entries@.len(),
                s@ == head + joined_titles(self.entries@.take(i as int)),
            decreases self.entries@.len() - i,
        {
            proof {
                assert(self.entries@.take(i + 1).drop_last() =~= self.entries@.take(i as int));
            }
            if i > 0 {
                s.append(" | ");
            }
            s.append(self.entries[i].title());
            i += 1;
        }
        assert(self.entries@.take(self.entries@.len() as int) =~= self.entries@);
        s
    }

    /// The opened journal's text.
    pub fn open_text(&self) -> (r: String)
        ensures
            r@ == spec_open_text(self.entries@),
    {
        if self.entries.len() == 0 {
            return String::from_str("Journal: no lore recovered");
        }
        let mut s = String::new();
        let mut i: usize = 0;
        while i < self.entries.len()
            invariant
                i <= self.entries@.len(),
                s@ == joined_pages(self.entries@.take(i as int)),
            decreases self.entries@.len() - i,
        {
            proof {
                assert(self.entries@.take(i + 1).drop_last() =~= self.entries@.take(i as int));
            }
            if i > 0 {
                s.append(" | ");
            }
            s.append(self.entries[i].title());
            s.append(" - ");
            s.append(self.entries[i].body());
            i += 1;
        }
        assert(self.entries@.take(self.entries@.len() as int) =~= self.entries@);
        s
    }
}

/// The combat-log line of a recovered page.
pub fn lore_event_text(entry: LoreEntryId) -> (r: String)
    ensures
        r@ == "Lore recovered: "@ + entry.spec_title(),
{
    let mut s = String::from_str("Lore recovered: ");
    s.append(entry.title());
    s
}

} // verus!
