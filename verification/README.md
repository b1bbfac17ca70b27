# open_arpg

The rules of a small action RPG, written in Verus: every function of the
library carries a contract that Verus proves.

- `src/` — the verified library.
  - `game.rs`: the run's counters (`RunStats`), difficulty, chapter rating
    and completion rewards, Ashen Threat, massacre and valor streaks, the
    champion pack and the treasure vault.
  - `milestone.rs`, `mastery.rs`, `journey.rs`, `world.rs`: milestones,
    chapter mastery, the journey score and its tiers, challenges.
  - `loot.rs`, `chance.rs`, `kill.rs`, `kill_log.rs`: what kills and drops
    pay, the loot filter, weighted and random rolls, the bookkeeping of a kill.
  - `merchant.rs`, `trade.rs`: the quartermaster — salvage, restocking,
    crafting services, caches, alchemy and the visit as a whole.
  - `obelisk.rs`, `ordeal.rs`, `lore.rs`: the blood obelisk, the ordeal
    modifiers, the lore journal.
  - `feedback.rs`, `target.rs`: the combat log, sound cues and target info.
  - `config.rs`: command-line and environment settings, the startup report.
  - `text.rs`: decimal formatting and character-sequence helpers.
- `tests/` — tests of the library on concrete values.
- `app/` — the program around it: environment and file-system reads,
  floating-point timing and multipliers, and the stored forms of records.

The laws the library promises stand as public proof functions named
`lemma_*` beside the functions they speak of.
