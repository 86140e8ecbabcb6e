# cpr_rules

A rules engine for netrunning in the *Cyberpunk RED* tabletop game: NET
Architectures and their generation, the state of a netrun, the Interface
abilities (Backdoor, Cloak, Control, Eye-Dee, Pathfinder, Scanner, Slide,
Zap, Virus), Black ICE and Demons, programs, and jacking out. Every rule is
written in Verus and proved against its contract.

All randomness comes from one seeded `ChaCha20Rng`. That a game can be
replayed from its seed and its action log rests on that generator being
deterministic (`rand_chacha`), not on a proof: the generator is opaque to
the verifier. What the contracts do state is the order of the refusal
checks, and that a refusal made before any die is rolled leaves the
generator as it was.

## Layout

- `src/` — the verified library.
  - `resolution.rs` — `CheckBreakdown` (the record of a roll against a DV)
    and the `Resolution` trait every action implements.
  - `dice.rs`, `rng.rs` — the d6, the d10 with its critical rules, and the
    draws made from the generator.
  - `world.rs`, `character.rs`, `combat.rs`, `catalog.rs`, `effects.rs`,
    `types.rs`, `error.rs` — the game state the rules read and change.
  - `netrunning/` — Architectures, the netrun state, the abilities, Black
    ICE, Demons, programs, and jacking out.
- `tests/` — tests of the library on concrete values.
- `app/` — serialisable records of the saved state (serde) and the
  conversions between entity ids and UUIDs.

## Contracts

Each action states, over the world before and after, exactly when it is
refused and with which error (leaving the world untouched, or saying what
it changed first), and what it does otherwise. A value that comes from
the dice is stated as "some roll in range", with how the outcome follows
from it; where a roll is read through a table (floor kinds, DVs, File
contents, Control Node targets, whether a Demon is added), a public
function takes the roll and states the table exactly. Properties that span several functions are proof
functions (`lemma_*`), for example that a rezzed program is removed by a
derez, that an Attacker program is gone after its attack, and that putting
Black ICE on top of an ordered initiative queue keeps it ordered.
