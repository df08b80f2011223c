# kadu

A deterministic, fixed-point engine for a 2D fighting game whose two
fighters are driven by autonomous agents. The engine advances the world one
tick at a time, asks each agent for an intent from a delayed observation,
enforces the rules (frame data, blocking, chip damage, guard crush, throws
and throw techs, combo scaling and the hard-knockdown cap, passivity,
rounds, sudden death), and chains a hash of every tick's state so a bout is
reproducible from its seed and intent stream alone.

The library (`src/`) is written in Verus and proved:

- `fixed`, `geometry`, `hash`, `rng`, `text`: Q16.16 arithmetic and its
  decimal text, hit/hurt boxes, FNV-1a hashing and the PCG32 generator,
  each against a mathematical specification.
- `state_machine`, `movement`, `combat`: intent application, per-state
  timers, movement integration, and collision and damage resolution against
  a pre-damage snapshot.
- `sim`, `bounds`: the tick pipeline as a function on a model of the match,
  and the invariant that keeps every counter of a match within its integer
  type until the match ends.
- `replay`, `bout`: recording a bout (optionally with every tick's state
  hash) and re-verifying its hash chain; playing two agents against each
  other with reflex-interval polling and a reset between rounds, with the
  proof that every polled intent is the agent's own decision on its own
  fighter's observation and that the recorded bout verifies.
- `agents`: the `Agent` trait's models, the scripted agents, the random
  baseline, and `AnyAgent` for choosing one at run time.
- `frames`, `stats`, `tally`, `tourney`, `inspect`, `trace`:
  frame-advantage tables and the non-negative-on-block rule, match
  statistics tallied tick by tick, tournament bookkeeping, replay
  inspection helpers, and the keys a viewer's per-tick trace is written
  with.
- `aggregate`: reading the aggregate hash a determinism record expects.
- `laws`: cross-function properties (chip damage never kills, guard crush,
  the hard-knockdown cap, throw techs deal no damage, knockouts end rounds,
  passivity only warns the leader and counts the gap tick over tick, the
  start separation is drawn from the seed within the jitter, attacks run
  through their phases on schedule, equal seeds and intents give equal
  runs, a finished match stays finished, agents see the match exactly
  `observation_delay` ticks late and the opening frame before that).

`app/` is the `kadu` command line (`run`, `watch`, `verify`, `bench`,
`diverge`, `frames`, `tourney`, `trace`): file I/O, the TOML ruleset
document, JSON replays and traces, and printing.
