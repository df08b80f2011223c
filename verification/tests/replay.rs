use kadu::replay::{verify, Recorder};
use kadu::{default_ruleset, Direction, Intent};

const RULESET_TEXT: &str = "bundled default";

#[test]
fn verify_passes_for_short_recorded_bout() {
    let rs = default_ruleset();
    let mut rec = Recorder::new(rs, RULESET_TEXT.to_string(), 42, "dummy", "dummy");
    for _ in 0..200 {
        rec.tick([Intent::Nothing, Intent::Nothing]);
    }
    let replay = rec.into_replay();
    let result = verify(&replay, default_ruleset());
    assert!(result.ok, "expected {} got {}", result.expected_chain_hash, result.computed_chain_hash);
}

#[test]
fn verify_fails_on_tampered_stream() {
    let rs = default_ruleset();
    let mut rec = Recorder::new(rs, RULESET_TEXT.to_string(), 42, "dummy", "dummy");
    for _ in 0..200 {
        rec.tick([Intent::Nothing, Intent::Nothing]);
    }
    let mut replay = rec.into_replay();
    replay.intent_stream[150].0 = Intent::Move(Direction::Forward);
    let result = verify(&replay, default_ruleset());
    assert!(!result.ok);
}
