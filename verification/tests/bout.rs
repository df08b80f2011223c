use kadu::agents::{AnyAgent, Dummy, Random, Runner, Rusher, Turtle};
use kadu::bout::{play, SAFETY_TICK_LIMIT};
use kadu::replay::{reason_str, replay_to, verify, ENGINE_VERSION};
use kadu::{default_ruleset, Agent, Intent, MatchEndReason, Sim};

#[test]
fn a_played_bout_verifies_under_its_ruleset() {
    let replay = play(&mut Rusher::new(), &mut Dummy, default_ruleset(), "version = \"2026.1\"".to_string(), 7, "rusher", "dummy", false);
    assert_eq!(replay.ruleset_toml, "version = \"2026.1\"");
    assert_eq!(replay.engine_version, ENGINE_VERSION);
    assert_eq!(replay.ruleset_hash, default_ruleset().content_hash());
    assert_eq!(replay.tick_hashes, None);
    let result = verify(&replay, default_ruleset());
    assert!(result.ok);
    assert_eq!(result.computed_chain_hash, replay.final_state_hash_chain);
    assert_eq!(result.ticks_run as usize, replay.intent_stream.len());
    assert_eq!(replay.rng_seed, 7);
    assert_eq!(replay.agent_names, ["rusher".to_string(), "dummy".to_string()]);
    let r = replay.result.expect("rusher knocks out a dummy");
    assert_eq!(r.winner, Some(0));
    assert_eq!(r.reason, "ko");
}

#[test]
fn intents_are_held_between_polls() {
    let rs = default_ruleset();
    let reflex = rs.reflex_interval as usize;
    let replay = play(&mut Random::new(3, 0), &mut Turtle::new(), rs, String::new(), 3, "random", "turtle", false);
    assert!(!replay.intent_stream.is_empty());
    assert!(replay.intent_stream.len() <= SAFETY_TICK_LIMIT as usize + 1);
    for k in 1..replay.intent_stream.len() {
        if k % reflex != 0 {
            assert_eq!(replay.intent_stream[k], replay.intent_stream[k - 1], "tick {k}");
        }
    }
    assert!(verify(&replay, default_ruleset()).ok);
}

#[test]
fn dummies_reach_the_end_of_the_bout() {
    let replay = play(&mut Dummy, &mut Dummy, default_ruleset(), String::new(), 11, "dummy", "dummy", false);
    assert!(replay.intent_stream.iter().all(|p| *p == (Intent::Nothing, Intent::Nothing)));
    let r = replay.result.expect("a bout of two dummies still ends");
    assert_eq!(r.reason, reason_str(MatchEndReason::SuddenDeath));
    assert_eq!(r.winner, None);
}

#[test]
fn agents_chosen_at_run_time_can_play() {
    let mut a = AnyAgent::Rusher(Rusher::new());
    let mut b = AnyAgent::Dummy(Dummy);
    let replay = play(&mut a, &mut b, default_ruleset(), String::new(), 5, "rusher", "dummy", false);
    let mut c = Rusher::new();
    let mut d = Dummy;
    let again = play(&mut c, &mut d, default_ruleset(), String::new(), 5, "rusher", "dummy", false);
    assert_eq!(replay.intent_stream, again.intent_stream);
    assert_eq!(replay.final_state_hash_chain, again.final_state_hash_chain);
}

#[test]
fn polled_intents_are_each_agents_own_decisions() {
    let rs = default_ruleset();
    let reflex = rs.reflex_interval as usize;
    let replay = play(&mut Runner::new(), &mut Turtle::new(), rs.clone(), String::new(), 9, "runner", "turtle", false);
    let mut a = Runner::new();
    let mut b = Turtle::new();
    let mut sim = Sim::new(rs.clone(), 9);
    let mut rounds_reset = 0;
    for (k, pair) in replay.intent_stream.iter().enumerate() {
        if k % reflex == 0 {
            let ia = a.decide(&sim.observation(0));
            let ib = b.decide(&sim.observation(1));
            assert_eq!((ia, ib), *pair, "tick {k}");
        }
        let report = sim.tick([pair.0, pair.1]);
        if report.round_ended.is_some() && report.match_ended.is_none() {
            a.reset();
            b.reset();
            rounds_reset += 1;
        }
    }
    assert!(rounds_reset >= 1, "the bout should run past its first round");
}

#[test]
fn replaying_a_prefix_reaches_the_recorded_states() {
    let replay = play(&mut Rusher::new(), &mut Dummy, default_ruleset(), String::new(), 21, "rusher", "dummy", false);
    let start = replay_to(&replay, default_ruleset(), 0);
    assert_eq!(start.global_tick(), 0);
    let n = replay.intent_stream.len();
    let end = replay_to(&replay, default_ruleset(), n);
    assert_eq!(end.chain_hash(), replay.final_state_hash_chain);
    assert!(end.is_over());
    let mid = replay_to(&replay, default_ruleset(), n / 2);
    assert_eq!(mid.global_tick() as usize, n / 2);
    assert!(!mid.is_over());
}

#[test]
fn a_bout_can_carry_every_ticks_state_hash() {
    let rs = default_ruleset();
    let replay = play(&mut Rusher::new(), &mut Turtle::new(), rs.clone(), String::new(), 4, "rusher", "turtle", true);
    let hashes = replay.tick_hashes.clone().expect("per-tick hashes were asked for");
    assert_eq!(hashes.len(), replay.intent_stream.len());
    let mut sim = Sim::new(rs.clone(), 4);
    for (k, pair) in replay.intent_stream.iter().enumerate() {
        let report = sim.tick([pair.0, pair.1]);
        assert_eq!(hashes[k], report.state_hash, "tick {k}");
    }
    assert!(verify(&replay, rs).ok);
}
