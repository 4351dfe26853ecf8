use board_game_if::external::{hash_seed, usize_to_decimal};
use board_game_if::first_player::{
    first_player_from_coins, DecideFirstPlayerMessage, DecideFirstPlayerMessageKind,
    DecideFirstPlayerSequence, EndDecideFirstPlayerOutboundData, EndDecideFirstPlayerReturnData,
    StartDecideFirstPlayerOutboundData, StartDecideFirstPlayerReturnData,
};
use rand::rngs::SmallRng;
use rand::{Rng, SeedableRng};
use std::hash::{DefaultHasher, Hash, Hasher};

fn std_hash(v: u64) -> u64 {
    let mut h = DefaultHasher::new();
    v.hash(&mut h);
    h.finish()
}

fn std_coin(seed: u64) -> bool {
    SmallRng::seed_from_u64(seed).random_bool(0.5)
}

fn expected_first(user_a: u64, user_b: u64, seed_a: u64, seed_b: u64) -> u64 {
    if std_coin(seed_a) != std_coin(seed_b) {
        user_a
    } else {
        user_b
    }
}

/// Runs the whole exchange between honest players and returns both sides.
fn honest_run(user_a: u64, user_b: u64, seed_a: u64, seed_b: u64) -> (DecideFirstPlayerSequence, DecideFirstPlayerSequence) {
    let mut a = DecideFirstPlayerSequence::new(user_a, seed_a, true);
    let mut b = DecideFirstPlayerSequence::new(user_b, seed_b, false);
    let q1 = a.get_question().unwrap().unwrap();
    assert_eq!(b.expected_answer_kind().unwrap(), q1.kind());
    b.set_answer(q1).unwrap();
    let q2 = b.get_question().unwrap().unwrap();
    assert_eq!(a.expected_answer_kind().unwrap(), q2.kind());
    a.set_answer(q2).unwrap();
    let q3 = a.get_question().unwrap().unwrap();
    b.set_answer(q3).unwrap();
    assert!(!b.lacks_commitment());
    let q4 = b.get_question().unwrap().unwrap();
    assert_eq!(q4, DecideFirstPlayerMessage::EndReturn(EndDecideFirstPlayerReturnData { accept: true }));
    a.set_answer(q4).unwrap();
    (a, b)
}

/// A sequence for player A that has heard player B's seed.
fn player_a_knowing(user_a: u64, seed_a: u64, user_b: u64, seed_b: u64) -> DecideFirstPlayerSequence {
    let mut a = DecideFirstPlayerSequence::new(user_a, seed_a, true);
    a.set_answer(DecideFirstPlayerMessage::StartReturn(StartDecideFirstPlayerReturnData { user_id: user_b, seed_b }))
        .unwrap();
    a
}

#[test]
fn decided_first_player_follows_random_bool_half() {
    for seed_a in [0u64, 1, 2, 3, 42, 1234, 99999, u64::MAX] {
        for seed_b in [0u64, 5, 77, 31337] {
            let a = player_a_knowing(1, seed_a, 2, seed_b);
            assert_eq!(a.decide_first_player().unwrap(), expected_first(1, 2, seed_a, seed_b));
        }
    }
}

#[test]
fn both_players_can_move_first() {
    let firsts: Vec<u64> = (0u64..32).map(|s| player_a_knowing(1, s, 2, 0).decide_first_player().unwrap()).collect();
    assert!(firsts.contains(&1));
    assert!(firsts.contains(&2));
}

#[test]
fn seed_hash_is_default_hasher_of_u64() {
    for seed in [0u64, 7, 123456789, u64::MAX] {
        assert_eq!(hash_seed(seed), std_hash(seed));
        assert_ne!(hash_seed(seed), seed);
    }
}

#[test]
fn first_player_from_coins_table() {
    assert_eq!(first_player_from_coins(true, true, false, 1, 2), 1);
    assert_eq!(first_player_from_coins(true, true, true, 1, 2), 2);
    assert_eq!(first_player_from_coins(false, true, false, 1, 2), 2);
    assert_eq!(first_player_from_coins(false, false, false, 1, 2), 1);
}

#[test]
fn sides_agree_on_first_player_concrete() {
    for (ca, cb) in [(true, true), (true, false), (false, true), (false, false)] {
        assert_eq!(first_player_from_coins(true, ca, cb, 5, 9), first_player_from_coins(false, cb, ca, 9, 5));
    }
}

#[test]
fn honest_exchange_completes_and_agrees() {
    for (seed_a, seed_b) in [(1u64, 2u64), (3, 3), (10, 77), (1000, 5), (u64::MAX, 0)] {
        let (a, b) = honest_run(100, 200, seed_a, seed_b);
        assert!(a.is_complete());
        assert!(b.is_complete());
        let first = expected_first(100, 200, seed_a, seed_b);
        assert_eq!(a.is_swap_required().unwrap(), first != 100);
        assert_eq!(b.is_swap_required().unwrap(), first != 200);
        assert_ne!(a.is_swap_required().unwrap(), b.is_swap_required().unwrap());
        assert_eq!(a.decide_first_player().unwrap(), first);
        assert_eq!(b.decide_first_player().unwrap(), first);
    }
}

#[test]
fn opening_message_commits_to_seed() {
    let mut a = DecideFirstPlayerSequence::new(11, 4242, true);
    let q = a.get_question().unwrap().unwrap();
    assert_eq!(
        q,
        DecideFirstPlayerMessage::StartOutbound(StartDecideFirstPlayerOutboundData { user_id: 11, hash: std_hash(4242) })
    );
    assert_eq!(a.get_player_a_hash().unwrap(), std_hash(4242));
}

#[test]
fn player_b_answers_with_its_seed() {
    let mut b = DecideFirstPlayerSequence::new(22, 31337, false);
    b.set_answer(DecideFirstPlayerMessage::StartOutbound(StartDecideFirstPlayerOutboundData { user_id: 11, hash: 5 }))
        .unwrap();
    let q = b.get_question().unwrap().unwrap();
    assert_eq!(q, DecideFirstPlayerMessage::StartReturn(StartDecideFirstPlayerReturnData { user_id: 22, seed_b: 31337 }));
    assert_eq!(b.expected_answer_kind().unwrap(), DecideFirstPlayerMessageKind::EndOutbound);
}

fn player_b_verdict(opening: StartDecideFirstPlayerOutboundData, reveal: EndDecideFirstPlayerOutboundData) -> (bool, DecideFirstPlayerSequence) {
    let mut b = DecideFirstPlayerSequence::new(2, 8, false);
    b.set_answer(DecideFirstPlayerMessage::StartOutbound(opening)).unwrap();
    b.get_question().unwrap().unwrap();
    b.set_answer(DecideFirstPlayerMessage::EndOutbound(reveal)).unwrap();
    match b.get_question().unwrap().unwrap() {
        DecideFirstPlayerMessage::EndReturn(d) => (d.accept, b),
        _ => panic!("expected a verdict"),
    }
}

#[test]
fn faithful_reveal_is_accepted() {
    let first = expected_first(1, 2, 5, 8);
    let (accept, b) = player_b_verdict(
        StartDecideFirstPlayerOutboundData { user_id: 1, hash: std_hash(5) },
        EndDecideFirstPlayerOutboundData { seed_a: 5, first_player_user_id: first },
    );
    assert!(accept);
    assert!(b.is_complete());
}

#[test]
fn forged_seed_is_rejected() {
    let first_with_6 = expected_first(1, 2, 6, 8);
    let (accept, b) = player_b_verdict(
        StartDecideFirstPlayerOutboundData { user_id: 1, hash: std_hash(5) },
        EndDecideFirstPlayerOutboundData { seed_a: 6, first_player_user_id: first_with_6 },
    );
    assert!(!accept);
    assert!(!b.is_complete());
}

#[test]
fn unfair_suggestion_is_rejected() {
    let first = expected_first(1, 2, 5, 8);
    let other = if first == 1 { 2 } else { 1 };
    let (accept, b) = player_b_verdict(
        StartDecideFirstPlayerOutboundData { user_id: 1, hash: std_hash(5) },
        EndDecideFirstPlayerOutboundData { seed_a: 5, first_player_user_id: other },
    );
    assert!(!accept);
    assert!(!b.is_complete());
    assert_eq!(b.is_swap_required().unwrap(), other != 2);
}

#[test]
fn refusal_keeps_player_a_waiting() {
    let mut a = DecideFirstPlayerSequence::new(1, 5, true);
    a.get_question().unwrap();
    a.set_answer(DecideFirstPlayerMessage::StartReturn(StartDecideFirstPlayerReturnData { user_id: 2, seed_b: 8 })).unwrap();
    a.get_question().unwrap();
    a.set_answer(DecideFirstPlayerMessage::EndReturn(EndDecideFirstPlayerReturnData { accept: false })).unwrap();
    assert!(!a.is_complete());
    assert_eq!(a.expected_answer_kind().unwrap(), DecideFirstPlayerMessageKind::EndReturn);
}

#[test]
fn finished_side_is_quiet_concrete() {
    let (mut a, mut b) = honest_run(1, 2, 3, 4);
    assert_eq!(a.get_question().unwrap(), None);
    assert_eq!(b.get_question().unwrap(), None);
    let m = DecideFirstPlayerMessage::EndReturn(EndDecideFirstPlayerReturnData { accept: true });
    assert_eq!(a.set_answer(m).unwrap_err(), "sequence has invalid position: 3");
    assert_eq!(b.expected_answer_kind().unwrap_err(), "sequence has invalid position: 3");
    assert!(a.is_complete());
}

#[test]
fn swap_unknown_before_suggestion() {
    let s = DecideFirstPlayerSequence::new(1, 2, true);
    assert_eq!(s.is_swap_required().unwrap_err(), "sequence does not complete, suggested first player id not set");
    assert!(!s.is_complete());
}

#[test]
fn default_sequence_is_fresh_player_b() {
    let mut s = DecideFirstPlayerSequence::default();
    assert!(!s.is_complete());
    assert_eq!(s.get_question().unwrap(), None);
    assert_eq!(s.expected_answer_kind().unwrap(), DecideFirstPlayerMessageKind::StartOutbound);
    assert_eq!(s.get_player_a_hash().unwrap_err(), "opponent seed not set");
}

#[test]
fn role_errors() {
    let mut b = DecideFirstPlayerSequence::new(1, 2, false);
    assert_eq!(b.create_start_outbound_data().unwrap_err(), "cannot call method because it is not a player");
    assert_eq!(b.create_end_outbound_data().unwrap_err(), "cannot call method because it is not a player");
    assert_eq!(
        b.receive_start_return_data(&StartDecideFirstPlayerReturnData { user_id: 3, seed_b: 4 }).unwrap_err(),
        "cannot receive start outbound data because it is not a player"
    );
    let mut a = DecideFirstPlayerSequence::new(1, 2, true);
    assert_eq!(a.create_start_return_data().unwrap_err(), "cannot call method because it is not b player");
    assert_eq!(
        a.receive_start_outbound_data(&StartDecideFirstPlayerOutboundData { user_id: 3, hash: 4 }).unwrap_err(),
        "cannot receive start outbound data because it is not b player"
    );
    assert_eq!(
        a.receive_end_outbound_data(&EndDecideFirstPlayerOutboundData { seed_a: 3, first_player_user_id: 4 }).unwrap_err(),
        "cannot receive start outbound data because it is not b player"
    );
    assert_eq!(a.decide_first_player().unwrap_err(), "not ready for decide first player");
}

#[test]
fn end_outbound_before_reply_fails() {
    let mut s = DecideFirstPlayerSequence::new(1, 2, false);
    s.set_answer(DecideFirstPlayerMessage::StartOutbound(StartDecideFirstPlayerOutboundData { user_id: 3, hash: 4 }))
        .unwrap();
    s.set_is_player_a(true);
    assert_eq!(
        s.get_question().unwrap_err(),
        "creating end outbound data failed: not ready for decide first player"
    );
}

#[test]
fn switched_role_answers_as_player_b() {
    let mut s = DecideFirstPlayerSequence::new(1, 2, true);
    s.set_answer(DecideFirstPlayerMessage::StartReturn(StartDecideFirstPlayerReturnData { user_id: 3, seed_b: 4 }))
        .unwrap();
    s.set_is_player_a(false);
    assert_eq!(
        s.get_question().unwrap(),
        Some(DecideFirstPlayerMessage::StartReturn(StartDecideFirstPlayerReturnData { user_id: 1, seed_b: 2 }))
    );
}

#[test]
fn missing_commitment_is_detected() {
    let mut s = DecideFirstPlayerSequence::new(1, 2, true);
    s.set_answer(DecideFirstPlayerMessage::StartReturn(StartDecideFirstPlayerReturnData { user_id: 3, seed_b: 4 }))
        .unwrap();
    s.set_is_player_a(false);
    s.set_answer(DecideFirstPlayerMessage::EndOutbound(EndDecideFirstPlayerOutboundData { seed_a: 4, first_player_user_id: 1 }))
        .unwrap();
    assert!(s.lacks_commitment());
}


#[test]
fn decimal_text_of_numbers() {
    assert_eq!(usize_to_decimal(0), "0");
    assert_eq!(usize_to_decimal(9), "9");
    assert_eq!(usize_to_decimal(10), "10");
    assert_eq!(usize_to_decimal(12345), "12345");
    assert_eq!(usize_to_decimal(usize::MAX), usize::MAX.to_string());
}

#[test]
fn completion_is_permanent_concrete() {
    let (mut a, mut b) = honest_run(7, 8, 11, 12);
    a.set_is_player_a(false);
    b.set_is_player_a(true);
    assert!(a.is_complete() && b.is_complete());
    assert_eq!(a.get_question().unwrap(), None);
    assert_eq!(b.get_question().unwrap(), None);
    let m = DecideFirstPlayerMessage::StartOutbound(StartDecideFirstPlayerOutboundData { user_id: 1, hash: 2 });
    assert_eq!(a.set_answer(m).unwrap_err(), "sequence has invalid position: 3");
    assert!(a.is_complete() && b.is_complete());
}
