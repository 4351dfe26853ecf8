//! What holds of the exchange as a whole.

use vstd::prelude::*;
use crate::external::{platform_coin, seed_hash, Platform};
use crate::first_player::{
    answer, expected_answer, first_player_of, initial_state, invalid_position_text, message_kind,
    question, question_lacks_commitment, swap_required, well_formed, DecideFirstPlayerMessage,
    DecideFirstPlayerMessageKind, EndDecideFirstPlayerOutboundData, EndDecideFirstPlayerReturnData,
    create_end_outbound, create_start_outbound, create_start_return, receive_end_outbound,
    receive_start_outbound, receive_start_return, SequenceView, StartDecideFirstPlayerOutboundData, StartDecideFirstPlayerReturnData,
};

verus! {

/// Both sides derive the same first player: player A with its own seed
/// first, player B with the seeds the other way round.
pub proof fn sides_agree_on_first_player(
    user_a: u64,
    user_b: u64,
    coin_a: bool,
    coin_b: bool,
)
    ensures
        first_player_of(true, coin_a, coin_b, user_a, user_b) == first_player_of(false, coin_b, coin_a, user_b, user_a),
        first_player_of(true, coin_a, coin_b, user_a, user_b) == user_a
            || first_player_of(true, coin_a, coin_b, user_a, user_b) == user_b,
{
}

/// Whether a party on platform `pa` and a party on platform `pb` throw the
/// same coins from both seeds and compute the same hash of A's seed.
pub open spec fn platforms_agree_on(seed_a: u64, seed_b: u64, pa: Platform, pb: Platform) -> bool {
    &&& platform_coin(seed_a, pa) == platform_coin(seed_a, pb)
    &&& platform_coin(seed_b, pa) == platform_coin(seed_b, pb)
    &&& seed_hash(seed_a, pa) == seed_hash(seed_a, pb)
}

/// Two parties on the same platform agree on every coin and hash.
pub proof fn same_platform_agrees(seed_a: u64, seed_b: u64, p: Platform)
    ensures
        platforms_agree_on(seed_a, seed_b, p, p),
{
}

/// When both players follow the exchange, player A on platform `pa` and
/// player B on platform `pb`, and the two platforms throw the same coins
/// from the two seeds and hash A's seed alike (as two parties on the same
/// platform do), every step succeeds, every message is of the kind its
/// receiver expects, B accepts, both sides end complete and agree on the
/// first player, which is one of the two, derived from the two seeds; with
/// distinct user ids exactly one of them hands the first move to the other.
pub proof fn honest_exchange_completes(
    user_a: u64,
    user_b: u64,
    seed_a: u64,
    seed_b: u64,
    pa: Platform,
    pb: Platform,
)
    requires
        platforms_agree_on(seed_a, seed_b, pa, pb),
    ensures
        ({
            let a0 = initial_state(user_a, seed_a, true);
            let b0 = initial_state(user_b, seed_b, false);
            let (a1, q1) = question(a0, pa);
            let m1 = DecideFirstPlayerMessage::StartOutbound(
                StartDecideFirstPlayerOutboundData { user_id: user_a, hash: seed_hash(seed_a, pa) },
            );
            let (b1, r1) = answer(b0, m1);
            let (b2, q2) = question(b1, pb);
            let m2 = DecideFirstPlayerMessage::StartReturn(
                StartDecideFirstPlayerReturnData { user_id: user_b, seed_b: seed_b },
            );
            let (a2, r2) = answer(a1, m2);
            let (a3, q3) = question(a2, pa);
            let first = first_player_of(true, platform_coin(seed_a, pa), platform_coin(seed_b, pa), user_a, user_b);
            let m3 = DecideFirstPlayerMessage::EndOutbound(
                EndDecideFirstPlayerOutboundData { seed_a: seed_a, first_player_user_id: first },
            );
            let (b3, r3) = answer(b2, m3);
            let (b4, q4) = question(b3, pb);
            let m4 = DecideFirstPlayerMessage::EndReturn(EndDecideFirstPlayerReturnData { accept: true });
            let (a4, r4) = answer(a3, m4);
            &&& q1 == Ok::<_, Seq<char>>(Some(m1))
            &&& expected_answer(b0) == Ok::<_, Seq<char>>(message_kind(m1))
            &&& r1 == Ok::<(), Seq<char>>(())
            &&& q2 == Ok::<_, Seq<char>>(Some(m2))
            &&& expected_answer(a1) == Ok::<_, Seq<char>>(message_kind(m2))
            &&& r2 == Ok::<(), Seq<char>>(())
            &&& q3 == Ok::<_, Seq<char>>(Some(m3))
            &&& expected_answer(b2) == Ok::<_, Seq<char>>(message_kind(m3))
            &&& r3 == Ok::<(), Seq<char>>(())
            &&& !question_lacks_commitment(b3)
            &&& q4 == Ok::<_, Seq<char>>(Some(m4))
            &&& expected_answer(a3) == Ok::<_, Seq<char>>(message_kind(m4))
            &&& r4 == Ok::<(), Seq<char>>(())
            &&& a4.accepted && b4.accepted
            &&& a4.suggested_first_player_id == Some(first)
            &&& b4.suggested_first_player_id == Some(first)
            &&& first == user_a || first == user_b
            &&& swap_required(a4) == Ok::<bool, Seq<char>>(first != user_a)
            &&& swap_required(b4) == Ok::<bool, Seq<char>>(first != user_b)
            &&& user_a != user_b ==> swap_required(a4) != swap_required(b4)
        }),
{
    sides_agree_on_first_player(user_a, user_b, platform_coin(seed_a, pa), platform_coin(seed_b, pa));
}

/// Player B's verdict, on platform `pb`, on whatever player A sends: after
/// an opening message `opening` and a reveal `reveal`, B accepts exactly
/// when the revealed seed hashes, on B's platform, to the hash it was sent
/// and the suggested first player is the one B derives from its own seed
/// and the revealed one; it records the verdict and is complete exactly when
/// it accepted.
pub proof fn player_b_accepts_only_a_faithful_reveal(
    user_b: u64,
    seed_b: u64,
    opening: StartDecideFirstPlayerOutboundData,
    reveal: EndDecideFirstPlayerOutboundData,
    pb: Platform,
)
    ensures
        ({
            let b0 = initial_state(user_b, seed_b, false);
            let (b1, r1) = answer(b0, DecideFirstPlayerMessage::StartOutbound(opening));
            let (b2, q2) = question(b1, pb);
            let (b3, r3) = answer(b2, DecideFirstPlayerMessage::EndOutbound(reveal));
            let (b4, q4) = question(b3, pb);
            let fair = first_player_of(
                false,
                platform_coin(seed_b, pb),
                platform_coin(reveal.seed_a, pb),
                user_b,
                opening.user_id,
            );
            let verdict = seed_hash(reveal.seed_a, pb) == opening.hash && reveal.first_player_user_id == fair;
            &&& r1 is Ok && q2 is Ok && r3 is Ok
            &&& !question_lacks_commitment(b3)
            &&& q4 == Ok::<_, Seq<char>>(
                Some(DecideFirstPlayerMessage::EndReturn(EndDecideFirstPlayerReturnData { accept: verdict })),
            )
            &&& b4.accepted == verdict
        }),
{
}

/// Player A, having sent its reveal, is complete exactly when B's verdict
/// accepts; a refusal leaves it waiting for a verdict at the same step.
pub proof fn player_a_completes_on_acceptance(
    user_a: u64,
    seed_a: u64,
    reply: StartDecideFirstPlayerReturnData,
    verdict: EndDecideFirstPlayerReturnData,
    pa: Platform,
)
    ensures
        ({
            let a0 = initial_state(user_a, seed_a, true);
            let (a1, q1) = question(a0, pa);
            let (a2, r2) = answer(a1, DecideFirstPlayerMessage::StartReturn(reply));
            let (a3, q3) = question(a2, pa);
            let (a4, r4) = answer(a3, DecideFirstPlayerMessage::EndReturn(verdict));
            &&& r4 == Ok::<(), Seq<char>>(())
            &&& a4.accepted == verdict.accept
            &&& verdict.accept ==> a4.position == 3
            &&& !verdict.accept ==> a4 == a3 && expected_answer(a4) == Ok::<_, Seq<char>>(
                DecideFirstPlayerMessageKind::EndReturn,
            )
        }),
{
}

/// A side that has finished its part (step 3) has nothing more to send and
/// refuses any further message, and neither changes its state.
pub proof fn finished_side_is_quiet(s: SequenceView, m: DecideFirstPlayerMessage, p: Platform)
    requires
        s.position == 3,
    ensures
        question(s, p) == (s, Ok::<Option<DecideFirstPlayerMessage>, Seq<char>>(None)),
        answer(s, m) == (s, Err::<(), Seq<char>>(invalid_position_text(3))),
{
}

/// Completion is permanent: a well-formed side that has accepted has nothing
/// more to send, refuses every further message with the same error, keeps
/// its state through both, and stays complete when its role is set.
pub proof fn completion_is_permanent(
    s: SequenceView,
    m: DecideFirstPlayerMessage,
    p: Platform,
    is_player_a: bool,
)
    requires
        well_formed(s),
        s.accepted,
    ensures
        question(s, p) == (s, Ok::<Option<DecideFirstPlayerMessage>, Seq<char>>(None)),
        answer(s, m) == (s, Err::<(), Seq<char>>(invalid_position_text(3))),
        (SequenceView { is_player_a, ..s }).accepted,
{
    finished_side_is_quiet(s, m, p);
}

/// Every public operation keeps the state well formed (a message taken in
/// being of the kind the side expects).
pub proof fn operations_keep_well_formed(
    s: SequenceView,
    m: DecideFirstPlayerMessage,
    p: Platform,
    is_player_a: bool,
    so: StartDecideFirstPlayerOutboundData,
    sr: StartDecideFirstPlayerReturnData,
    eo: EndDecideFirstPlayerOutboundData,
)
    requires
        well_formed(s),
    ensures
        well_formed(question(s, p).0),
        (expected_answer(s) matches Ok(k) ==> message_kind(m) == k) ==> well_formed(answer(s, m).0),
        well_formed(SequenceView { is_player_a, ..s }),
        well_formed(receive_start_outbound(s, so).0),
        well_formed(receive_start_return(s, sr).0),
        well_formed(receive_end_outbound(s, eo).0),
        well_formed(create_start_outbound(s, p).0),
        well_formed(create_start_return(s).0),
        well_formed(create_end_outbound(s, p).0),
{
}

/// The step counter never goes back, and a side that has accepted stays
/// accepted, whatever operation it goes through.
pub proof fn progress_is_monotonic(
    s: SequenceView,
    m: DecideFirstPlayerMessage,
    p: Platform,
    so: StartDecideFirstPlayerOutboundData,
    sr: StartDecideFirstPlayerReturnData,
    eo: EndDecideFirstPlayerOutboundData,
)
    requires
        well_formed(s),
    ensures
        question(s, p).0.position >= s.position,
        answer(s, m).0.position >= s.position,
        receive_start_outbound(s, so).0.position == s.position,
        receive_start_return(s, sr).0.position == s.position,
        receive_end_outbound(s, eo).0.position == s.position,
        create_start_outbound(s, p).0.position == s.position,
        create_start_return(s).0.position == s.position,
        create_end_outbound(s, p).0.position == s.position,
        s.accepted ==> question(s, p).0.accepted && answer(s, m).0.accepted,
        s.accepted ==> receive_start_outbound(s, so).0.accepted && receive_start_return(s, sr).0.accepted
            && receive_end_outbound(s, eo).0.accepted && create_start_outbound(s, p).0.accepted
            && create_start_return(s).0.accepted && create_end_outbound(s, p).0.accepted,
{
}

} // verus!
