//! What each operation of one side of the exchange does, stated over the
//! fields it reads and the results it gives.

use vstd::prelude::*;
use vstd::std_specs::hash::DefaultHasherAdditionalSpecFns;
use std::hash::DefaultHasher;
use crate::external::{platform_coin, seed_hash, u64_hash_writes, Platform};
use crate::first_player::{
    answer, create_end_outbound, create_start_outbound, create_start_return, decided_first_player,
    initial_state, not_player_a_text, not_player_b_text, receive_end_outbound,
    receive_not_player_a_text, receive_not_player_b_text, receive_start_outbound, receive_start_return, end_outbound_failed_text, expected_answer,
    first_player_of, invalid_position_text, message_kind, not_complete_text, not_ready_text,
    opponent_seed_not_set_text, player_a_hash, question, swap_required, well_formed,
    DecideFirstPlayerMessage, DecideFirstPlayerMessageKind, EndDecideFirstPlayerOutboundData,
    EndDecideFirstPlayerReturnData, SequenceView, StartDecideFirstPlayerOutboundData,
    StartDecideFirstPlayerReturnData,
};

verus! {

/// Player A moves first exactly when the two coins differ, whatever the user
/// ids are: from player A's side the first player is its own id when the
/// coins differ and the opponent's otherwise; from player B's side it is the
/// opponent's id when the coins differ and its own otherwise. Flipping both
/// coins changes nothing, and the result does not depend on which id is
/// larger: swapping the role and the two ids gives the same player.
pub proof fn first_player_follows_coin_parity(
    is_player_a: bool,
    own_coin: bool,
    opponent_coin: bool,
    own_user_id: u64,
    opponent_user_id: u64,
)
    ensures
        first_player_of(true, own_coin, opponent_coin, own_user_id, opponent_user_id)
            == (if own_coin != opponent_coin { own_user_id } else { opponent_user_id }),
        first_player_of(false, own_coin, opponent_coin, own_user_id, opponent_user_id)
            == (if own_coin != opponent_coin { opponent_user_id } else { own_user_id }),
        first_player_of(is_player_a, !own_coin, !opponent_coin, own_user_id, opponent_user_id)
            == first_player_of(is_player_a, own_coin, opponent_coin, own_user_id, opponent_user_id),
        first_player_of(!is_player_a, own_coin, opponent_coin, opponent_user_id, own_user_id)
            == first_player_of(is_player_a, own_coin, opponent_coin, own_user_id, opponent_user_id),
{
}

/// A side that knows its opponent's id and seed decides that player A moves
/// first exactly when the coins thrown from the two seeds differ, and player
/// B otherwise; a side that does not know both cannot decide.
pub proof fn decision_follows_the_two_coins(s: SequenceView, p: Platform)
    ensures
        ({
            let player_a_id = if s.is_player_a { s.own_user_id } else { s.opponent_user_id->0 };
            let player_b_id = if s.is_player_a { s.opponent_user_id->0 } else { s.own_user_id };
            s.opponent_user_id is Some && s.opponent_seed is Some ==> decided_first_player(s, p) == Ok::<u64, Seq<char>>(
                if platform_coin(s.own_seed, p) != platform_coin(s.opponent_seed->0, p) {
                    player_a_id
                } else {
                    player_b_id
                },
            )
        }),
        !(s.opponent_user_id is Some && s.opponent_seed is Some) ==> decided_first_player(s, p) == Err::<u64, Seq<char>>(
            not_ready_text(),
        ),
{
}

/// The hash of a seed is what a fresh `DefaultHasher` finishes with after
/// being fed exactly that seed.
pub proof fn seed_hash_is_fresh_hasher_of_seed(seed: u64, p: Platform)
    ensures
        seed_hash(seed, p) == DefaultHasher::spec_finish(u64_hash_writes(Seq::empty(), seed, p.little_endian)),
{
}

/// Player A commits to its own seed: its opening message carries its own id
/// and the fresh-hasher hash of its own seed, and it keeps that hash. The
/// hash of player A's seed is that of player A's own seed on A's side and
/// that of the revealed seed on B's side, which fails while no seed has been
/// revealed.
pub proof fn commitment_hashes_player_a_seed(s: SequenceView, p: Platform)
    ensures
        ({
            let h = DefaultHasher::spec_finish(u64_hash_writes(Seq::empty(), s.own_seed, p.little_endian));
            s.is_player_a ==> {
                &&& create_start_outbound(s, p).1 == Ok::<_, Seq<char>>(
                    StartDecideFirstPlayerOutboundData { user_id: s.own_user_id, hash: h },
                )
                &&& create_start_outbound(s, p).0 == (SequenceView { hash: Some(h), ..s })
                &&& player_a_hash(s, p) == Ok::<u64, Seq<char>>(h)
            }
        }),
        !s.is_player_a && s.opponent_seed is Some ==> player_a_hash(s, p) == Ok::<u64, Seq<char>>(
            DefaultHasher::spec_finish(u64_hash_writes(Seq::empty(), s.opponent_seed->0, p.little_endian)),
        ),
        !s.is_player_a && s.opponent_seed is None ==> player_a_hash(s, p) == Err::<u64, Seq<char>>(
            opponent_seed_not_set_text(),
        ),
{
}

/// Whether a swap is required depends on the suggested first player and the
/// side's own id alone: it is required exactly when someone else was
/// suggested, at any step and whether or not the side has accepted, and it
/// cannot be told while nobody has been suggested.
pub proof fn swap_follows_suggestion_alone(s: SequenceView, position: usize, accepted: bool)
    ensures
        s.suggested_first_player_id is Some ==> swap_required(s) == Ok::<bool, Seq<char>>(
            s.suggested_first_player_id->0 != s.own_user_id,
        ),
        s.suggested_first_player_id is None ==> swap_required(s) == Err::<bool, Seq<char>>(not_complete_text()),
        swap_required(SequenceView { position, accepted, ..s }) == swap_required(s),
{
}

/// At step 2, player B (holding the hash from the opening message) replies
/// with its verdict, which accepts exactly when the revealed seed hashes to
/// that hash and the suggested first player is the one the coins pick. It
/// records the verdict and moves to step 3, changing nothing else, and then
/// has nothing more to send and expects no further message.
pub proof fn player_b_verdict_ends_its_part(s: SequenceView, p: Platform)
    requires
        well_formed(s),
        !s.is_player_a,
        s.position == 2,
        s.hash is Some,
    ensures
        ({
            let (t, r) = question(s, p);
            let seed_a = s.opponent_seed->0;
            let fair = if platform_coin(s.own_seed, p) != platform_coin(seed_a, p) {
                s.opponent_user_id->0
            } else {
                s.own_user_id
            };
            let accept = seed_hash(seed_a, p) == s.hash->0 && s.suggested_first_player_id->0 == fair;
            &&& r == Ok::<_, Seq<char>>(
                Some(DecideFirstPlayerMessage::EndReturn(EndDecideFirstPlayerReturnData { accept })),
            )
            &&& t == (SequenceView { position: 3, accepted: accept, ..s })
            &&& question(t, p) == (t, Ok::<Option<DecideFirstPlayerMessage>, Seq<char>>(None))
            &&& expected_answer(t) == Err::<DecideFirstPlayerMessageKind, Seq<char>>(invalid_position_text(3))
        }),
{
}

/// What a side sends at each step. Player A opens with its id and the hash
/// of its seed (keeping the hash), then reveals its seed and the first
/// player the coins pick (keeping the suggestion), or fails, unchanged, while
/// it does not know its opponent's id and seed. Player B answers the opening
/// with its id and seed, unchanged. Only player B's verdict advances the
/// step; at any other step a side sends nothing and stays as it is.
pub proof fn question_sends_by_role_and_step(s: SequenceView, p: Platform)
    ensures
        s.is_player_a && s.position == 0 ==> question(s, p) == (
            SequenceView { hash: Some(seed_hash(s.own_seed, p)), ..s },
            Ok::<_, Seq<char>>(
                Some(
                    DecideFirstPlayerMessage::StartOutbound(
                        StartDecideFirstPlayerOutboundData { user_id: s.own_user_id, hash: seed_hash(s.own_seed, p) },
                    ),
                ),
            ),
        ),
        s.is_player_a && s.position == 1 && s.opponent_user_id is Some && s.opponent_seed is Some ==> ({
            let first = if platform_coin(s.own_seed, p) != platform_coin(s.opponent_seed->0, p) {
                s.own_user_id
            } else {
                s.opponent_user_id->0
            };
            question(s, p) == (
                SequenceView { suggested_first_player_id: Some(first), ..s },
                Ok::<_, Seq<char>>(
                    Some(
                        DecideFirstPlayerMessage::EndOutbound(
                            EndDecideFirstPlayerOutboundData { seed_a: s.own_seed, first_player_user_id: first },
                        ),
                    ),
                ),
            )
        }),
        s.is_player_a && s.position == 1 && !(s.opponent_user_id is Some && s.opponent_seed is Some)
            ==> question(s, p) == (s, Err::<Option<DecideFirstPlayerMessage>, Seq<char>>(
            end_outbound_failed_text(not_ready_text()),
        )),
        !s.is_player_a && s.position == 1 ==> question(s, p) == (
            s,
            Ok::<_, Seq<char>>(
                Some(
                    DecideFirstPlayerMessage::StartReturn(
                        StartDecideFirstPlayerReturnData { user_id: s.own_user_id, seed_b: s.own_seed },
                    ),
                ),
            ),
        ),
        (s.is_player_a && s.position >= 2) || (!s.is_player_a && (s.position == 0 || s.position == 3))
            ==> question(s, p) == (s, Ok::<Option<DecideFirstPlayerMessage>, Seq<char>>(None)),
        !(!s.is_player_a && s.position == 2) ==> question(s, p).0.position == s.position,
{
}

/// What a side takes in at each step, given a message of the kind it
/// expects. Player A takes B's id and seed and moves to step 1; it takes an
/// acceptance by completing at step 3 and a refusal by staying unchanged.
/// Player B takes A's id and hash and moves to step 1, then A's revealed
/// seed and suggestion and moves to step 2. Every such message is taken in
/// without error, and a side past its last expected message refuses every
/// message, unchanged.
pub proof fn answer_takes_by_role_and_step(s: SequenceView, m: DecideFirstPlayerMessage)
    requires
        well_formed(s),
        expected_answer(s) matches Ok(k) ==> message_kind(m) == k,
    ensures
        s.is_player_a && s.position == 0 ==> answer(s, m) == (
            SequenceView {
                opponent_user_id: Some(m->StartReturn_0.user_id),
                opponent_seed: Some(m->StartReturn_0.seed_b),
                position: 1,
                ..s
            },
            Ok::<(), Seq<char>>(()),
        ),
        s.is_player_a && s.position == 1 && m->EndReturn_0.accept ==> answer(s, m) == (
            SequenceView { accepted: true, position: 3, ..s },
            Ok::<(), Seq<char>>(()),
        ),
        s.is_player_a && s.position == 1 && !m->EndReturn_0.accept ==> answer(s, m) == (s, Ok::<(), Seq<char>>(())),
        !s.is_player_a && s.position == 0 ==> answer(s, m) == (
            SequenceView {
                opponent_user_id: Some(m->StartOutbound_0.user_id),
                hash: Some(m->StartOutbound_0.hash),
                position: 1,
                ..s
            },
            Ok::<(), Seq<char>>(()),
        ),
        !s.is_player_a && s.position == 1 ==> answer(s, m) == (
            SequenceView {
                opponent_seed: Some(m->EndOutbound_0.seed_a),
                suggested_first_player_id: Some(m->EndOutbound_0.first_player_user_id),
                position: 2,
                ..s
            },
            Ok::<(), Seq<char>>(()),
        ),
        s.position >= 2 ==> answer(s, m) == (s, Err::<(), Seq<char>>(invalid_position_text(s.position))),
{
}

/// A fresh side has the given id, seed and role, is at step 0, has not
/// accepted, and knows nothing of its opponent, of a hash or of a
/// suggestion.
pub proof fn fresh_side_knows_nothing(own_user_id: u64, own_seed: u64, is_player_a: bool)
    ensures
        ({
            let s = initial_state(own_user_id, own_seed, is_player_a);
            &&& s.own_user_id == own_user_id && s.own_seed == own_seed && s.is_player_a == is_player_a
            &&& s.position == 0 && !s.accepted
            &&& s.opponent_user_id is None && s.opponent_seed is None
            &&& s.hash is None && s.suggested_first_player_id is None
        }),
{
}

/// What a side expects at each step: player A expects B's reply at step 0
/// and B's verdict at step 1; player B expects A's opening at step 0 and A's
/// reveal at step 1; from step 2 on a side expects nothing and names its
/// step in the error.
pub proof fn expectations_by_role_and_step(s: SequenceView)
    ensures
        s.position == 0 ==> expected_answer(s) == Ok::<_, Seq<char>>(
            if s.is_player_a { DecideFirstPlayerMessageKind::StartReturn } else { DecideFirstPlayerMessageKind::StartOutbound },
        ),
        s.position == 1 ==> expected_answer(s) == Ok::<_, Seq<char>>(
            if s.is_player_a { DecideFirstPlayerMessageKind::EndReturn } else { DecideFirstPlayerMessageKind::EndOutbound },
        ),
        s.position >= 2 ==> expected_answer(s) == Err::<DecideFirstPlayerMessageKind, Seq<char>>(
            invalid_position_text(s.position),
        ),
{
}

/// Each building block refuses the wrong role, leaving the side unchanged,
/// and otherwise changes only what the message it takes in or builds
/// concerns: taking A's opening stores A's id and hash; taking B's reply
/// stores B's id and seed; taking A's reveal stores the revealed seed and
/// the suggestion; building B's reply changes nothing; building A's reveal
/// stores the suggestion it sends. None of them moves the step.
pub proof fn building_blocks_touch_only_their_fields(
    s: SequenceView,
    p: Platform,
    opening: StartDecideFirstPlayerOutboundData,
    reply: StartDecideFirstPlayerReturnData,
    reveal: EndDecideFirstPlayerOutboundData,
)
    ensures
        receive_start_outbound(s, opening) == (if s.is_player_a {
            (s, Err::<(), Seq<char>>(receive_not_player_b_text()))
        } else {
            (SequenceView { opponent_user_id: Some(opening.user_id), hash: Some(opening.hash), ..s }, Ok::<(), Seq<char>>(()))
        }),
        receive_start_return(s, reply) == (if !s.is_player_a {
            (s, Err::<(), Seq<char>>(receive_not_player_a_text()))
        } else {
            (SequenceView { opponent_user_id: Some(reply.user_id), opponent_seed: Some(reply.seed_b), ..s }, Ok::<(), Seq<char>>(()))
        }),
        receive_end_outbound(s, reveal) == (if s.is_player_a {
            (s, Err::<(), Seq<char>>(receive_not_player_b_text()))
        } else {
            (
                SequenceView {
                    opponent_seed: Some(reveal.seed_a),
                    suggested_first_player_id: Some(reveal.first_player_user_id),
                    ..s
                },
                Ok::<(), Seq<char>>(()),
            )
        }),
        create_start_return(s) == (if s.is_player_a {
            (s, Err::<StartDecideFirstPlayerReturnData, Seq<char>>(not_player_b_text()))
        } else {
            (s, Ok::<_, Seq<char>>(StartDecideFirstPlayerReturnData { user_id: s.own_user_id, seed_b: s.own_seed }))
        }),
        !s.is_player_a ==> create_start_outbound(s, p) == (
            s,
            Err::<StartDecideFirstPlayerOutboundData, Seq<char>>(not_player_a_text()),
        ),
        !s.is_player_a ==> create_end_outbound(s, p) == (
            s,
            Err::<EndDecideFirstPlayerOutboundData, Seq<char>>(not_player_a_text()),
        ),
        s.is_player_a && decided_first_player(s, p) is Ok ==> create_end_outbound(s, p) == (
            SequenceView { suggested_first_player_id: Some(decided_first_player(s, p)->Ok_0), ..s },
            Ok::<_, Seq<char>>(
                EndDecideFirstPlayerOutboundData {
                    seed_a: s.own_seed,
                    first_player_user_id: decided_first_player(s, p)->Ok_0,
                },
            ),
        ),
        s.is_player_a && decided_first_player(s, p) is Err ==> create_end_outbound(s, p) == (
            s,
            Err::<EndDecideFirstPlayerOutboundData, Seq<char>>(decided_first_player(s, p)->Err_0),
        ),
{
}

} // verus!
