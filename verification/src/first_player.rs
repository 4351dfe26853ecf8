//! Deciding which player moves first.
//!
//! Player A commits to its seed by sending the seed's hash; player B answers
//! with its own seed; A then reveals its seed together with the first player
//! it derived from both seeds; B checks the revealed seed against the
//! commitment, derives the first player itself and accepts only when both
//! checks pass.

use vstd::prelude::*;
use crate::external::{
    coin_from_seed, decimal_text, hash_seed, platform_coin, seed_hash, this_platform, usize_to_decimal, Platform,
};

verus! {

/// Player A opens the exchange: its user id and the hash of the seed it
/// reveals later.
#[derive(Clone, Copy, Debug, PartialEq, Eq, Structural)]
pub struct StartDecideFirstPlayerOutboundData {
    pub user_id: u64,
    pub hash: u64,
}

/// Player B answers: its user id and its seed.
#[derive(Clone, Copy, Debug, PartialEq, Eq, Structural)]
pub struct StartDecideFirstPlayerReturnData {
    pub user_id: u64,
    pub seed_b: u64,
}

/// Player A reveals its seed and the first player it derived from the seeds.
#[derive(Clone, Copy, Debug, PartialEq, Eq, Structural)]
pub struct EndDecideFirstPlayerOutboundData {
    pub seed_a: u64,
    pub first_player_user_id: u64,
}

/// Player B accepts when the revealed seed matches the hash it received and
/// the first player it derives matches the one A sent.
#[derive(Clone, Copy, Debug, PartialEq, Eq, Structural)]
pub struct EndDecideFirstPlayerReturnData {
    pub accept: bool,
}

/// A message of the exchange.
#[derive(Clone, Copy, Debug, PartialEq, Eq, Structural)]
pub enum DecideFirstPlayerMessage {
    StartOutbound(StartDecideFirstPlayerOutboundData),
    StartReturn(StartDecideFirstPlayerReturnData),
    EndOutbound(EndDecideFirstPlayerOutboundData),
    EndReturn(EndDecideFirstPlayerReturnData),
}

/// Which of the four messages is meant.
#[derive(Clone, Copy, Debug, PartialEq, Eq, Structural)]
pub enum DecideFirstPlayerMessageKind {
    StartOutbound,
    StartReturn,
    EndOutbound,
    EndReturn,
}

/// The kind of a message.
pub open spec fn message_kind(m: DecideFirstPlayerMessage) -> DecideFirstPlayerMessageKind {
    match m {
        DecideFirstPlayerMessage::StartOutbound(_) => DecideFirstPlayerMessageKind::StartOutbound,
        DecideFirstPlayerMessage::StartReturn(_) => DecideFirstPlayerMessageKind::StartReturn,
        DecideFirstPlayerMessage::EndOutbound(_) => DecideFirstPlayerMessageKind::EndOutbound,
        DecideFirstPlayerMessage::EndReturn(_) => DecideFirstPlayerMessageKind::EndReturn,
    }
}

impl DecideFirstPlayerMessage {
    /// The kind of this message.
    pub fn kind(&self) -> (k: DecideFirstPlayerMessageKind)
        ensures
            k == message_kind(*self),
    {
        match self {
            DecideFirstPlayerMessage::StartOutbound(_) => DecideFirstPlayerMessageKind::StartOutbound,
            DecideFirstPlayerMessage::StartReturn(_) => DecideFirstPlayerMessageKind::StartReturn,
            DecideFirstPlayerMessage::EndOutbound(_) => DecideFirstPlayerMessageKind::EndOutbound,
            DecideFirstPlayerMessage::EndReturn(_) => DecideFirstPlayerMessageKind::EndReturn,
        }
    }
}

/// One side of the exchange.
pub struct DecideFirstPlayerSequence {
    is_player_a: bool,
    own_user_id: u64,
    opponent_user_id: Option<u64>,
    own_seed: u64,
    opponent_seed: Option<u64>,
    suggested_first_player_id: Option<u64>,
    accepted: bool,
    hash: Option<u64>,
    position: usize,
}

/// What a `DecideFirstPlayerSequence` holds.
pub struct SequenceView {
    pub is_player_a: bool,
    pub own_user_id: u64,
    pub opponent_user_id: Option<u64>,
    pub own_seed: u64,
    pub opponent_seed: Option<u64>,
    pub suggested_first_player_id: Option<u64>,
    pub accepted: bool,
    pub hash: Option<u64>,
    pub position: usize,
}

impl DecideFirstPlayerSequence {
    #[verifier::type_invariant]
    spec fn stays_well_formed(self) -> bool {
        well_formed(self@)
    }
}

impl View for DecideFirstPlayerSequence {
    type V = SequenceView;

    closed spec fn view(&self) -> SequenceView {
        SequenceView {
            is_player_a: self.is_player_a,
            own_user_id: self.own_user_id,
            opponent_user_id: self.opponent_user_id,
            own_seed: self.own_seed,
            opponent_seed: self.opponent_seed,
            suggested_first_player_id: self.suggested_first_player_id,
            accepted: self.accepted,
            hash: self.hash,
            position: self.position,
        }
    }
}

// ---------------------------------------------------------------------------
// Error texts.

pub open spec fn not_player_a_text() -> Seq<char> {
    "cannot call method because it is not a player"@
}

pub open spec fn not_player_b_text() -> Seq<char> {
    "cannot call method because it is not b player"@
}

pub open spec fn receive_not_player_a_text() -> Seq<char> {
    "cannot receive start outbound data because it is not a player"@
}

pub open spec fn receive_not_player_b_text() -> Seq<char> {
    "cannot receive start outbound data because it is not b player"@
}

pub open spec fn opponent_seed_not_set_text() -> Seq<char> {
    "opponent seed not set"@
}

pub open spec fn not_ready_text() -> Seq<char> {
    "not ready for decide first player"@
}

pub open spec fn not_complete_text() -> Seq<char> {
    "sequence does not complete, suggested first player id not set"@
}

pub open spec fn start_outbound_failed_text(e: Seq<char>) -> Seq<char> {
    "creating start outbound data failed: "@ + e
}

pub open spec fn end_outbound_failed_text(e: Seq<char>) -> Seq<char> {
    "creating end outbound data failed: "@ + e
}

pub open spec fn start_return_failed_text(e: Seq<char>) -> Seq<char> {
    "creating start return data failed: "@ + e
}

pub open spec fn end_return_failed_text(e: Seq<char>) -> Seq<char> {
    "creating end return data failed: "@ + e
}

pub open spec fn invalid_position_text(position: usize) -> Seq<char> {
    "sequence has invalid position: "@ + decimal_text(position as nat)
}

/// A result whose error is a `String`, with the error taken by its text.
pub open spec fn text_result<T>(r: Result<T, String>) -> Result<T, Seq<char>> {
    match r {
        Ok(t) => Ok(t),
        Err(e) => Err(e@),
    }
}

// ---------------------------------------------------------------------------
// The model: each operation as a function of the state.

/// The state of a fresh sequence.
pub open spec fn initial_state(own_user_id: u64, own_seed: u64, is_player_a: bool) -> SequenceView {
    SequenceView {
        is_player_a,
        own_user_id,
        opponent_user_id: None,
        own_seed,
        opponent_seed: None,
        suggested_first_player_id: None,
        accepted: false,
        hash: None,
        position: 0,
    }
}

/// The shape every reachable state has: the step counter never passes 3;
/// a side that has accepted is at step 3; a side past its first step knows
/// its opponent; a side at step 2 (player B before its verdict) holds the
/// opponent's seed and the first player suggested to it.
pub open spec fn well_formed(s: SequenceView) -> bool {
    &&& s.position <= 3
    &&& s.accepted ==> s.position == 3
    &&& s.position >= 1 ==> s.opponent_user_id is Some
    &&& s.position == 2 ==> s.opponent_seed is Some && s.suggested_first_player_id is Some
}

/// The seed of player A, as far as this side knows it.
pub open spec fn player_a_seed(s: SequenceView) -> Option<u64> {
    if s.is_player_a {
        Some(s.own_seed)
    } else {
        s.opponent_seed
    }
}

/// The hash of player A's seed on platform `p`, or why it cannot be computed.
pub open spec fn player_a_hash(s: SequenceView, p: Platform) -> Result<u64, Seq<char>> {
    match player_a_seed(s) {
        Some(seed) => Ok(seed_hash(seed, p)),
        None => Err(opponent_seed_not_set_text()),
    }
}

/// The first player, given this side's role, the coins thrown from this
/// side's seed and from the opponent's seed, and the two user ids: player A
/// moves first exactly when the two coins differ.
pub open spec fn first_player_of(
    is_player_a: bool,
    own_coin: bool,
    opponent_coin: bool,
    own_user_id: u64,
    opponent_user_id: u64,
) -> u64 {
    let first_player_is_player_a = own_coin != opponent_coin;
    if first_player_is_player_a == is_player_a {
        own_user_id
    } else {
        opponent_user_id
    }
}

/// Whether this side knows the opponent's user id and seed.
pub open spec fn ready_to_decide(s: SequenceView) -> bool {
    s.opponent_user_id is Some && s.opponent_seed is Some
}

/// The first player this side derives on platform `p`, or why it cannot yet.
pub open spec fn decided_first_player(s: SequenceView, p: Platform) -> Result<u64, Seq<char>> {
    if !ready_to_decide(s) {
        Err(not_ready_text())
    } else {
        Ok(
            first_player_of(
                s.is_player_a,
                platform_coin(s.own_seed, p),
                platform_coin(s.opponent_seed->0, p),
                s.own_user_id,
                s.opponent_user_id->0,
            ),
        )
    }
}

/// Player B takes in player A's opening message.
pub open spec fn receive_start_outbound(
    s: SequenceView,
    d: StartDecideFirstPlayerOutboundData,
) -> (SequenceView, Result<(), Seq<char>>) {
    if s.is_player_a {
        (s, Err(receive_not_player_b_text()))
    } else {
        (SequenceView { opponent_user_id: Some(d.user_id), hash: Some(d.hash), ..s }, Ok(()))
    }
}

/// Player A takes in player B's answer.
pub open spec fn receive_start_return(
    s: SequenceView,
    d: StartDecideFirstPlayerReturnData,
) -> (SequenceView, Result<(), Seq<char>>) {
    if !s.is_player_a {
        (s, Err(receive_not_player_a_text()))
    } else {
        (SequenceView { opponent_user_id: Some(d.user_id), opponent_seed: Some(d.seed_b), ..s }, Ok(()))
    }
}

/// Player B takes in player A's reveal.
pub open spec fn receive_end_outbound(
    s: SequenceView,
    d: EndDecideFirstPlayerOutboundData,
) -> (SequenceView, Result<(), Seq<char>>) {
    if s.is_player_a {
        (s, Err(receive_not_player_b_text()))
    } else {
        (
            SequenceView {
                opponent_seed: Some(d.seed_a),
                suggested_first_player_id: Some(d.first_player_user_id),
                ..s
            },
            Ok(()),
        )
    }
}

/// Player A builds its opening message and keeps the hash it commits to.
pub open spec fn create_start_outbound(s: SequenceView, p: Platform) -> (
    SequenceView,
    Result<StartDecideFirstPlayerOutboundData, Seq<char>>,
) {
    if !s.is_player_a {
        (s, Err(not_player_a_text()))
    } else {
        let h = seed_hash(s.own_seed, p);
        (
            SequenceView { hash: Some(h), ..s },
            Ok(StartDecideFirstPlayerOutboundData { user_id: s.own_user_id, hash: h }),
        )
    }
}

/// Player B builds its answer.
pub open spec fn create_start_return(s: SequenceView) -> (
    SequenceView,
    Result<StartDecideFirstPlayerReturnData, Seq<char>>,
) {
    if s.is_player_a {
        (s, Err(not_player_b_text()))
    } else {
        (s, Ok(StartDecideFirstPlayerReturnData { user_id: s.own_user_id, seed_b: s.own_seed }))
    }
}

/// Player A builds its reveal and keeps the first player it suggests.
pub open spec fn create_end_outbound(s: SequenceView, p: Platform) -> (
    SequenceView,
    Result<EndDecideFirstPlayerOutboundData, Seq<char>>,
) {
    if !s.is_player_a {
        (s, Err(not_player_a_text()))
    } else {
        match decided_first_player(s, p) {
            Err(e) => (s, Err(e)),
            Ok(f) => (
                SequenceView { suggested_first_player_id: Some(f), ..s },
                Ok(EndDecideFirstPlayerOutboundData { seed_a: s.own_seed, first_player_user_id: f }),
            ),
        }
    }
}

/// Player B's verdict on a reveal: the revealed seed hashes to the hash it
/// was sent, and the first player suggested to it is the one it derives.
pub open spec fn acceptance(
    revealed_hash: u64,
    committed_hash: u64,
    suggested_first_player: u64,
    derived_first_player: u64,
) -> bool {
    revealed_hash == committed_hash && suggested_first_player == derived_first_player
}

/// Whether building player B's verdict would find no hash to compare with,
/// or, with matching hashes, no suggestion to compare with.
pub open spec fn end_return_lacks_data(s: SequenceView, p: Platform) -> bool {
    &&& !s.is_player_a
    &&& player_a_hash(s, p) is Ok
    &&& decided_first_player(s, p) is Ok
    &&& (s.hash is None || (player_a_hash(s, p)->Ok_0 == s.hash->0 && s.suggested_first_player_id is None))
}

/// Player B builds its verdict and records it.
pub open spec fn create_end_return(s: SequenceView, p: Platform) -> (
    SequenceView,
    Result<EndDecideFirstPlayerReturnData, Seq<char>>,
) {
    if s.is_player_a {
        (s, Err(not_player_b_text()))
    } else {
        match player_a_hash(s, p) {
            Err(e) => (s, Err(e)),
            Ok(h) => match decided_first_player(s, p) {
                Err(e) => (s, Err(e)),
                Ok(f) => {
                    let accept = acceptance(h, s.hash->0, s.suggested_first_player_id->0, f);
                    (SequenceView { accepted: accept, ..s }, Ok(EndDecideFirstPlayerReturnData { accept }))
                },
            },
        }
    }
}

/// The message this side, running on platform `p`, sends next (`None` when
/// it has none to send), with the state afterwards.
pub open spec fn question(s: SequenceView, p: Platform) -> (
    SequenceView,
    Result<Option<DecideFirstPlayerMessage>, Seq<char>>,
) {
    if s.is_player_a {
        if s.position == 0 {
            let (t, r) = create_start_outbound(s, p);
            match r {
                Ok(d) => (t, Ok(Some(DecideFirstPlayerMessage::StartOutbound(d)))),
                Err(e) => (t, Err(start_outbound_failed_text(e))),
            }
        } else if s.position == 1 {
            let (t, r) = create_end_outbound(s, p);
            match r {
                Ok(d) => (t, Ok(Some(DecideFirstPlayerMessage::EndOutbound(d)))),
                Err(e) => (t, Err(end_outbound_failed_text(e))),
            }
        } else {
            (s, Ok(None))
        }
    } else {
        if s.position == 1 {
            let (t, r) = create_start_return(s);
            match r {
                Ok(d) => (t, Ok(Some(DecideFirstPlayerMessage::StartReturn(d)))),
                Err(e) => (t, Err(start_return_failed_text(e))),
            }
        } else if s.position == 2 {
            let (t, r) = create_end_return(s, p);
            match r {
                Ok(d) => (
                    SequenceView { position: (t.position + 1) as usize, ..t },
                    Ok(Some(DecideFirstPlayerMessage::EndReturn(d))),
                ),
                Err(e) => (t, Err(end_return_failed_text(e))),
            }
        } else {
            (s, Ok(None))
        }
    }
}

/// Whether asking this side for its next message would find no hash to
/// compare the revealed seed with.
pub open spec fn question_lacks_commitment(s: SequenceView) -> bool {
    &&& !s.is_player_a
    &&& s.position == 2
    &&& ready_to_decide(s)
    &&& s.hash is None
}

/// The kind of message this side expects next, or why it expects none.
pub open spec fn expected_answer(s: SequenceView) -> Result<DecideFirstPlayerMessageKind, Seq<char>> {
    if s.is_player_a {
        if s.position == 0 {
            Ok(DecideFirstPlayerMessageKind::StartReturn)
        } else if s.position == 1 {
            Ok(DecideFirstPlayerMessageKind::EndReturn)
        } else {
            Err(invalid_position_text(s.position))
        }
    } else {
        if s.position == 0 {
            Ok(DecideFirstPlayerMessageKind::StartOutbound)
        } else if s.position == 1 {
            Ok(DecideFirstPlayerMessageKind::EndOutbound)
        } else {
            Err(invalid_position_text(s.position))
        }
    }
}

/// This side takes in the opponent's message `m`, of the kind it expects.
pub open spec fn answer(s: SequenceView, m: DecideFirstPlayerMessage) -> (
    SequenceView,
    Result<(), Seq<char>>,
) {
    match expected_answer(s) {
        Err(e) => (s, Err(e)),
        Ok(_) => match m {
            DecideFirstPlayerMessage::StartReturn(d) => {
                let (t, r) = receive_start_return(s, d);
                match r {
                    Ok(_) => (SequenceView { position: (t.position + 1) as usize, ..t }, Ok(())),
                    Err(e) => (t, Err(e)),
                }
            },
            DecideFirstPlayerMessage::EndReturn(d) => {
                if d.accept {
                    (SequenceView { accepted: true, position: (s.position + 2) as usize, ..s }, Ok(()))
                } else {
                    (s, Ok(()))
                }
            },
            DecideFirstPlayerMessage::StartOutbound(d) => {
                let (t, r) = receive_start_outbound(s, d);
                match r {
                    Ok(_) => (SequenceView { position: (t.position + 1) as usize, ..t }, Ok(())),
                    Err(e) => (t, Err(e)),
                }
            },
            DecideFirstPlayerMessage::EndOutbound(d) => {
                let (t, r) = receive_end_outbound(s, d);
                match r {
                    Ok(_) => (SequenceView { position: (t.position + 1) as usize, ..t }, Ok(())),
                    Err(e) => (t, Err(e)),
                }
            },
        },
    }
}

/// Whether this side must hand the first move to its opponent, or why it
/// cannot tell yet.
pub open spec fn swap_required(s: SequenceView) -> Result<bool, Seq<char>> {
    match s.suggested_first_player_id {
        Some(f) => Ok(f != s.own_user_id),
        None => Err(not_complete_text()),
    }
}

// ---------------------------------------------------------------------------
// The executable sequence.

/// The first player, from this side's role, the two coins and the two user
/// ids: player A moves first exactly when the two coins differ.
pub fn first_player_from_coins(
    is_player_a: bool,
    own_coin: bool,
    opponent_coin: bool,
    own_user_id: u64,
    opponent_user_id: u64,
) -> (first: u64)
    ensures
        first == first_player_of(is_player_a, own_coin, opponent_coin, own_user_id, opponent_user_id),
{
    let first_player_is_player_a = own_coin != opponent_coin;
    if (first_player_is_player_a && is_player_a) || (!first_player_is_player_a && !is_player_a) {
        own_user_id
    } else {
        opponent_user_id
    }
}

impl Default for DecideFirstPlayerSequence {
    /// A sequence for player B with user id 0 and seed 0.
    fn default() -> (s: Self)
        ensures
            s@ == initial_state(0, 0, false),
            well_formed(s@),
    {
        DecideFirstPlayerSequence {
            is_player_a: false,
            own_user_id: 0,
            opponent_user_id: None,
            own_seed: 0,
            opponent_seed: None,
            suggested_first_player_id: None,
            accepted: false,
            hash: None,
            position: 0,
        }
    }
}

impl DecideFirstPlayerSequence {
    /// A fresh sequence for the player with `own_user_id` and `own_seed`.
    pub fn new(own_user_id: u64, own_seed: u64, is_player_a: bool) -> (s: DecideFirstPlayerSequence)
        ensures
            s@ == initial_state(own_user_id, own_seed, is_player_a),
            well_formed(s@),
    {
        DecideFirstPlayerSequence {
            is_player_a,
            own_user_id,
            opponent_user_id: None,
            own_seed,
            opponent_seed: None,
            suggested_first_player_id: None,
            accepted: false,
            hash: None,
            position: 0,
        }
    }

    /// Whether the exchange has been accepted.
    pub fn is_complete(&self) -> (r: bool)
        ensures
            r == self@.accepted,
    {
        self.accepted
    }

    /// Whether this side must hand the first move to its opponent.
    pub fn is_swap_required(&self) -> (r: Result<bool, String>)
        ensures
            text_result(r) == swap_required(self@),
    {
        match self.suggested_first_player_id {
            Some(first_player_id) => Ok(first_player_id != self.own_user_id),
            None => Err(String::from_str("sequence does not complete, suggested first player id not set")),
        }
    }

    /// Sets this side's role.
    pub fn set_is_player_a(&mut self, is_player_a: bool)
        ensures
            final(self)@ == (SequenceView { is_player_a, ..old(self)@ }),
    {
        proof {
            use_type_invariant(&*self);
        }
        self.is_player_a = is_player_a;
    }

    /// The hash of player A's seed: this side's own seed for player A, the
    /// opponent's revealed seed for player B.
    pub fn get_player_a_hash(&self) -> (r: Result<u64, String>)
        ensures
            text_result(r) == player_a_hash(self@, this_platform()),
    {
        if self.is_player_a {
            Ok(hash_seed(self.own_seed))
        } else {
            match self.opponent_seed {
                Some(seed) => Ok(hash_seed(seed)),
                None => Err(String::from_str("opponent seed not set")),
            }
        }
    }

    /// The first player, derived from both seeds.
    pub fn decide_first_player(&self) -> (r: Result<u64, String>)
        ensures
            text_result(r) == decided_first_player(self@, this_platform()),
    {
        match (self.opponent_user_id, self.opponent_seed) {
            (Some(opponent_user_id), Some(opponent_seed)) => {
                let own_coin = coin_from_seed(self.own_seed);
                let opponent_coin = coin_from_seed(opponent_seed);
                Ok(first_player_from_coins(self.is_player_a, own_coin, opponent_coin, self.own_user_id, opponent_user_id))
            },
            _ => Err(String::from_str("not ready for decide first player")),
        }
    }

    /// Player B takes in player A's opening message.
    pub fn receive_start_outbound_data(
        &mut self,
        start_outbound_data: &StartDecideFirstPlayerOutboundData,
    ) -> (r: Result<(), String>)
        ensures
            (final(self)@, text_result(r)) == receive_start_outbound(old(self)@, *start_outbound_data),
    {
        proof {
            use_type_invariant(&*self);
        }
        if self.is_player_a {
            return Err(String::from_str("cannot receive start outbound data because it is not b player"));
        }
        self.opponent_user_id = Some(start_outbound_data.user_id);
        self.hash = Some(start_outbound_data.hash);
        Ok(())
    }

    /// Player A takes in player B's answer.
    pub fn receive_start_return_data(
        &mut self,
        start_return_data: &StartDecideFirstPlayerReturnData,
    ) -> (r: Result<(), String>)
        ensures
            (final(self)@, text_result(r)) == receive_start_return(old(self)@, *start_return_data),
    {
        proof {
            use_type_invariant(&*self);
        }
        if !self.is_player_a {
            return Err(String::from_str("cannot receive start outbound data because it is not a player"));
        }
        self.opponent_user_id = Some(start_return_data.user_id);
        self.opponent_seed = Some(start_return_data.seed_b);
        Ok(())
    }

    /// Player B takes in player A's reveal.
    pub fn receive_end_outbound_data(
        &mut self,
        end_outbound_data: &EndDecideFirstPlayerOutboundData,
    ) -> (r: Result<(), String>)
        ensures
            (final(self)@, text_result(r)) == receive_end_outbound(old(self)@, *end_outbound_data),
    {
        proof {
            use_type_invariant(&*self);
        }
        if self.is_player_a {
            return Err(String::from_str("cannot receive start outbound data because it is not b player"));
        }
        self.opponent_seed = Some(end_outbound_data.seed_a);
        self.suggested_first_player_id = Some(end_outbound_data.first_player_user_id);
        Ok(())
    }

    /// Player A builds its opening message and keeps the hash it commits to.
    pub fn create_start_outbound_data(&mut self) -> (r: Result<StartDecideFirstPlayerOutboundData, String>)
        ensures
            (final(self)@, text_result(r)) == create_start_outbound(old(self)@, this_platform()),
    {
        proof {
            use_type_invariant(&*self);
        }
        if !self.is_player_a {
            return Err(String::from_str("cannot call method because it is not a player"));
        }
        let hash = match self.get_player_a_hash() {
            Ok(h) => h,
            Err(e) => return Err(e),
        };
        self.hash = Some(hash);
        Ok(StartDecideFirstPlayerOutboundData { user_id: self.own_user_id, hash })
    }

    /// Player B builds its answer.
    pub fn create_start_return_data(&mut self) -> (r: Result<StartDecideFirstPlayerReturnData, String>)
        ensures
            (final(self)@, text_result(r)) == create_start_return(old(self)@),
    {
        if self.is_player_a {
            return Err(String::from_str("cannot call method because it is not b player"));
        }
        Ok(StartDecideFirstPlayerReturnData { user_id: self.own_user_id, seed_b: self.own_seed })
    }

    /// Player A builds its reveal and keeps the first player it suggests.
    pub fn create_end_outbound_data(&mut self) -> (r: Result<EndDecideFirstPlayerOutboundData, String>)
        ensures
            (final(self)@, text_result(r)) == create_end_outbound(old(self)@, this_platform()),
    {
        proof {
            use_type_invariant(&*self);
        }
        if !self.is_player_a {
            return Err(String::from_str("cannot call method because it is not a player"));
        }
        let first_player_user_id = match self.decide_first_player() {
            Ok(f) => f,
            Err(e) => return Err(e),
        };
        self.suggested_first_player_id = Some(first_player_user_id);
        Ok(EndDecideFirstPlayerOutboundData { seed_a: self.own_seed, first_player_user_id })
    }

    /// Player B's verdict on the reveal. (The caller records it, together with
    /// the step it moves on to.)
    fn create_end_return_data(&self) -> (r: Result<EndDecideFirstPlayerReturnData, String>)
        requires
            !end_return_lacks_data(self@, this_platform()),
        ensures
            text_result(r) == create_end_return(self@, this_platform()).1,
            r is Ok ==> create_end_return(self@, this_platform()).0 == (SequenceView {
                accepted: r->Ok_0.accept,
                ..self@
            }),
            r is Err ==> create_end_return(self@, this_platform()).0 == self@,
    {
        if self.is_player_a {
            return Err(String::from_str("cannot call method because it is not b player"));
        }
        let hash = match self.get_player_a_hash() {
            Ok(h) => h,
            Err(e) => return Err(e),
        };
        let first_player_user_id = match self.decide_first_player() {
            Ok(f) => f,
            Err(e) => return Err(e),
        };
        let accept = hash == self.hash.unwrap()
            && self.suggested_first_player_id.unwrap() == first_player_user_id;
        Ok(EndDecideFirstPlayerReturnData { accept })
    }

    /// Whether asking this side for its next message would find no hash to
    /// compare the revealed seed with (player B at its last step, knowing the
    /// opponent, without the opening message).
    pub fn lacks_commitment(&self) -> (r: bool)
        ensures
            r == question_lacks_commitment(self@),
    {
        !self.is_player_a && self.position == 2 && self.opponent_user_id.is_some()
            && self.opponent_seed.is_some() && self.hash.is_none()
    }

    /// The message this side sends next, or `None` when it has none to send.
    pub fn get_question(&mut self) -> (r: Result<Option<DecideFirstPlayerMessage>, String>)
        requires
            !question_lacks_commitment(old(self)@),
        ensures
            (final(self)@, text_result(r)) == question(old(self)@, this_platform()),
    {
        proof {
            use_type_invariant(&*self);
        }
        if self.is_player_a {
            if self.position == 0 {
                match self.create_start_outbound_data() {
                    Ok(d) => Ok(Some(DecideFirstPlayerMessage::StartOutbound(d))),
                    Err(e) => Err(String::from_str("creating start outbound data failed: ").concat(e.as_str())),
                }
            } else if self.position == 1 {
                match self.create_end_outbound_data() {
                    Ok(d) => Ok(Some(DecideFirstPlayerMessage::EndOutbound(d))),
                    Err(e) => Err(String::from_str("creating end outbound data failed: ").concat(e.as_str())),
                }
            } else {
                Ok(None)
            }
        } else {
            if self.position == 1 {
                match self.create_start_return_data() {
                    Ok(d) => Ok(Some(DecideFirstPlayerMessage::StartReturn(d))),
                    Err(e) => Err(String::from_str("creating start return data failed: ").concat(e.as_str())),
                }
            } else if self.position == 2 {
                match self.create_end_return_data() {
                    Ok(d) => {
                        self.position = self.position + 1;
                        self.accepted = d.accept;
                        Ok(Some(DecideFirstPlayerMessage::EndReturn(d)))
                    },
                    Err(e) => Err(String::from_str("creating end return data failed: ").concat(e.as_str())),
                }
            } else {
                Ok(None)
            }
        }
    }

    /// The kind of message this side expects next.
    pub fn expected_answer_kind(&self) -> (r: Result<DecideFirstPlayerMessageKind, String>)
        ensures
            text_result(r) == expected_answer(self@),
    {
        if self.position == 0 {
            if self.is_player_a {
                Ok(DecideFirstPlayerMessageKind::StartReturn)
            } else {
                Ok(DecideFirstPlayerMessageKind::StartOutbound)
            }
        } else if self.position == 1 {
            if self.is_player_a {
                Ok(DecideFirstPlayerMessageKind::EndReturn)
            } else {
                Ok(DecideFirstPlayerMessageKind::EndOutbound)
            }
        } else {
            Err(String::from_str("sequence has invalid position: ").concat(usize_to_decimal(self.position).as_str()))
        }
    }

    /// This side takes in the opponent's message, which is of the kind it
    /// expects (when it expects one).
    pub fn set_answer(&mut self, message: DecideFirstPlayerMessage) -> (r: Result<(), String>)
        requires
            expected_answer(old(self)@) matches Ok(k) ==> message_kind(message) == k,
        ensures
            (final(self)@, text_result(r)) == answer(old(self)@, message),
    {
        proof {
            use_type_invariant(&*self);
        }
        match self.expected_answer_kind() {
            Err(e) => Err(e),
            Ok(_) => match message {
                DecideFirstPlayerMessage::StartReturn(d) => {
                    match self.receive_start_return_data(&d) {
                        Ok(()) => {
                            self.position = self.position + 1;
                            Ok(())
                        },
                        Err(e) => Err(e),
                    }
                },
                DecideFirstPlayerMessage::EndReturn(d) => {
                    if d.accept {
                        self.position = self.position + 2;
                        self.accepted = true;
                    }
                    Ok(())
                },
                DecideFirstPlayerMessage::StartOutbound(d) => {
                    match self.receive_start_outbound_data(&d) {
                        Ok(()) => {
                            self.position = self.position + 1;
                            Ok(())
                        },
                        Err(e) => Err(e),
                    }
                },
                DecideFirstPlayerMessage::EndOutbound(d) => {
                    match self.receive_end_outbound_data(&d) {
                        Ok(()) => {
                            self.position = self.position + 1;
                            Ok(())
                        },
                        Err(e) => Err(e),
                    }
                },
            },
        }
    }
}

} // verus!
