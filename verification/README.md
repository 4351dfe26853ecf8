# board_game_if

A verified library for two players of a board game who meet through a
matching server and then decide, without trusting each other, who moves
first.

- `src/first_player.rs`: the commit–reveal exchange. Player A sends the hash
  of its seed, player B answers with its seed, A reveals its seed and the
  first player derived from both seeds, and B accepts only when the seed
  matches the hash and the first player matches its own derivation. Each
  operation is specified as a function of the state (`question`, `answer`,
  ...), and the executable sequence is proved to follow it.
- `src/first_player_laws.rs`: proofs about whole exchanges (an honest
  exchange completes with both sides agreeing, when the two parties' machines
  throw the same coins and compute the same hash; B accepts exactly the
  faithful reveals; completion is permanent; the step counter never goes
  back).
- `src/matching.rs`: the matching server's messages and the decisions taken
  on its replies.
- `src/external.rs`: the calls into `rand` and into std's hashing and
  formatting, with the contracts the rest relies on.
- `app/`: JSON, HTTP and the asynchronous flows, around the library.

The coin and the hash are not portable. rand's `SmallRng` is a different
generator on 64-bit and on 32-bit targets, hashing a `u64` feeds the hasher
its native-endian bytes, and `DefaultHasher`'s algorithm is not stable across
Rust releases. Two players decide the first player consistently only when
their builds agree on all three: the same pointer width, byte order and
standard library. The contracts name the pointer width and byte order as
arguments (`Platform`); the standard library's hasher is taken as vstd
specifies it.

The original also had a `WebRtcWrapper` that builds peer connections with the
`webrtc` crate. The peer-connection wrapper type it returns is not part of
the sources, and the wrapper is I/O only, so it is not part of this crate,
and `webrtc` is not a dependency.
