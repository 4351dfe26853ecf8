//! The calls this library makes into `rand` and into the standard library's
//! hashing, each with the contract that the rest of the crate relies on, and
//! the decimal text of step numbers.
//!
//! Neither outside result is portable: `SmallRng` is a different generator
//! on 64-bit and on other targets, and hashing a `u64` feeds the hasher the
//! value's native-endian bytes. So both names below take the target's
//! pointer width or byte order as an argument, and a `Platform` gathers the
//! two for the machine a party runs on.

use vstd::prelude::*;
use rand::rngs::SmallRng;
use rand::{Rng, SeedableRng};
use std::hash::DefaultHasher;
use std::hash::Hash;
use std::hash::Hasher;
use vstd::endian::{endianness, Endian};
use vstd::std_specs::hash::DefaultHasherAdditionalSpecFns;

verus! {

/// The coin, with even odds, that a `SmallRng` seeded with `seed` throws
/// first on a target whose pointers are `pointer_bits` wide.
pub uninterp spec fn seeded_coin(seed: u64, pointer_bits: u32) -> bool;

/// The writes held by a `DefaultHasher` whose writes were `written` after
/// `value` has been fed to it through `<u64 as Hash>::hash`, on a target of
/// the given byte order.
pub uninterp spec fn u64_hash_writes(written: Seq<Seq<u8>>, value: u64, little_endian: bool) -> Seq<Seq<u8>>;

/// What the outside calls depend on of the machine a party runs on.
pub struct Platform {
    pub pointer_bits: u32,
    pub little_endian: bool,
}

/// The machine this code runs on.
pub open spec fn this_platform() -> Platform {
    Platform { pointer_bits: usize::BITS, little_endian: endianness() == Endian::Little }
}

/// Calls `rand::rngs::SmallRng::seed_from_u64(seed)` and then
/// `Rng::random_ratio(1, 2)` on the generator, a coin with even odds
/// (`Bernoulli::from_ratio(1, 2)` and `Bernoulli::new(0.5)` build the same
/// threshold, 2^63, and sample it alike, so this is the coin that
/// `random_bool(0.5)` throws). The contract claims that the coin is a
/// function of the seed and of the target's pointer width: `SmallRng` is a
/// deterministic generator whose algorithm rand picks by pointer width, and
/// `random_ratio(1, 2)` never panics. It does not claim that the coin is the
/// same across rand versions, which rand does not promise either.
#[verifier::external_body]
pub(crate) fn coin_from_seed(seed: u64) -> (coin: bool)
    ensures
        coin == seeded_coin(seed, usize::BITS),
{
    SmallRng::seed_from_u64(seed).random_ratio(1, 2)
}

/// Calls `<u64 as Hash>::hash(&value, hasher)`. The contract claims that the
/// hasher's writes afterwards are a function of its writes before, of
/// `value` and of the target's byte order: hashing a `u64` feeds the hasher
/// the value's bytes in native order.
#[verifier::external_body]
pub(crate) fn hash_u64_into(value: u64, hasher: &mut DefaultHasher)
    ensures
        final(hasher)@ == u64_hash_writes(old(hasher)@, value, endianness() == Endian::Little),
{
    value.hash(hasher);
}

/// The coin a party on platform `p` throws from `seed`.
pub open spec fn platform_coin(seed: u64, p: Platform) -> bool {
    seeded_coin(seed, p.pointer_bits)
}

/// The hash that a fresh `DefaultHasher` gives for `seed` on platform `p`:
/// the commitment that player A sends before revealing its seed.
pub open spec fn seed_hash(seed: u64, p: Platform) -> u64 {
    DefaultHasher::spec_finish(u64_hash_writes(Seq::empty(), seed, p.little_endian))
}

/// Hashes `seed` with a fresh `DefaultHasher`, as the commitment to it.
pub fn hash_seed(seed: u64) -> (h: u64)
    ensures
        h == seed_hash(seed, this_platform()),
        h == DefaultHasher::spec_finish(u64_hash_writes(Seq::empty(), seed, endianness() == Endian::Little)),
{
    let mut hasher = DefaultHasher::new();
    hash_u64_into(seed, &mut hasher);
    hasher.finish()
}

/// The decimal digit `d` as a character.
pub open spec fn digit_char(d: nat) -> char {
    (48 + d) as char
}

/// The decimal text of `n`, without sign or leading zeros.
pub open spec fn decimal_text(n: nat) -> Seq<char>
    decreases n,
{
    if n < 10 {
        seq![digit_char(n)]
    } else {
        decimal_text(n / 10).push(digit_char(n % 10))
    }
}

/// The number that decimal text `t` spells, most significant digit first.
pub open spec fn decimal_value(t: Seq<char>) -> nat
    decreases t.len(),
{
    if t.len() == 0 {
        0
    } else {
        decimal_value(t.drop_last()) * 10 + ((t.last() as int - 48) as nat)
    }
}

/// The decimal text of `n` is made of the digits `0` to `9`, starts with a
/// nonzero digit unless `n` is zero, and spells `n`.
pub proof fn decimal_text_spells_the_number(n: nat)
    ensures
        decimal_text(n).len() >= 1,
        forall|i: int| 0 <= i < decimal_text(n).len() ==> '0' <= #[trigger] decimal_text(n)[i] <= '9',
        n > 0 ==> decimal_text(n)[0] != '0',
        decimal_value(decimal_text(n)) == n,
    decreases n,
{
    if n >= 10 {
        decimal_text_spells_the_number(n / 10);
        let t = decimal_text(n);
        assert(t.drop_last() == decimal_text(n / 10));
        assert(t.last() == digit_char(n % 10));
        assert((digit_char(n % 10) as int) == 48 + n % 10);
        assert(decimal_value(t) == decimal_value(t.drop_last()) * 10 + ((t.last() as int - 48) as nat));
        assert((n / 10) * 10 + n % 10 == n);
    } else {
        let t = decimal_text(n);
        assert((digit_char(n) as int) == 48 + n);
        assert(t.drop_last() =~= Seq::<char>::empty());
        assert(decimal_value(t.drop_last()) == 0);
    }
}

/// The decimal digit `d` as text.
fn digit_str(d: usize) -> (text: &'static str)
    requires
        d < 10,
    ensures
        text@ == seq![digit_char(d as nat)],
{
    proof {
        reveal_strlit("0");
        reveal_strlit("1");
        reveal_strlit("2");
        reveal_strlit("3");
        reveal_strlit("4");
        reveal_strlit("5");
        reveal_strlit("6");
        reveal_strlit("7");
        reveal_strlit("8");
        reveal_strlit("9");
    }
    if d == 0 {
        "0"
    } else if d == 1 {
        "1"
    } else if d == 2 {
        "2"
    } else if d == 3 {
        "3"
    } else if d == 4 {
        "4"
    } else if d == 5 {
        "5"
    } else if d == 6 {
        "6"
    } else if d == 7 {
        "7"
    } else if d == 8 {
        "8"
    } else {
        "9"
    }
}

/// The decimal text of `n`.
pub fn usize_to_decimal(n: usize) -> (text: String)
    ensures
        text@ == decimal_text(n as nat),
    decreases n,
{
    if n < 10 {
        String::from_str(digit_str(n))
    } else {
        usize_to_decimal(n / 10).concat(digit_str(n % 10))
    }
}

} // verus!
