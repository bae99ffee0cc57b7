//! Identifier synthesizer: produces a fresh alias for the renamed storage.
//!
//! All generated storage ultimately lives in one flat link-time namespace, so
//! two expansions that used the original name directly could collide. The
//! synthesizer therefore combines wall-clock seconds and sub-second
//! nanoseconds since the epoch with a process-wide, strictly increasing call
//! counter into a fixed-width seed, and drives a small deterministic
//! pseudorandom generator from that seed to produce a sixteen-character
//! identifier whose first character is always alphabetic and whose remaining
//! characters are alphabetic or numeric. Two calls never share a counter
//! value, so their seeds always differ — and hence, with overwhelming
//! probability, their aliases do too.

use vstd::prelude::*;
use rand::Rng;
use rand::SeedableRng;

verus! {

/// The byte at position `i` of the synthesizer's seed: positions 0 to 7 hold
/// the seconds, 8 to 11 the nanoseconds, 12 to 15 the call count, each least
/// significant byte first.
pub open spec fn seed_byte(secs: u64, nanos: u32, count: u32, i: int) -> u8 {
    if 0 <= i < 8 {
        ((secs >> ((i * 8) as u64)) & 0xff) as u8
    } else if 8 <= i < 12 {
        ((nanos >> (((i - 8) * 8) as u32)) & 0xff) as u8
    } else {
        ((count >> (((i - 12) * 8) as u32)) & 0xff) as u8
    }
}

/// The sixteen-byte seed formed from the time components and the call count.
pub open spec fn spec_seed(secs: u64, nanos: u32, count: u32) -> Seq<u8> {
    Seq::new(16, |i: int| seed_byte(secs, nanos, count, i))
}

/// Builds the sixteen-byte seed: eight bytes of seconds, four of nanoseconds,
/// four of the call count, each least significant byte first.
pub fn mk_seed(secs: u64, nanos: u32, count: u32) -> (r: Vec<u8>)
    ensures
        r@ == spec_seed(secs, nanos, count),
{
    let mut seed: Vec<u8> = Vec::new();
    let mut i: usize = 0;
    while i < 8
        invariant
            i <= 8,
            seed@.len() == i,
            forall|j: int| 0 <= j < i ==> seed@[j] == seed_byte(secs, nanos, count, j),
        decreases 8 - i,
    {
        seed.push(((secs >> ((i as u64) * 8)) & 0xff) as u8);
        i += 1;
    }
    let mut k: usize = 0;
    while k < 4
        invariant
            k <= 4,
            seed@.len() == 8 + k,
            forall|j: int| 0 <= j < 8 + k ==> seed@[j] == seed_byte(secs, nanos, count, j),
        decreases 4 - k,
    {
        seed.push(((nanos >> ((k as u32) * 8)) & 0xff) as u8);
        k += 1;
    }
    let mut m: usize = 0;
    while m < 4
        invariant
            m <= 4,
            seed@.len() == 12 + m,
            forall|j: int| 0 <= j < 12 + m ==> seed@[j] == seed_byte(secs, nanos, count, j),
        decreases 4 - m,
    {
        seed.push(((count >> ((m as u32) * 8)) & 0xff) as u8);
        m += 1;
    }
    proof {
        assert(seed@ =~= spec_seed(secs, nanos, count));
    }
    seed
}

/// Seeds from different call counts differ, whatever the clock read: the
/// counter bytes of the seed pin the count down. The counter strictly
/// increases across the calls of one process, so no two calls ever share a
/// seed.
pub proof fn lemma_seed_distinct(s1: u64, n1: u32, c1: u32, s2: u64, n2: u32, c2: u32)
    requires
        c1 != c2,
    ensures
        spec_seed(s1, n1, c1) != spec_seed(s2, n2, c2),
{
    let a = spec_seed(s1, n1, c1);
    let b = spec_seed(s2, n2, c2);
    if a == b {
        assert(a[12] == b[12] && a[13] == b[13] && a[14] == b[14] && a[15] == b[15]);
        assert(((c1 >> 0u32) & 0xff) as u8 == ((c2 >> 0u32) & 0xff) as u8);
        assert(((c1 >> 8u32) & 0xff) as u8 == ((c2 >> 8u32) & 0xff) as u8);
        assert(((c1 >> 16u32) & 0xff) as u8 == ((c2 >> 16u32) & 0xff) as u8);
        assert(((c1 >> 24u32) & 0xff) as u8 == ((c2 >> 24u32) & 0xff) as u8);
        assert(c1 == c2) by (bit_vector)
            requires
                ((c1 >> 0u32) & 0xff) as u8 == ((c2 >> 0u32) & 0xff) as u8,
                ((c1 >> 8u32) & 0xff) as u8 == ((c2 >> 8u32) & 0xff) as u8,
                ((c1 >> 16u32) & 0xff) as u8 == ((c2 >> 16u32) & 0xff) as u8,
                ((c1 >> 24u32) & 0xff) as u8 == ((c2 >> 24u32) & 0xff) as u8,
        ;
        assert(false);
    }
}

#[verifier::external_type_specification]
#[verifier::external_body]
pub struct ExSmallRng(rand::rngs::SmallRng);

/// Relies on rand's `SmallRng::from_seed`: builds the generator from the
/// sixteen-byte seed. Nothing is assumed of the generator's state.
#[verifier::external_body]
fn small_rng_from_seed(seed: &Vec<u8>) -> rand::rngs::SmallRng
    requires
        seed@.len() == 16,
{
    let mut arr: [u8; 16] = [0; 16];
    arr.copy_from_slice(seed.as_slice());
    rand::rngs::SmallRng::from_seed(arr)
}

/// Relies on rand's `Rng::gen` for `u8`: draws one byte from the generator.
/// Nothing is assumed of the value drawn.
#[verifier::external_body]
fn gen_u8(rng: &mut rand::rngs::SmallRng) -> u8 {
    rng.gen()
}

/// Relies on rand's `Rng::gen` for `bool`: draws one coin flip from the
/// generator. Nothing is assumed of the value drawn.
#[verifier::external_body]
fn gen_bool(rng: &mut rand::rngs::SmallRng) -> bool {
    rng.gen()
}

/// Relies on `String::push`: appends one character to the string.
#[verifier::external_body]
fn push_char(s: &mut String, c: char)
    ensures
        final(s)@ == old(s)@.push(c),
{
    s.push(c)
}

/// A lower-case alphabetic alias character.
pub open spec fn is_alpha_char(c: char) -> bool {
    97 <= c as u32 <= 121
}

/// A numeric alias character.
pub open spec fn is_digit_char(c: char) -> bool {
    48 <= c as u32 <= 57
}

/// A character the synthesizer may produce: alphabetic or numeric.
pub open spec fn is_alias_char(c: char) -> bool {
    is_alpha_char(c) || is_digit_char(c)
}

/// A well-formed alias: sixteen characters, the first alphabetic, the rest
/// alphabetic or numeric — a valid identifier.
pub open spec fn alias_wf(s: Seq<char>) -> bool {
    &&& s.len() == 16
    &&& is_alpha_char(s[0])
    &&& forall|i: int| 0 <= i < s.len() ==> is_alias_char(#[trigger] s[i])
}

/// Synthesizes a fresh alias from the clock reading and the process-wide call
/// count: a sixteen-character identifier, the first character alphabetic, the
/// rest each independently alphabetic or numeric.
pub fn mk_ident(secs: u64, nanos: u32, count: u32) -> (r: String)
    ensures
        alias_wf(r@),
{
    let seed = mk_seed(secs, nanos, count);
    let mut rng = small_rng_from_seed(&seed);
    let mut out = String::new();
    let mut i: usize = 0;
    while i < 16
        invariant
            i <= 16,
            out@.len() == i,
            i > 0 ==> is_alpha_char(out@[0]),
            forall|j: int| 0 <= j < i ==> is_alias_char(#[trigger] out@[j]),
        decreases 16 - i,
    {
        let alpha = i == 0 || gen_bool(&mut rng);
        let c: char = if alpha {
            let g = gen_u8(&mut rng);
            (97 + (g % 25)) as char
        } else {
            let g = gen_u8(&mut rng);
            (48 + (g % 10)) as char
        };
        assert(is_alias_char(c));
        push_char(&mut out, c);
        i += 1;
    }
    out
}

} // verus!
