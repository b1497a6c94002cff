//! The integer hashes behind the procedural noise: a lattice point or a
//! pair of seeds goes in, 31 pseudo-random bits come out. The hashes are
//! pure functions of their arguments, so a texture is the same in every
//! frame.
//!
//! All arithmetic is that of 32-bit words: sums and products are taken
//! modulo 2^32, which is what wrapping arithmetic on `i32` computes.

use vstd::prelude::*;
use vstd::arithmetic::div_mod::{
    lemma_add_mod_noop, lemma_fundamental_div_mod, lemma_mod_multiples_vanish,
    lemma_mul_mod_noop_right,
};

verus! {

/// The number of 32-bit words.
pub const WORD: u64 = 0x1_0000_0000;

/// The first step of the hash: the word `seed`, and the same word shifted
/// left by 13 bits within 32, combined bit by bit with exclusive or.
pub open spec fn stirred(seed: u32) -> u32 {
    (((seed * 0x2000) % 0x1_0000_0000) as u32) ^ seed
}

/// The second step of the hash: the low 31 bits of a cubic polynomial of
/// the stirred word.
pub open spec fn scrambled(n: u32) -> u32 {
    ((n * (n * (n * 15731 + 789221) + 1376312589)) % 0x8000_0000) as u32
}

/// The hash of a seed word.
pub open spec fn hash_of_seed(seed: u32) -> u32 {
    scrambled(stirred(seed))
}

/// The hash of the lattice point `(x, y, z)`: that of the seed
/// `x + 57 y + 113 z`, taken modulo 2^32.
pub open spec fn lattice_hash_of(x: i32, y: i32, z: i32) -> u32 {
    hash_of_seed(((x + 57 * y + 113 * z) % 0x1_0000_0000) as u32)
}

/// The hash of the pair `(x, y)`: that of the seed `x + 374761393 y`, taken
/// modulo 2^32.
pub open spec fn star_hash_of(x: i32, y: i32) -> u32 {
    hash_of_seed(((x + 374761393 * y) % 0x1_0000_0000) as u32)
}

/// A product of which one factor is reduced modulo `m` first is the same
/// modulo `m`, and so is a sum.
proof fn lemma_scramble_steps(n: int, t1: int, t2: int, t3: int)
    requires
        t1 == (n * 15731 + 789221) % 0x1_0000_0000,
        t2 == (n * t1 + 1376312589) % 0x1_0000_0000,
        t3 == (n * t2) % 0x1_0000_0000,
    ensures
        t3 % 0x8000_0000 == (n * (n * (n * 15731 + 789221) + 1376312589)) % 0x8000_0000,
{
    let w = 0x1_0000_0000int;
    let a = n * 15731 + 789221;
    let b = n * a + 1376312589;
    // t2 is b modulo w
    lemma_mul_mod_noop_right(n, a, w);
    lemma_add_mod_noop(n * t1, 1376312589, w);
    lemma_add_mod_noop(n * a, 1376312589, w);
    assert(t2 == b % w);
    // t3 is n * b modulo w
    lemma_mul_mod_noop_right(n, b, w);
    assert(t3 == (n * b) % w);
    // and modulo half of w nothing changes
    let v = n * b;
    assert((v % w) % 0x8000_0000 == v % 0x8000_0000) by {
        let q = v / w;
        assert(v == w * q + v % w) by {
            lemma_fundamental_div_mod(v, w);
        }
        assert(v == 0x8000_0000 * (2 * q) + v % w);
        lemma_mod_multiples_vanish(2 * q, v % w, 0x8000_0000);
    }
}

/// The hash of a seed word: `hash_of_seed`.
pub fn hash_seed(seed: u32) -> (h: u32)
    ensures
        h == hash_of_seed(seed),
        h < 0x8000_0000,
{
    let s: u64 = seed as u64;
    let shifted: u64 = (s * 0x2000) % WORD;
    let n: u64 = shifted ^ s;
    assert(n < 0x1_0000_0000 && n == ((shifted as u32) ^ seed) as u64) by (bit_vector)
        requires
            n == shifted ^ s,
            s == seed as u64,
            shifted < 0x1_0000_0000u64,
    ;
    let t1: u64 = (n * 15731 + 789221) % WORD;
    assert(n * t1 <= 0xffff_ffff * 0xffff_ffff) by (nonlinear_arith)
        requires
            0 <= n <= 0xffff_ffff,
            0 <= t1 <= 0xffff_ffff,
    ;
    let t2: u64 = (n * t1 + 1376312589) % WORD;
    assert(n * t2 <= 0xffff_ffff * 0xffff_ffff) by (nonlinear_arith)
        requires
            0 <= n <= 0xffff_ffff,
            0 <= t2 <= 0xffff_ffff,
    ;
    let t3: u64 = (n * t2) % WORD;
    proof {
        lemma_scramble_steps(n as int, t1 as int, t2 as int, t3 as int);
    }
    (t3 % 0x8000_0000) as u32
}

/// The hash of the lattice point `(x, y, z)`: `lattice_hash_of`.
pub fn lattice_hash(x: i32, y: i32, z: i32) -> (h: u32)
    ensures
        h == lattice_hash_of(x, y, z),
        h < 0x8000_0000,
{
    let sum: i64 = x as i64 + 57 * (y as i64) + 113 * (z as i64);
    let lifted: u64 = (sum + 171 * 0x1_0000_0000) as u64;
    proof {
        lemma_mod_multiples_vanish(171, sum as int, 0x1_0000_0000);
    }
    hash_seed((lifted % WORD) as u32)
}

/// The hash of the pair `(x, y)`: `star_hash_of`.
pub fn star_hash(x: i32, y: i32) -> (h: u32)
    ensures
        h == star_hash_of(x, y),
        h < 0x8000_0000,
{
    let sum: i64 = x as i64 + 374761393 * (y as i64);
    assert(-0x8000_0000 * 374761394 <= sum <= 0x8000_0000 * 374761394);
    let lifted: u64 = (sum + 374761394 * 0x1_0000_0000) as u64;
    proof {
        lemma_mod_multiples_vanish(374761394, sum as int, 0x1_0000_0000);
    }
    hash_seed((lifted % WORD) as u32)
}

} // verus!
