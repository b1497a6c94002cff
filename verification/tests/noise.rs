use planet_renderer::noise::{hash_seed, lattice_hash, star_hash};

fn scramble(n: i32) -> i32 {
    let n = (n << 13) ^ n;
    let nn = n.wrapping_mul(
        n.wrapping_mul(n.wrapping_mul(15731).wrapping_add(789221)).wrapping_add(1376312589),
    );
    nn & 0x7fffffff
}

fn lattice(x: i32, y: i32, z: i32) -> i32 {
    scramble(x.wrapping_add(y.wrapping_mul(57)).wrapping_add(z.wrapping_mul(113)))
}

fn star(x: i32, y: i32) -> i32 {
    scramble(x.wrapping_add(y.wrapping_mul(374761393)))
}

const EDGES: [i32; 13] =
    [0, 1, -1, 2, -2, 57, 113, 1000, -1000, i32::MAX, i32::MIN, i32::MAX - 1, i32::MIN + 1];

#[test]
fn lattice_hash_is_the_wrapping_word_hash() {
    for &x in EDGES.iter() {
        for &y in EDGES.iter() {
            for &z in EDGES.iter() {
                assert_eq!(lattice_hash(x, y, z) as i64, lattice(x, y, z) as i64, "{} {} {}", x, y, z);
            }
        }
    }
    for x in -20..20 {
        for y in -20..20 {
            for z in -5..5 {
                assert_eq!(lattice_hash(x, y, z) as i64, lattice(x, y, z) as i64);
            }
        }
    }
}

#[test]
fn star_hash_is_the_wrapping_word_hash() {
    for &x in EDGES.iter() {
        for &y in EDGES.iter() {
            assert_eq!(star_hash(x, y) as i64, star(x, y) as i64, "{} {}", x, y);
        }
    }
    for i in 0..2000i32 {
        let seed_x = i.wrapping_mul(73856093);
        let seed_y = i.wrapping_mul(19349663);
        assert_eq!(star_hash(seed_x, 0) as i64, star(seed_x, 0) as i64);
        assert_eq!(star_hash(seed_y, 1) as i64, star(seed_y, 1) as i64);
        assert_eq!(star_hash(seed_x, seed_y) as i64, star(seed_x, seed_y) as i64);
    }
}

#[test]
fn hash_seed_is_the_wrapping_word_hash() {
    let mut seed: u32 = 1;
    for _ in 0..5000 {
        seed = seed.wrapping_mul(1664525).wrapping_add(1013904223);
        assert_eq!(hash_seed(seed) as i64, scramble(seed as i32) as i64, "{}", seed);
    }
    assert_eq!(hash_seed(0) as i64, scramble(0) as i64);
    assert_eq!(hash_seed(u32::MAX) as i64, scramble(-1) as i64);
}

#[test]
fn exact_hash_values() {
    // seed 0: stirred 0, polynomial 0
    assert_eq!(hash_seed(0), 0);
    assert_eq!(lattice_hash(0, 0, 0), 0);
    assert_eq!(star_hash(0, 0), 0);
    // seed 1: stirred 8193; 8193 * (8193 * (8193 * 15731 + 789221) + 1376312589) mod 2^31
    let n: u128 = 8193;
    let expected = (n * (n * (n * 15731 + 789221) + 1376312589)) % (1u128 << 31);
    assert_eq!(hash_seed(1) as u128, expected);
    assert_eq!(lattice_hash(1, 0, 0) as u128, expected);
    assert_eq!(star_hash(1, 0) as u128, expected);
    // the seed of a lattice point is x + 57 y + 113 z
    assert_eq!(lattice_hash(0, 1, 0), hash_seed(57));
    assert_eq!(lattice_hash(0, 0, 1), hash_seed(113));
    assert_eq!(lattice_hash(2, 3, 4), hash_seed(2 + 171 + 452));
    assert_eq!(lattice_hash(-1, 0, 0), hash_seed(u32::MAX));
    assert_eq!(star_hash(5, 1), hash_seed(374761398));
}

#[test]
fn hashes_have_31_bits_and_repeat() {
    for x in -50..50 {
        for y in -3..3 {
            let h = lattice_hash(x, y, x ^ y);
            assert!(h < 0x8000_0000);
            assert_eq!(h, lattice_hash(x, y, x ^ y));
            let s = star_hash(x, y);
            assert!(s < 0x8000_0000);
            assert_eq!(s, star_hash(x, y));
        }
    }
}
