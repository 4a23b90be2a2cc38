//! Mapping revealed random bytes to a draw in `0..=100`.
use vstd::prelude::*;

verus! {

/// Bytes read as an unsigned little-endian integer.
pub open spec fn le_value(s: Seq<u8>) -> nat
    decreases s.len(),
{
    if s.len() == 0 {
        0
    } else {
        (s[0] + 256 * le_value(s.subrange(1, s.len() as int))) as nat
    }
}

pub open spec fn pow256(n: nat) -> nat
    decreases n,
{
    if n == 0 { 1 } else { 256 * pow256((n - 1) as nat) }
}

/// At most the first four bytes.
pub open spec fn draw_prefix(bytes: Seq<u8>) -> Seq<u8> {
    bytes.subrange(0, if bytes.len() < 4 { bytes.len() as int } else { 4 })
}

/// The draw: the first (up to) four bytes as a little-endian integer,
/// reduced modulo 101.
pub open spec fn draw_of(bytes: Seq<u8>) -> u8 {
    (le_value(draw_prefix(bytes)) % 101) as u8
}

pub proof fn lemma_le_value_bound(s: Seq<u8>)
    ensures
        le_value(s) < pow256(s.len()),
    decreases s.len(),
{
    if s.len() > 0 {
        let rest = s.subrange(1, s.len() as int);
        lemma_le_value_bound(rest);
        let v = le_value(rest);
        let p = pow256(rest.len());
        assert(s[0] + 256 * v < 256 * p) by (nonlinear_arith)
            requires v < p, s[0] < 256;
    }
}

/// Derives the draw from revealed random bytes.
pub fn generate_dice_roll(random_bytes: &[u8]) -> (r: u8)
    ensures
        r == draw_of(random_bytes@),
        r <= 100,
{
    let k: usize = if random_bytes.len() < 4 { random_bytes.len() } else { 4 };
    let mut i: usize = k;
    let mut result: u32 = 0;
    proof {
        assert(random_bytes@.subrange(k as int, k as int) =~= Seq::<u8>::empty());
        reveal_with_fuel(pow256, 5);
    }
    while i > 0
        invariant
            k <= 4,
            k <= random_bytes@.len(),
            i <= k,
            result as nat == le_value(random_bytes@.subrange(i as int, k as int)),
            pow256(0) == 1,
            pow256(1) == 256,
            pow256(2) == 65536,
            pow256(3) == 16777216,
        decreases i,
    {
        let ghost old_sub = random_bytes@.subrange(i as int, k as int);
        proof {
            lemma_le_value_bound(old_sub);
            assert(result < 16777216);
        }
        i = i - 1;
        let ghost sub = random_bytes@.subrange(i as int, k as int);
        proof {
            assert(sub.subrange(1, sub.len() as int) =~= old_sub);
        }
        result = result * 256 + random_bytes[i] as u32;
    }
    proof {
        assert(random_bytes@.subrange(0, k as int) =~= draw_prefix(random_bytes@));
    }
    (result % 101) as u8
}

/// The draw depends on the first four bytes alone, read little-endian.
pub proof fn lemma_draw_of_four_bytes(bytes: Seq<u8>)
    requires
        bytes.len() >= 4,
    ensures
        draw_of(bytes) as int == (bytes[0] + 256 * bytes[1] + 65536 * bytes[2] + 16777216 * bytes[3]) % 101,
{
    let p = draw_prefix(bytes);
    let s1 = p.subrange(1, 4);
    let s2 = s1.subrange(1, 3);
    let s3 = s2.subrange(1, 2);
    let s4 = s3.subrange(1, 1);
    assert(s4.len() == 0);
    assert(le_value(s3) == bytes[3] + 256 * le_value(s4));
    assert(le_value(s2) == bytes[2] + 256 * le_value(s3));
    assert(le_value(s1) == bytes[1] + 256 * le_value(s2));
    assert(le_value(p) == bytes[0] + 256 * le_value(s1));
}

} // verus!
