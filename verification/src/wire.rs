use vstd::prelude::*;

verus! {

/// 256 to the power `k`.
pub open spec fn pow256(k: nat) -> nat
    decreases k,
{
    if k == 0 {
        1
    } else {
        pow256((k - 1) as nat) * 256
    }
}

/// The `k` lowest base-256 digits of `n`, most significant first (big-endian).
pub open spec fn be_bytes(n: nat, k: nat) -> Seq<u8>
    decreases k,
{
    if k == 0 {
        Seq::empty()
    } else {
        be_bytes(n / 256, (k - 1) as nat).push((n % 256) as u8)
    }
}

/// The number whose big-endian base-256 digits are `s`.
pub open spec fn be_value(s: Seq<u8>) -> nat
    decreases s.len(),
{
    if s.len() == 0 {
        0
    } else {
        be_value(s.drop_last()) * 256 + (s.last() as nat)
    }
}

/// Two big-endian bytes at positions `p` and `p + 1` of `s`, read as one number.
pub open spec fn u16_at(s: Seq<u8>, p: int) -> nat {
    (s[p] as nat) * 256 + (s[p + 1] as nat)
}

/// The eight bytes that `byteorder` writes for an `i64` in big-endian order
/// (two's complement).
pub open spec fn i64_bytes(n: i64) -> Seq<u8> {
    be_bytes(((n as int) % 0x1_0000_0000_0000_0000int) as nat, 8)
}

/// The `i64` whose big-endian two's complement bytes are `s` (eight of them).
pub open spec fn i64_of_bytes(s: Seq<u8>) -> i64 {
    let u = be_value(s);
    if u < 0x8000_0000_0000_0000 {
        u as i64
    } else {
        (u - 0x1_0000_0000_0000_0000int) as i64
    }
}

/// Values of `pow256` that the codec uses.
pub proof fn lemma_pow256_facts(k: nat)
    ensures
        pow256(k) >= 1,
        pow256(2) == 0x1_0000,
        pow256(4) == 0x1_0000_0000,
        pow256(6) == 0x1_0000_0000_0000,
        pow256(8) == 0x1_0000_0000_0000_0000,
    decreases k,
{
    reveal_with_fuel(pow256, 9);
    if k > 0 {
        lemma_pow256_facts((k - 1) as nat);
    }
}

/// `be_bytes(n, k)` has `k` bytes.
pub proof fn lemma_be_bytes_len(n: nat, k: nat)
    ensures
        be_bytes(n, k).len() == k,
    decreases k,
{
    if k > 0 {
        lemma_be_bytes_len(n / 256, (k - 1) as nat);
    }
}

/// `k` bytes hold a number below `pow256(k)`.
pub proof fn lemma_be_value_bound(s: Seq<u8>)
    ensures
        be_value(s) < pow256(s.len()),
    decreases s.len(),
{
    if s.len() > 0 {
        lemma_be_value_bound(s.drop_last());
    }
}

/// Reading back `k` big-endian digits gives the number, when it has no more digits.
pub proof fn lemma_be_roundtrip(n: nat, k: nat)
    requires
        n < pow256(k),
    ensures
        be_value(be_bytes(n, k)) == n,
        be_bytes(n, k).len() == k,
    decreases k,
{
    lemma_be_bytes_len(n, k);
    if k > 0 {
        assert(n / 256 < pow256((k - 1) as nat));
        lemma_be_roundtrip(n / 256, (k - 1) as nat);
        let s = be_bytes(n, k);
        assert(s.drop_last() =~= be_bytes(n / 256, (k - 1) as nat));
    }
}

/// Writing the number of a digit sequence gives the digits back.
pub proof fn lemma_be_value_bytes(s: Seq<u8>)
    ensures
        be_bytes(be_value(s), s.len()) == s,
    decreases s.len(),
{
    if s.len() > 0 {
        let v = be_value(s);
        lemma_be_value_bytes(s.drop_last());
        assert(v / 256 == be_value(s.drop_last()));
        assert(v % 256 == s.last());
        assert(be_bytes(v, s.len()) =~= s);
    }
}

/// A number read back from its eight bytes is the number.
pub proof fn lemma_i64_roundtrip(n: i64)
    ensures
        i64_bytes(n).len() == 8,
        i64_of_bytes(i64_bytes(n)) == n,
{
    lemma_pow256_facts(8);
    let m = ((n as int) % 0x1_0000_0000_0000_0000int) as nat;
    lemma_be_roundtrip(m, 8);
}

/// Appends the `k` lowest big-endian digits of `x`.
pub fn push_be(out: &mut Vec<u8>, x: u64, k: usize)
    requires
        k <= 8,
    ensures
        final(out)@ == old(out)@ + be_bytes(x as nat, k as nat),
    decreases k,
{
    if k > 0 {
        push_be(out, x / 256, k - 1);
        out.push((x % 256) as u8);
        proof {
            let old_s = old(out)@;
            assert(old_s + be_bytes(x as nat, k as nat) =~= (old_s + be_bytes(
                (x / 256) as nat,
                (k - 1) as nat,
            )).push((x % 256) as u8));
        }
    } else {
        proof {
            assert(old(out)@ + be_bytes(x as nat, 0) =~= old(out)@);
        }
    }
}

/// The number whose big-endian digits are `s[start..start + k]`.
pub fn read_be(s: &[u8], start: usize, k: usize) -> (r: u64)
    requires
        k <= 8,
        start + k <= s@.len(),
    ensures
        r as nat == be_value(s@.subrange(start as int, start + k)),
{
    let len = s.len();
    let mut acc: u64 = 0;
    let mut i: usize = 0;
    while i < k
        invariant
            i <= k <= 8,
            len == s@.len(),
            start + k <= s@.len(),
            acc as nat == be_value(s@.subrange(start as int, start + i)),
        decreases k - i,
    {
        proof {
            lemma_be_value_bound(s@.subrange(start as int, start + i));
            lemma_pow256_facts(i as nat);
            lemma_pow256_monotone(i as nat, 7);
            assert(s@.subrange(start as int, start + i + 1).drop_last() =~= s@.subrange(
                start as int,
                start + i,
            ));
        }
        acc = acc * 256 + s[start + i] as u64;
        i += 1;
    }
    acc
}

/// `pow256` grows with its argument.
pub proof fn lemma_pow256_monotone(i: nat, j: nat)
    requires
        i <= j,
    ensures
        pow256(i) <= pow256(j),
    decreases j,
{
    if i < j {
        lemma_pow256_monotone(i, (j - 1) as nat);
        lemma_pow256_facts((j - 1) as nat);
    }
}

/// Appends the eight big-endian two's complement bytes of `n`.
pub fn push_i64(out: &mut Vec<u8>, n: i64)
    ensures
        final(out)@ == old(out)@ + i64_bytes(n),
{
    let u: u64 = if n >= 0 {
        n as u64
    } else {
        ((n + 0x7fff_ffff_ffff_ffff + 1) as u64) + 0x8000_0000_0000_0000
    };
    assert(u as int == (n as int) % 0x1_0000_0000_0000_0000int);
    push_be(out, u, 8);
}

/// The `i64` whose big-endian two's complement bytes are `s[start..start + 8]`.
pub fn read_i64(s: &[u8], start: usize) -> (r: i64)
    requires
        start + 8 <= s@.len(),
    ensures
        r == i64_of_bytes(s@.subrange(start as int, start + 8)),
{
    let u = read_be(s, start, 8);
    if u < 0x8000_0000_0000_0000 {
        u as i64
    } else {
        ((u - 0x8000_0000_0000_0000) as i64) - 0x7fff_ffff_ffff_ffff - 1
    }
}

} // verus!
