//! Fixed-width little-endian byte encodings and decimal text for integers.
//!
//! The canonical request encoding frames its fields with these, and the
//! transport carries timestamps as decimal text.
use vstd::prelude::*;

verus! {

/// Little-endian byte expansion of a value: `count` bytes, least significant
/// byte first.
pub open spec fn le_bytes(value: nat, count: nat) -> Seq<u8>
    decreases count,
{
    if count == 0 {
        Seq::empty()
    } else {
        seq![(value % 256) as u8] + le_bytes(value / 256, (count - 1) as nat)
    }
}

pub open spec fn pow256(count: nat) -> nat
    decreases count,
{
    if count == 0 {
        1
    } else {
        256 * pow256((count - 1) as nat)
    }
}

/// The eight little-endian bytes of a 64-bit value.
pub open spec fn u64_le_bytes(value: u64) -> Seq<u8> {
    le_bytes(value as nat, 8)
}

/// The four little-endian bytes of a 32-bit value.
pub open spec fn u32_le_bytes(value: u32) -> Seq<u8> {
    le_bytes(value as nat, 4)
}

pub proof fn lemma_le_bytes_len(value: nat, count: nat)
    ensures
        le_bytes(value, count).len() == count,
    decreases count,
{
    if count > 0 {
        lemma_le_bytes_len(value / 256, (count - 1) as nat);
    }
}

/// Two values below `256^count` with the same `count`-byte expansion are equal.
pub proof fn lemma_le_bytes_injective(x: nat, y: nat, count: nat)
    requires
        x < pow256(count),
        y < pow256(count),
        le_bytes(x, count) == le_bytes(y, count),
    ensures
        x == y,
    decreases count,
{
    if count > 0 {
        lemma_le_bytes_len(x / 256, (count - 1) as nat);
        lemma_le_bytes_len(y / 256, (count - 1) as nat);
        let tx = le_bytes(x, count);
        let ty = le_bytes(y, count);
        assert(tx[0] == (x % 256) as u8);
        assert(ty[0] == (y % 256) as u8);
        assert(x % 256 == y % 256);
        assert(le_bytes(x / 256, (count - 1) as nat) =~= le_bytes(y / 256, (count - 1) as nat)) by {
            assert(forall|i: int|
                0 <= i < count - 1 ==> #[trigger] le_bytes(x / 256, (count - 1) as nat)[i] == tx[i
                    + 1] && le_bytes(y / 256, (count - 1) as nat)[i] == ty[i + 1]);
        }
        assert(x / 256 < pow256((count - 1) as nat)) by {
            assert(x < 256 * pow256((count - 1) as nat));
        }
        assert(y / 256 < pow256((count - 1) as nat)) by {
            assert(y < 256 * pow256((count - 1) as nat));
        }
        lemma_le_bytes_injective(x / 256, y / 256, (count - 1) as nat);
        assert(x == 256 * (x / 256) + x % 256) by {
            vstd::arithmetic::div_mod::lemma_fundamental_div_mod(x as int, 256);
        }
        assert(y == 256 * (y / 256) + y % 256) by {
            vstd::arithmetic::div_mod::lemma_fundamental_div_mod(y as int, 256);
        }
    }
}

pub proof fn lemma_u64_le_bytes_injective(x: u64, y: u64)
    requires
        u64_le_bytes(x) == u64_le_bytes(y),
    ensures
        x == y,
{
    assert(pow256(8) == 0x1_0000_0000_0000_0000) by {
        assert(pow256(0) == 1);
        assert(pow256(1) == 256);
        assert(pow256(2) == 0x1_0000);
        assert(pow256(3) == 0x100_0000);
        assert(pow256(4) == 0x1_0000_0000);
        assert(pow256(5) == 0x100_0000_0000);
        assert(pow256(6) == 0x1_0000_0000_0000);
        assert(pow256(7) == 0x100_0000_0000_0000);
    }
    lemma_le_bytes_injective(x as nat, y as nat, 8);
}

pub proof fn lemma_u32_le_bytes_injective(x: u32, y: u32)
    requires
        u32_le_bytes(x) == u32_le_bytes(y),
    ensures
        x == y,
{
    assert(pow256(4) == 0x1_0000_0000) by {
        assert(pow256(0) == 1);
        assert(pow256(1) == 256);
        assert(pow256(2) == 0x1_0000);
        assert(pow256(3) == 0x100_0000);
    }
    lemma_le_bytes_injective(x as nat, y as nat, 4);
}

/// Emits the four little-endian bytes of `value`.
pub fn u32_to_le_bytes(value: u32) -> (v: Vec<u8>)
    ensures
        v@ == u32_le_bytes(value),
{
    let mut v: Vec<u8> = Vec::new();
    let mut rest: u32 = value;
    let mut i: usize = 0;
    while i < 4
        invariant
            i <= 4,
            v@.len() == i,
            v@ + le_bytes(rest as nat, (4 - i) as nat) == le_bytes(value as nat, 4),
        decreases 4 - i,
    {
        let ghost prev = v@;
        let ghost prev_rest = rest as nat;
        let ghost prev_i = i as nat;
        v.push((rest % 256) as u8);
        rest = rest / 256;
        i = i + 1;
        proof {
            assert(le_bytes(prev_rest, (4 - prev_i) as nat) == seq![(prev_rest % 256) as u8]
                + le_bytes(prev_rest / 256, (4 - prev_i - 1) as nat));
            assert(v@ + le_bytes(rest as nat, (4 - i) as nat) =~= prev + le_bytes(
                prev_rest,
                (4 - prev_i) as nat,
            ));
        }
    }
    proof {
        assert(v@ + le_bytes(rest as nat, 0) =~= v@);
    }
    v
}

/// Emits the eight little-endian bytes of `value`.
pub fn u64_to_le_bytes(value: u64) -> (v: Vec<u8>)
    ensures
        v@ == u64_le_bytes(value),
{
    let mut v: Vec<u8> = Vec::new();
    let mut rest: u64 = value;
    let mut i: usize = 0;
    while i < 8
        invariant
            i <= 8,
            v@.len() == i,
            v@ + le_bytes(rest as nat, (8 - i) as nat) == le_bytes(value as nat, 8),
        decreases 8 - i,
    {
        let ghost prev = v@;
        let ghost prev_rest = rest as nat;
        let ghost prev_i = i as nat;
        v.push((rest % 256) as u8);
        rest = rest / 256;
        i = i + 1;
        proof {
            assert(le_bytes(prev_rest, (8 - prev_i) as nat) == seq![(prev_rest % 256) as u8]
                + le_bytes(prev_rest / 256, (8 - prev_i - 1) as nat));
            assert(v@ + le_bytes(rest as nat, (8 - i) as nat) =~= prev + le_bytes(
                prev_rest,
                (8 - prev_i) as nat,
            ));
        }
    }
    proof {
        assert(v@ + le_bytes(rest as nat, 0) =~= v@);
    }
    v
}

/// An ASCII decimal digit.
pub open spec fn is_digit(b: u8) -> bool {
    48 <= b && b <= 57
}

pub open spec fn all_digits(s: Seq<u8>) -> bool {
    forall|i: int| 0 <= i < s.len() ==> is_digit(#[trigger] s[i])
}

/// The numeric value of a digit string, most significant digit first.
pub open spec fn dec_val(s: Seq<u8>) -> int
    decreases s.len(),
{
    if s.len() == 0 {
        0
    } else {
        10 * dec_val(s.drop_last()) + (s.last() - 48)
    }
}

pub proof fn lemma_dec_val_nonneg(s: Seq<u8>)
    requires
        all_digits(s),
    ensures
        dec_val(s) >= 0,
    decreases s.len(),
{
    if s.len() > 0 {
        assert(all_digits(s.drop_last()));
        lemma_dec_val_nonneg(s.drop_last());
    }
}

/// A digit string is worth at least any of its prefixes.
pub proof fn lemma_dec_val_prefix(s: Seq<u8>, i: int)
    requires
        all_digits(s),
        0 <= i <= s.len(),
    ensures
        dec_val(s.take(i)) <= dec_val(s),
    decreases s.len() - i,
{
    if i < s.len() {
        let t = s.take(i + 1);
        assert(t.drop_last() =~= s.take(i));
        assert(all_digits(s.take(i)));
        lemma_dec_val_nonneg(s.take(i));
        assert(dec_val(s.take(i)) <= dec_val(t));
        lemma_dec_val_prefix(s, i + 1);
    } else {
        assert(s.take(i) =~= s);
    }
}

/// Reads a decimal digit string as a 64-bit value; rejects empty text,
/// non-digits, and values past `u64::MAX`.
pub fn parse_u64_decimal(s: &[u8]) -> (r: Option<u64>)
    ensures
        match r {
            Some(v) => s@.len() > 0 && all_digits(s@) && dec_val(s@) == v as int,
            None => !(s@.len() > 0 && all_digits(s@) && dec_val(s@) <= u64::MAX as int),
        },
{
    if s.len() == 0 {
        return None;
    }
    let mut acc: u64 = 0;
    let mut i: usize = 0;
    while i < s.len()
        invariant
            i <= s@.len(),
            s@.len() > 0,
            all_digits(s@.take(i as int)),
            dec_val(s@.take(i as int)) == acc as int,
        decreases s@.len() - i,
    {
        let b = s[i];
        if b < 48 || b > 57 {
            assert(!is_digit(s@[i as int]));
            return None;
        }
        let d: u64 = (b - 48) as u64;
        proof {
            assert(s@.take(i + 1).drop_last() =~= s@.take(i as int));
            assert(s@.take(i + 1).last() == s@[i as int]);
            assert(dec_val(s@.take(i + 1)) == 10 * (acc as int) + d);
        }
        if acc > (u64::MAX - d) / 10 {
            proof {
                vstd::arithmetic::div_mod::lemma_fundamental_div_mod(
                    u64::MAX - d,
                    10,
                );
                assert(10 * (acc as int) + d > u64::MAX as int);
                if all_digits(s@) {
                    lemma_dec_val_prefix(s@, i + 1);
                    assert(dec_val(s@) > u64::MAX as int);
                }
            }
            return None;
        }
        proof {
            vstd::arithmetic::div_mod::lemma_fundamental_div_mod(u64::MAX - d, 10);
            assert(10 * (acc as int) + d <= u64::MAX as int);
        }
        acc = acc * 10 + d;
        i = i + 1;
    }
    proof {
        assert(s@.take(i as int) =~= s@);
    }
    Some(acc)
}

/// Writes a value as decimal digits, no sign, no leading zero.
pub fn u64_to_decimal(value: u64) -> (v: Vec<u8>)
    ensures
        v@.len() > 0,
        all_digits(v@),
        dec_val(v@) == value as int,
        value >= 1 ==> v@[0] != 48,
    decreases value,
{
    if value < 10 {
        let mut v: Vec<u8> = Vec::new();
        v.push(48 + value as u8);
        proof {
            assert(v@.drop_last() =~= Seq::<u8>::empty());
            assert(dec_val(Seq::<u8>::empty()) == 0);
            assert(v@.last() == 48 + value as u8);
            assert(dec_val(v@) == value as int);
        }
        v
    } else {
        let mut v = u64_to_decimal(value / 10);
        let ghost prev = v@;
        v.push(48 + (value % 10) as u8);
        proof {
            assert(v@.drop_last() =~= prev);
            assert(v@.last() == 48 + (value % 10) as u8);
            vstd::arithmetic::div_mod::lemma_fundamental_div_mod(value as int, 10);
            assert(dec_val(v@) == value as int);
        }
        v
    }
}

/// Appends every byte of `tail` to `v` in order.
pub fn push_all(v: &mut Vec<u8>, tail: &[u8])
    ensures
        final(v)@ == old(v)@ + tail@,
{
    let mut i: usize = 0;
    while i < tail.len()
        invariant
            i <= tail@.len(),
            v@ == old(v)@ + tail@.take(i as int),
        decreases tail@.len() - i,
    {
        let ghost prev = v@;
        v.push(tail[i]);
        i = i + 1;
        proof {
            assert(v@ =~= old(v)@ + tail@.take(i as int));
        }
    }
    proof {
        assert(old(v)@ + tail@.take(i as int) =~= old(v)@ + tail@);
    }
}

} // verus!
