//! The order-key model of real values.
//!
//! A key is a `u64` standing for a real number; the host's encoding is a
//! strictly monotone injection from reals to keys, so unsigned comparison
//! of keys decides comparison of the underlying reals.  The canonical
//! encoding flips the sign bit of a non-negative IEEE double and all bits
//! of a negative one; the two constants below are the images of `0.0` and
//! of positive infinity under it.

use vstd::prelude::*;

verus! {

/// Key of positive infinity under the canonical encoding: every finite
/// real's key is strictly below it.
pub const INFINITY_KEY: u64 = 0xFFF0_0000_0000_0000;

/// Key of zero under the canonical encoding.
pub const ZERO_KEY: u64 = 0x8000_0000_0000_0000;

/// Key of negative infinity under the canonical encoding: every finite
/// real's key is strictly above it.
pub const NEG_INFINITY_KEY: u64 = 0x000F_FFFF_FFFF_FFFF;

/// Saturation of `x` into `[lo, hi]`, in key order.
pub open spec fn clamp_key(x: u64, lo: u64, hi: u64) -> u64 {
    if x < lo {
        lo
    } else if x > hi {
        hi
    } else {
        x
    }
}

/// The smaller of two keys.
pub open spec fn min_key(a: u64, b: u64) -> u64 {
    if a < b {
        a
    } else {
        b
    }
}

/// The larger of two keys.
pub open spec fn max_key(a: u64, b: u64) -> u64 {
    if a > b {
        a
    } else {
        b
    }
}

/// Clamps a key into `[lo, hi]`; with `lo <= hi` the result always lands
/// inside the range, and a key already inside comes back unchanged.
pub fn clamp(x: u64, lo: u64, hi: u64) -> (r: u64)
    ensures
        r == clamp_key(x, lo, hi),
        lo <= hi ==> lo <= r && r <= hi,
        lo <= x && x <= hi ==> r == x,
{
    if x < lo {
        lo
    } else if x > hi {
        hi
    } else {
        x
    }
}

/// The least key of a sequence, folded left to right from `acc`; ties keep
/// the earlier value, as a strict-improvement scan does.
pub open spec fn fold_min(acc: u64, s: Seq<u64>) -> u64
    decreases s.len(),
{
    if s.len() == 0 {
        acc
    } else {
        fold_min(min_key(acc, s[0]), s.skip(1))
    }
}

/// The greatest key of a sequence, folded left to right from `acc`.
pub open spec fn fold_max(acc: u64, s: Seq<u64>) -> u64
    decreases s.len(),
{
    if s.len() == 0 {
        acc
    } else {
        fold_max(max_key(acc, s[0]), s.skip(1))
    }
}

/// Folding one more element to the right merges it into the minimum.
pub proof fn lemma_fold_min_push(acc: u64, s: Seq<u64>, x: u64)
    ensures
        fold_min(acc, s.push(x)) == min_key(fold_min(acc, s), x),
    decreases s.len(),
{
    if s.len() == 0 {
        assert(s.push(x)[0] == x);
        assert(s.push(x).skip(1) =~= Seq::<u64>::empty());
        assert(fold_min(acc, s.push(x)) == fold_min(min_key(acc, x), Seq::<u64>::empty()));
        assert(fold_min(min_key(acc, x), Seq::<u64>::empty()) == min_key(acc, x));
    } else {
        assert(s.push(x)[0] == s[0]);
        assert(s.push(x).skip(1) =~= s.skip(1).push(x));
        lemma_fold_min_push(min_key(acc, s[0]), s.skip(1), x);
        assert(fold_min(acc, s.push(x)) == fold_min(min_key(acc, s[0]), s.skip(1).push(x)));
        assert(fold_min(acc, s) == fold_min(min_key(acc, s[0]), s.skip(1)));
    }
}

/// Folding one more element to the right merges it into the maximum.
pub proof fn lemma_fold_max_push(acc: u64, s: Seq<u64>, x: u64)
    ensures
        fold_max(acc, s.push(x)) == max_key(fold_max(acc, s), x),
    decreases s.len(),
{
    if s.len() == 0 {
        assert(s.push(x)[0] == x);
        assert(s.push(x).skip(1) =~= Seq::<u64>::empty());
        assert(fold_max(acc, s.push(x)) == fold_max(max_key(acc, x), Seq::<u64>::empty()));
        assert(fold_max(max_key(acc, x), Seq::<u64>::empty()) == max_key(acc, x));
    } else {
        assert(s.push(x)[0] == s[0]);
        assert(s.push(x).skip(1) =~= s.skip(1).push(x));
        lemma_fold_max_push(max_key(acc, s[0]), s.skip(1), x);
        assert(fold_max(acc, s.push(x)) == fold_max(max_key(acc, s[0]), s.skip(1).push(x)));
        assert(fold_max(acc, s) == fold_max(max_key(acc, s[0]), s.skip(1)));
    }
}

/// Column `j` of a row-major key matrix.
pub open spec fn column_keys(data: Seq<Vec<u64>>, j: int) -> Seq<u64> {
    Seq::new(data.len(), |i: int| data[i]@[j])
}

/// The least and greatest key of column `j`, scanned by strict
/// improvement from the two infinite sentinels.
pub fn column_extremes(data: &Vec<Vec<u64>>, cols: usize, j: usize) -> (r: (u64, u64))
    requires
        forall|i: int| 0 <= i < data@.len() ==> (#[trigger] data@[i])@.len() == cols,
        j < cols,
    ensures
        r.0 == fold_min(INFINITY_KEY, column_keys(data@, j as int)),
        r.1 == fold_max(NEG_INFINITY_KEY, column_keys(data@, j as int)),
{
    let mut lo: u64 = INFINITY_KEY;
    let mut hi: u64 = NEG_INFINITY_KEY;
    let mut i: usize = 0;
    while i < data.len()
        invariant
            i <= data@.len(),
            j < cols,
            forall|k: int| 0 <= k < data@.len() ==> (#[trigger] data@[k])@.len() == cols,
            lo == fold_min(INFINITY_KEY, column_keys(data@, j as int).take(i as int)),
            hi == fold_max(NEG_INFINITY_KEY, column_keys(data@, j as int).take(i as int)),
        decreases data@.len() - i,
    {
        proof {
            let col = column_keys(data@, j as int);
            assert(col.take(i + 1 as int) =~= col.take(i as int).push(col[i as int]));
            assert(col[i as int] == data@[i as int]@[j as int]);
            lemma_fold_min_push(INFINITY_KEY, col.take(i as int), col[i as int]);
            lemma_fold_max_push(NEG_INFINITY_KEY, col.take(i as int), col[i as int]);
        }
        let v: u64 = data[i][j];
        if v < lo {
            lo = v;
        }
        if v > hi {
            hi = v;
        }
        i += 1;
    }
    proof {
        let col = column_keys(data@, j as int);
        assert(col.take(col.len() as int) =~= col);
    }
    (lo, hi)
}

/// The folded minimum never exceeds the seed and never exceeds any element.
pub proof fn lemma_fold_min_bounds(acc: u64, s: Seq<u64>)
    ensures
        fold_min(acc, s) <= acc,
        forall|i: int| 0 <= i < s.len() ==> fold_min(acc, s) <= s[i],
    decreases s.len(),
{
    if s.len() > 0 {
        lemma_fold_min_bounds(min_key(acc, s[0]), s.skip(1));
        assert forall|i: int| 0 <= i < s.len() implies fold_min(acc, s) <= s[i] by {
            if i > 0 {
                assert(s.skip(1)[i - 1] == s[i]);
            }
        }
    }
}

} // verus!
