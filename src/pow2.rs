//! Powers of two and the elementwise next-power-of-two transform.
use vstd::prelude::*;

verus! {

/// Written in place of a result that no `u32` power of two can hold.
pub const OVERFLOW: u32 = 0xffff_ffff;

/// The largest power of two that a `u32` holds.
pub const MAX_POW2: u32 = 0x8000_0000;

/// `v` is 2^k for some k.
pub open spec fn is_pow2(v: nat) -> bool
    decreases v,
{
    if v == 0 {
        false
    } else if v == 1 {
        true
    } else {
        v % 2 == 0 && is_pow2(v / 2)
    }
}

/// `r` is the smallest power of two that is at least `v`: no smaller power of
/// two (the largest of which is `r / 2`) reaches `v`.
pub open spec fn is_least_pow2_at_least(v: nat, r: nat) -> bool {
    is_pow2(r) && v <= r && (r == 1 || r / 2 < v)
}

/// The next power of two of `v`, or `OVERFLOW` where it exceeds `u32::MAX`.
pub open spec fn next_pow2(v: u32) -> u32 {
    if v > MAX_POW2 {
        OVERFLOW
    } else {
        choose|r: u32| is_least_pow2_at_least(v as nat, r as nat)
    }
}

/// The transform applied to each element, order kept.
pub open spec fn next_pow2_all(xs: Seq<u32>) -> Seq<u32> {
    xs.map_values(|x: u32| next_pow2(x))
}

proof fn lemma_max_pow2()
    ensures
        is_pow2(MAX_POW2 as nat),
{
    reveal_with_fuel(is_pow2, 33);
}

/// Of two powers of two, the smaller is at most half the larger.
proof fn lemma_pow2_gap(a: nat, b: nat)
    requires
        is_pow2(a),
        is_pow2(b),
        a < b,
    ensures
        a <= b / 2,
    decreases a,
{
    if a != 1 {
        lemma_pow2_gap(a / 2, b / 2);
    }
}

/// Only one power of two is the least one at or above `v`.
proof fn lemma_least_unique(v: nat, r1: nat, r2: nat)
    requires
        is_least_pow2_at_least(v, r1),
        is_least_pow2_at_least(v, r2),
    ensures
        r1 == r2,
{
    if r1 < r2 {
        lemma_pow2_gap(r1, r2);
    } else if r2 < r1 {
        lemma_pow2_gap(r2, r1);
    }
}

/// A witness of the least power of two fixes `next_pow2`.
proof fn lemma_next_pow2_is(v: u32, r: u32)
    requires
        v <= MAX_POW2,
        is_least_pow2_at_least(v as nat, r as nat),
    ensures
        next_pow2(v) == r,
{
    let c = choose|c: u32| is_least_pow2_at_least(v as nat, c as nat);
    lemma_least_unique(v as nat, r as nat, c as nat);
}

/// Doubling from a power of two `p` that does not pass `v` reaches the least
/// power of two at or above `v`.
proof fn least_pow2_from(v: nat, p: nat) -> (r: nat)
    requires
        v <= MAX_POW2,
        is_pow2(p),
        is_pow2(MAX_POW2 as nat),
        p == 1 || p / 2 < v,
        p <= MAX_POW2,
    ensures
        is_least_pow2_at_least(v, r),
        r <= MAX_POW2,
    decreases MAX_POW2 - p,
{
    if p >= v {
        p
    } else {
        lemma_pow2_gap(p, MAX_POW2 as nat);
        assert(is_pow2(2 * p));
        least_pow2_from(v, 2 * p)
    }
}

/// A power of two is its own next power of two.
pub proof fn lemma_next_pow2_fixes_pow2(v: u32)
    requires
        is_pow2(v as nat),
    ensures
        next_pow2(v) == v,
{
    lemma_max_pow2();
    if v > MAX_POW2 {
        lemma_pow2_gap(MAX_POW2 as nat, v as nat);
    }
    if v != 1 {
        assert(v / 2 < v);
    }
    lemma_next_pow2_is(v, v);
}

/// Up to `MAX_POW2`, the next power of two of `v` is the least power of two at
/// or above `v` (one, for zero), and no larger than `MAX_POW2`; above
/// `MAX_POW2` it is `OVERFLOW`.
pub proof fn lemma_next_pow2_shape(v: u32)
    ensures
        v <= MAX_POW2 ==> is_least_pow2_at_least(v as nat, next_pow2(v) as nat) && next_pow2(v)
            <= MAX_POW2,
        v == 0 ==> next_pow2(v) == 1,
        v > MAX_POW2 ==> next_pow2(v) == OVERFLOW,
{
    if v <= MAX_POW2 {
        lemma_max_pow2();
        let r = least_pow2_from(v as nat, 1);
        lemma_next_pow2_is(v, r as u32);
        if v == 0 {
            lemma_next_pow2_is(v, 1);
        }
    }
}

/// Applying the transform to its own result changes nothing.
pub proof fn lemma_next_pow2_idempotent(v: u32)
    ensures
        next_pow2(next_pow2(v)) == next_pow2(v),
{
    lemma_next_pow2_shape(v);
    if v <= MAX_POW2 {
        lemma_next_pow2_fixes_pow2(next_pow2(v));
    }
}

/// The elementwise transform, applied twice, equals the transform applied once.
pub proof fn lemma_next_pow2_all_idempotent(xs: Seq<u32>)
    ensures
        next_pow2_all(next_pow2_all(xs)) == next_pow2_all(xs),
{
    assert forall|i: int| 0 <= i < xs.len() implies #[trigger] next_pow2_all(next_pow2_all(xs))[i]
        == next_pow2_all(xs)[i] by {
        lemma_next_pow2_idempotent(xs[i]);
    }
    assert(next_pow2_all(next_pow2_all(xs)) =~= next_pow2_all(xs));
}

/// The smallest power of two at least `v`; `OVERFLOW` where none fits in a
/// `u32`. Zero gives one.
pub fn next_power_of_two(v: u32) -> (r: u32)
    ensures
        r == next_pow2(v),
{
    if v > MAX_POW2 {
        return OVERFLOW;
    }
    proof {
        lemma_max_pow2();
    }
    let mut p: u32 = 1;
    while p < v
        invariant
            v <= MAX_POW2,
            is_pow2(p as nat),
            p == 1 || p / 2 < v,
            p <= MAX_POW2,
            is_pow2(MAX_POW2 as nat),
        decreases MAX_POW2 - p,
    {
        proof {
            lemma_pow2_gap(p as nat, MAX_POW2 as nat);
        }
        p = p * 2;
        assert(is_pow2(p as nat));
    }
    proof {
        lemma_next_pow2_is(v, p);
    }
    p
}

/// Replaces each element by its next power of two, in place, keeping length
/// and order.
pub fn cpu_next_power_of_two(numbers: Vec<u32>) -> (r: Vec<u32>)
    ensures
        r@ == next_pow2_all(numbers@),
{
    let mut numbers = numbers;
    let len = numbers.len();
    let ghost orig = numbers@;
    let mut i: usize = 0;
    while i < len
        invariant
            0 <= i <= len,
            len == orig.len(),
            numbers@.len() == len,
            forall|j: int| 0 <= j < i ==> numbers@[j] == next_pow2(orig[j]),
            forall|j: int| i <= j < len ==> numbers@[j] == orig[j],
        decreases len - i,
    {
        let x = numbers[i];
        numbers.set(i, next_power_of_two(x));
        i = i + 1;
    }
    assert(numbers@ =~= next_pow2_all(orig));
    numbers
}

} // verus!
