use vstd::prelude::*;

verus! {

/// The value that lies `percentage` percent of the way from `start` to `end`,
/// rounded up: the ceiling of `((100 - percentage) * start + percentage * end) / 100`.
/// Rounding up keeps 1% from falling back onto `start`.
pub open spec fn percentage_value(percentage: int, start: int, end: int) -> int {
    ((100 - percentage) * start + percentage * end + 99) / 100
}

/// Whether `v` is a whole multiple of `step` (only 0 is a multiple of 0).
pub open spec fn is_multiple_of(v: int, step: int) -> bool {
    if step == 0 {
        v == 0
    } else {
        v % step == 0
    }
}

/// Maps a percentage onto the range from `start` to `end`: 0% is `start`,
/// 100% is `end`, and the values between are rounded up.
pub fn percentage_within_range(percentage: u32, start_range: u32, end_range: u32) -> (r: u32)
    requires
        percentage <= 100,
    ensures
        r == percentage_value(percentage as int, start_range as int, end_range as int),
{
    let p = percentage as u64;
    let s = start_range as u64;
    let e = end_range as u64;
    let hi: u64 = if s <= e { e } else { s };
    assert((100 - p) * s + p * e <= 100 * hi) by (nonlinear_arith)
        requires
            p <= 100,
            s <= hi,
            e <= hi,
    ;
    assert(100 * hi <= 100 * 0xffff_ffffu64) by (nonlinear_arith)
        requires
            hi <= 0xffff_ffffu64,
    ;
    let weighted: u64 = (100 - p) * s + p * e;
    let r = (weighted + 99) / 100;
    assert(r <= hi) by (nonlinear_arith)
        requires
            weighted <= 100 * hi,
            r == (weighted + 99) / 100,
    ;
    r as u32
}

/// 0% gives the start of the range and 100% its end.
pub proof fn lemma_percentage_endpoints(start: u32, end: u32)
    ensures
        percentage_value(0, start as int, end as int) == start,
        percentage_value(100, start as int, end as int) == end,
{
    assert(((100 - 0) * start + 0 * end + 99) / 100 == start as int) by (nonlinear_arith);
    assert(((100 - 100) * start + 100 * end + 99) / 100 == end as int) by (nonlinear_arith);
}

/// On a rising range a larger percentage never gives a smaller value.
pub proof fn lemma_percentage_monotonic(p1: u32, p2: u32, start: u32, end: u32)
    requires
        p1 <= p2 <= 100,
        start <= end,
    ensures
        percentage_value(p1 as int, start as int, end as int) <= percentage_value(
            p2 as int,
            start as int,
            end as int,
        ),
{
    let w1 = (100 - p1) * start + p1 * end + 99;
    let w2 = (100 - p2) * start + p2 * end + 99;
    assert(w1 <= w2) by (nonlinear_arith)
        requires
            p1 <= p2,
            start <= end,
            w1 == (100 - p1) * start + p1 * end + 99,
            w2 == (100 - p2) * start + p2 * end + 99,
    ;
    vstd::arithmetic::div_mod::lemma_div_is_ordered(w1, w2, 100);
}

/// On a rising range 1% already lies above the start.
pub proof fn lemma_one_percent_above_start(start: u32, end: u32)
    requires
        start < end,
    ensures
        percentage_value(1, start as int, end as int) > start,
{
    let w = (100 - 1) * start + 1 * end + 99;
    assert(w >= 100 * (start + 1));
    vstd::arithmetic::div_mod::lemma_div_is_ordered(100 * (start + 1), w, 100);
    vstd::arithmetic::div_mod::lemma_div_multiples_vanish(start + 1, 100);
}

/// Every multiple of `step` from `start` to `end` inclusive, in ascending
/// order.
pub fn multiples_within_range(step: u16, start: u16, end: u16) -> (r: Vec<u16>)
    ensures
        forall|i: int|
            0 <= i < r@.len() ==> start <= #[trigger] r@[i] <= end && is_multiple_of(
                r@[i] as int,
                step as int,
            ),
        forall|i: int, j: int| 0 <= i < j < r@.len() ==> r@[i] < r@[j],
        forall|v: u16| start <= v <= end && is_multiple_of(v as int, step as int) ==> r@.contains(v),
{
    let mut r: Vec<u16> = Vec::new();
    let mut v: u32 = start as u32;
    while v <= end as u32
        invariant
            start <= v,
            v == start || v <= end as u32 + 1,
            forall|i: int|
                0 <= i < r@.len() ==> start <= #[trigger] r@[i] < v && r@[i] <= end
                    && is_multiple_of(r@[i] as int, step as int),
            forall|i: int, j: int| 0 <= i < j < r@.len() ==> r@[i] < r@[j],
            forall|w: u16|
                start <= w < v && is_multiple_of(w as int, step as int) ==> r@.contains(w),
        decreases end as u32 + 1 - v,
    {
        let w = v as u16;
        let hit = if step == 0 {
            w == 0
        } else {
            w % step == 0
        };
        let ghost before = r@;
        if hit {
            r.push(w);
            assert(r@[r@.len() - 1] == w);
        }
        assert forall|x: u16|
            start <= x < v + 1 && is_multiple_of(x as int, step as int) implies r@.contains(x) by {
            if x < v {
                let k = choose|k: int| 0 <= k < before.len() && before[k] == x;
                assert(r@[k] == x);
            } else {
                assert(r@[r@.len() - 1] == x);
            }
        }
        v = v + 1;
    }
    r
}

} // verus!
