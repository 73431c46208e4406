//! Stepped integer ramps for time series.
//!
//! A ramp spreads a number of samples over the whole numbers between two
//! bounds, both included, as evenly as whole counts allow: every value gets
//! the same number of samples, and what is left over goes, one sample each,
//! to the values nearest the start.

use vstd::prelude::*;

verus! {

/// How many whole numbers lie between `start` and `end`, both included.
pub open spec fn span(start: int, end: int) -> int {
    if start <= end {
        end - start + 1
    } else {
        start - end + 1
    }
}

/// The position at which the samples of the `step`-th value begin, where
/// `length` samples are spread over `values` values.
pub open spec fn block_start(length: int, values: int, step: int) -> int {
    let q = length / values;
    let r = length % values;
    step * q + if step < r {
        step
    } else {
        r
    }
}

/// Which value, counted from the start of the ramp, sample `k` holds, where
/// `length` samples are spread over `values` values.
pub open spec fn step_of(length: int, values: int, k: int) -> int {
    let q = length / values;
    let r = length % values;
    if k < r * (q + 1) {
        k / (q + 1)
    } else {
        r + (k - r * (q + 1)) / q
    }
}

/// Sample `k` of the ramp of `length` samples from `start` to `end`.
pub open spec fn linspace_at(start: int, end: int, length: int, k: int) -> int {
    if start <= end {
        start + step_of(length, span(start, end), k)
    } else {
        start - step_of(length, span(start, end), k)
    }
}

proof fn lemma_div_in_block(k: int, d: int, j: int)
    requires
        d > 0,
        j * d <= k < (j + 1) * d,
    ensures
        k / d == j,
{
    assert(k / d == j) by (nonlinear_arith)
        requires
            d > 0,
            j * d <= k < (j + 1) * d,
    ;
}

proof fn lemma_split(length: int, values: int)
    requires
        0 <= length,
        0 < values,
    ensures
        0 <= length / values,
        0 <= length % values < values,
        length == values * (length / values) + length % values,
{
    assert(0 <= length / values && 0 <= length % values < values && length == values * (length
        / values) + length % values) by (nonlinear_arith)
        requires
            0 <= length,
            0 < values,
    ;
}

/// The blocks are laid end to end: the first starts at 0, each is as long as
/// its share, and the last ends at `length`.
pub proof fn lemma_block_layout(length: int, values: int, step: int)
    requires
        0 <= length,
        0 < values,
        0 <= step < values,
    ensures
        block_start(length, values, 0) == 0,
        block_start(length, values, values) == length,
        block_start(length, values, step + 1) == block_start(length, values, step) + length
            / values + if step < length % values {
            1int
        } else {
            0int
        },
{
    lemma_split(length, values);
    let q = length / values;
    assert(0 * q == 0);
    assert((step + 1) * q == step * q + q) by (nonlinear_arith);
    assert(values * q == q * values) by (nonlinear_arith);
}

/// Every sample that lies in the block of a value holds that value: the
/// values nearest the start get one sample more than the others, and no two
/// values differ by more than one sample.
pub proof fn lemma_step_of_block(length: int, values: int, step: int, k: int)
    requires
        0 <= length,
        0 < values,
        0 <= step < values,
        block_start(length, values, step) <= k < block_start(length, values, step + 1),
    ensures
        step_of(length, values, k) == step,
{
    lemma_split(length, values);
    lemma_block_layout(length, values, step);
    let q = length / values;
    let r = length % values;
    if step < r {
        assert(step * q + step == step * (q + 1)) by (nonlinear_arith);
        assert((step + 1) * (q + 1) == step * (q + 1) + q + 1) by (nonlinear_arith);
        assert((step + 1) * (q + 1) <= r * (q + 1)) by (nonlinear_arith)
            requires
                step + 1 <= r,
                0 <= q,
        ;
        lemma_div_in_block(k, q + 1, step);
    } else {
        assert(r * (q + 1) == r * q + r) by (nonlinear_arith);
        assert(step * q >= r * q) by (nonlinear_arith)
            requires
                step >= r,
                0 <= q,
        ;
        assert(q > 0);
        assert((step - r) * q == step * q - r * q) by (nonlinear_arith);
        assert((step - r + 1) * q == step * q - r * q + q) by (nonlinear_arith);
        lemma_div_in_block(k - r * (q + 1), q, step - r);
    }
}

/// A ramp that is not empty begins at `start`.
pub proof fn lemma_linspace_first(start: int, end: int, length: int)
    requires
        1 <= length,
    ensures
        linspace_at(start, end, length, 0) == start,
{
    let values = span(start, end);
    lemma_split(length, values);
    lemma_block_layout(length, values, 0);
    lemma_step_of_block(length, values, 0, 0);
}

/// A ramp with at least one sample for every value ends at `end`.
pub proof fn lemma_linspace_last(start: int, end: int, length: int)
    requires
        span(start, end) <= length,
    ensures
        linspace_at(start, end, length, length - 1) == end,
{
    let values = span(start, end);
    lemma_split(length, values);
    lemma_block_layout(length, values, values - 1);
    assert(length / values >= 1) by (nonlinear_arith)
        requires
            0 < values <= length,
    ;
    lemma_step_of_block(length, values, values - 1, length - 1);
}

/// Every sample of a ramp lies between `start` and `end`.
pub proof fn lemma_linspace_within(start: int, end: int, length: int, k: int)
    requires
        0 <= k < length,
    ensures
        0 <= step_of(length, span(start, end), k) < span(start, end),
        start <= end ==> start <= linspace_at(start, end, length, k) <= end,
        end <= start ==> end <= linspace_at(start, end, length, k) <= start,
{
    let values = span(start, end);
    lemma_split(length, values);
    let step = lemma_block_of(length, values, k);
    lemma_step_of_block(length, values, step, k);
}

/// Every sample lies in the block of some value.
pub proof fn lemma_block_of(length: int, values: int, k: int) -> (step: int)
    requires
        0 < values,
        0 <= k < length,
    ensures
        0 <= step < values,
        block_start(length, values, step) <= k < block_start(length, values, step + 1),
{
    lemma_block_layout(length, values, 0);
    lemma_block_from(length, values, k, 0)
}

proof fn lemma_block_from(length: int, values: int, k: int, from: int) -> (step: int)
    requires
        0 < values,
        0 <= k < length,
        0 <= from < values,
        block_start(length, values, from) <= k,
    ensures
        from <= step < values,
        block_start(length, values, step) <= k < block_start(length, values, step + 1),
    decreases values - from,
{
    lemma_block_layout(length, values, from);
    if k < block_start(length, values, from + 1) {
        from
    } else {
        lemma_block_from(length, values, k, from + 1)
    }
}

/// A ramp never steps back, and never skips a value while it has a sample
/// for each: from one sample to the next it stays or moves on by one.
pub proof fn lemma_linspace_steps(start: int, end: int, length: int, k: int)
    requires
        0 <= k,
        k + 1 < length,
    ensures
        step_of(length, span(start, end), k) <= step_of(length, span(start, end), k + 1),
        span(start, end) <= length ==> step_of(length, span(start, end), k + 1) <= step_of(
            length,
            span(start, end),
            k,
        ) + 1,
{
    let values = span(start, end);
    lemma_split(length, values);
    let a = lemma_block_of(length, values, k);
    let b = lemma_block_of(length, values, k + 1);
    lemma_step_of_block(length, values, a, k);
    lemma_step_of_block(length, values, b, k + 1);
    if b < a {
        lemma_blocks_ascend(length, values, b + 1, a);
    }
    if values <= length && a + 1 < b {
        assert(length / values >= 1) by (nonlinear_arith)
            requires
                0 < values <= length,
        ;
        lemma_block_layout(length, values, a + 1);
        lemma_blocks_ascend(length, values, a + 2, b);
    }
}

/// Block starts do not decrease with the step.
pub proof fn lemma_blocks_ascend(length: int, values: int, low: int, high: int)
    requires
        0 <= length,
        0 < values,
        0 <= low <= high <= values,
    ensures
        block_start(length, values, low) <= block_start(length, values, high),
    decreases high - low,
{
    if low < high {
        lemma_split(length, values);
        lemma_block_layout(length, values, high - 1);
        lemma_blocks_ascend(length, values, low, high - 1);
    }
}

/// A ramp of `length` samples from `start` to `end`, both included.
///
/// Every whole number between the bounds gets the same number of samples;
/// what is left over goes, one sample each, to the values nearest `start`.
/// With fewer samples than values the ramp stops short of `end`; where
/// `start` and `end` are equal it is flat.
pub fn int_linspace(start: i32, end: i32, length: usize) -> (ramp: Vec<i32>)
    ensures
        ramp@.len() == length,
        forall|k: int|
            0 <= k < length ==> #[trigger] ramp@[k] as int == linspace_at(
                start as int,
                end as int,
                length as int,
                k,
            ),
{
    let width: u64 = if start <= end {
        (end as i64 - start as i64) as u64
    } else {
        (start as i64 - end as i64) as u64
    };
    let values: u64 = width + 1;
    let total: u64 = length as u64;
    let q: u64 = total / values;
    let r: u64 = total % values;
    proof {
        lemma_split(length as int, values as int);
        lemma_block_layout(length as int, values as int, 0);
    }
    let mut ramp: Vec<i32> = Vec::new();
    let mut step: u64 = 0;
    let mut value: i32 = start;
    while ramp.len() < length
        invariant
            values as int == span(start as int, end as int),
            total as int == length as int,
            q as int == (length as int) / (values as int),
            r as int == (length as int) % (values as int),
            0 <= step <= values,
            ramp@.len() == block_start(length as int, values as int, step as int),
            ramp@.len() <= length,
            step < values ==> (value as int == if start <= end {
                start + step
            } else {
                start - step
            }),
            forall|k: int|
                0 <= k < ramp@.len() ==> #[trigger] ramp@[k] as int == linspace_at(
                    start as int,
                    end as int,
                    length as int,
                    k,
                ),
        decreases length - ramp@.len(),
    {
        proof {
            lemma_split(length as int, values as int);
            if step == values {
                lemma_block_layout(length as int, values as int, 0);
            }
            lemma_block_layout(length as int, values as int, step as int);
            lemma_blocks_ascend(length as int, values as int, step + 1, values as int);
            lemma_block_layout(length as int, values as int, 0);
            if step < r {
                assert(q < length) by (nonlinear_arith)
                    requires
                        length == values * q + r,
                        0 <= step < r < values,
                        0 <= q,
                ;
            }
            assert(q == 0 ==> length == r) by (nonlinear_arith)
                requires
                    length == values * q + r,
            ;
            assert(step as int * q as int == 0 <== q == 0) by (nonlinear_arith);
        }
        let share: u64 = if step < r {
            q + 1
        } else {
            q
        };
        let ghost begin = ramp@.len() as int;
        let mut put: u64 = 0;
        while put < share
            invariant
                0 <= put <= share,
                0 <= step < values,
                begin == block_start(length as int, values as int, step as int),
                begin + share == block_start(length as int, values as int, step + 1),
                begin + share <= length,
                ramp@.len() == begin + put,
                0 <= length,
                values as int == span(start as int, end as int),
                value as int == if start <= end {
                    start + step
                } else {
                    start - step
                },
                forall|k: int|
                    0 <= k < ramp@.len() ==> #[trigger] ramp@[k] as int == linspace_at(
                        start as int,
                        end as int,
                        length as int,
                        k,
                    ),
            decreases share - put,
        {
            proof {
                lemma_step_of_block(
                    length as int,
                    values as int,
                    step as int,
                    ramp@.len() as int,
                );
            }
            ramp.push(value);
            put += 1;
        }
        step += 1;
        if step < values {
            if start <= end {
                value += 1;
            } else {
                value -= 1;
            }
        }
    }
    ramp
}

} // verus!
