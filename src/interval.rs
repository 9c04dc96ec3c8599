use vstd::prelude::*;

verus! {

/// Step of the `interval` subscription when the request gives none.
pub const DEFAULT_STEP: i32 = 1;

/// True when `v` can be held in an `i32`.
pub open spec fn fits_i32(v: int) -> bool {
    i32::MIN <= v <= i32::MAX
}

/// The value after one tick: `step` is added while the sum fits.
pub open spec fn next_value(value: int, step: int) -> int {
    if fits_i32(value + step) {
        value + step
    } else {
        value
    }
}

/// The value after `k` ticks from zero.
pub open spec fn value_after(step: int, k: nat) -> int
    decreases k,
{
    if k == 0 {
        0
    } else {
        next_value(value_after(step, (k - 1) as nat), step)
    }
}

/// While every multiple of the step up to `k` fits, the `k`-th tick yields
/// `k * step`: the sequence never ends inside that bound.
pub proof fn lemma_kth_value(step: int, k: nat)
    requires
        forall|j: nat| j <= k ==> fits_i32(#[trigger] (j * step)),
    ensures
        value_after(step, k) == k * step,
    decreases k,
{
    if k > 0 {
        let j = (k - 1) as nat;
        lemma_kth_value(step, j);
        assert(j * step + step == k * step) by (nonlinear_arith)
            requires
                j + 1 == k,
        ;
        assert(fits_i32(k * step));
        assert(value_after(step, k) == next_value(j * step, step));
    } else {
        assert(k * step == 0) by (nonlinear_arith)
            requires
                k == 0,
        ;
    }
}

/// The running total behind the `interval` subscription: each tick adds
/// `step` to the value and yields the new value.
pub struct IntervalTicker {
    pub value: i32,
    pub step: i32,
}

impl IntervalTicker {
    pub fn new(step: i32) -> (r: Self)
        ensures
            r.value == 0,
            r.step == step,
    {
        IntervalTicker { value: 0, step }
    }

    /// Advances by one tick. The sequence ends (`None`, state unchanged) once
    /// the next value would leave the `i32` range.
    pub fn tick(&mut self) -> (r: Option<i32>)
        ensures
            final(self).step == old(self).step,
            final(self).value == next_value(old(self).value as int, old(self).step as int),
            fits_i32(old(self).value + old(self).step) ==> r == Some(
                (old(self).value + old(self).step) as i32,
            ) && final(self).value == old(self).value + old(self).step,
            !fits_i32(old(self).value + old(self).step) ==> r is None && *final(self) == *old(
                self,
            ),
    {
        match self.value.checked_add(self.step) {
            Some(v) => {
                self.value = v;
                Some(v)
            },
            None => None,
        }
    }
}

} // verus!
