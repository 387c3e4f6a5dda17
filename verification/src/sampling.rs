//! Evenly spaced sampling: which samples are taken, how many, and in what
//! order. The value of a sample is computed by the caller from its index.
use crate::scalar::Scalar;
use vstd::prelude::*;

verus! {

/// How many samples cover one loop around the guide.
pub const SAMPLES_PER_LOOP: usize = 100;

/// How many points a pattern has: three loops around the guide.
pub const PATTERN_SAMPLES: usize = 300;

/// A closed interval from which `count + 1` evenly spaced values are taken,
/// both ends included: value `i` is `lower + (upper - lower) * i / count`.
#[derive(Clone, Copy, Debug)]
pub struct Linspace {
    pub lower: Scalar,
    pub upper: Scalar,
    pub count: usize,
    /// The index of the value that is handed out next.
    pub index: usize,
}

impl Linspace {
    /// The next index is at most one past the last.
    pub open spec fn wf(self) -> bool {
        self.index <= self.count + 1 <= usize::MAX
    }

    /// How many values are still to come.
    pub open spec fn pending(self) -> nat {
        (self.count + 1 - self.index) as nat
    }

    /// An interval of `count + 1` values, none of them handed out yet.
    pub fn new(lower: Scalar, upper: Scalar, count: usize) -> (r: Linspace)
        requires
            count < usize::MAX,
        ensures
            r.wf(),
            r.index == 0,
            r.lower == lower,
            r.upper == upper,
            r.count == count,
    {
        Linspace { lower, upper, count, index: 0 }
    }

    /// Hands out the index of the next value and moves on, or `None` once
    /// all `count + 1` indices have been handed out.
    pub fn next_index(&mut self) -> (r: Option<usize>)
        requires
            old(self).wf(),
        ensures
            final(self).wf(),
            final(self).lower == old(self).lower,
            final(self).upper == old(self).upper,
            final(self).count == old(self).count,
            old(self).index <= old(self).count ==> r == Some(old(self).index as usize)
                && final(self).index == old(self).index + 1,
            old(self).index > old(self).count ==> r is None && final(self).index == old(self).index,
    {
        if self.index > self.count {
            return None;
        }
        let i: usize = self.index;
        self.index = i + 1;
        Some(i)
    }

    /// The number of values that are still to come.
    pub fn remaining(&self) -> (r: usize)
        requires
            self.wf(),
        ensures
            r == self.pending(),
    {
        self.count + 1 - self.index
    }

    /// Takes every value that is still to come, in ascending order of index,
    /// and collects what `point_at` makes of each index.
    pub fn collect_with<P, F: Fn(usize) -> P>(self, point_at: F) -> (points: Vec<P>)
        requires
            self.wf(),
            forall|i: usize| self.index <= i <= self.count ==> call_requires(point_at, (i,)),
        ensures
            points.len() == self.pending(),
            forall|k: int|
                0 <= k < points.len() ==> call_ensures(
                    point_at,
                    ((self.index + k) as usize,),
                    #[trigger] points[k],
                ),
    {
        let mut steps = self;
        let mut points: Vec<P> = Vec::new();
        loop
            invariant
                steps.wf(),
                steps.count == self.count,
                self.index <= steps.index,
                points.len() == steps.index - self.index,
                forall|i: usize|
                    self.index <= i <= self.count ==> call_requires(point_at, (i,)),
                forall|k: int|
                    0 <= k < points.len() ==> call_ensures(
                        point_at,
                        ((self.index + k) as usize,),
                        #[trigger] points[k],
                    ),
            ensures
                points.len() == self.pending(),
            decreases steps.pending(),
        {
            match steps.next_index() {
                None => {
                    break ;
                },
                Some(i) => {
                    let p = point_at(i);
                    points.push(p);
                },
            }
        }
        points
    }
}

/// The interval over which an outline of the given arc length is sampled
/// when it is drawn with `resolution + 1` points: it starts at zero and ends
/// at `upper`, which the caller sets short of the full arc length so that
/// the last point does not fall on the first.
pub open spec fn outline_steps(upper: Scalar, resolution: usize) -> Linspace {
    Linspace { lower: Scalar { bits: 0 }, upper, count: resolution, index: 0 }
}

/// The outline of a shape as `resolution + 1` points, in ascending order of
/// arc length. `point_at` gives the point of a sample from the interval and
/// the sample's index.
pub fn rasterise<P, F: Fn(Linspace, usize) -> P>(
    upper: Scalar,
    resolution: usize,
    point_at: F,
) -> (points: Vec<P>)
    requires
        resolution < usize::MAX,
        forall|i: usize|
            i <= resolution ==> call_requires(point_at, (outline_steps(upper, resolution), i)),
    ensures
        points.len() == resolution + 1,
        forall|i: int|
            0 <= i <= resolution ==> call_ensures(
                point_at,
                (outline_steps(upper, resolution), i as usize),
                #[trigger] points[i],
            ),
{
    let steps = Linspace::new(Scalar::zero(), upper, resolution);
    let mut rest = steps;
    let mut points: Vec<P> = Vec::new();
    loop
        invariant
            steps == outline_steps(upper, resolution),
            resolution < usize::MAX,
            rest.wf(),
            rest.count == resolution,
            points.len() == rest.index,
            forall|i: usize| i <= resolution ==> call_requires(point_at, (steps, i)),
            forall|k: int|
                0 <= k < points.len() ==> call_ensures(
                    point_at,
                    (steps, k as usize),
                    #[trigger] points[k],
                ),
        ensures
            points.len() == resolution + 1,
        decreases rest.pending(),
    {
        match rest.next_index() {
            None => {
                break ;
            },
            Some(i) => {
                let p = point_at(steps, i);
                points.push(p);
            },
        }
    }
    points
}

/// The points of a pattern: one for each of the `PATTERN_SAMPLES` samples,
/// in ascending order of the sample's index. `point_at` gives the point of a
/// sample from its index.
pub fn trace_pattern<P, F: Fn(usize) -> P>(point_at: F) -> (points: Vec<P>)
    requires
        forall|i: usize| i < PATTERN_SAMPLES ==> call_requires(point_at, (i,)),
    ensures
        points.len() == PATTERN_SAMPLES,
        forall|i: int|
            0 <= i < PATTERN_SAMPLES ==> call_ensures(
                point_at,
                (i as usize,),
                #[trigger] points[i],
            ),
{
    let mut points: Vec<P> = Vec::new();
    let mut i: usize = 0;
    while i < PATTERN_SAMPLES
        invariant
            i <= PATTERN_SAMPLES,
            points.len() == i,
            forall|j: usize| j < PATTERN_SAMPLES ==> call_requires(point_at, (j,)),
            forall|k: int|
                0 <= k < i ==> call_ensures(point_at, (k as usize,), #[trigger] points[k]),
        decreases PATTERN_SAMPLES - i,
    {
        let p = point_at(i);
        points.push(p);
        i = i + 1;
    }
    points
}

} // verus!
