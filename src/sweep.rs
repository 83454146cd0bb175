use vstd::prelude::*;
use crate::search::Found;
use crate::session::{CalibrationError, CalibrationSession, Phase};
use crate::device::{DeviceCommand, DeviceSettings, apply_commands, restore_commands};

verus! {

/// One point of the V/F curve: its index, voltage (µV), base frequency (kHz) and
/// the offset (kHz) applied to it.
#[derive(Clone, Copy, Debug, PartialEq, Eq, Structural)]
pub struct CurvePoint {
    pub index: usize,
    pub voltage: u32,
    pub frequency: u32,
    pub delta: i32,
}

/// An error that ended a sweep, tagged with the index of the point being tested.
#[derive(Clone, Copy, Debug, PartialEq, Eq, Structural)]
pub struct SweepError {
    pub index: usize,
    pub error: CalibrationError,
}

/// Indices strictly decrease along the sequence.
pub open spec fn descending(points: Seq<CurvePoint>) -> bool {
    forall|i: int, j: int| 0 <= i < j < points.len() ==> points[i].index > points[j].index
}

/// Indices strictly increase along the sequence.
pub open spec fn ascending(points: Seq<CurvePoint>) -> bool {
    forall|i: int, j: int| 0 <= i < j < points.len() ==> points[i].index < points[j].index
}

/// The recorded entry for a point at which `found` held.
pub open spec fn entry(p: CurvePoint, found: Found) -> CurvePoint {
    CurvePoint { index: p.index, voltage: p.voltage, frequency: found.frequency, delta: found.delta }
}

/// The results of the first `outcomes.len()` points, in the order they were tested.
pub open spec fn accumulated(points: Seq<CurvePoint>, outcomes: Seq<Option<Found>>) -> Seq<CurvePoint>
    decreases outcomes.len(),
{
    if outcomes.len() == 0 {
        Seq::empty()
    } else {
        let prev = accumulated(points, outcomes.drop_last());
        match outcomes.last() {
            Some(f) => prev.push(entry(points[outcomes.len() - 1], f)),
            None => prev,
        }
    }
}

/// The starting delta for the next point: the last delta found, or the first
/// point's own delta while none has been found.
pub open spec fn carried(points: Seq<CurvePoint>, outcomes: Seq<Option<Found>>) -> i32
    decreases outcomes.len(),
{
    if outcomes.len() == 0 {
        points[0].delta
    } else {
        match outcomes.last() {
            Some(f) => f.delta,
            None => carried(points, outcomes.drop_last()),
        }
    }
}

/// Each accumulated entry belongs to a processed point, and each processed point
/// at which a delta held has its entry.
pub proof fn lemma_accumulated(points: Seq<CurvePoint>, outcomes: Seq<Option<Found>>)
    requires
        outcomes.len() <= points.len(),
    ensures
        forall|e: CurvePoint| #[trigger] accumulated(points, outcomes).contains(e) ==>
            exists|j: int| 0 <= j < outcomes.len() && (#[trigger] outcomes[j]) is Some && e == entry(points[j], outcomes[j]->Some_0),
        forall|j: int| 0 <= j < outcomes.len() && (#[trigger] outcomes[j]) is Some ==> accumulated(points, outcomes).contains(entry(points[j], outcomes[j]->Some_0)),
    decreases outcomes.len(),
{
    if outcomes.len() > 0 {
        let prefix = outcomes.drop_last();
        lemma_accumulated(points, prefix);
        let prev = accumulated(points, prefix);
        let acc = accumulated(points, outcomes);
        let n = outcomes.len() - 1;
        assert forall|e: CurvePoint| #[trigger] acc.contains(e) implies
            exists|j: int| 0 <= j < outcomes.len() && (#[trigger] outcomes[j]) is Some && e == entry(points[j], outcomes[j]->Some_0) by {
            if prev.contains(e) {
                let j = choose|j: int| 0 <= j < prefix.len() && (#[trigger] prefix[j]) is Some && e == entry(points[j], prefix[j]->Some_0);
                assert(outcomes[j] == prefix[j]);
            } else {
                let i = choose|i: int| 0 <= i < acc.len() && acc[i] == e;
                assert(outcomes[n] == outcomes.last());
                if outcomes.last() is None {
                    assert(acc == prev);
                    assert(prev[i] == e);
                } else {
                    if i < prev.len() {
                        assert(acc[i] == prev[i]);
                    }
                }
            }
        }
        assert forall|j: int| 0 <= j < outcomes.len() && (#[trigger] outcomes[j]) is Some implies acc.contains(entry(points[j], outcomes[j]->Some_0)) by {
            if j < n {
                assert(outcomes[j] == prefix[j]);
                let f = outcomes[j]->Some_0;
                let i = choose|i: int| 0 <= i < prev.len() && prev[i] == entry(points[j], f);
                assert(acc[i] == prev[i]);
            } else {
                assert(acc[acc.len() - 1] == entry(points[j], outcomes[j]->Some_0));
            }
        }
    }
}

/// A sweep that stops at point `k` keeps the results of the points before it, and
/// holds nothing for point `k` or any point after it in the traversal.
pub proof fn lemma_partial_results(points: Seq<CurvePoint>, outcomes: Seq<Option<Found>>, k: int)
    requires
        descending(points),
        0 <= k < points.len(),
        outcomes.len() == k,
    ensures
        forall|e: CurvePoint| #[trigger] accumulated(points, outcomes).contains(e) ==> e.index > points[k].index,
        forall|j: int| 0 <= j < k && (#[trigger] outcomes[j]) is Some ==> accumulated(points, outcomes).contains(entry(points[j], outcomes[j]->Some_0)),
{
    lemma_accumulated(points, outcomes);
    assert forall|e: CurvePoint| #[trigger] accumulated(points, outcomes).contains(e) implies e.index > points[k].index by {
        let j = choose|j: int| 0 <= j < outcomes.len() && (#[trigger] outcomes[j]) is Some && e == entry(points[j], outcomes[j]->Some_0);
        assert(points[j].index > points[k].index);
    }
}

/// The sweep over curve points, highest index first, and its result accumulator.
pub struct Sweep {
    points: Vec<CurvePoint>,
    next: usize,
    carry: i32,
    results: Vec<CurvePoint>,
    outcomes: Ghost<Seq<Option<Found>>>,
    error: Option<SweepError>,
}

impl Sweep {
    pub closed spec fn spec_points(&self) -> Seq<CurvePoint> { self.points@ }
    /// Outcomes of the points processed so far, in traversal order.
    pub closed spec fn spec_outcomes(&self) -> Seq<Option<Found>> { self.outcomes@ }
    pub closed spec fn spec_results(&self) -> Seq<CurvePoint> { self.results@ }
    pub closed spec fn spec_error(&self) -> Option<SweepError> { self.error }

    pub closed spec fn wf(&self) -> bool {
        &&& descending(self.points@)
        &&& self.next == self.outcomes@.len()
        &&& self.next <= self.points@.len()
        &&& self.results@ == accumulated(self.points@, self.outcomes@)
        &&& self.points@.len() > 0 ==> self.carry == carried(self.points@, self.outcomes@)
        &&& self.error is Some ==> self.next < self.points@.len()
    }

    /// No point is left to test, or the sweep was aborted.
    pub open spec fn is_over(&self) -> bool {
        self.spec_error() is Some || self.spec_outcomes().len() == self.spec_points().len()
    }

    /// The point the sweep stands at.
    pub open spec fn current(&self) -> CurvePoint {
        self.spec_points()[self.spec_outcomes().len() as int]
    }

    /// A sweep over `points`, which must come highest index first.
    pub fn new(points: Vec<CurvePoint>) -> (r: Sweep)
        requires
            descending(points@),
        ensures
            r.wf(),
            r.spec_points() == points@,
            r.spec_outcomes().len() == 0,
            r.spec_results().len() == 0,
            r.spec_error() is None,
    {
        let carry = if points.len() > 0 { points[0].delta } else { 0 };
        Sweep { points, next: 0, carry, results: Vec::new(), outcomes: Ghost(Seq::empty()), error: None }
    }

    /// The next point to test, with the delta to start its search from: the delta
    /// found at the previous point that found one, or the first point's own delta.
    pub fn next_point(&self) -> (r: Option<CurvePoint>)
        requires
            self.wf(),
        ensures
            self.is_over() <==> r is None,
            r matches Some(p) ==> p == (CurvePoint {
                delta: carried(self.spec_points(), self.spec_outcomes()),
                ..self.current()
            }),
    {
        if self.error.is_some() || self.next >= self.points.len() {
            None
        } else {
            let p = self.points[self.next];
            Some(CurvePoint { index: p.index, voltage: p.voltage, frequency: p.frequency, delta: self.carry })
        }
    }

    /// Records the outcome of testing the current point. A stable result is added to
    /// the accumulator; an error stops the sweep, tagged with the point's index, and
    /// keeps what was found before.
    pub fn record(&mut self, outcome: Result<Option<Found>, CalibrationError>)
        requires
            old(self).wf(),
            !old(self).is_over(),
        ensures
            final(self).wf(),
            final(self).spec_points() == old(self).spec_points(),
            outcome matches Ok(res) ==> {
                &&& final(self).spec_outcomes() == old(self).spec_outcomes().push(res)
                &&& final(self).spec_error() is None
            },
            outcome matches Err(e) ==> {
                &&& final(self).spec_outcomes() == old(self).spec_outcomes()
                &&& final(self).spec_error() == Some(SweepError { index: old(self).current().index, error: e })
            },
            final(self).spec_results() == accumulated(final(self).spec_points(), final(self).spec_outcomes()),
    {
        match outcome {
            Ok(res) => {
                let next = self.next;
                let len = self.points.len();
                assert(next < len);
                let p = self.points[next];
                let ghost o = self.outcomes@.push(res);
                assert(o.drop_last() =~= self.outcomes@);
                match res {
                    Some(f) => {
                        self.results.push(CurvePoint { index: p.index, voltage: p.voltage, frequency: f.frequency, delta: f.delta });
                        self.carry = f.delta;
                    },
                    None => {},
                }
                self.outcomes = Ghost(o);
                self.next = next + 1;
            },
            Err(e) => {
                self.error = Some(SweepError { index: self.points[self.next].index, error: e });
            },
        }
    }

    /// The error that stopped the sweep, if any.
    pub fn error(&self) -> (r: Option<SweepError>)
        ensures
            r == self.spec_error(),
    {
        self.error
    }

    /// The points found so far, in the order they were tested.
    pub fn results(&self) -> (r: &Vec<CurvePoint>)
        ensures
            r@ == self.spec_results(),
    {
        &self.results
    }

    /// Hands the accumulated curve to the caller, lowest index first, with the
    /// error that stopped the sweep, if any.
    pub fn finish(self) -> (r: (Vec<CurvePoint>, Option<SweepError>))
        requires
            self.wf(),
        ensures
            r.0@ == self.spec_results().reverse(),
            r.1 == self.spec_error(),
    {
        let mut out: Vec<CurvePoint> = Vec::new();
        let n = self.results.len();
        let mut i: usize = n;
        while i > 0
            invariant
                i <= n,
                n == self.results@.len(),
                out@ == self.results@.subrange(i as int, n as int).reverse(),
            decreases i,
        {
            i = i - 1;
            out.push(self.results[i]);
            assert(out@ =~= self.results@.subrange(i as int, n as int).reverse());
        }
        assert(self.results@.subrange(0, n as int) =~= self.results@);
        (out, self.error)
    }
}

impl CalibrationSession {
    /// Ends a run, whether it completed or stopped on an error: returns the writes that
    /// restore the device (none if it was already restored), the curve found so far,
    /// lowest index first, and the error that stopped the sweep, if any. The sweep is
    /// consumed, so its results are handed out once.
    pub fn conclude(&mut self, sweep: Sweep) -> (r: (Vec<DeviceCommand>, Vec<CurvePoint>, Option<SweepError>))
        requires
            sweep.wf(),
        ensures
            old(self).spec_phase() == Phase::Prepared ==> {
                &&& r.0@ == restore_commands(old(self).safe_point())
                &&& forall|during: DeviceSettings|
                    #![trigger apply_commands(during, r.0@)]
                    apply_commands(during, r.0@) == old(self).safe_point()
            },
            old(self).spec_phase() != Phase::Prepared ==> r.0@.len() == 0,
            final(self).spec_phase() != Phase::Prepared,
            r.1@ == accumulated(sweep.spec_points(), sweep.spec_outcomes()).reverse(),
            r.2 == sweep.spec_error(),
    {
        let cmds = self.cleanup();
        let (results, error) = sweep.finish();
        (cmds, results, error)
    }
}

} // verus!
