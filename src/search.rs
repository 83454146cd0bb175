use vstd::prelude::*;
use crate::session::{CalibrationError, CalibrationSession, Phase};

verus! {

/// How many inconclusive readings one candidate may give before it counts as unstable.
pub const INCONCLUSIVE_ATTEMPTS: u32 = 3;

/// A finished candidate of a search: the delta tried and whether it held.
#[derive(Clone, Copy, Debug, PartialEq, Eq, Structural)]
pub struct Probe {
    pub delta: i32,
    pub stable: bool,
}

/// The best stable offset found at a point, and the frequency it gives.
#[derive(Clone, Copy, Debug, PartialEq, Eq, Structural)]
pub struct Found {
    pub delta: i32,
    pub frequency: u32,
}

/// What one test cycle at a candidate reported.
#[derive(Clone, Copy, Debug, PartialEq, Eq, Structural)]
pub enum TestOutcome {
    /// The load ran and the candidate frequency held.
    Stable,
    /// The point crashed or throttled under load.
    Unstable,
    /// No load was seen, or telemetry could not be sampled.
    Inconclusive,
    /// The workload process reported failure.
    WorkloadFailure,
    /// The driver reset during the test.
    DriverReset,
    /// The device could not be reached.
    HardwareError,
}

/// What the holder of the device does next for a point.
#[derive(Clone, Copy, Debug, PartialEq, Eq, Structural)]
pub enum SearchStep {
    /// Lock point `index` at `delta`, wait `settle_ms`, then run one test cycle at
    /// `voltage` and `frequency`, and report its outcome.
    Test { index: usize, voltage: u32, delta: i32, frequency: u32, settle_ms: u64 },
    /// Re-establish the device handle after a driver reset and report whether it responds.
    Recover,
    /// The search is over: the best stable delta and its frequency, if any.
    Done(Option<Found>),
    /// The search hit an unrecoverable error.
    Failed(CalibrationError),
}

#[derive(Clone, Copy, Debug, PartialEq, Eq, Structural)]
pub enum Stage {
    Testing,
    Recovering,
    Over,
}

/// A frequency `base + delta` may be tested: it is within the ceiling and the delta fits.
pub open spec fn in_range(base: u32, delta: int, ceiling: u32) -> bool {
    delta <= i32::MAX && base + delta <= ceiling
}

/// The probes start at `start`, go up by exactly `step`, and stay within the ceiling.
pub open spec fn probes_follow(probes: Seq<Probe>, start: i32, step: i32, base: u32, ceiling: u32) -> bool {
    &&& probes.len() > 0 ==> probes[0].delta == start
    &&& forall|j: int| 0 < j < probes.len() ==> #[trigger] probes[j].delta == probes[j - 1].delta + step
    &&& forall|j: int| 0 <= j < probes.len() ==> in_range(base, #[trigger] probes[j].delta as int, ceiling)
}

/// A finished search: every probe but the last held, and it stopped at the first
/// unstable probe or because the next candidate would pass the ceiling.
pub open spec fn probes_complete(probes: Seq<Probe>, start: i32, step: i32, base: u32, ceiling: u32) -> bool {
    &&& probes_follow(probes, start, step, base, ceiling)
    &&& forall|j: int| 0 <= j < probes.len() - 1 ==> (#[trigger] probes[j]).stable
    &&& if probes.len() == 0 {
        !in_range(base, start as int, ceiling)
    } else {
        !probes.last().stable || !in_range(base, probes.last().delta + step, ceiling)
    }
}

/// `best` is the largest delta among the stable probes, or `None` when no probe held.
pub open spec fn is_best(probes: Seq<Probe>, best: Option<i32>) -> bool {
    match best {
        None => forall|j: int| 0 <= j < probes.len() ==> !(#[trigger] probes[j]).stable,
        Some(d) => {
            &&& exists|j: int| 0 <= j < probes.len() && (#[trigger] probes[j]).stable && probes[j].delta == d
            &&& forall|j: int| 0 <= j < probes.len() && (#[trigger] probes[j]).stable ==> probes[j].delta <= d
        },
    }
}

/// The offset of a result, if any.
pub open spec fn delta_of(res: Option<Found>) -> Option<i32> {
    match res {
        Some(x) => Some(x.delta),
        None => None,
    }
}

/// The stepwise search for the highest stable delta at one curve point.
pub struct PointSearch {
    index: usize,
    voltage: u32,
    base_frequency: u32,
    starting_delta: i32,
    step: i32,
    ceiling: u32,
    settle_ms: u64,
    candidate: i32,
    attempts: u32,
    probes: Vec<Probe>,
    stage: Stage,
}

impl PointSearch {
    pub closed spec fn spec_index(&self) -> usize { self.index }
    pub closed spec fn spec_voltage(&self) -> u32 { self.voltage }
    pub closed spec fn spec_base(&self) -> u32 { self.base_frequency }
    pub closed spec fn spec_start(&self) -> i32 { self.starting_delta }
    pub closed spec fn spec_step(&self) -> i32 { self.step }
    pub closed spec fn spec_ceiling(&self) -> u32 { self.ceiling }
    pub closed spec fn spec_settle_ms(&self) -> u64 { self.settle_ms }
    pub closed spec fn spec_candidate(&self) -> i32 { self.candidate }
    pub closed spec fn spec_attempts(&self) -> u32 { self.attempts }
    pub closed spec fn spec_probes(&self) -> Seq<Probe> { self.probes@ }
    pub closed spec fn spec_stage(&self) -> Stage { self.stage }

    /// The test command for the current candidate.
    pub open spec fn test_step(&self) -> SearchStep {
        SearchStep::Test {
            index: self.spec_index(),
            voltage: self.spec_voltage(),
            delta: self.spec_candidate(),
            frequency: (self.spec_base() + self.spec_candidate()) as u32,
            settle_ms: self.spec_settle_ms(),
        }
    }

    /// The best stable delta among the probes, with its frequency.
    pub open spec fn best(&self) -> Option<Found> {
        let p = self.spec_probes();
        if p.len() > 0 && p.last().stable {
            Some(Found { delta: p.last().delta, frequency: (self.spec_base() + p.last().delta) as u32 })
        } else if p.len() > 1 {
            Some(Found { delta: p[p.len() - 2].delta, frequency: (self.spec_base() + p[p.len() - 2].delta) as u32 })
        } else {
            None
        }
    }

    pub closed spec fn wf(&self) -> bool {
        let p = self.probes@;
        &&& self.step > 0
        &&& probes_follow(p, self.starting_delta, self.step, self.base_frequency, self.ceiling)
        &&& forall|i: int, j: int| 0 <= i < j < p.len() ==> p[i].delta < p[j].delta
        &&& self.stage != Stage::Over ==> {
            &&& self.base_frequency + self.starting_delta >= 0
            &&& forall|j: int| 0 <= j < p.len() ==> (#[trigger] p[j]).stable
            &&& self.candidate == if p.len() == 0 {
                self.starting_delta as int
            } else {
                p.last().delta + self.step
            }
            &&& in_range(self.base_frequency, self.candidate as int, self.ceiling)
            &&& self.attempts < INCONCLUSIVE_ATTEMPTS
        }
    }

    /// What a finished step promises about the probes and the result.
    pub open spec fn finished(&self, r: SearchStep) -> bool {
        r matches SearchStep::Done(res) ==> {
            &&& self.spec_stage() == Stage::Over
            &&& probes_complete(
                self.spec_probes(),
                self.spec_start(),
                self.spec_step(),
                self.spec_base(),
                self.spec_ceiling(),
            )
            &&& is_best(self.spec_probes(), delta_of(res))
            &&& res matches Some(x) ==> x.frequency == self.spec_base() + x.delta
            &&& res == self.best()
        }
    }

    /// The parameters of the search do not change.
    pub open spec fn same_point(&self, o: &PointSearch) -> bool {
        &&& self.spec_index() == o.spec_index()
        &&& self.spec_voltage() == o.spec_voltage()
        &&& self.spec_base() == o.spec_base()
        &&& self.spec_start() == o.spec_start()
        &&& self.spec_step() == o.spec_step()
        &&& self.spec_ceiling() == o.spec_ceiling()
        &&& self.spec_settle_ms() == o.spec_settle_ms()
    }

    pub fn stage(&self) -> (r: Stage)
        ensures
            r == self.spec_stage(),
    {
        self.stage
    }

    /// The candidates finished so far, in the order they were tested.
    pub fn probes(&self) -> (r: &Vec<Probe>)
        ensures
            r@ == self.spec_probes(),
    {
        &self.probes
    }

    proof fn lemma_best(&self)
        requires
            self.wf(),
            self.spec_stage() == Stage::Over,
            forall|j: int| 0 <= j < self.spec_probes().len() - 1 ==> (#[trigger] self.spec_probes()[j]).stable,
        ensures
            is_best(self.spec_probes(), delta_of(self.best())),
    {
        let p = self.probes@;
        if p.len() > 0 && p.last().stable {
            assert(p[p.len() - 1].stable);
        } else if p.len() > 1 {
            let k = p.len() - 2;
            assert(p[k].stable);
            assert forall|j: int| 0 <= j < p.len() && (#[trigger] p[j]).stable implies p[j].delta <= p[k].delta by {
                if j != k && j != p.len() - 1 {
                    assert(p[j].delta < p[k].delta);
                }
            }
        } else if p.len() == 1 {
            assert(!p[0].stable);
        }
    }

    /// Ends the search after an unstable candidate (or one that counts as unstable).
    fn fail_candidate(&mut self) -> (r: SearchStep)
        requires
            old(self).wf(),
            old(self).spec_stage() != Stage::Over,
        ensures
            final(self).wf(),
            final(self).same_point(old(self)),
            final(self).spec_probes() == old(self).spec_probes().push(
                Probe { delta: old(self).spec_candidate(), stable: false },
            ),
            r == SearchStep::Done(final(self).best()),
            final(self).finished(r),
    {
        let ghost p0 = self.probes@;
        let n = self.probes.len();
        let best: Option<Found> = if n == 0 {
            None
        } else {
            let d = self.probes[n - 1].delta;
            Some(Found { delta: d, frequency: (self.base_frequency as i64 + d as i64) as u32 })
        };
        self.probes.push(Probe { delta: self.candidate, stable: false });
        self.stage = Stage::Over;
        let ghost p = self.probes@;
        assert(p[p.len() - 1] == Probe { delta: self.candidate, stable: false });
        assert forall|j: int| 0 <= j < p.len() - 1 implies (#[trigger] p[j]).stable by {
            assert(p[j] == p0[j]);
        }
        assert forall|i: int, j: int| 0 <= i < j < p.len() implies p[i].delta < p[j].delta by {
            if j == p.len() - 1 && i < p0.len() {
                if p0.len() > 0 {
                    assert(p0[i].delta <= p0[p0.len() - 1].delta);
                }
            }
        }
        assert(probes_follow(p, self.starting_delta, self.step, self.base_frequency, self.ceiling)) by {
            assert forall|j: int| 0 < j < p.len() implies #[trigger] p[j].delta == p[j - 1].delta + self.step by {
                if j < p.len() - 1 {
                    assert(p[j] == p0[j] && p[j - 1] == p0[j - 1]);
                }
            }
            assert forall|j: int| 0 <= j < p.len() implies in_range(self.base_frequency, #[trigger] p[j].delta as int, self.ceiling) by {
                if j < p.len() - 1 {
                    assert(p[j] == p0[j]);
                }
            }
        }
        proof {
            self.lemma_best();
        }
        SearchStep::Done(best)
    }

    /// Feeds the outcome of the test cycle just run and returns what to do next.
    /// A stable candidate moves on by one step, unless the next would pass the
    /// ceiling; an unstable one, a failed workload, or too many inconclusive readings
    /// end the search; a driver reset asks for recovery first.
    pub fn on_outcome(&mut self, o: TestOutcome) -> (r: SearchStep)
        requires
            old(self).wf(),
            old(self).spec_stage() == Stage::Testing,
        ensures
            final(self).wf(),
            final(self).same_point(old(self)),
            final(self).finished(r),
            o == TestOutcome::Stable ==> {
                let d = old(self).spec_candidate();
                &&& final(self).spec_probes() == old(self).spec_probes().push(Probe { delta: d, stable: true })
                &&& if in_range(old(self).spec_base(), d + old(self).spec_step(), old(self).spec_ceiling()) {
                    &&& final(self).spec_stage() == Stage::Testing
                    &&& final(self).spec_candidate() == d + old(self).spec_step()
                    &&& final(self).spec_attempts() == 0
                    &&& r == final(self).test_step()
                } else {
                    r == SearchStep::Done(Some(Found { delta: d, frequency: (old(self).spec_base() + d) as u32 }))
                }
            },
            (o == TestOutcome::Unstable || o == TestOutcome::WorkloadFailure || (o
                == TestOutcome::Inconclusive && old(self).spec_attempts() + 1 >= INCONCLUSIVE_ATTEMPTS))
                ==> {
                &&& final(self).spec_probes() == old(self).spec_probes().push(
                    Probe { delta: old(self).spec_candidate(), stable: false },
                )
                &&& r == SearchStep::Done(final(self).best())
            },
            (o == TestOutcome::Inconclusive && old(self).spec_attempts() + 1 < INCONCLUSIVE_ATTEMPTS) ==> {
                &&& final(self).spec_probes() == old(self).spec_probes()
                &&& final(self).spec_stage() == Stage::Testing
                &&& final(self).spec_candidate() == old(self).spec_candidate()
                &&& final(self).spec_attempts() == old(self).spec_attempts() + 1
                &&& r == final(self).test_step()
            },
            o == TestOutcome::DriverReset ==> {
                &&& final(self).spec_probes() == old(self).spec_probes()
                &&& final(self).spec_stage() == Stage::Recovering
                &&& final(self).spec_candidate() == old(self).spec_candidate()
                &&& r == SearchStep::Recover
            },
            o == TestOutcome::HardwareError ==> {
                &&& final(self).spec_probes() == old(self).spec_probes()
                &&& final(self).spec_stage() == Stage::Over
                &&& r == SearchStep::Failed(CalibrationError::Hardware)
            },
    {
        match o {
            TestOutcome::Stable => {
                let ghost p0 = self.probes@;
                let d = self.candidate;
                self.probes.push(Probe { delta: d, stable: true });
                let ghost p = self.probes@;
                assert(p[p.len() - 1].delta == d);
                assert forall|i: int, j: int| 0 <= i < j < p.len() implies p[i].delta < p[j].delta by {
                    if j == p.len() - 1 && i < p0.len() {
                        assert(p0[i].delta <= p0[p0.len() - 1].delta);
                    }
                }
                assert(probes_follow(p, self.starting_delta, self.step, self.base_frequency, self.ceiling)) by {
                    assert forall|j: int| 0 < j < p.len() implies #[trigger] p[j].delta == p[j - 1].delta + self.step by {
                        if j < p.len() - 1 {
                            assert(p[j] == p0[j] && p[j - 1] == p0[j - 1]);
                        }
                    }
                    assert forall|j: int| 0 <= j < p.len() implies in_range(self.base_frequency, #[trigger] p[j].delta as int, self.ceiling) by {
                        if j < p.len() - 1 {
                            assert(p[j] == p0[j]);
                        }
                    }
                }
                assert forall|j: int| 0 <= j < p.len() implies (#[trigger] p[j]).stable by {
                    if j < p.len() - 1 {
                        assert(p[j] == p0[j]);
                    }
                }
                let next: i64 = d as i64 + self.step as i64;
                if next <= i32::MAX as i64 && self.base_frequency as i64 + next <= self.ceiling as i64 {
                    self.candidate = next as i32;
                    self.attempts = 0;
                    SearchStep::Test {
                        index: self.index,
                        voltage: self.voltage,
                        delta: self.candidate,
                        frequency: (self.base_frequency as i64 + next) as u32,
                        settle_ms: self.settle_ms,
                    }
                } else {
                    self.stage = Stage::Over;
                    proof {
                        self.lemma_best();
                    }
                    SearchStep::Done(Some(Found { delta: d, frequency: (self.base_frequency as i64 + d as i64) as u32 }))
                }
            },
            TestOutcome::Unstable | TestOutcome::WorkloadFailure => self.fail_candidate(),
            TestOutcome::Inconclusive => {
                if self.attempts + 1 >= INCONCLUSIVE_ATTEMPTS {
                    self.fail_candidate()
                } else {
                    self.attempts = self.attempts + 1;
                    SearchStep::Test {
                        index: self.index,
                        voltage: self.voltage,
                        delta: self.candidate,
                        frequency: (self.base_frequency as i64 + self.candidate as i64) as u32,
                        settle_ms: self.settle_ms,
                    }
                }
            },
            TestOutcome::DriverReset => {
                self.stage = Stage::Recovering;
                SearchStep::Recover
            },
            TestOutcome::HardwareError => {
                self.stage = Stage::Over;
                SearchStep::Failed(CalibrationError::Hardware)
            },
        }
    }

    /// Feeds the result of recovering after a driver reset. A device that responds
    /// again makes the reset count as an unstable candidate; one that does not ends
    /// the search with a hardware error.
    pub fn on_recovery(&mut self, responsive: bool) -> (r: SearchStep)
        requires
            old(self).wf(),
            old(self).spec_stage() == Stage::Recovering,
        ensures
            final(self).wf(),
            final(self).same_point(old(self)),
            final(self).finished(r),
            responsive ==> {
                &&& final(self).spec_probes() == old(self).spec_probes().push(
                    Probe { delta: old(self).spec_candidate(), stable: false },
                )
                &&& r == SearchStep::Done(final(self).best())
            },
            !responsive ==> {
                &&& final(self).spec_probes() == old(self).spec_probes()
                &&& final(self).spec_stage() == Stage::Over
                &&& r == SearchStep::Failed(CalibrationError::Hardware)
            },
    {
        if responsive {
            self.fail_candidate()
        } else {
            self.stage = Stage::Over;
            SearchStep::Failed(CalibrationError::Hardware)
        }
    }
}

impl CalibrationSession {
    /// Starts the search at one curve point from `starting_delta`, and returns it with
    /// its first step: a test of the starting delta, or `Done(None)` when even that
    /// passes the ceiling. A point whose starting frequency is below zero is a
    /// configuration error.
    pub fn test_point(&self, index: usize, voltage: u32, base_frequency: u32, starting_delta: i32) -> (r: (
        PointSearch,
        SearchStep,
    ))
        requires
            self.wf(),
            self.spec_phase() == Phase::Prepared,
        ensures
            r.0.wf(),
            r.0.spec_index() == index,
            r.0.spec_voltage() == voltage,
            r.0.spec_base() == base_frequency,
            r.0.spec_start() == starting_delta,
            r.0.spec_step() == self.spec_step(),
            r.0.spec_ceiling() == self.spec_ceiling(),
            r.0.spec_settle_ms() == self.spec_settle_ms(),
            r.0.spec_probes().len() == 0,
            r.0.finished(r.1),
            base_frequency + starting_delta < 0 ==> r.1 == SearchStep::Failed(CalibrationError::Configuration),
            base_frequency + starting_delta >= 0 ==> if in_range(base_frequency, starting_delta as int, self.spec_ceiling()) {
                &&& r.0.spec_stage() == Stage::Testing
                &&& r.0.spec_candidate() == starting_delta
                &&& r.0.spec_attempts() == 0
                &&& r.1 == r.0.test_step()
            } else {
                r.1 == SearchStep::Done(None)
            },
    {
        let opts = self.options();
        let mut s = PointSearch {
            index,
            voltage,
            base_frequency,
            starting_delta,
            step: opts.step,
            ceiling: opts.frequency_ceiling,
            settle_ms: opts.voltage_settle_delay_ms,
            candidate: starting_delta,
            attempts: 0,
            probes: Vec::new(),
            stage: Stage::Testing,
        };
        let start_frequency: i64 = base_frequency as i64 + starting_delta as i64;
        if start_frequency < 0 {
            s.stage = Stage::Over;
            return (s, SearchStep::Failed(CalibrationError::Configuration));
        }
        if start_frequency <= opts.frequency_ceiling as i64 {
            (s, SearchStep::Test {
                index,
                voltage,
                delta: starting_delta,
                frequency: start_frequency as u32,
                settle_ms: opts.voltage_settle_delay_ms,
            })
        } else {
            s.stage = Stage::Over;
            (s, SearchStep::Done(None))
        }
    }
}

} // verus!
