//! The simulation harness: after a fixture has been replayed, it reads the
//! submission side's progress signals and decides whether the run reached
//! the expected height.
use vstd::prelude::*;

verus! {

/// Progress report from the submission side: one per processed header
/// (`terminated == false`, with its height), or one at shutdown
/// (`terminated == true`, height 0).
#[derive(Clone, Copy, Debug, PartialEq, Eq, Structural)]
pub struct MonitoringSignal {
    pub terminated: bool,
    pub height: u64,
}

/// What one non-blocking receive on a channel gave.
#[derive(Clone, Copy, Debug, PartialEq, Eq, Structural)]
pub enum Poll<T> {
    Item(T),
    Empty,
    Disconnected,
}

#[derive(Clone, Copy, Debug, PartialEq, Eq, Structural)]
pub enum HarnessError {
    /// The run ended below or beyond the expected height.
    HeightMismatch { expected: u64, actual: u64 },
    /// The monitoring channel's sending end went away.
    MonitoringDisconnected,
}

/// What the harness does after a poll.
#[derive(Clone, Copy, Debug, PartialEq, Eq, Structural)]
pub enum HarnessStep {
    /// Nothing arrived: wait one idle interval and poll again.
    Wait,
    /// A header was reported and more are due: poll again.
    Continue,
    /// The run is over and reached the expected height.
    Succeeded(u64),
    /// The run is over and failed.
    Failed(HarnessError),
}

#[derive(Clone, Copy, Debug, PartialEq, Eq, Structural)]
pub struct Harness {
    pub expected_height: u64,
    pub total_headers: usize,
    pub ingested: usize,
    pub last_height: u64,
}

/// The verdict on a run that ended at `actual`.
pub open spec fn verdict(expected: u64, actual: u64) -> HarnessStep {
    if actual == expected {
        HarnessStep::Succeeded(actual)
    } else {
        HarnessStep::Failed(HarnessError::HeightMismatch { expected, actual })
    }
}

impl HarnessStep {
    pub open spec fn is_final(self) -> bool {
        self is Succeeded || self is Failed
    }
}

impl Harness {
    /// Still waiting: fewer headers reported than the fixture held.
    pub open spec fn wf(self) -> bool {
        self.ingested < self.total_headers
    }

    /// The state and the decision after one poll.
    pub open spec fn next(self, p: Poll<MonitoringSignal>) -> (Harness, HarnessStep) {
        match p {
            Poll::Empty => (self, HarnessStep::Wait),
            Poll::Disconnected => (self, HarnessStep::Failed(HarnessError::MonitoringDisconnected)),
            Poll::Item(s) => {
                let h = if s.terminated {
                    self
                } else {
                    Harness { ingested: (self.ingested + 1) as usize, last_height: s.height, ..self }
                };
                if s.terminated || h.ingested == h.total_headers {
                    (h, verdict(h.expected_height, h.last_height))
                } else {
                    (h, HarnessStep::Continue)
                }
            },
        }
    }

    /// The decision after a run of signals, none of them before this state:
    /// the first decision that finishes, or `Continue` if none does.
    pub open spec fn run(self, sigs: Seq<MonitoringSignal>) -> HarnessStep
        decreases sigs.len(),
    {
        if sigs.len() == 0 {
            HarnessStep::Continue
        } else {
            let (h, st) = self.next(Poll::Item(sigs[0]));
            if st.is_final() {
                st
            } else {
                h.run(sigs.drop_first())
            }
        }
    }

    /// A harness for a fixture of `total_headers` headers that should bring
    /// the other side to `expected_height`.
    pub fn new(expected_height: u64, total_headers: usize) -> (r: Harness)
        requires
            total_headers > 0,
        ensures
            r.wf(),
            r == (Harness { expected_height, total_headers, ingested: 0, last_height: 0 }),
    {
        Harness { expected_height, total_headers, ingested: 0, last_height: 0 }
    }

    /// Takes what one poll of the monitoring channel gave.
    pub fn on_poll(&mut self, p: Poll<MonitoringSignal>) -> (r: HarnessStep)
        requires
            old(self).wf(),
        ensures
            (*final(self), r) == old(self).next(p),
            !(r.is_final()) ==> final(self).wf(),
    {
        match p {
            Poll::Empty => HarnessStep::Wait,
            Poll::Disconnected => HarnessStep::Failed(HarnessError::MonitoringDisconnected),
            Poll::Item(s) => {
                if !s.terminated {
                    self.ingested = self.ingested + 1;
                    self.last_height = s.height;
                }
                if s.terminated || self.ingested == self.total_headers {
                    if self.last_height == self.expected_height {
                        HarnessStep::Succeeded(self.last_height)
                    } else {
                        HarnessStep::Failed(
                            HarnessError::HeightMismatch {
                                expected: self.expected_height,
                                actual: self.last_height,
                            },
                        )
                    }
                } else {
                    HarnessStep::Continue
                }
            },
        }
    }
}

proof fn lemma_all_reported(h: Harness, sigs: Seq<MonitoringSignal>)
    requires
        sigs.len() > 0,
        h.ingested + sigs.len() == h.total_headers,
        forall|i: int| 0 <= i < sigs.len() ==> !(#[trigger] sigs[i]).terminated,
    ensures
        h.run(sigs) == verdict(h.expected_height, sigs.last().height),
    decreases sigs.len(),
{
    if sigs.len() > 1 {
        let (h2, st) = h.next(Poll::Item(sigs[0]));
        assert(!(st.is_final()));
        let rest = sigs.drop_first();
        assert forall|i: int| 0 <= i < rest.len() implies !(#[trigger] rest[i]).terminated by {
            assert(rest[i] == sigs[i + 1]);
        }
        lemma_all_reported(h2, rest);
    }
}

/// A fixture of N headers, each reported by the other side without a
/// shutdown signal, succeeds exactly when the last reported height is the
/// expected one, and otherwise fails naming both heights.
pub proof fn lemma_run_verdict(expected_height: u64, sigs: Seq<MonitoringSignal>)
    requires
        0 < sigs.len() <= usize::MAX,
        forall|i: int| 0 <= i < sigs.len() ==> !(#[trigger] sigs[i]).terminated,
    ensures
        (Harness {
            expected_height,
            total_headers: sigs.len() as usize,
            ingested: 0,
            last_height: 0,
        }).run(sigs) == verdict(expected_height, sigs.last().height),
        (sigs.last().height == expected_height) ==> (Harness {
            expected_height,
            total_headers: sigs.len() as usize,
            ingested: 0,
            last_height: 0,
        }).run(sigs) == HarnessStep::Succeeded(expected_height),
        (sigs.last().height != expected_height) ==> (Harness {
            expected_height,
            total_headers: sigs.len() as usize,
            ingested: 0,
            last_height: 0,
        }).run(sigs) == HarnessStep::Failed(
            HarnessError::HeightMismatch { expected: expected_height, actual: sigs.last().height },
        ),
{
    let h = Harness { expected_height, total_headers: sigs.len() as usize, ingested: 0, last_height: 0 };
    lemma_all_reported(h, sigs);
}

/// A shutdown signal ends the wait at once, before all headers are
/// reported: the verdict goes by the last height reported before it, or by
/// the state's own last height if none was.
pub proof fn lemma_early_termination(h: Harness, reported: Seq<MonitoringSignal>, rest: Seq<MonitoringSignal>)
    requires
        h.ingested + reported.len() < h.total_headers,
        forall|i: int| 0 <= i < reported.len() ==> !(#[trigger] reported[i]).terminated,
        rest.len() > 0,
        rest[0].terminated,
    ensures
        h.run(reported + rest) == verdict(
            h.expected_height,
            if reported.len() == 0 {
                h.last_height
            } else {
                reported.last().height
            },
        ),
    decreases reported.len(),
{
    let all = reported + rest;
    if reported.len() == 0 {
        assert(all =~= rest);
    } else {
        let (h2, st) = h.next(Poll::Item(all[0]));
        assert(all[0] == reported[0]);
        assert(!(st.is_final()));
        let r2 = reported.drop_first();
        assert forall|i: int| 0 <= i < r2.len() implies !(#[trigger] r2[i]).terminated by {
            assert(r2[i] == reported[i + 1]);
        }
        assert(all.drop_first() =~= r2 + rest);
        lemma_early_termination(h2, r2, rest);
        if r2.len() > 0 {
            assert(r2.last() == reported.last());
        }
    }
}

} // verus!
