use vstd::prelude::*;
use crate::measure::MeasurementResult;

verus! {

/// Size of the body each baseline GET must return.
pub const BASELINE_RESPONSE_BYTES: u64 = 1048576;

/// Wall-clock length of a baseline run.
pub const BASELINE_DURATION_NS: u64 = 10000000000;

#[derive(Clone, Copy, Debug, PartialEq, Eq, Structural)]
pub enum BaselineTransferError {
    /// A response body did not have the expected size.
    WrongSize { expected: u64, got: u64 },
    /// A request failed in transport.
    Transport,
    /// The byte total no longer fits in 64 bits.
    CountOverflow,
}

/// What the driver of a baseline run observed for one request.
#[derive(Clone, Copy, Debug, PartialEq, Eq, Structural)]
pub enum BaselineEvent {
    Response { len: u64 },
    TransportError,
}

/// The event is a response of the expected size.
pub open spec fn is_good(expected: u64, e: BaselineEvent) -> bool {
    e == (BaselineEvent::Response { len: expected })
}

/// The running total after one more request; the first failure is final.
pub open spec fn baseline_next(
    expected: u64,
    o: Result<u64, BaselineTransferError>,
    e: BaselineEvent,
) -> Result<u64, BaselineTransferError> {
    match o {
        Err(x) => Err(x),
        Ok(total) => match e {
            BaselineEvent::TransportError => Err(BaselineTransferError::Transport),
            BaselineEvent::Response { len } => if len != expected {
                Err(BaselineTransferError::WrongSize { expected, got: len })
            } else if total + len > u64::MAX {
                Err(BaselineTransferError::CountOverflow)
            } else {
                Ok((total + len) as u64)
            },
        },
    }
}

/// The outcome of a baseline run that saw `evs`, from nothing transferred.
pub open spec fn baseline_outcome(expected: u64, evs: Seq<BaselineEvent>) -> Result<
    u64,
    BaselineTransferError,
>
    decreases evs.len(),
{
    if evs.len() == 0 {
        Ok(0)
    } else {
        baseline_next(expected, baseline_outcome(expected, evs.drop_last()), evs.last())
    }
}

/// A baseline run in progress: the expected body size and either the
/// bytes received so far or the failure that ended it.
#[derive(Clone, Copy, Debug)]
pub struct BaselineRun {
    pub expected: u64,
    pub outcome: Result<u64, BaselineTransferError>,
}

impl BaselineRun {
    pub fn new(expected: u64) -> (r: Self)
        ensures
            r.expected == expected,
            r.outcome == Ok::<u64, BaselineTransferError>(0),
    {
        BaselineRun { expected, outcome: Ok(0) }
    }

    /// Accounts for one request.
    pub fn record(&mut self, e: BaselineEvent)
        ensures
            final(self).expected == old(self).expected,
            final(self).outcome == baseline_next(old(self).expected, old(self).outcome, e),
    {
        if let Ok(total) = self.outcome {
            self.outcome = match e {
                BaselineEvent::TransportError => Err(BaselineTransferError::Transport),
                BaselineEvent::Response { len } => if len != self.expected {
                    Err(BaselineTransferError::WrongSize { expected: self.expected, got: len })
                } else if total > u64::MAX - len {
                    Err(BaselineTransferError::CountOverflow)
                } else {
                    Ok(total + len)
                },
            };
        }
    }

    /// Whether to issue another request: nothing failed and the run's time
    /// is not up.
    pub fn keep_going(&self, elapsed_ns: u64, duration_ns: u64) -> (r: bool)
        ensures
            r == (self.outcome is Ok && elapsed_ns < duration_ns),
    {
        self.outcome.is_ok() && elapsed_ns < duration_ns
    }

    /// The total bytes received with the wall time the run took (read when
    /// the loop stopped), or the failure that aborted the run.
    pub fn finish(self, elapsed_ns: u64) -> (r: Result<MeasurementResult, BaselineTransferError>)
        ensures
            r == (match self.outcome {
                Ok(bytes) => Ok(MeasurementResult { bytes, elapsed_ns }),
                Err(e) => Err(e),
            }),
    {
        match self.outcome {
            Ok(bytes) => Ok(MeasurementResult { bytes, elapsed_ns }),
            Err(e) => Err(e),
        }
    }
}

/// A byte count in megabytes (10^6 bytes): the whole part and the
/// thousandths.
pub fn megabytes(bytes: u64) -> (r: (u64, u64))
    ensures
        r.0 == bytes / 1000000,
        r.1 == bytes % 1000000 / 1000,
        r.0 * 1000000 + r.1 * 1000 <= bytes < r.0 * 1000000 + r.1 * 1000 + 1000,
{
    (bytes / 1000000, bytes % 1000000 / 1000)
}

/// Recording one more request moves a run from the outcome of the events so
/// far to the outcome of those events followed by it.
pub proof fn lemma_baseline_record_extends(expected: u64, evs: Seq<BaselineEvent>, e: BaselineEvent)
    ensures
        baseline_outcome(expected, evs.push(e)) == baseline_next(expected, baseline_outcome(expected, evs), e),
{
    assert(evs.push(e).drop_last() =~= evs);
}

/// A baseline run never reports a partial count: one bad response or
/// failed request anywhere makes the whole run fail, and a run of only
/// good responses reports exactly their total.
pub proof fn lemma_baseline_all_or_nothing(expected: u64, evs: Seq<BaselineEvent>)
    ensures
        (exists|i: int| 0 <= i < evs.len() && !is_good(expected, #[trigger] evs[i])) ==> baseline_outcome(
            expected,
            evs,
        ) is Err,
        (forall|i: int| 0 <= i < evs.len() ==> is_good(expected, #[trigger] evs[i])) && evs.len()
            * expected <= u64::MAX ==> baseline_outcome(expected, evs) == Ok::<
            u64,
            BaselineTransferError,
        >((evs.len() * expected) as u64),
    decreases evs.len(),
{
    if evs.len() > 0 {
        let p = evs.drop_last();
        lemma_baseline_all_or_nothing(expected, p);
        if exists|i: int| 0 <= i < evs.len() && !is_good(expected, #[trigger] evs[i]) {
            let i = choose|i: int| 0 <= i < evs.len() && !is_good(expected, #[trigger] evs[i]);
            if i < evs.len() - 1 {
                assert(p[i] == evs[i]);
            }
        }
        if (forall|i: int| 0 <= i < evs.len() ==> is_good(expected, #[trigger] evs[i])) && evs.len()
            * expected <= u64::MAX {
            assert forall|i: int| 0 <= i < p.len() implies is_good(expected, #[trigger] p[i]) by {
                assert(p[i] == evs[i]);
            }
            assert(is_good(expected, evs[evs.len() - 1]));
            assert(p.len() * expected + expected == evs.len() * expected) by (nonlinear_arith)
                requires
                    p.len() + 1 == evs.len(),
            ;
            assert(p.len() * expected <= evs.len() * expected) by (nonlinear_arith)
                requires
                    p.len() + 1 == evs.len(),
            ;
        }
    }
}

} // verus!
