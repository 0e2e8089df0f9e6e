use p2p_perf::measure::MeasurementResult;
use p2p_perf::baseline::{
    megabytes, BaselineEvent, BaselineRun, BaselineTransferError, BASELINE_DURATION_NS,
    BASELINE_RESPONSE_BYTES,
};

#[test]
fn baseline_counts_good_responses() {
    let mut run = BaselineRun::new(BASELINE_RESPONSE_BYTES);
    for _ in 0..3 {
        assert!(run.keep_going(0, BASELINE_DURATION_NS));
        run.record(BaselineEvent::Response { len: 1048576 });
    }
    assert!(!run.keep_going(BASELINE_DURATION_NS, BASELINE_DURATION_NS));
    assert_eq!(
        run.finish(10_000_500_000),
        Ok(MeasurementResult { bytes: 3 * 1048576, elapsed_ns: 10_000_500_000 })
    );
}

#[test]
fn baseline_wrong_size_aborts_whole_run() {
    let mut run = BaselineRun::new(BASELINE_RESPONSE_BYTES);
    run.record(BaselineEvent::Response { len: 1048576 });
    run.record(BaselineEvent::Response { len: 1000 });
    assert!(!run.keep_going(0, BASELINE_DURATION_NS));
    run.record(BaselineEvent::Response { len: 1048576 });
    assert_eq!(
        run.finish(7),
        Err(BaselineTransferError::WrongSize { expected: 1048576, got: 1000 })
    );
}

#[test]
fn baseline_transport_error_aborts() {
    let mut run = BaselineRun::new(BASELINE_RESPONSE_BYTES);
    run.record(BaselineEvent::TransportError);
    assert_eq!(run.finish(5), Err(BaselineTransferError::Transport));
}

#[test]
fn baseline_total_overflow_is_an_error() {
    let mut run = BaselineRun::new(u64::MAX);
    run.record(BaselineEvent::Response { len: u64::MAX });
    assert_eq!(run.finish(1), Ok(MeasurementResult { bytes: u64::MAX, elapsed_ns: 1 }));
    run.record(BaselineEvent::Response { len: u64::MAX });
    assert_eq!(run.finish(2), Err(BaselineTransferError::CountOverflow));
}

#[test]
fn baseline_empty_run_reports_zero() {
    let run = BaselineRun::new(BASELINE_RESPONSE_BYTES);
    assert_eq!(run.finish(0), Ok(MeasurementResult { bytes: 0, elapsed_ns: 0 }));
}

#[test]
fn megabytes_split() {
    assert_eq!(megabytes(1_234_567_890), (1234, 567));
    assert_eq!(megabytes(999), (0, 0));
    assert_eq!(megabytes(10 * 1048576), (10, 485));
}

#[test]
fn baseline_reset_run_does_not_affect_another() {
    let mut reset = BaselineRun::new(BASELINE_RESPONSE_BYTES);
    let mut other = BaselineRun::new(BASELINE_RESPONSE_BYTES);
    reset.record(BaselineEvent::Response { len: 1048576 });
    other.record(BaselineEvent::Response { len: 1048576 });
    reset.record(BaselineEvent::TransportError);
    other.record(BaselineEvent::Response { len: 1048576 });
    assert_eq!(reset.finish(9), Err(BaselineTransferError::Transport));
    assert_eq!(other.finish(9), Ok(MeasurementResult { bytes: 2 * 1048576, elapsed_ns: 9 }));
}
