use vstd::prelude::*;

verus! {

/// Parameters of one benchmark run.
#[derive(Clone, Copy, Debug, PartialEq, Eq, Structural)]
pub struct BenchConfig {
    /// Bytes the initiator sends over the benchmark stream.
    pub payload_bytes: u64,
    /// Largest single write.
    pub chunk_bytes: u64,
}

impl BenchConfig {
    /// A write can always make progress.
    pub open spec fn wf(&self) -> bool {
        self.chunk_bytes > 0
    }
}

/// 100 MiB sent per run unless configured otherwise.
pub const DEFAULT_PAYLOAD_BYTES: u64 = 104857600;

/// 64 KiB per write unless configured otherwise.
pub const DEFAULT_CHUNK_BYTES: u64 = 65536;

impl Default for BenchConfig {
    fn default() -> (c: Self)
        ensures
            c.payload_bytes == 104857600,
            c.chunk_bytes == 65536,
            c.wf(),
    {
        BenchConfig { payload_bytes: DEFAULT_PAYLOAD_BYTES, chunk_bytes: DEFAULT_CHUNK_BYTES }
    }
}

/// What one side measured: bytes moved and the time it took.
#[derive(Clone, Copy, Debug, PartialEq, Eq, Structural)]
pub struct MeasurementResult {
    pub bytes: u64,
    pub elapsed_ns: u64,
}

/// Throughput in bits per second, rounded down.
pub open spec fn bits_per_second(bytes: int, elapsed_ns: int) -> int {
    bytes * 8000000000 / elapsed_ns
}

/// Throughput of a result in bits per second, rounded down; `None` when no
/// time elapsed.
pub fn throughput(r: &MeasurementResult) -> (t: Option<u128>)
    ensures
        r.elapsed_ns == 0 <==> t is None,
        t matches Some(v) ==> v == bits_per_second(r.bytes as int, r.elapsed_ns as int),
{
    if r.elapsed_ns == 0 {
        return None;
    }
    let b = r.bytes as u128;
    proof {
        assert(b * 8000000000 <= 0xffff_ffff_ffff_ffffu128 * 8000000000) by (nonlinear_arith)
            requires
                b <= 0xffff_ffff_ffff_ffffu128,
        ;
    }
    Some(b * 8000000000u128 / (r.elapsed_ns as u128))
}

/// Time from `start` to `now`; a clock that went backwards counts as none.
pub open spec fn elapsed(start: u64, now: u64) -> u64 {
    if now >= start {
        (now - start) as u64
    } else {
        0
    }
}

fn elapsed_between(start: u64, now: u64) -> (e: u64)
    ensures
        e == elapsed(start, now),
{
    if now >= start {
        now - start
    } else {
        0
    }
}

#[derive(Clone, Copy, Debug, PartialEq, Eq, Structural)]
pub enum InterruptCause {
    /// The connection or the stream was reset or failed.
    Transport,
    /// The peer closed its side before all data was sent.
    PrematureClose,
    /// An event arrived that the exchange does not allow in its state.
    ProtocolViolation,
}

/// A run that ended without a result.
#[derive(Clone, Copy, Debug, PartialEq, Eq, Structural)]
pub struct TransferInterruptedError {
    pub cause: InterruptCause,
}

// ---------------------------------------------------------------- initiator

#[derive(Clone, Copy, Debug, PartialEq, Eq, Structural)]
pub enum InitiatorState {
    Idle,
    StreamOpening,
    /// Writing; the clock started when the stream opened, just before the
    /// first byte was written.
    Sending { sent: u64, started_ns: u64 },
    /// All bytes written and the write side closed; waiting for the peer's
    /// close, which alone says that it has read them all.
    Finalizing { sent: u64, started_ns: u64 },
    Done { result: MeasurementResult },
    Failed { error: TransferInterruptedError },
}

#[derive(Clone, Copy, Debug, PartialEq, Eq, Structural)]
pub enum InitiatorEvent {
    Start,
    StreamOpened { now_ns: u64 },
    /// A write of `len` bytes completed.
    Written { len: u64 },
    /// The peer half-closed its write side.
    PeerClosed { now_ns: u64 },
    TransportError,
}

#[derive(Clone, Copy, Debug, PartialEq, Eq, Structural)]
pub enum InitiatorAction {
    OpenStream,
    Write { len: u64 },
    CloseWrite,
    /// Report the result and close the stream.
    Emit { result: MeasurementResult },
    Abort { error: TransferInterruptedError },
    Nothing,
}

pub open spec fn initiator_failed(cause: InterruptCause) -> (InitiatorState, InitiatorAction) {
    let error = TransferInterruptedError { cause };
    (InitiatorState::Failed { error }, InitiatorAction::Abort { error })
}

/// Size of the next write once `sent` of the payload is out.
pub open spec fn next_chunk(cfg: BenchConfig, sent: u64) -> u64 {
    if cfg.chunk_bytes <= cfg.payload_bytes - sent {
        cfg.chunk_bytes
    } else {
        (cfg.payload_bytes - sent) as u64
    }
}

/// After `sent` bytes: wait for the peer if all are out, else write more.
pub open spec fn initiator_after_write(cfg: BenchConfig, sent: u64, started_ns: u64) -> (
    InitiatorState,
    InitiatorAction,
) {
    if sent == cfg.payload_bytes {
        (InitiatorState::Finalizing { sent, started_ns }, InitiatorAction::CloseWrite)
    } else {
        (InitiatorState::Sending { sent, started_ns }, InitiatorAction::Write { len: next_chunk(cfg, sent) })
    }
}

/// One transition of the initiator.
pub open spec fn initiator_next(cfg: BenchConfig, s: InitiatorState, e: InitiatorEvent) -> (
    InitiatorState,
    InitiatorAction,
) {
    if s is Done || s is Failed {
        (s, InitiatorAction::Nothing)
    } else if e is TransportError {
        initiator_failed(InterruptCause::Transport)
    } else {
        match (s, e) {
            (InitiatorState::Idle, InitiatorEvent::Start) => (
                InitiatorState::StreamOpening,
                InitiatorAction::OpenStream,
            ),
            (InitiatorState::StreamOpening, InitiatorEvent::StreamOpened { now_ns }) => {
                initiator_after_write(cfg, 0, now_ns)
            },
            (InitiatorState::Sending { sent, started_ns }, InitiatorEvent::Written { len }) => {
                if sent < cfg.payload_bytes && 0 < len && len <= cfg.payload_bytes - sent {
                    initiator_after_write(cfg, (sent + len) as u64, started_ns)
                } else {
                    initiator_failed(InterruptCause::ProtocolViolation)
                }
            },
            (InitiatorState::Sending { .. }, InitiatorEvent::PeerClosed { .. }) => {
                initiator_failed(InterruptCause::PrematureClose)
            },
            (InitiatorState::Finalizing { sent, started_ns }, InitiatorEvent::PeerClosed { now_ns }) => {
                let result = MeasurementResult { bytes: sent, elapsed_ns: elapsed(started_ns, now_ns) };
                (InitiatorState::Done { result }, InitiatorAction::Emit { result })
            },
            _ => initiator_failed(InterruptCause::ProtocolViolation),
        }
    }
}

fn initiator_fail(cause: InterruptCause) -> (r: (InitiatorState, InitiatorAction))
    ensures
        r == initiator_failed(cause),
{
    let error = TransferInterruptedError { cause };
    (InitiatorState::Failed { error }, InitiatorAction::Abort { error })
}

fn initiator_continue(cfg: &BenchConfig, sent: u64, started_ns: u64) -> (r: (
    InitiatorState,
    InitiatorAction,
))
    requires
        sent <= cfg.payload_bytes,
    ensures
        r == initiator_after_write(*cfg, sent, started_ns),
{
    if sent == cfg.payload_bytes {
        (InitiatorState::Finalizing { sent, started_ns }, InitiatorAction::CloseWrite)
    } else {
        let rest = cfg.payload_bytes - sent;
        let len = if cfg.chunk_bytes <= rest {
            cfg.chunk_bytes
        } else {
            rest
        };
        (InitiatorState::Sending { sent, started_ns }, InitiatorAction::Write { len })
    }
}

/// Feeds one event to the initiator: the next state and what to do.
pub fn initiator_step(cfg: &BenchConfig, s: InitiatorState, e: InitiatorEvent) -> (r: (
    InitiatorState,
    InitiatorAction,
))
    ensures
        r == initiator_next(*cfg, s, e),
{
    if matches!(s, InitiatorState::Done { .. }) || matches!(s, InitiatorState::Failed { .. }) {
        return (s, InitiatorAction::Nothing);
    }
    if matches!(e, InitiatorEvent::TransportError) {
        return initiator_fail(InterruptCause::Transport);
    }
    match (s, e) {
        (InitiatorState::Idle, InitiatorEvent::Start) => (
            InitiatorState::StreamOpening,
            InitiatorAction::OpenStream,
        ),
        (InitiatorState::StreamOpening, InitiatorEvent::StreamOpened { now_ns }) => {
            initiator_continue(cfg, 0, now_ns)
        },
        (InitiatorState::Sending { sent, started_ns }, InitiatorEvent::Written { len }) => {
            if sent < cfg.payload_bytes && 0 < len && len <= cfg.payload_bytes - sent {
                initiator_continue(cfg, sent + len, started_ns)
            } else {
                initiator_fail(InterruptCause::ProtocolViolation)
            }
        },
        (InitiatorState::Sending { .. }, InitiatorEvent::PeerClosed { .. }) => {
            initiator_fail(InterruptCause::PrematureClose)
        },
        (InitiatorState::Finalizing { sent, started_ns }, InitiatorEvent::PeerClosed { now_ns }) => {
            let result = MeasurementResult {
                bytes: sent,
                elapsed_ns: elapsed_between(started_ns, now_ns),
            };
            (InitiatorState::Done { result }, InitiatorAction::Emit { result })
        },
        _ => initiator_fail(InterruptCause::ProtocolViolation),
    }
}

/// The initiator's state after a sequence of events, from `Idle`.
pub open spec fn initiator_run(cfg: BenchConfig, evs: Seq<InitiatorEvent>) -> InitiatorState
    decreases evs.len(),
{
    if evs.len() == 0 {
        InitiatorState::Idle
    } else {
        initiator_next(cfg, initiator_run(cfg, evs.drop_last()), evs.last()).0
    }
}

/// Bytes reported written over a sequence of events.
pub open spec fn written_total(evs: Seq<InitiatorEvent>) -> int
    decreases evs.len(),
{
    if evs.len() == 0 {
        0
    } else {
        written_total(evs.drop_last()) + match evs.last() {
            InitiatorEvent::Written { len } => len as int,
            _ => 0,
        }
    }
}

/// The run reaches its result with the last of `evs`.
pub open spec fn initiator_completes(cfg: BenchConfig, evs: Seq<InitiatorEvent>) -> bool {
    evs.len() > 0 && initiator_run(cfg, evs) is Done && !(initiator_run(cfg, evs.drop_last()) is Done)
}

proof fn lemma_initiator_counts(cfg: BenchConfig, evs: Seq<InitiatorEvent>)
    ensures
        match initiator_run(cfg, evs) {
            InitiatorState::Idle => written_total(evs) == 0,
            InitiatorState::StreamOpening => written_total(evs) == 0,
            InitiatorState::Sending { sent, .. } => sent == written_total(evs) && sent < cfg.payload_bytes,
            InitiatorState::Finalizing { sent, .. } => sent == written_total(evs) && sent
                == cfg.payload_bytes,
            InitiatorState::Done { result } => result.bytes == cfg.payload_bytes,
            InitiatorState::Failed { .. } => true,
        },
        initiator_completes(cfg, evs) ==> evs.last() is PeerClosed && initiator_run(cfg, evs)->result.bytes
            == written_total(evs),
    decreases evs.len(),
{
    if evs.len() > 0 {
        lemma_initiator_counts(cfg, evs.drop_last());
    }
}

/// The initiator reports a result only once the peer has closed after all
/// of the payload was written, and the result counts every byte of it: no
/// run ever reports a truncated count.
pub proof fn lemma_initiator_result_is_complete(cfg: BenchConfig, evs: Seq<InitiatorEvent>)
    ensures
        initiator_run(cfg, evs) matches InitiatorState::Done { result } ==> result.bytes
            == cfg.payload_bytes,
        initiator_completes(cfg, evs) ==> evs.last() is PeerClosed && written_total(evs)
            == cfg.payload_bytes,
{
    lemma_initiator_counts(cfg, evs);
}

// ---------------------------------------------------------------- responder

#[derive(Clone, Copy, Debug, PartialEq, Eq, Structural)]
pub enum ResponderState {
    Idle,
    /// Reading until the initiator half-closes its write side.
    Draining { received: u64, started_ns: u64 },
    /// Everything read; closing the own write side, which tells the
    /// initiator that all bytes arrived.
    Acknowledging { report: MeasurementResult },
    Done { report: MeasurementResult },
    Failed { error: TransferInterruptedError },
}

#[derive(Clone, Copy, Debug, PartialEq, Eq, Structural)]
pub enum ResponderEvent {
    /// The benchmark stream was accepted.
    Accepted { now_ns: u64 },
    /// A read returned `len` bytes.
    Read { len: u64 },
    /// A read found the initiator's write side closed.
    PeerWriteClosed { now_ns: u64 },
    /// The own write side is closed.
    WriteClosed,
    TransportError,
}

#[derive(Clone, Copy, Debug, PartialEq, Eq, Structural)]
pub enum ResponderAction {
    Read,
    CloseWrite,
    /// Report what was received and close the stream.
    Finish { report: MeasurementResult },
    Abort { error: TransferInterruptedError },
    Nothing,
}

pub open spec fn responder_failed(cause: InterruptCause) -> (ResponderState, ResponderAction) {
    let error = TransferInterruptedError { cause };
    (ResponderState::Failed { error }, ResponderAction::Abort { error })
}

/// One transition of the responder.
pub open spec fn responder_next(s: ResponderState, e: ResponderEvent) -> (ResponderState, ResponderAction) {
    if s is Done || s is Failed {
        (s, ResponderAction::Nothing)
    } else if e is TransportError {
        responder_failed(InterruptCause::Transport)
    } else {
        match (s, e) {
            (ResponderState::Idle, ResponderEvent::Accepted { now_ns }) => (
                ResponderState::Draining { received: 0, started_ns: now_ns },
                ResponderAction::Read,
            ),
            (ResponderState::Draining { received, started_ns }, ResponderEvent::Read { len }) => {
                if 0 < len && len <= u64::MAX - received {
                    (
                        ResponderState::Draining { received: (received + len) as u64, started_ns },
                        ResponderAction::Read,
                    )
                } else {
                    responder_failed(InterruptCause::ProtocolViolation)
                }
            },
            (
                ResponderState::Draining { received, started_ns },
                ResponderEvent::PeerWriteClosed { now_ns },
            ) => {
                let report = MeasurementResult {
                    bytes: received,
                    elapsed_ns: elapsed(started_ns, now_ns),
                };
                (ResponderState::Acknowledging { report }, ResponderAction::CloseWrite)
            },
            (ResponderState::Acknowledging { report }, ResponderEvent::WriteClosed) => (
                ResponderState::Done { report },
                ResponderAction::Finish { report },
            ),
            _ => responder_failed(InterruptCause::ProtocolViolation),
        }
    }
}

fn responder_fail(cause: InterruptCause) -> (r: (ResponderState, ResponderAction))
    ensures
        r == responder_failed(cause),
{
    let error = TransferInterruptedError { cause };
    (ResponderState::Failed { error }, ResponderAction::Abort { error })
}

/// Feeds one event to the responder: the next state and what to do.
pub fn responder_step(s: ResponderState, e: ResponderEvent) -> (r: (ResponderState, ResponderAction))
    ensures
        r == responder_next(s, e),
{
    if matches!(s, ResponderState::Done { .. }) || matches!(s, ResponderState::Failed { .. }) {
        return (s, ResponderAction::Nothing);
    }
    if matches!(e, ResponderEvent::TransportError) {
        return responder_fail(InterruptCause::Transport);
    }
    match (s, e) {
        (ResponderState::Idle, ResponderEvent::Accepted { now_ns }) => (
            ResponderState::Draining { received: 0, started_ns: now_ns },
            ResponderAction::Read,
        ),
        (ResponderState::Draining { received, started_ns }, ResponderEvent::Read { len }) => {
            if 0 < len && len <= u64::MAX - received {
                (
                    ResponderState::Draining { received: received + len, started_ns },
                    ResponderAction::Read,
                )
            } else {
                responder_fail(InterruptCause::ProtocolViolation)
            }
        },
        (ResponderState::Draining { received, started_ns }, ResponderEvent::PeerWriteClosed { now_ns }) => {
            let report = MeasurementResult {
                bytes: received,
                elapsed_ns: elapsed_between(started_ns, now_ns),
            };
            (ResponderState::Acknowledging { report }, ResponderAction::CloseWrite)
        },
        (ResponderState::Acknowledging { report }, ResponderEvent::WriteClosed) => (
            ResponderState::Done { report },
            ResponderAction::Finish { report },
        ),
        _ => responder_fail(InterruptCause::ProtocolViolation),
    }
}

/// The responder's state after a sequence of events, from `Idle`.
pub open spec fn responder_run(evs: Seq<ResponderEvent>) -> ResponderState
    decreases evs.len(),
{
    if evs.len() == 0 {
        ResponderState::Idle
    } else {
        responder_next(responder_run(evs.drop_last()), evs.last()).0
    }
}

/// Bytes returned by reads over a sequence of events.
pub open spec fn read_total(evs: Seq<ResponderEvent>) -> int
    decreases evs.len(),
{
    if evs.len() == 0 {
        0
    } else {
        read_total(evs.drop_last()) + match evs.last() {
            ResponderEvent::Read { len } => len as int,
            _ => 0,
        }
    }
}

/// The run finishes with the last of `evs`.
pub open spec fn responder_completes(evs: Seq<ResponderEvent>) -> bool {
    evs.len() > 0 && responder_run(evs) is Done && !(responder_run(evs.drop_last()) is Done)
}

proof fn lemma_responder_counts(evs: Seq<ResponderEvent>)
    ensures
        match responder_run(evs) {
            ResponderState::Idle => read_total(evs) == 0,
            ResponderState::Draining { received, .. } => received == read_total(evs),
            ResponderState::Acknowledging { report } => report.bytes == read_total(evs),
            _ => true,
        },
        responder_completes(evs) ==> responder_run(evs)->Done_report.bytes == read_total(evs),
    decreases evs.len(),
{
    if evs.len() > 0 {
        lemma_responder_counts(evs.drop_last());
    }
}

/// The responder half-closes its write side only on seeing the initiator's
/// write side closed, after it has read everything, and its report counts
/// exactly the bytes it read.
pub proof fn lemma_responder_acknowledges_after_draining(evs: Seq<ResponderEvent>, e: ResponderEvent)
    ensures
        responder_next(responder_run(evs), e).1 is CloseWrite ==> e is PeerWriteClosed
            && responder_run(evs) is Draining,
        responder_completes(evs) ==> responder_run(evs)->Done_report.bytes == read_total(evs),
{
    lemma_responder_counts(evs);
}

/// When the stream delivered to the responder exactly the bytes that the
/// initiator wrote, both sides report the same byte count, the payload, and
/// over equal times the same throughput.
pub proof fn lemma_both_sides_agree(
    cfg: BenchConfig,
    sent: Seq<InitiatorEvent>,
    received: Seq<ResponderEvent>,
)
    requires
        initiator_completes(cfg, sent),
        responder_completes(received),
        read_total(received) == written_total(sent),
    ensures
        initiator_run(cfg, sent)->result.bytes == responder_run(received)->Done_report.bytes,
        responder_run(received)->Done_report.bytes == cfg.payload_bytes,
        initiator_run(cfg, sent)->result.elapsed_ns == responder_run(received)->Done_report.elapsed_ns
            ==> initiator_run(cfg, sent)->result == responder_run(received)->Done_report,
{
    lemma_initiator_counts(cfg, sent);
    lemma_responder_counts(received);
}

proof fn lemma_initiator_failure_absorbs(cfg: BenchConfig, evs: Seq<InitiatorEvent>, j: int)
    requires
        0 <= j <= evs.len(),
        initiator_run(cfg, evs.take(j)) is Failed,
    ensures
        initiator_run(cfg, evs) is Failed,
    decreases evs.len() - j,
{
    if j < evs.len() {
        assert(evs.take(j + 1).drop_last() =~= evs.take(j));
        lemma_initiator_failure_absorbs(cfg, evs, j + 1);
    } else {
        assert(evs.take(j) =~= evs);
    }
}

/// A transport error before the result ends the initiator's run for good:
/// it never reports a result afterwards. Once it has reported, no further
/// event makes it report again.
pub proof fn lemma_initiator_interrupt_is_final(cfg: BenchConfig, evs: Seq<InitiatorEvent>, i: int)
    requires
        0 <= i < evs.len(),
        evs[i] is TransportError,
        !(initiator_run(cfg, evs.take(i)) is Done),
    ensures
        initiator_run(cfg, evs) is Failed,
        forall|e: InitiatorEvent| (#[trigger] initiator_next(cfg, initiator_run(cfg, evs), e)).1 is Nothing,
{
    assert(evs.take(i + 1).drop_last() =~= evs.take(i));
    lemma_initiator_failure_absorbs(cfg, evs, i + 1);
}

/// A result is emitted exactly on the step that completes the run, and a
/// completed run stays completed without emitting again.
pub proof fn lemma_initiator_emits_once(cfg: BenchConfig, s: InitiatorState, e: InitiatorEvent)
    ensures
        initiator_next(cfg, s, e).1 is Emit <==> (!(s is Done) && initiator_next(cfg, s, e).0 is Done),
        s is Done ==> initiator_next(cfg, s, e) == (s, InitiatorAction::Nothing),
{
}

proof fn lemma_responder_failure_absorbs(evs: Seq<ResponderEvent>, j: int)
    requires
        0 <= j <= evs.len(),
        responder_run(evs.take(j)) is Failed,
    ensures
        responder_run(evs) is Failed,
    decreases evs.len() - j,
{
    if j < evs.len() {
        assert(evs.take(j + 1).drop_last() =~= evs.take(j));
        lemma_responder_failure_absorbs(evs, j + 1);
    } else {
        assert(evs.take(j) =~= evs);
    }
}

/// A transport error before the responder finished ends its run for good,
/// without a report. Each responder's run depends on its own events alone,
/// so this touches no other run.
pub proof fn lemma_responder_interrupt_is_final(evs: Seq<ResponderEvent>, i: int)
    requires
        0 <= i < evs.len(),
        evs[i] is TransportError,
        !(responder_run(evs.take(i)) is Done),
    ensures
        responder_run(evs) is Failed,
        forall|e: ResponderEvent| (#[trigger] responder_next(responder_run(evs), e)).1 is Nothing,
{
    assert(evs.take(i + 1).drop_last() =~= evs.take(i));
    lemma_responder_failure_absorbs(evs, i + 1);
}

} // verus!
