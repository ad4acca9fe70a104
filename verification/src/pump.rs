//! The read loop: drain the chunked-read protocol into an image sink,
//! distinguishing "more data later" from "end of data" from "fatal
//! failure", and account for every byte committed to the sink.
use vstd::prelude::*;

use crate::errors::ScanError;
use crate::params::ScanParameters;
use crate::session::ChunkResult;
use crate::session::OptionRequest;
use crate::session::Session;
use crate::session::SessionState;
use crate::session::SessionView;
use crate::session::spec_apply_all;
use crate::session::spec_start;
use crate::sink::ImageSink;
use crate::sink::advance_pos;
use crate::sink::header_bytes;
use crate::sink::kept_bytes;
use crate::sink::max_sample_spec;
use crate::sink::next_pos;

verus! {

/// One transport response in a read loop, payload included.
#[derive(Clone, Debug)]
pub enum ChunkEvent {
    /// The transport produced these bytes; an empty payload is a valid,
    /// non-terminal outcome.
    Data(Vec<u8>),
    /// No more bytes will ever be produced for this scan.
    EndOfData,
    /// A fatal transport failure.
    Failure(ScanError),
}

/// How a read loop left the scan.
#[derive(Clone, Copy, Debug, PartialEq, Eq, Structural)]
pub enum PumpStatus {
    /// End-of-data was reached; the scan is complete.
    Finished,
    /// A transport failure stopped the loop; the session is in `Error` and
    /// must be closed and reopened before another attempt.
    Failed(ScanError),
    /// The events ran out without a terminal one; the scan is still
    /// running and further reads are expected.
    NeedMore,
}

/// What a read loop reports: the bytes committed to the sink — the partial
/// count survives a failure — and how the loop stopped.
#[derive(Clone, Copy, Debug, PartialEq, Eq, Structural)]
pub struct PumpReport {
    pub total: u64,
    pub status: PumpStatus,
}

/// The sum of the payload lengths delivered before the first terminal
/// event.
pub open spec fn data_total(evs: Seq<ChunkEvent>) -> int
    decreases evs.len(),
{
    if evs.len() == 0 {
        0
    } else {
        match evs[0] {
            ChunkEvent::Data(v) => v@.len() + data_total(evs.drop_first()),
            _ => 0,
        }
    }
}

/// The payload bytes delivered before the first terminal event, in order.
pub open spec fn data_concat(evs: Seq<ChunkEvent>) -> Seq<u8>
    decreases evs.len(),
{
    if evs.len() == 0 {
        Seq::empty()
    } else {
        match evs[0] {
            ChunkEvent::Data(v) => v@ + data_concat(evs.drop_first()),
            _ => Seq::empty(),
        }
    }
}

/// How a stream of events ends: with the first terminal event, or not yet.
pub open spec fn stream_status(evs: Seq<ChunkEvent>) -> PumpStatus
    decreases evs.len(),
{
    if evs.len() == 0 {
        PumpStatus::NeedMore
    } else {
        match evs[0] {
            ChunkEvent::Data(_) => stream_status(evs.drop_first()),
            ChunkEvent::EndOfData => PumpStatus::Finished,
            ChunkEvent::Failure(k) => PumpStatus::Failed(k),
        }
    }
}

/// The session state a read loop leaves behind for each way it can stop.
pub open spec fn status_state(st: PumpStatus) -> SessionState {
    match st {
        PumpStatus::Finished => SessionState::Draining,
        PumpStatus::Failed(_) => SessionState::Error,
        PumpStatus::NeedMore => SessionState::Scanning,
    }
}

/// No stream delivers a negative number of bytes.
pub proof fn lemma_data_total_nonneg(evs: Seq<ChunkEvent>)
    ensures
        data_total(evs) >= 0,
    decreases evs.len(),
{
    if evs.len() > 0 {
        lemma_data_total_nonneg(evs.drop_first());
    }
}

/// Stripping a concatenation strips its parts in turn, the second from the
/// row offset where the first left off.
pub proof fn lemma_kept_bytes_concat(a: Seq<u8>, b: Seq<u8>, stride: int, used: int, start: int)
    ensures
        kept_bytes(a + b, stride, used, start) == kept_bytes(a, stride, used, start) + kept_bytes(
            b,
            stride,
            used,
            advance_pos(start, a.len() as int, stride),
        ),
    decreases a.len(),
{
    if a.len() == 0 {
        assert(a + b =~= b);
        assert(kept_bytes(a, stride, used, start) + kept_bytes(b, stride, used, start)
            =~= kept_bytes(b, stride, used, start));
    } else {
        assert((a + b)[0] == a[0]);
        assert((a + b).drop_first() =~= a.drop_first() + b);
        lemma_kept_bytes_concat(a.drop_first(), b, stride, used, next_pos(start, stride));
        if start < used {
            assert(seq![a[0]] + (kept_bytes(a.drop_first(), stride, used, next_pos(start, stride))
                + kept_bytes(b, stride, used, advance_pos(start, a.len() as int, stride))) =~= (
            seq![a[0]] + kept_bytes(a.drop_first(), stride, used, next_pos(start, stride)))
                + kept_bytes(b, stride, used, advance_pos(start, a.len() as int, stride)));
        }
    }
}

/// Drains `events` into `sink` through `session`: every payload is
/// accounted and written — padding stripped — until the first terminal
/// event. A zero-length payload does not end the loop; end-of-data ends
/// the scan cleanly; a transport failure stops the loop with the partial
/// byte count reported and the session in `Error`. The bytes counted by
/// the session, the bytes handed to the sink and the reported total are
/// all equal: the sum of the payload lengths before the terminal event.
pub fn pump(session: &mut Session, sink: &mut ImageSink, events: &Vec<ChunkEvent>) -> (r:
    PumpReport)
    requires
        old(session).wf(),
        old(session)@.state == SessionState::Scanning,
        old(sink).wf(),
        old(sink).header_written,
        old(session)@.scan_bytes + data_total(events@) <= u64::MAX,
        old(sink).received + data_total(events@) <= u64::MAX,
    ensures
        final(session).wf(),
        final(sink).wf(),
        r.total == data_total(events@),
        r.status == stream_status(events@),
        final(session)@ == (SessionView {
            state: status_state(r.status),
            scan_bytes: old(session)@.scan_bytes + data_total(events@),
            ..old(session)@
        }),
        final(sink).received == old(sink).received + data_total(events@),
        final(sink).samples@ == old(sink).samples@ + kept_bytes(
            data_concat(events@),
            old(sink).stride as int,
            old(sink).used as int,
            old(sink).row_pos as int,
        ),
        *final(sink) == (ImageSink {
            samples: final(sink).samples,
            received: final(sink).received,
            row_pos: final(sink).row_pos,
            ..*old(sink)
        }),
{
    let ghost all = events@;
    let ghost sink0 = *sink;
    let mut total: u64 = 0;
    let mut i: usize = 0;
    proof {
        assert(all.skip(0) =~= all);
    }
    while i < events.len()
        invariant
            session.wf(),
            sink.wf(),
            sink.header_written,
            events@ == all,
            sink0 == *old(sink),
            i <= all.len(),
            session@ == (SessionView {
                scan_bytes: old(session)@.scan_bytes + total,
                ..old(session)@
            }),
            session@.state == SessionState::Scanning,
            old(session)@.scan_bytes + data_total(all) <= u64::MAX,
            sink0.received + data_total(all) <= u64::MAX,
            data_total(all) == total + data_total(all.skip(i as int)),
            stream_status(all) == stream_status(all.skip(i as int)),
            sink.received == sink0.received + total,
            sink0.samples@ + kept_bytes(
                data_concat(all),
                sink0.stride as int,
                sink0.used as int,
                sink0.row_pos as int,
            ) == sink.samples@ + kept_bytes(
                data_concat(all.skip(i as int)),
                sink0.stride as int,
                sink0.used as int,
                sink.row_pos as int,
            ),
            *sink == (ImageSink {
                samples: sink.samples,
                received: sink.received,
                row_pos: sink.row_pos,
                ..sink0
            }),
        decreases all.len() - i,
    {
        proof {
            assert(all.skip(i as int)[0] == all[i as int]);
            assert(all.skip(i as int).drop_first() =~= all.skip(i as int + 1));
            lemma_data_total_nonneg(all.skip(i as int + 1));
        }
        match &events[i] {
            ChunkEvent::Data(payload) => {
                let n = payload.len();
                let _ = session.read(ChunkResult::Data(n));
                proof {
                    lemma_kept_bytes_concat(
                        payload@,
                        data_concat(all.skip(i as int + 1)),
                        sink0.stride as int,
                        sink0.used as int,
                        sink.row_pos as int,
                    );
                }
                sink.write_samples(payload);
                total = total + (n as u64);
                i = i + 1;
            },
            ChunkEvent::EndOfData => {
                let _ = session.read(ChunkResult::EndOfData);
                proof {
                    assert(sink.samples@ + kept_bytes(
                        data_concat(all.skip(i as int)),
                        sink0.stride as int,
                        sink0.used as int,
                        sink.row_pos as int,
                    ) =~= sink.samples@);
                }
                return PumpReport { total, status: PumpStatus::Finished };
            },
            ChunkEvent::Failure(k) => {
                let _ = session.read(ChunkResult::Failure(*k));
                proof {
                    assert(sink.samples@ + kept_bytes(
                        data_concat(all.skip(i as int)),
                        sink0.stride as int,
                        sink0.used as int,
                        sink.row_pos as int,
                    ) =~= sink.samples@);
                }
                return PumpReport { total, status: PumpStatus::Failed(*k) };
            },
        }
    }
    proof {
        assert(all.skip(all.len() as int) =~= Seq::<ChunkEvent>::empty());
    }
    PumpReport { total, status: PumpStatus::NeedMore }
}

/// Everything a completed run hands back: how many configuration requests
/// were actually applied, the sink holding the container bytes, and the
/// read loop's report.
#[derive(Debug)]
pub struct RunOutput {
    pub applied: usize,
    pub sink: ImageSink,
    pub report: PumpReport,
}

/// One whole acquisition pass over an open session: apply the declarative
/// option list (skipping names the device lacks), start the scan with the
/// transport's authoritative parameters, emit the container preamble
/// derived from the negotiated geometry and depth, and drain the events
/// into the sink. Any failure of a present option or of the start is fatal
/// to the run and propagates unrecovered; a streaming failure stops the
/// loop with the partial byte count in the report.
pub fn run_scan(
    session: &mut Session,
    requests: &Vec<OptionRequest>,
    start_transport: Result<ScanParameters, ScanError>,
    events: &Vec<ChunkEvent>,
) -> (r: Result<RunOutput, ScanError>)
    requires
        old(session).wf(),
        (start_transport matches Ok(p) ==> p.well_formed()),
        data_total(events@) <= u64::MAX,
    ensures
        final(session).wf(),
        ({
            let (sv1, r1) = spec_apply_all(old(session)@, requests@);
            match r1 {
                Err(k) => r == Err::<RunOutput, ScanError>(k) && final(session)@ == sv1,
                Ok(n) => {
                    let (sv2, r2) = spec_start(sv1, start_transport);
                    match r2 {
                        Err(k) => r == Err::<RunOutput, ScanError>(k) && final(session)@ == sv2,
                        Ok(p) => r matches Ok(out) && {
                            &&& out.applied == n
                            &&& out.report.total == data_total(events@)
                            &&& out.report.status == stream_status(events@)
                            &&& out.sink.wf()
                            &&& out.sink.header_written
                            &&& out.sink.header@ == header_bytes(
                                p.pixels_per_line as int,
                                p.lines as int,
                                max_sample_spec(p.depth),
                            )
                            &&& out.sink.stride == p.bytes_per_line
                            &&& out.sink.used == p.min_row_bytes()
                            &&& out.sink.samples@ == kept_bytes(
                                data_concat(events@),
                                p.bytes_per_line as int,
                                p.min_row_bytes(),
                                0,
                            )
                            &&& out.sink.received == data_total(events@)
                            &&& final(session)@ == (SessionView {
                                state: status_state(out.report.status),
                                scan_bytes: data_total(events@),
                                ..sv2
                            })
                        },
                    }
                },
            }
        }),
{
    let applied = match session.apply_all(requests) {
        Ok(n) => n,
        Err(e) => {
            return Err(e);
        },
    };
    let params = match session.start(start_transport) {
        Ok(p) => p,
        Err(e) => {
            return Err(e);
        },
    };
    let mut sink = ImageSink::new(&params);
    sink.write_header();
    proof {
        lemma_data_total_nonneg(events@);
    }
    let ghost s0 = sink;
    let report = pump(session, &mut sink, events);
    proof {
        assert(s0.samples@ + kept_bytes(
            data_concat(events@),
            s0.stride as int,
            s0.used as int,
            s0.row_pos as int,
        ) =~= kept_bytes(data_concat(events@), s0.stride as int, s0.used as int, 0));
    }
    Ok(RunOutput { applied, sink, report })
}

} // verus!
