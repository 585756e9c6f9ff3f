//! Properties of the action hand-over and of scans that span several calls.
//! Each is stated over the views that the functions' own contracts use.

use vstd::prelude::*;
use crate::error::Error;
use crate::bounded::{STREAM_CAP, STREAM_CHUNK_CAP};
use crate::action::{ActionView, ActionStateView, StreamPoll, answer_result, answer_delivery};
use crate::scan::{
    ScanStep, next_scan_step, probes_setting, home_time_setting, DisplayResult, ScanDisplayEvent, ScanOptions, ScanType, WifiSignal, NRF_WIFI_SIGNAL_TYPE_MBM,
    NRF_WIFI_SIGNAL_TYPE_UNSPEC, access_point, reported_access_points, signal_dbm, dwell_setting,
};

verus! {

/// An action issued while nothing is in flight is accepted, reaches the
/// runner unchanged, and the runner's answer is what the control side then
/// sees complete: the result for that answer and that action's response
/// buffer, with the bytes delivered into the buffer.
pub proof fn law_issued_action_completes_with_its_answer(
    s: ActionStateView,
    action: ActionView,
    answer: Result<Option<Seq<u8>>, Error>,
)
    requires
        s.is_done(),
    ensures
        s.issue_outcome() is Ok,
        s.after_issue(action).completion() is None,
        s.after_issue(action).pending_action() == Some(action),
        s.after_issue(action).after_wait_pending().completion() is None,
        s.after_issue(action).after_wait_pending().after_respond(answer).completion() == Some(
            answer_result(answer, action.response_buffer()),
        ),
        s.after_issue(action).after_wait_pending().after_respond(answer).delivered()
            == answer_delivery(answer, action.response_buffer()),
{
}

/// While an action is in flight, every other issue, plain or streamed, is
/// refused with `Busy` and changes nothing.
pub proof fn law_one_action_in_flight(s: ActionStateView, action: ActionView)
    requires
        !s.is_done(),
    ensures
        s.issue_outcome() == Err::<(), Error>(Error::Busy),
        s.after_issue(action) == s,
        s.after_issue_stream(action) == s,
{
}

/// An issued action keeps the state busy until it is answered: issuing a
/// second one, before or after the runner took the first, is refused.
pub proof fn law_second_issue_is_refused(s: ActionStateView, first: ActionView, second: ActionView)
    requires
        s.is_done(),
    ensures
        s.after_issue(first).issue_outcome() == Err::<(), Error>(Error::Busy),
        s.after_issue(first).after_wait_pending().issue_outcome() == Err::<(), Error>(Error::Busy),
        s.after_issue(first).after_issue(second) == s.after_issue(first),
{
}

/// The runner takes each issued action once.
pub proof fn law_action_is_taken_once(s: ActionStateView)
    ensures
        s.after_wait_pending().pending_action() is None,
        s.after_wait_pending().after_wait_pending() == s.after_wait_pending(),
{
}

/// An answer while the runner holds no action is ignored.
pub proof fn law_unrequested_answer_is_ignored(s: ActionStateView, answer: Result<Option<Seq<u8>>, Error>)
    requires
        !s.is_sent(),
    ensures
        s.after_respond(answer) == s,
{
}

/// A cancel ends whatever was in flight with `Ok(None)`, after which an
/// issue is accepted again.
pub proof fn law_cancel_frees_the_state(s: ActionStateView, action: ActionView)
    ensures
        s.after_cancel().completion() == Some(Ok::<Option<usize>, Error>(None)),
        s.after_cancel().issue_outcome() is Ok,
        s.after_cancel().after_issue(action).pending_action() == Some(action),
{
}

/// A reported length is the number of bytes delivered, and they fit the
/// response buffer; an answer that does not fit delivers nothing.
pub proof fn law_reported_length_is_delivered(answer: Result<Option<Seq<u8>>, Error>, response_buffer: Option<usize>)
    ensures
        answer_result(answer, response_buffer) matches Ok(Some(n)) ==> {
            &&& response_buffer matches Some(capacity)
            &&& n <= capacity
            &&& answer_delivery(answer, response_buffer).len() == n
            &&& answer matches Ok(Some(data)) && answer_delivery(answer, response_buffer) == data
        },
        answer_result(answer, response_buffer) matches Ok(None) ==> answer_delivery(
            answer,
            response_buffer,
        ).len() == 0,
        answer matches Ok(Some(data)) && response_buffer matches Some(capacity) && capacity
            < data.len() ==> answer_result(answer, response_buffer) == Err::<Option<usize>, Error>(
            Error::BufferTooSmall,
        ) && answer_delivery(answer, response_buffer).len() == 0,
        answer matches Err(e) ==> answer_result(answer, response_buffer) == Err::<
            Option<usize>,
            Error,
        >(e),
{
}

/// A streamed action starts with an empty stream.
pub proof fn law_stream_starts_empty(s: ActionStateView, action: ActionView)
    requires
        s.is_done(),
    ensures
        s.after_issue_stream(action).chunks.len() == 0,
        s.after_issue_stream(action).pending_action() == Some(action),
{
}

/// Chunks reach the reader in the order the runner sent them, and the reader
/// then waits for more.
pub proof fn law_stream_keeps_order(s: ActionStateView, first: Seq<u8>, second: Seq<u8>)
    requires
        s.is_sent(),
        s.chunks.len() == 0,
        first.len() <= STREAM_CHUNK_CAP,
        second.len() <= STREAM_CHUNK_CAP,
    ensures
        s.respond_stream_outcome(first) is Ok,
        s.after_respond_stream(first).respond_stream_outcome(second) is Ok,
        ({
            let t = s.after_respond_stream(first).after_respond_stream(second);
            &&& t.stream_poll(false) == StreamPoll::Ready(Some(Ok::<Seq<u8>, Error>(first)))
            &&& !t.stream_ended_after_poll(false)
            &&& t.after_stream_poll(false).stream_poll(false) == StreamPoll::Ready(
                Some(Ok::<Seq<u8>, Error>(second)),
            )
            &&& t.after_stream_poll(false).after_stream_poll(false).stream_poll(false)
                == StreamPoll::Pending
            &&& t.after_stream_poll(false).after_stream_poll(false) == s
        }),
{
    let t = s.after_respond_stream(first).after_respond_stream(second);
    assert(t.chunks == seq![first, second]);
    assert(t.after_stream_poll(false).chunks =~= seq![second]);
    assert(t.after_stream_poll(false).after_stream_poll(false).chunks =~= s.chunks);
}

/// A stream holds at most four chunks: a fifth one is refused with
/// `StreamTooSmall` and changes nothing; a chunk larger than 1600 bytes is
/// refused with `BufferTooSmall`; no chunk is accepted unless the runner
/// holds the action.
pub proof fn law_stream_refusals(s: ActionStateView, data: Seq<u8>)
    ensures
        !s.is_sent() ==> s.respond_stream_outcome(data) == Err::<(), Error>(Error::InvalidState),
        s.is_sent() && data.len() > STREAM_CHUNK_CAP ==> s.respond_stream_outcome(data) == Err::<(), Error>(
            Error::BufferTooSmall,
        ),
        s.is_sent() && data.len() <= STREAM_CHUNK_CAP && s.chunks.len() >= STREAM_CAP ==> s.respond_stream_outcome(data)
            == Err::<(), Error>(Error::StreamTooSmall),
        s.respond_stream_outcome(data) is Err ==> s.after_respond_stream(data) == s,
{
}

/// The stream never holds more than four chunks, nor a chunk of more than
/// 1600 bytes.
pub proof fn law_stream_stays_within_capacity(s: ActionStateView, data: Seq<u8>)
    requires
        s.chunks.len() <= STREAM_CAP,
        forall|i: int| 0 <= i < s.chunks.len() ==> #[trigger] s.chunks[i].len() <= STREAM_CHUNK_CAP,
    ensures
        s.after_respond_stream(data).chunks.len() <= STREAM_CAP,
        forall|i: int|
            0 <= i < s.after_respond_stream(data).chunks.len() ==> #[trigger] s.after_respond_stream(
                data,
            ).chunks[i].len() <= STREAM_CHUNK_CAP,
{
}

/// Chunks sent before the end of a streamed action are read before the end.
pub proof fn law_chunks_come_before_the_end(s: ActionStateView, result: Result<Option<usize>, Error>)
    requires
        s.chunks.len() > 0,
    ensures
        s.after_finish_stream(result).stream_poll(false) == StreamPoll::Ready(
            Some(Ok::<Seq<u8>, Error>(s.chunks[0])),
        ),
        !s.after_finish_stream(result).stream_ended_after_poll(false),
{
}

/// Once the queue is empty, the end of a streamed action ends the stream: it
/// yields the error the action ended with, or nothing; after that the stream
/// yields nothing more and reads nothing.
pub proof fn law_stream_ends_with_the_action(
    s: ActionStateView,
    result: Result<Option<usize>, Error>,
    later: ActionStateView,
)
    requires
        s.chunks.len() == 0,
    ensures
        s.after_finish_stream(result).stream_poll(false) == StreamPoll::Ready(
            match result {
                Ok(_) => None,
                Err(e) => Some(Err::<Seq<u8>, Error>(e)),
            },
        ),
        s.after_finish_stream(result).stream_ended_after_poll(false),
        later.stream_poll(true) == StreamPoll::Ready(None),
        later.stream_ended_after_poll(true),
        later.after_stream_poll(true) == later,
{
}

/// A stream yields nothing while the runner holds the action and has sent
/// no chunk.
pub proof fn law_stream_waits_for_the_runner(s: ActionStateView)
    requires
        !s.is_done(),
        s.chunks.len() == 0,
    ensures
        s.stream_poll(false) == StreamPoll::Pending,
        !s.stream_ended_after_poll(false),
        s.after_stream_poll(false) == s,
{
}

/// An access point's SSID is the reported one cut to at most 32 bytes.
pub proof fn law_ssid_is_cut_to_32_bytes(r: DisplayResult)
    ensures
        access_point(r).ssid.len() <= 32,
        access_point(r).ssid.len() == (if r.ssid.nrf_wifi_ssid_len < 32 {
            r.ssid.nrf_wifi_ssid_len as int
        } else {
            32
        }),
        forall|i: int|
            0 <= i < access_point(r).ssid.len() ==> access_point(r).ssid[i]
                == r.ssid.nrf_wifi_ssid[i],
{
}

/// A scan report yields at most eight access points, in the order of the
/// report.
pub proof fn law_report_yields_at_most_eight(ev: ScanDisplayEvent)
    ensures
        reported_access_points(ev).len() <= 8,
        reported_access_points(ev).len() <= ev.event_bss_count,
        forall|i: int|
            0 <= i < reported_access_points(ev).len() ==> reported_access_points(ev)[i]
                == access_point(ev.display_results[i]),
{
}

/// A signal on the unspecified scale of 0 to 100 (or up to 255) lands
/// between -100 and 155 dBm.
pub proof fn law_unspecified_signal_range(sig: WifiSignal)
    requires
        sig.signal_type == NRF_WIFI_SIGNAL_TYPE_UNSPEC,
    ensures
        -100 <= signal_dbm(sig) <= 155,
        signal_dbm(sig) == sig.unspec_signal - 100,
{
}

/// A signal in mBm within the range of `i16` dBm is divided by 100, rounding
/// towards zero: the result is off from the exact value by less than 1 dBm
/// and never larger in size.
pub proof fn law_mbm_signal_rounds_toward_zero(sig: WifiSignal)
    requires
        sig.signal_type == NRF_WIFI_SIGNAL_TYPE_MBM,
        -3276800 <= sig.mbm_signal <= 3276799,
    ensures
        sig.mbm_signal >= 0 ==> 0 <= sig.mbm_signal - 100 * signal_dbm(sig) < 100,
        sig.mbm_signal < 0 ==> 0 <= 100 * signal_dbm(sig) - sig.mbm_signal < 100,
{
}

/// A scan sets the dwell time of its own scan type only.
pub proof fn law_dwell_time_goes_to_the_scan_type(options: ScanOptions)
    ensures
        options.scan_type == ScanType::Active ==> dwell_setting(options, ScanType::Passive) == 0,
        options.scan_type == ScanType::Passive ==> dwell_setting(options, ScanType::Active) == 0,
        options.dwell_time is None ==> dwell_setting(options, ScanType::Active) == 0
            && dwell_setting(options, ScanType::Passive) == 0,
{
}

/// One event on a streamed action: the runner sends a chunk, the reader
/// polls the stream, the runner ends the action, or the action is cancelled.
pub enum StreamEvent {
    Send(Seq<u8>),
    Poll,
    Finish(Result<Option<usize>, Error>),
    Cancel,
}

/// Where a run of stream events has got to: the state, whether the reader
/// has seen the end, the chunks the runner got accepted, and the chunks the
/// reader was given, each in order.
pub struct StreamRun {
    pub state: ActionStateView,
    pub ended: bool,
    pub sent: Seq<Seq<u8>>,
    pub read: Seq<Seq<u8>>,
}

/// One event, as the contracts of `respond_stream`, `poll_next` and
/// `finish_stream` describe it.
pub open spec fn stream_step(r: StreamRun, e: StreamEvent) -> StreamRun {
    match e {
        StreamEvent::Send(data) => if r.state.respond_stream_outcome(data) is Ok {
            StreamRun {
                state: r.state.after_respond_stream(data),
                ended: r.ended,
                sent: r.sent.push(data),
                read: r.read,
            }
        } else {
            r
        },
        StreamEvent::Poll => StreamRun {
            state: r.state.after_stream_poll(r.ended),
            ended: r.state.stream_ended_after_poll(r.ended),
            sent: r.sent,
            read: match r.state.stream_poll(r.ended) {
                StreamPoll::Ready(Some(Ok(chunk))) => r.read.push(chunk),
                _ => r.read,
            },
        },
        StreamEvent::Cancel => StreamRun {
            state: r.state.after_cancel(),
            ended: r.ended,
            sent: r.sent,
            read: r.read,
        },
        StreamEvent::Finish(result) => StreamRun {
            state: r.state.after_finish_stream(result),
            ended: r.ended,
            sent: r.sent,
            read: r.read,
        },
    }
}

/// A run of events, in order.
pub open spec fn stream_run(r: StreamRun, events: Seq<StreamEvent>) -> StreamRun
    decreases events.len(),
{
    if events.len() == 0 {
        r
    } else {
        stream_run(stream_step(r, events[0]), events.drop_first())
    }
}

/// What stays true through a run: what was read, followed by what is queued,
/// is what was sent; and once the reader has seen the end, nothing is queued
/// and nothing is in flight.
spec fn stream_run_holds(r: StreamRun) -> bool {
    &&& r.read + r.state.chunks == r.sent
    &&& r.ended ==> r.state.chunks.len() == 0 && r.state.is_done()
}

proof fn lemma_stream_step_holds(r: StreamRun, e: StreamEvent)
    requires
        stream_run_holds(r),
    ensures
        stream_run_holds(stream_step(r, e)),
{
    match e {
        StreamEvent::Send(data) => {
            if r.state.respond_stream_outcome(data) is Ok {
                assert(r.read + r.state.chunks.push(data) =~= (r.read + r.state.chunks).push(data));
            }
        },
        StreamEvent::Poll => {
            if !r.ended && r.state.chunks.len() > 0 {
                assert(r.read.push(r.state.chunks[0]) + r.state.chunks.drop_first() =~= r.read
                    + r.state.chunks);
            }
        },
        StreamEvent::Finish(_) => {},
        StreamEvent::Cancel => {},
    }
}

proof fn lemma_stream_run_holds(r: StreamRun, events: Seq<StreamEvent>)
    requires
        stream_run_holds(r),
    ensures
        stream_run_holds(stream_run(r, events)),
    decreases events.len(),
{
    if events.len() > 0 {
        lemma_stream_step_holds(r, events[0]);
        lemma_stream_run_holds(stream_step(r, events[0]), events.drop_first());
    }
}

/// However the runner's chunks, the reader's polls, the end of the action
/// and cancels interleave, the reader is given exactly the chunks the runner got
/// accepted, in the order it sent them, each with its bytes; and when the
/// reader sees the end, it has been given every one of them.
pub proof fn law_stream_delivers_every_chunk_in_order(start: ActionStateView, events: Seq<StreamEvent>)
    requires
        start.chunks.len() == 0,
    ensures
        ({
            let end = stream_run(
                StreamRun { state: start, ended: false, sent: Seq::empty(), read: Seq::empty() },
                events,
            );
            &&& end.read + end.state.chunks == end.sent
            &&& end.read.len() <= end.sent.len()
            &&& forall|i: int| 0 <= i < end.read.len() ==> end.read[i] == end.sent[i]
            &&& end.ended ==> end.read == end.sent
        }),
{
    let r0 = StreamRun { state: start, ended: false, sent: Seq::empty(), read: Seq::empty() };
    assert(r0.read + r0.state.chunks =~= r0.sent);
    lemma_stream_run_holds(r0, events);
    let end = stream_run(r0, events);
    assert forall|i: int| 0 <= i < end.read.len() implies end.read[i] == end.sent[i] by {
        assert((end.read + end.state.chunks)[i] == end.read[i]);
    }
    if end.ended {
        assert(end.read + end.state.chunks =~= end.read);
    }
}

/// A scan sends its command, then waits until the chip reports it done: it
/// succeeds when both actions succeed, and otherwise ends with the error of
/// the first one that failed, without sending the wait after a failed command.
pub proof fn law_scan_runs_command_then_wait(
    first: Result<Option<usize>, Error>,
    second: Result<Option<usize>, Error>,
)
    ensures
        first is Ok ==> next_scan_step(ScanStep::Trigger, first) is WaitForDone,
        first matches Err(e) ==> next_scan_step(ScanStep::Trigger, first) == ScanStep::Finished(
            Err(e),
        ),
        next_scan_step(next_scan_step(ScanStep::Trigger, first), second) == ScanStep::Finished(
            match first {
                Err(e) => Err(e),
                Ok(_) => match second {
                    Err(e) => Err(e),
                    Ok(_) => Ok(()),
                },
            },
        ),
        forall|result: Result<(), Error>, outcome: Result<Option<usize>, Error>|
            next_scan_step(ScanStep::Finished(result), outcome) == ScanStep::Finished(result),
{
}

/// A scan carries the number of probes and the home-channel time that its
/// options give.
pub proof fn law_scan_carries_probes_and_home_time(options: ScanOptions)
    ensures
        options.nprobes matches Some(n) ==> probes_setting(options) == n,
        options.home_time matches Some(ticks) ==> home_time_setting(options) == (ticks / 1000) as u16,
{
}

/// Once the runner holds no action, a poll for work takes nothing and changes
/// nothing: the completion and the bytes delivered by the last answer stay.
pub proof fn law_idle_poll_for_work_changes_nothing(s: ActionStateView)
    requires
        s.pending_action() is None,
    ensures
        s.after_wait_pending() == s,
        s.after_wait_pending().completion() == s.completion(),
        s.after_wait_pending().delivered() == s.delivered(),
{
}

/// The bytes of an answer survive the runner's further polls for work: after
/// issue, take, answer and any number of idle polls, the control side sees
/// the answer's result and bytes.
pub proof fn law_answer_survives_idle_polls(
    s: ActionStateView,
    action: ActionView,
    answer: Result<Option<Seq<u8>>, Error>,
)
    requires
        s.is_done(),
    ensures
        ({
            let answered = s.after_issue(action).after_wait_pending().after_respond(answer);
            &&& answered.after_wait_pending() == answered
            &&& answered.after_wait_pending().after_wait_pending().completion() == Some(
                answer_result(answer, action.response_buffer()),
            )
            &&& answered.after_wait_pending().after_wait_pending().delivered() == answer_delivery(
                answer,
                action.response_buffer(),
            )
        }),
{
}

/// A cancel ends the action but keeps every chunk that the runner got
/// accepted: the reader still reads them, oldest first, before the end.
pub proof fn law_cancel_keeps_queued_chunks(s: ActionStateView)
    ensures
        s.after_cancel().chunks == s.chunks,
        s.chunks.len() > 0 ==> s.after_cancel().stream_poll(false) == StreamPoll::Ready(
            Some(Ok::<Seq<u8>, Error>(s.chunks[0])),
        ),
        s.chunks.len() == 0 ==> s.after_cancel().stream_poll(false) == StreamPoll::Ready(None),
{
}

/// A streamed action ends with exactly the result it was finished with: the
/// control side's wait for completion gives that result, lengths included.
pub proof fn law_finish_stream_sets_the_completion(s: ActionStateView, result: Result<Option<usize>, Error>)
    ensures
        s.after_finish_stream(result).completion() == Some(result),
        s.after_finish_stream(result).chunks == s.chunks,
        s.after_finish_stream(result).issue_outcome() is Ok,
{
}

/// A scan report yields exactly min(`event_bss_count`, 8) access points,
/// whatever its entries hold (hidden networks with an empty SSID included),
/// the i-th one converted from the i-th entry.
pub proof fn law_report_yields_every_listed_entry(ev: ScanDisplayEvent)
    ensures
        ev.event_bss_count <= 8 ==> reported_access_points(ev).len() == ev.event_bss_count,
        ev.event_bss_count > 8 ==> reported_access_points(ev).len() == 8,
        forall|i: int|
            0 <= i < reported_access_points(ev).len() ==> reported_access_points(ev)[i]
                == access_point(ev.display_results[i]),
{
}

/// An access point's RSSI is its report entry's signal in dBm: the
/// unspecified scale moved down by 100; mBm divided by 100 towards zero, and
/// clamped to the range of `i16`; 0 for any other signal type.
pub proof fn law_access_point_rssi_is_in_dbm(r: DisplayResult)
    ensures
        r.signal.signal_type == NRF_WIFI_SIGNAL_TYPE_UNSPEC ==> access_point(r).rssi
            == r.signal.unspec_signal - 100,
        r.signal.signal_type == NRF_WIFI_SIGNAL_TYPE_MBM && r.signal.mbm_signal >= 0
            && r.signal.mbm_signal <= 3276799 ==> 0 <= r.signal.mbm_signal - 100 * access_point(
            r,
        ).rssi < 100,
        r.signal.signal_type == NRF_WIFI_SIGNAL_TYPE_MBM && r.signal.mbm_signal < 0
            && r.signal.mbm_signal >= -3276899 ==> 0 <= 100 * access_point(r).rssi
            - r.signal.mbm_signal < 100,
        r.signal.signal_type == NRF_WIFI_SIGNAL_TYPE_MBM && r.signal.mbm_signal > 3276799
            ==> access_point(r).rssi == 32767,
        r.signal.signal_type == NRF_WIFI_SIGNAL_TYPE_MBM && r.signal.mbm_signal < -3276899
            ==> access_point(r).rssi == -32768,
        r.signal.signal_type != NRF_WIFI_SIGNAL_TYPE_MBM && r.signal.signal_type
            != NRF_WIFI_SIGNAL_TYPE_UNSPEC ==> access_point(r).rssi == 0,
{
}

} // verus!
