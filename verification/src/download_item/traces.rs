//! What holds of every run of a transfer, whatever its driver feeds it.

use crate::download_item::download::{
    action_spec, progress_of, resume_refused, step_spec, ActionView, ErrorView, EventView,
    OutcomeView, ProgressView, ReportView, StateView, PARTIAL_CONTENT,
};
use vstd::prelude::*;

verus! {

/// The state that a transfer is in after `events`, taken one by one.
pub open spec fn run(state: StateView, events: Seq<EventView>) -> StateView
    decreases events.len(),
{
    if events.len() == 0 {
        state
    } else {
        run(step_spec(state, events[0]).0, events.drop_first())
    }
}

/// What observers are told in the course of `events`, in order.
pub open spec fn reports(state: StateView, events: Seq<EventView>) -> Seq<ReportView>
    decreases events.len(),
{
    if events.len() == 0 {
        Seq::empty()
    } else {
        let (next, told) = step_spec(state, events[0]);
        let rest = reports(next, events.drop_first());
        match told {
            Some(report) => seq![report] + rest,
            None => rest,
        }
    }
}

/// The byte count that a report carries, if it is one of headway.
pub open spec fn byte_count(report: ReportView) -> Option<u64> {
    match report.1 {
        Ok(ProgressView::Advanced(_, bytes)) => Some(bytes),
        _ => None,
    }
}

/// The byte count that a transfer in `state` has reached.
pub open spec fn reached(state: StateView) -> u64 {
    match state {
        StateView::Ready(_, _, resume_from) => resume_from,
        StateView::Negotiating { resume_from, .. } => resume_from,
        StateView::Opening { resume_from, .. } => resume_from,
        StateView::Streaming { downloaded, .. } => downloaded,
        StateView::Terminal(_) => 0,
    }
}

/// The sum of the chunk lengths `lens`.
pub open spec fn total_len(lens: Seq<u64>) -> nat
    decreases lens.len(),
{
    if lens.len() == 0 {
        0
    } else {
        lens[0] as nat + total_len(lens.drop_first())
    }
}

/// The events of a body that arrives in chunks of the lengths `lens`.
pub open spec fn chunk_events(lens: Seq<u64>) -> Seq<EventView> {
    Seq::new(lens.len(), |i: int| EventView::ChunkWritten(lens[i]))
}

/// A transfer that is over stays over: whatever comes, the state is the same,
/// observers hear nothing more, and the driver is asked for nothing, so not
/// one more byte is written.
pub proof fn lemma_terminal_is_final(state: StateView, events: Seq<EventView>)
    requires
        state is Terminal,
    ensures
        run(state, events) == state,
        reports(state, events) == Seq::<ReportView>::empty(),
        action_spec(run(state, events)) == ActionView::Nothing,
    decreases events.len(),
{
    if events.len() > 0 {
        lemma_terminal_is_final(state, events.drop_first());
    }
}

/// The byte counts reported in the course of a transfer never decrease, and
/// none lies below the count that the transfer began with.
pub proof fn lemma_counts_never_decrease(
    state: StateView,
    events: Seq<EventView>,
    i: int,
    j: int,
)
    requires
        0 <= i <= j < reports(state, events).len(),
        byte_count(reports(state, events)[i]) is Some,
        byte_count(reports(state, events)[j]) is Some,
    ensures
        reached(state) <= byte_count(reports(state, events)[i])->0,
        byte_count(reports(state, events)[i])->0 <= byte_count(reports(state, events)[j])->0,
    decreases events.len(),
{
    let (next, told) = step_spec(state, events[0]);
    let rest = reports(next, events.drop_first());
    if next is Terminal {
        lemma_terminal_is_final(next, events.drop_first());
    }
    assert(!(next is Terminal) ==> reached(state) <= reached(next));
    match told {
        Some(report) => {
            assert(reports(state, events) == seq![report] + rest);
            if i == 0 {
                assert(byte_count(report) is Some ==> byte_count(report)->0 == reached(next));
                if j > 0 {
                    lemma_counts_never_decrease(next, events.drop_first(), j - 1, j - 1);
                }
            } else {
                lemma_counts_never_decrease(next, events.drop_first(), i - 1, j - 1);
            }
        },
        None => {
            lemma_counts_never_decrease(next, events.drop_first(), i, j);
        },
    }
}

/// While chunks arrive, the count is what the transfer began with plus the
/// length of every chunk so far.
pub proof fn lemma_stream_counts_chunks(
    id: i64,
    url: Seq<char>,
    file_path: Seq<char>,
    total_size: Option<u64>,
    downloaded: u64,
    lens: Seq<u64>,
)
    requires
        downloaded + total_len(lens) <= u64::MAX,
    ensures
        run(
            StateView::Streaming { id, url, file_path, total_size, downloaded },
            chunk_events(lens),
        ) == (StateView::Streaming {
            id,
            url,
            file_path,
            total_size,
            downloaded: (downloaded + total_len(lens)) as u64,
        }),
    decreases lens.len(),
{
    if lens.len() > 0 {
        let count = (downloaded + lens[0]) as u64;
        assert(chunk_events(lens).drop_first() =~= chunk_events(lens.drop_first()));
        lemma_stream_counts_chunks(id, url, file_path, total_size, count, lens.drop_first());
    }
}

/// Running `first` and then `second` is running the two on end.
pub proof fn lemma_run_in_two(state: StateView, first: Seq<EventView>, second: Seq<EventView>)
    ensures
        run(state, first + second) == run(run(state, first), second),
        reports(state, first + second) == reports(state, first) + reports(
            run(state, first),
            second,
        ),
    decreases first.len(),
{
    if first.len() == 0 {
        assert(first + second =~= second);
        assert(reports(state, first) + reports(run(state, first), second) =~= reports(
            state,
            second,
        ));
    } else {
        let (next, told) = step_spec(state, first[0]);
        assert((first + second).drop_first() =~= first.drop_first() + second);
        lemma_run_in_two(next, first.drop_first(), second);
        let rest = reports(next, first.drop_first());
        let tail = reports(run(state, first), second);
        match told {
            Some(report) => {
                assert(seq![report] + (rest + tail) =~= (seq![report] + rest) + tail);
            },
            None => {},
        }
    }
}

/// A body that delivers what was announced ends at the announced size: where
/// the chunks make up the rest of `total`, the count stands at `total` when
/// the body ends, the last word to the observers is that the transfer has
/// finished, and the transfer is over as completed.
pub proof fn lemma_finished_at_announced_size(
    id: i64,
    url: Seq<char>,
    file_path: Seq<char>,
    total: u64,
    downloaded: u64,
    lens: Seq<u64>,
)
    requires
        downloaded + total_len(lens) == total,
    ensures
        ({
            let start = StateView::Streaming {
                id,
                url,
                file_path,
                total_size: Some(total),
                downloaded,
            };
            let events = chunk_events(lens) + seq![EventView::BodyEnded];
            &&& reached(run(start, chunk_events(lens))) == total
            &&& run(start, events) == StateView::Terminal(OutcomeView::Completed)
            &&& reports(start, events).len() > 0
            &&& reports(start, events).last() == (id, Ok::<ProgressView, ErrorView>(
                ProgressView::Finished,
            ))
        }),
{
    let start = StateView::Streaming { id, url, file_path, total_size: Some(total), downloaded };
    let end = seq![EventView::BodyEnded];
    lemma_stream_counts_chunks(id, url, file_path, Some(total), downloaded, lens);
    lemma_run_in_two(start, chunk_events(lens), end);
    let before = run(start, chunk_events(lens));
    let over = step_spec(before, end[0]).0;
    assert(end.drop_first() =~= Seq::<EventView>::empty());
    assert(run(over, end.drop_first()) == over);
    assert(reports(over, end.drop_first()) =~= Seq::<ReportView>::empty());
    assert(reports(before, end) =~= seq![
        (id, Ok::<ProgressView, ErrorView>(ProgressView::Finished)),
    ]);
}

/// A resumed transfer that gets anything but a partial response fails with
/// the fixed reason, says so once, and is over: the file is never opened and
/// no byte is written, whatever comes later.
pub proof fn lemma_resume_refused(
    id: i64,
    url: Seq<char>,
    resume_from: u64,
    status: u16,
    content_length: Option<Seq<char>>,
    content_range: Option<Seq<char>>,
    later: Seq<EventView>,
)
    requires
        resume_from > 0,
        status != PARTIAL_CONTENT,
    ensures
        ({
            let (next, told) = step_spec(
                StateView::Negotiating { id, url, resume_from },
                EventView::Responded { status, content_length, content_range },
            );
            &&& next == StateView::Terminal(OutcomeView::Failed(resume_refused()))
            &&& told == Some(
                (id, Err::<ProgressView, ErrorView>(ErrorView::DownloadError(resume_refused()))),
            )
            &&& run(next, later) == next
            &&& reports(next, later) == Seq::<ReportView>::empty()
            &&& action_spec(run(next, later)) == ActionView::Nothing
        }),
{
    let (next, told) = step_spec(
        StateView::Negotiating { id, url, resume_from },
        EventView::Responded { status, content_length, content_range },
    );
    lemma_terminal_is_final(next, later);
}

/// Cancelling stops a transfer wherever it stands: a running one is over as
/// cancelled, one that was over stays as it was; observers hear nothing of it
/// or after it, and the driver is never again asked to write.
pub proof fn lemma_cancel_stops_everything(state: StateView, later: Seq<EventView>)
    ensures
        ({
            let (next, told) = step_spec(state, EventView::Cancel);
            &&& told is None
            &&& next == if state is Terminal {
                state
            } else {
                StateView::Terminal(OutcomeView::Cancelled)
            }
            &&& run(next, later) == next
            &&& reports(next, later) == Seq::<ReportView>::empty()
            &&& action_spec(run(next, later)) == ActionView::Nothing
        }),
{
    let (next, told) = step_spec(state, EventView::Cancel);
    lemma_terminal_is_final(next, later);
}

/// What is reported when. Observers hear that a transfer has started only
/// when the server's answer is taken, of headway only when a chunk is on
/// disk, and that it has finished only when the body ends; a chunk on disk is
/// reported with the count that it brings the transfer to. Nothing else is
/// reported but a failure.
pub proof fn lemma_one_report_per_chunk(state: StateView, event: EventView)
    ensures
        ({
            let (next, told) = step_spec(state, event);
            &&& match told {
                Some((_, Ok(ProgressView::Started { .. }))) => state is Negotiating && event
                    is Responded,
                Some((_, Ok(ProgressView::Advanced(_, bytes)))) => {
                    &&& state is Streaming
                    &&& event is ChunkWritten
                    &&& bytes == reached(state) + event->ChunkWritten_0
                    &&& bytes == reached(next)
                },
                Some((_, Ok(ProgressView::Finished))) => state is Streaming && event is BodyEnded,
                Some((_, Err(_))) => next is Terminal,
                None => true,
            }
            &&& state is Streaming && event is ChunkWritten && next is Streaming ==> byte_count(
                told->0,
            ) is Some && told is Some
            &&& state is Opening && event is FileOpened ==> told is None && next is Streaming
                && reached(next) == reached(state)
        }),
{
}

/// The percentage never goes beyond one hundred, and it is one hundred
/// exactly when every announced byte has arrived.
pub proof fn lemma_progress_bounds(downloaded: u64, total: u64)
    requires
        0 < total,
        downloaded <= total,
    ensures
        progress_of(downloaded, Some(total)) is Some,
        progress_of(downloaded, Some(total))->0 <= 100,
        progress_of(downloaded, Some(total))->0 == 100 <==> downloaded == total,
{
    let whole = (downloaded * 100) / (total as int);
    assert(0 <= whole <= 100 && (whole == 100 <==> downloaded == total)) by (nonlinear_arith)
        requires
            whole == (downloaded * 100) / (total as int),
            0 < total,
            0 <= downloaded <= total,
    ;
}

} // verus!
