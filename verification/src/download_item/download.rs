//! The transfer state machine.
//!
//! One transfer is one attempt to fetch a resource to a local file. The machine
//! never touches the network or the disk: in each state it names the one thing
//! its driver has to do next ([`State::action`]), and [`step`] takes what came
//! of it and gives the next state together with what observers are told. Each
//! hand-over is a point at which the driver may stop or cancel the transfer.

use crate::utils::text::{
    after_last, decimal_text, last_segment, parse_u64, parsed_u64, push_decimal, push_text,
};
use vstd::prelude::*;

verus! {

/// The response status that answers a range request with part of the resource.
pub const PARTIAL_CONTENT: u16 = 206;

/// What observers are told while a transfer makes headway.
#[derive(Debug, Clone, PartialEq, Eq)]
pub enum Progress {
    /// The server has answered: where the bytes will go and how many are
    /// expected in all, if the server said.
    Started { file_path: String, total_size: Option<u64> },
    /// Bytes are on disk: the percentage done, where it is known, and the
    /// count of bytes so far.
    Advanced(Option<u8>, u64),
    /// The body has ended.
    Finished,
}

/// Why a transfer has ended early.
#[derive(Debug, Clone, PartialEq, Eq)]
pub enum Error {
    DownloadError(String),
}

/// How a transfer has ended.
#[derive(Debug, Clone, PartialEq, Eq)]
pub enum Outcome {
    Completed,
    Failed(String),
    Cancelled,
}

/// Where a transfer stands.
#[derive(Debug, Clone, PartialEq, Eq)]
pub enum State {
    /// Nothing has been asked of the server yet: identity, source and the
    /// offset to resume from.
    Ready(i64, String, u64),
    /// The request is under way.
    Negotiating { id: i64, url: String, resume_from: u64 },
    /// The server has agreed; the destination file is being opened.
    Opening { id: i64, url: String, file_path: String, total_size: Option<u64>, resume_from: u64 },
    /// Chunks are flowing into the file.
    Streaming { id: i64, url: String, file_path: String, total_size: Option<u64>, downloaded: u64 },
    /// The transfer is over; nothing follows.
    Terminal(Outcome),
}

/// What came of the action that the machine asked for, or a request from
/// outside to stop.
#[derive(Debug, Clone, PartialEq, Eq)]
pub enum Event {
    DirectoryReady,
    DirectoryFailed(String),
    /// The response has arrived: its status and the two header fields that
    /// speak of size, each as sent.
    Responded { status: u16, content_length: Option<String>, content_range: Option<String> },
    RequestFailed(String),
    FileOpened,
    FileFailed(String),
    /// A chunk of this many bytes was read and appended in full.
    ChunkWritten(u64),
    BodyEnded,
    /// Reading the body or writing the file failed.
    StreamFailed(String),
    Cancel,
}

/// What the driver has to do next.
#[derive(Debug, Clone, PartialEq, Eq)]
pub enum Action {
    /// Make sure that this directory exists.
    CreateDirectory(String),
    /// Send a GET request, with this `Range` header where one is given.
    SendRequest { url: String, range: Option<String> },
    /// Open the destination: appending where `append` holds, else created
    /// anew and emptied.
    OpenFile { path: String, append: bool },
    /// Read the next chunk of the body and append it to the file.
    TransferChunk,
    /// Hold nothing and do nothing: the transfer is over.
    Nothing,
}

/// What a [`Progress`] says, with its texts as sequences of characters.
pub enum ProgressView {
    Started { file_path: Seq<char>, total_size: Option<u64> },
    Advanced(Option<u8>, u64),
    Finished,
}

/// What an [`Error`] says, with its texts as sequences of characters.
pub enum ErrorView {
    DownloadError(Seq<char>),
}

/// What an [`Outcome`] says, with its texts as sequences of characters.
pub enum OutcomeView {
    Completed,
    Failed(Seq<char>),
    Cancelled,
}

/// What a [`State`] holds, with its texts as sequences of characters.
pub enum StateView {
    Ready(i64, Seq<char>, u64),
    Negotiating { id: i64, url: Seq<char>, resume_from: u64 },
    Opening {
        id: i64,
        url: Seq<char>,
        file_path: Seq<char>,
        total_size: Option<u64>,
        resume_from: u64,
    },
    Streaming {
        id: i64,
        url: Seq<char>,
        file_path: Seq<char>,
        total_size: Option<u64>,
        downloaded: u64,
    },
    Terminal(OutcomeView),
}

/// What an [`Event`] says, with its texts as sequences of characters.
pub enum EventView {
    DirectoryReady,
    DirectoryFailed(Seq<char>),
    Responded { status: u16, content_length: Option<Seq<char>>, content_range: Option<Seq<char>> },
    RequestFailed(Seq<char>),
    FileOpened,
    FileFailed(Seq<char>),
    ChunkWritten(u64),
    BodyEnded,
    StreamFailed(Seq<char>),
    Cancel,
}

/// What an [`Action`] says, with its texts as sequences of characters.
pub enum ActionView {
    CreateDirectory(Seq<char>),
    SendRequest { url: Seq<char>, range: Option<Seq<char>> },
    OpenFile { path: Seq<char>, append: bool },
    TransferChunk,
    Nothing,
}

impl View for Progress {
    type V = ProgressView;

    open spec fn view(&self) -> ProgressView {
        match *self {
            Progress::Started { file_path, total_size } => ProgressView::Started {
                file_path: file_path@,
                total_size,
            },
            Progress::Advanced(percent, bytes) => ProgressView::Advanced(percent, bytes),
            Progress::Finished => ProgressView::Finished,
        }
    }
}

impl View for Error {
    type V = ErrorView;

    open spec fn view(&self) -> ErrorView {
        match *self {
            Error::DownloadError(reason) => ErrorView::DownloadError(reason@),
        }
    }
}

impl View for Outcome {
    type V = OutcomeView;

    open spec fn view(&self) -> OutcomeView {
        match *self {
            Outcome::Completed => OutcomeView::Completed,
            Outcome::Failed(reason) => OutcomeView::Failed(reason@),
            Outcome::Cancelled => OutcomeView::Cancelled,
        }
    }
}

impl View for State {
    type V = StateView;

    open spec fn view(&self) -> StateView {
        match *self {
            State::Ready(id, url, resume_from) => StateView::Ready(id, url@, resume_from),
            State::Negotiating { id, url, resume_from } => StateView::Negotiating {
                id,
                url: url@,
                resume_from,
            },
            State::Opening { id, url, file_path, total_size, resume_from } => StateView::Opening {
                id,
                url: url@,
                file_path: file_path@,
                total_size,
                resume_from,
            },
            State::Streaming { id, url, file_path, total_size, downloaded } => StateView::Streaming {
                id,
                url: url@,
                file_path: file_path@,
                total_size,
                downloaded,
            },
            State::Terminal(outcome) => StateView::Terminal(outcome@),
        }
    }
}

impl DeepView for State {
    type V = StateView;

    open spec fn deep_view(&self) -> StateView {
        self@
    }
}

impl View for Event {
    type V = EventView;

    open spec fn view(&self) -> EventView {
        match *self {
            Event::DirectoryReady => EventView::DirectoryReady,
            Event::DirectoryFailed(reason) => EventView::DirectoryFailed(reason@),
            Event::Responded { status, content_length, content_range } => EventView::Responded {
                status,
                content_length: content_length.deep_view(),
                content_range: content_range.deep_view(),
            },
            Event::RequestFailed(reason) => EventView::RequestFailed(reason@),
            Event::FileOpened => EventView::FileOpened,
            Event::FileFailed(reason) => EventView::FileFailed(reason@),
            Event::ChunkWritten(len) => EventView::ChunkWritten(len),
            Event::BodyEnded => EventView::BodyEnded,
            Event::StreamFailed(reason) => EventView::StreamFailed(reason@),
            Event::Cancel => EventView::Cancel,
        }
    }
}

impl View for Action {
    type V = ActionView;

    open spec fn view(&self) -> ActionView {
        match *self {
            Action::CreateDirectory(path) => ActionView::CreateDirectory(path@),
            Action::SendRequest { url, range } => ActionView::SendRequest {
                url: url@,
                range: range.deep_view(),
            },
            Action::OpenFile { path, append } => ActionView::OpenFile { path: path@, append },
            Action::TransferChunk => ActionView::TransferChunk,
            Action::Nothing => ActionView::Nothing,
        }
    }
}

/// One report to the observers of a transfer: whose it is, and the news.
pub type Report = (i64, Result<Progress, Error>);

/// What a [`Report`] says, with its texts as sequences of characters.
pub type ReportView = (i64, Result<ProgressView, ErrorView>);

/// The view of what one step reports, if it reports anything.
pub open spec fn report_view(report: Option<Report>) -> Option<ReportView> {
    match report {
        Some((id, Ok(progress))) => Some((id, Ok(progress@))),
        Some((id, Err(error))) => Some((id, Err(error@))),
        None => None,
    }
}

/// The directory that every download goes to.
pub open spec fn download_dir() -> Seq<char> {
    "downloads"@
}

/// The file that a download from `url` is written to: the last path segment
/// of the URL under the download directory, and a fixed name where the URL
/// ends without one.
pub open spec fn destination_path(url: Seq<char>) -> Seq<char> {
    let name = last_segment(url, '/');
    download_dir() + "/"@ + if name.len() == 0 {
        "download"@
    } else {
        name
    }
}

/// The `Range` header that asks for everything from `resume_from` on; none
/// for a transfer that starts at the first byte.
pub open spec fn range_header(resume_from: u64) -> Option<Seq<char>> {
    if resume_from > 0 {
        Some("bytes="@ + decimal_text(resume_from as nat) + "-"@)
    } else {
        None
    }
}

/// The size of the whole resource as the response announces it: for a resumed
/// transfer the total at the end of `Content-Range`, for a fresh one
/// `Content-Length`. A field that is absent or spells no number leaves the
/// size unknown.
pub open spec fn announced_size(
    resume_from: u64,
    content_length: Option<Seq<char>>,
    content_range: Option<Seq<char>>,
) -> Option<u64> {
    if resume_from > 0 {
        match content_range {
            Some(range) => parsed_u64(last_segment(range, '/')),
            None => None,
        }
    } else {
        match content_length {
            Some(length) => parsed_u64(length),
            None => None,
        }
    }
}

/// The percentage of `total` that `downloaded` bytes make, rounded down. It
/// is unknown where the total is unknown or zero, and where more bytes have
/// arrived than were announced.
pub open spec fn progress_of(downloaded: u64, total: Option<u64>) -> Option<u8> {
    match total {
        Some(t) => if 0 < t && downloaded <= t {
            Some((downloaded * 100 / t as int) as u8)
        } else {
            None
        },
        None => None,
    }
}

/// Whether a status code reports success.
pub open spec fn is_success(status: u16) -> bool {
    200 <= status < 300
}

/// The reason given where a resumed transfer gets the whole resource back.
pub open spec fn resume_refused() -> Seq<char> {
    "server does not support resume"@
}

/// The reason given for a response whose status is no success.
pub open spec fn status_refused(status: u16) -> Seq<char> {
    "unexpected response status "@ + decimal_text(status as nat)
}

/// The reason given where the byte count would leave the range of 64 bits.
pub open spec fn count_overflow() -> Seq<char> {
    "byte count overflow"@
}

/// A transfer that ends in failure, and the report of it.
pub open spec fn failed(id: i64, reason: Seq<char>) -> (StateView, Option<ReportView>) {
    (
        StateView::Terminal(OutcomeView::Failed(reason)),
        Some((id, Err(ErrorView::DownloadError(reason)))),
    )
}

/// What the machine makes of the server's answer.
///
/// A resumed transfer goes on only with a partial response: anything else is
/// refused, never restarted from the first byte. A fresh transfer goes on with
/// any success. Going on means: the destination and the announced size are
/// settled, observers are told that the transfer has started, and the file is
/// to be opened.
pub open spec fn negotiated(
    id: i64,
    url: Seq<char>,
    resume_from: u64,
    status: u16,
    content_length: Option<Seq<char>>,
    content_range: Option<Seq<char>>,
) -> (StateView, Option<ReportView>) {
    if resume_from > 0 && status != PARTIAL_CONTENT {
        failed(id, resume_refused())
    } else if !is_success(status) {
        failed(id, status_refused(status))
    } else {
        let file_path = destination_path(url);
        let total_size = announced_size(resume_from, content_length, content_range);
        (
            StateView::Opening { id, url, file_path, total_size, resume_from },
            Some((id, Ok(ProgressView::Started { file_path, total_size }))),
        )
    }
}

/// What the machine makes of one more chunk on disk.
pub open spec fn advanced(
    id: i64,
    url: Seq<char>,
    file_path: Seq<char>,
    total_size: Option<u64>,
    downloaded: u64,
    len: u64,
) -> (StateView, Option<ReportView>) {
    if downloaded + len > u64::MAX {
        failed(id, count_overflow())
    } else {
        let count = (downloaded + len) as u64;
        (
            StateView::Streaming { id, url, file_path, total_size, downloaded: count },
            Some((id, Ok(ProgressView::Advanced(progress_of(count, total_size), count)))),
        )
    }
}

/// The transition function: the state after `event` and what observers are
/// told.
///
/// Observers hear of a transfer when the server has agreed, once for every
/// chunk on disk, and when the body has ended or the transfer has failed;
/// creating the directory and opening the file go by in silence. A request to
/// cancel ends any transfer that is still running, at once and
/// without a report. An event that the state does not wait for changes
/// nothing, and a transfer that is over stays as it is whatever comes.
pub open spec fn step_spec(state: StateView, event: EventView) -> (StateView, Option<ReportView>) {
    match state {
        StateView::Ready(id, url, resume_from) => match event {
            EventView::DirectoryReady => (StateView::Negotiating { id, url, resume_from }, None),
            EventView::DirectoryFailed(reason) => failed(id, reason),
            EventView::Cancel => (StateView::Terminal(OutcomeView::Cancelled), None),
            _ => (state, None),
        },
        StateView::Negotiating { id, url, resume_from } => match event {
            EventView::Responded { status, content_length, content_range } => negotiated(
                id,
                url,
                resume_from,
                status,
                content_length,
                content_range,
            ),
            EventView::RequestFailed(reason) => failed(id, reason),
            EventView::Cancel => (StateView::Terminal(OutcomeView::Cancelled), None),
            _ => (state, None),
        },
        StateView::Opening { id, url, file_path, total_size, resume_from } => match event {
            EventView::FileOpened => (
                StateView::Streaming { id, url, file_path, total_size, downloaded: resume_from },
                None,
            ),
            EventView::FileFailed(reason) => failed(id, reason),
            EventView::Cancel => (StateView::Terminal(OutcomeView::Cancelled), None),
            _ => (state, None),
        },
        StateView::Streaming { id, url, file_path, total_size, downloaded } => match event {
            EventView::ChunkWritten(len) => advanced(
                id,
                url,
                file_path,
                total_size,
                downloaded,
                len,
            ),
            EventView::BodyEnded => (
                StateView::Terminal(OutcomeView::Completed),
                Some((id, Ok(ProgressView::Finished))),
            ),
            EventView::StreamFailed(reason) => failed(id, reason),
            EventView::Cancel => (StateView::Terminal(OutcomeView::Cancelled), None),
            _ => (state, None),
        },
        StateView::Terminal(_) => (state, None),
    }
}

/// What the driver has to do while the machine is in `state`.
pub open spec fn action_spec(state: StateView) -> ActionView {
    match state {
        StateView::Ready(_, _, _) => ActionView::CreateDirectory(download_dir()),
        StateView::Negotiating { url, resume_from, .. } => ActionView::SendRequest {
            url,
            range: range_header(resume_from),
        },
        StateView::Opening { file_path, resume_from, .. } => ActionView::OpenFile {
            path: file_path,
            append: resume_from > 0,
        },
        StateView::Streaming { .. } => ActionView::TransferChunk,
        StateView::Terminal(_) => ActionView::Nothing,
    }
}

/// A transfer of `url` under the identity `id`, ready to start at byte
/// `downloaded_bytes`.
pub fn file(id: i64, url: String, downloaded_bytes: u64) -> (state: State)
    ensures
        state@ == StateView::Ready(id, url@, downloaded_bytes),
{
    State::Ready(id, url, downloaded_bytes)
}

/// The file that a download from `url` is written to.
pub fn destination_for(url: &str) -> (path: String)
    ensures
        path@ == destination_path(url@),
{
    let name = after_last(url, '/');
    let mut path = String::from_str("downloads");
    push_text(&mut path, "/");
    if name.as_str().is_empty() {
        push_text(&mut path, "download");
    } else {
        push_text(&mut path, name.as_str());
    }
    path
}

/// The `Range` header for a transfer that resumes at `resume_from`.
pub fn range_for(resume_from: u64) -> (range: Option<String>)
    ensures
        range.deep_view() == range_header(resume_from),
{
    if resume_from > 0 {
        let mut header = String::from_str("bytes=");
        push_decimal(&mut header, resume_from);
        push_text(&mut header, "-");
        Some(header)
    } else {
        None
    }
}

/// The size of the whole resource as the response announces it.
pub fn announced_total(
    resume_from: u64,
    content_length: &Option<String>,
    content_range: &Option<String>,
) -> (total: Option<u64>)
    ensures
        total == announced_size(
            resume_from,
            content_length.deep_view(),
            content_range.deep_view(),
        ),
{
    if resume_from > 0 {
        match content_range {
            Some(range) => {
                let total = after_last(range.as_str(), '/');
                parse_u64(total.as_str())
            },
            None => None,
        }
    } else {
        match content_length {
            Some(length) => parse_u64(length.as_str()),
            None => None,
        }
    }
}

/// The percentage of `total` that `downloaded` bytes make.
pub fn progress(downloaded: u64, total: Option<u64>) -> (percent: Option<u8>)
    ensures
        percent == progress_of(downloaded, total),
{
    match total {
        Some(t) => {
            if 0 < t && downloaded <= t {
                let scaled: u128 = (downloaded as u128) * 100;
                let whole: u128 = scaled / (t as u128);
                assert(whole <= 100) by (nonlinear_arith)
                    requires
                        whole == (downloaded * 100) / (t as int),
                        0 < t,
                        downloaded <= t,
                ;
                Some(whole as u8)
            } else {
                None
            }
        },
        None => None,
    }
}

/// Ends a transfer in failure.
fn fail(id: i64, reason: String) -> (out: (State, Option<Report>))
    ensures
        (out.0@, report_view(out.1)) == failed(id, reason@),
{
    let told = reason.clone();
    (State::Terminal(Outcome::Failed(reason)), Some((id, Err(Error::DownloadError(told)))))
}

/// Takes the server's answer: refuses it, or settles where the bytes go and
/// how many are expected.
pub fn negotiate(
    id: i64,
    url: String,
    resume_from: u64,
    status: u16,
    content_length: Option<String>,
    content_range: Option<String>,
) -> (out: (State, Option<Report>))
    ensures
        (out.0@, report_view(out.1)) == negotiated(
            id,
            url@,
            resume_from,
            status,
            content_length.deep_view(),
            content_range.deep_view(),
        ),
{
    if resume_from > 0 && status != PARTIAL_CONTENT {
        fail(id, String::from_str("server does not support resume"))
    } else if status < 200 || status >= 300 {
        let mut reason = String::from_str("unexpected response status ");
        push_decimal(&mut reason, status as u64);
        fail(id, reason)
    } else {
        let file_path = destination_for(url.as_str());
        let total_size = announced_total(resume_from, &content_length, &content_range);
        let told = file_path.clone();
        (
            State::Opening { id, url, file_path, total_size, resume_from },
            Some((id, Ok(Progress::Started { file_path: told, total_size }))),
        )
    }
}

/// Takes the next event and gives the state that follows, with the report for
/// the observers where the step yields one.
pub fn step(state: State, event: Event) -> (out: (State, Option<Report>))
    ensures
        (out.0@, report_view(out.1)) == step_spec(state@, event@),
{
    match state {
        State::Ready(id, url, resume_from) => match event {
            Event::DirectoryReady => (State::Negotiating { id, url, resume_from }, None),
            Event::DirectoryFailed(reason) => fail(id, reason),
            Event::Cancel => (State::Terminal(Outcome::Cancelled), None),
            _ => (State::Ready(id, url, resume_from), None),
        },
        State::Negotiating { id, url, resume_from } => match event {
            Event::Responded { status, content_length, content_range } => negotiate(
                id,
                url,
                resume_from,
                status,
                content_length,
                content_range,
            ),
            Event::RequestFailed(reason) => fail(id, reason),
            Event::Cancel => (State::Terminal(Outcome::Cancelled), None),
            _ => (State::Negotiating { id, url, resume_from }, None),
        },
        State::Opening { id, url, file_path, total_size, resume_from } => match event {
            Event::FileOpened => (
                State::Streaming { id, url, file_path, total_size, downloaded: resume_from },
                None,
            ),
            Event::FileFailed(reason) => fail(id, reason),
            Event::Cancel => (State::Terminal(Outcome::Cancelled), None),
            _ => (State::Opening { id, url, file_path, total_size, resume_from }, None),
        },
        State::Streaming { id, url, file_path, total_size, downloaded } => match event {
            Event::ChunkWritten(len) => match downloaded.checked_add(len) {
                Some(count) => {
                    let percent = progress(count, total_size);
                    (
                        State::Streaming { id, url, file_path, total_size, downloaded: count },
                        Some((id, Ok(Progress::Advanced(percent, count)))),
                    )
                },
                None => fail(id, String::from_str("byte count overflow")),
            },
            Event::BodyEnded => (
                State::Terminal(Outcome::Completed),
                Some((id, Ok(Progress::Finished))),
            ),
            Event::StreamFailed(reason) => fail(id, reason),
            Event::Cancel => (State::Terminal(Outcome::Cancelled), None),
            _ => (State::Streaming { id, url, file_path, total_size, downloaded }, None),
        },
        State::Terminal(outcome) => (State::Terminal(outcome), None),
    }
}

impl State {
    /// What the driver has to do now.
    pub fn action(&self) -> (action: Action)
        ensures
            action@ == action_spec(self@),
    {
        match self {
            State::Ready(_, _, _) => Action::CreateDirectory(String::from_str("downloads")),
            State::Negotiating { url, resume_from, .. } => Action::SendRequest {
                url: url.clone(),
                range: range_for(*resume_from),
            },
            State::Opening { file_path, resume_from, .. } => Action::OpenFile {
                path: file_path.clone(),
                append: *resume_from > 0,
            },
            State::Streaming { .. } => Action::TransferChunk,
            State::Terminal(_) => Action::Nothing,
        }
    }

    /// Whether the transfer is over.
    pub fn is_terminal(&self) -> (over: bool)
        ensures
            over == (self@ is Terminal),
    {
        match self {
            State::Terminal(_) => true,
            _ => false,
        }
    }
}

impl Error {
    /// The message that this error is shown with.
    pub open spec fn text(error: ErrorView) -> Seq<char> {
        match error {
            ErrorView::DownloadError(reason) => "Download error: "@ + reason,
        }
    }

    /// The message that this error is shown with.
    pub fn to_text(&self) -> (out: String)
        ensures
            out@ == Error::text(self@),
    {
        match self {
            Error::DownloadError(reason) => {
                let mut out = String::from_str("Download error: ");
                push_text(&mut out, reason.as_str());
                out
            },
        }
    }
}

} // verus!
