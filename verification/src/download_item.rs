//! The record of one download and what changes it.
//!
//! A record keeps its identity and source for life. Everything else follows
//! the messages it is sent: the commands of the user, and the reports of the
//! transfer that works on it.

pub mod download;
pub mod traces;

use crate::download_item::download::{
    file, progress, progress_of, step_spec, Error, ErrorView, EventView, OutcomeView, Progress,
    ProgressView, State, StateView,
};
use crate::download_item::traces::reached;
use crate::utils::text::{
    chars_of, decimal_text, digit, digit_char, push_decimal, push_text, same_text, starts_with,
    string_of,
};
use vstd::prelude::*;

verus! {

/// The last known state of a download.
#[derive(Debug, Clone, PartialEq, Eq)]
pub enum DownloadStatus {
    Pending,
    InProgress,
    Completed,
    Cancelled,
    Failed(String),
}

/// What a [`DownloadStatus`] says, with its text as a sequence of characters.
pub enum DownloadStatusView {
    Pending,
    InProgress,
    Completed,
    Cancelled,
    Failed(Seq<char>),
}

impl View for DownloadStatus {
    type V = DownloadStatusView;

    open spec fn view(&self) -> DownloadStatusView {
        match *self {
            DownloadStatus::Pending => DownloadStatusView::Pending,
            DownloadStatus::InProgress => DownloadStatusView::InProgress,
            DownloadStatus::Completed => DownloadStatusView::Completed,
            DownloadStatus::Cancelled => DownloadStatusView::Cancelled,
            DownloadStatus::Failed(reason) => DownloadStatusView::Failed(reason@),
        }
    }
}

/// What stands before the reason in the text of a failed status.
pub open spec fn failed_prefix() -> Seq<char> {
    "Failed: "@
}

/// The text that a status is stored and shown as.
pub open spec fn status_text(status: DownloadStatusView) -> Seq<char> {
    match status {
        DownloadStatusView::Pending => "Pending"@,
        DownloadStatusView::InProgress => "InProgress"@,
        DownloadStatusView::Completed => "Completed"@,
        DownloadStatusView::Cancelled => "Cancelled"@,
        DownloadStatusView::Failed(reason) => failed_prefix() + reason,
    }
}

/// The status that a stored text stands for. A text that names no status
/// counts as pending.
pub open spec fn status_from_text(text: Seq<char>) -> DownloadStatusView {
    if text == "InProgress"@ {
        DownloadStatusView::InProgress
    } else if text == "Completed"@ {
        DownloadStatusView::Completed
    } else if text == "Cancelled"@ {
        DownloadStatusView::Cancelled
    } else if failed_prefix().is_prefix_of(text) {
        DownloadStatusView::Failed(text.skip(failed_prefix().len() as int))
    } else {
        DownloadStatusView::Pending
    }
}

/// A status that is written out and read back is the status it was.
pub proof fn lemma_status_text_round_trip(status: DownloadStatusView)
    ensures
        status_from_text(status_text(status)) == status,
{
    reveal_strlit("Pending");
    reveal_strlit("InProgress");
    reveal_strlit("Completed");
    reveal_strlit("Cancelled");
    reveal_strlit("Failed: ");
    match status {
        DownloadStatusView::Pending => {
            assert("Pending"@[0] == 'P');
            assert(!failed_prefix().is_prefix_of("Pending"@)) by {
                assert("Pending"@.subrange(0, 8).len() == 8 || "Pending"@.len() < 8);
            }
        },
        DownloadStatusView::InProgress => {},
        DownloadStatusView::Completed => {
            assert("Completed"@[0] != "InProgress"@[0]);
        },
        DownloadStatusView::Cancelled => {
            assert("Cancelled"@[1] != "Completed"@[1]);
            assert("Cancelled"@[0] != "InProgress"@[0]);
        },
        DownloadStatusView::Failed(reason) => {
            let text = failed_prefix() + reason;
            assert(text[0] == 'F');
            assert(text.subrange(0, 8) =~= failed_prefix());
            assert(text.skip(8) =~= reason);
        },
    }
}

impl DownloadStatus {
    /// The text that this status is stored and shown as.
    pub fn to_text(&self) -> (text: String)
        ensures
            text@ == status_text(self@),
    {
        match self {
            DownloadStatus::Pending => String::from_str("Pending"),
            DownloadStatus::InProgress => String::from_str("InProgress"),
            DownloadStatus::Completed => String::from_str("Completed"),
            DownloadStatus::Cancelled => String::from_str("Cancelled"),
            DownloadStatus::Failed(reason) => {
                let mut text = String::from_str("Failed: ");
                push_text(&mut text, reason.as_str());
                text
            },
        }
    }

    /// The status that a stored text stands for.
    pub fn from_text(text: &str) -> (status: DownloadStatus)
        ensures
            status@ == status_from_text(text@),
    {
        if same_text(text, "InProgress") {
            DownloadStatus::InProgress
        } else if same_text(text, "Completed") {
            DownloadStatus::Completed
        } else if same_text(text, "Cancelled") {
            DownloadStatus::Cancelled
        } else if starts_with(text, "Failed: ") {
            proof {
                reveal_strlit("Failed: ");
            }
            let chars = chars_of(text);
            DownloadStatus::Failed(string_of(&chars, 8, chars.len()))
        } else {
            DownloadStatus::Pending
        }
    }
}

impl Default for DownloadStatus {
    fn default() -> (status: DownloadStatus)
        ensures
            status@ == DownloadStatusView::Pending,
    {
        DownloadStatus::Pending
    }
}

/// The record of one download.
#[derive(Debug, Clone, PartialEq, Eq)]
pub struct DownloadItem {
    /// Assigned once, when the record is made.
    pub id: i64,
    /// Where the resource is fetched from; never changed.
    pub url: String,
    /// Where the bytes go; empty until the transfer has settled it.
    pub file_path: String,
    /// The size of the whole resource, where the server has announced one.
    pub total_size: Option<u64>,
    /// The bytes on disk, as last reported.
    pub downloaded_bytes: u64,
    pub status: DownloadStatus,
}

/// What a [`DownloadItem`] holds, with its texts as sequences of characters.
pub struct DownloadItemView {
    pub id: i64,
    pub url: Seq<char>,
    pub file_path: Seq<char>,
    pub total_size: Option<u64>,
    pub downloaded_bytes: u64,
    pub status: DownloadStatusView,
}

impl View for DownloadItem {
    type V = DownloadItemView;

    open spec fn view(&self) -> DownloadItemView {
        DownloadItemView {
            id: self.id,
            url: self.url@,
            file_path: self.file_path@,
            total_size: self.total_size,
            downloaded_bytes: self.downloaded_bytes,
            status: self.status@,
        }
    }
}

impl DeepView for DownloadItem {
    type V = DownloadItemView;

    open spec fn deep_view(&self) -> DownloadItemView {
        self@
    }
}

/// What a record is told to do: the first, the fourth and the fifth are asked
/// for from outside, the others pass on what the transfer reports.
#[derive(Debug, Clone, PartialEq, Eq)]
pub enum DownloadMessage {
    StartDownload,
    /// The transfer has started: its destination and the announced size.
    BeginTransfer(String, Option<u64>),
    /// So many bytes are on disk.
    UpdateProgress(u64),
    CompleteDownload,
    CancelDownload,
    FailDownload(String),
}

/// What a [`DownloadMessage`] says, with its texts as sequences of
/// characters.
pub enum DownloadMessageView {
    StartDownload,
    BeginTransfer(Seq<char>, Option<u64>),
    UpdateProgress(u64),
    CompleteDownload,
    CancelDownload,
    FailDownload(Seq<char>),
}

impl View for DownloadMessage {
    type V = DownloadMessageView;

    open spec fn view(&self) -> DownloadMessageView {
        match *self {
            DownloadMessage::StartDownload => DownloadMessageView::StartDownload,
            DownloadMessage::BeginTransfer(file_path, total_size) => {
                DownloadMessageView::BeginTransfer(file_path@, total_size)
            },
            DownloadMessage::UpdateProgress(bytes) => DownloadMessageView::UpdateProgress(bytes),
            DownloadMessage::CompleteDownload => DownloadMessageView::CompleteDownload,
            DownloadMessage::CancelDownload => DownloadMessageView::CancelDownload,
            DownloadMessage::FailDownload(reason) => DownloadMessageView::FailDownload(reason@),
        }
    }
}

/// The announced size as far as the byte count bears it out: a size that the
/// count has gone beyond was wrong, and is dropped.
pub open spec fn believed_size(total_size: Option<u64>, downloaded_bytes: u64) -> Option<u64> {
    match total_size {
        Some(total) => if downloaded_bytes <= total {
            total_size
        } else {
            None
        },
        None => None,
    }
}

/// The message that passes a report of the transfer on to its record.
pub open spec fn message_of(report: Result<ProgressView, ErrorView>) -> DownloadMessageView {
    match report {
        Ok(ProgressView::Started { file_path, total_size }) => DownloadMessageView::BeginTransfer(
            file_path,
            total_size,
        ),
        Ok(ProgressView::Advanced(_, bytes)) => DownloadMessageView::UpdateProgress(bytes),
        Ok(ProgressView::Finished) => DownloadMessageView::CompleteDownload,
        Err(error) => DownloadMessageView::FailDownload(Error::text(error)),
    }
}

impl DownloadItemView {
    /// The byte count never exceeds a known size, and a completed download
    /// whose size is known has all of it.
    pub open spec fn wf(self) -> bool {
        match self.total_size {
            Some(total) => {
                &&& self.downloaded_bytes <= total
                &&& self.status is Completed ==> self.downloaded_bytes == total
            },
            None => true,
        }
    }

    /// The record after `message`.
    ///
    /// Starting makes the record in progress: one that was in progress keeps
    /// its byte count, to resume from; any other starts anew at zero. What the
    /// transfer reports is taken only while the record is in progress, so that
    /// nothing said after a cancellation or a failure shows, and a byte count
    /// below the one that the record stands at is passed over, so that the
    /// count never goes back within one attempt. Cancelling stops
    /// a record that is pending or in progress and leaves any other alone.
    pub open spec fn updated(self, message: DownloadMessageView) -> DownloadItemView {
        match message {
            DownloadMessageView::StartDownload => DownloadItemView {
                status: DownloadStatusView::InProgress,
                downloaded_bytes: if self.status is InProgress {
                    self.downloaded_bytes
                } else {
                    0
                },
                ..self
            },
            DownloadMessageView::BeginTransfer(file_path, total_size) => if self.status
                is InProgress {
                DownloadItemView {
                    file_path: if self.file_path.len() == 0 {
                        file_path
                    } else {
                        self.file_path
                    },
                    total_size: believed_size(total_size, self.downloaded_bytes),
                    ..self
                }
            } else {
                self
            },
            DownloadMessageView::UpdateProgress(bytes) => if self.status is InProgress && bytes
                >= self.downloaded_bytes {
                DownloadItemView {
                    downloaded_bytes: bytes,
                    total_size: believed_size(self.total_size, bytes),
                    ..self
                }
            } else {
                self
            },
            DownloadMessageView::CompleteDownload => if self.status is InProgress {
                DownloadItemView {
                    status: DownloadStatusView::Completed,
                    downloaded_bytes: match self.total_size {
                        Some(total) => total,
                        None => self.downloaded_bytes,
                    },
                    ..self
                }
            } else {
                self
            },
            DownloadMessageView::CancelDownload => if self.status is Pending || self.status
                is InProgress {
                DownloadItemView { status: DownloadStatusView::Cancelled, ..self }
            } else {
                self
            },
            DownloadMessageView::FailDownload(reason) => if self.status is InProgress {
                DownloadItemView { status: DownloadStatusView::Failed(reason), ..self }
            } else {
                self
            },
        }
    }

    /// The transfer that has to run for this record: one for a record in
    /// progress, from the byte count it has reached, and none for any other.
    pub open spec fn transfer(self) -> Option<StateView> {
        if self.status is InProgress {
            Some(StateView::Ready(self.id, self.url, self.downloaded_bytes))
        } else {
            None
        }
    }
}

/// No message takes a sound record to an unsound one, and none touches its
/// identity or its source.
pub proof fn lemma_update_keeps_record_sound(item: DownloadItemView, message: DownloadMessageView)
    requires
        item.wf(),
    ensures
        item.updated(message).wf(),
        item.updated(message).id == item.id,
        item.updated(message).url == item.url,
{
}

/// The byte count of a sound record never goes down, whatever it is told,
/// unless it is started: only a start may take it back, to begin anew.
pub proof fn lemma_count_never_goes_down(item: DownloadItemView, message: DownloadMessageView)
    requires
        item.wf(),
        !(message is StartDownload),
    ensures
        item.updated(message).downloaded_bytes >= item.downloaded_bytes,
{
}

/// Starting takes the byte count back only where the record was not in
/// progress: a record in progress keeps its count.
pub proof fn lemma_start_keeps_running_count(item: DownloadItemView)
    ensures
        item.status is InProgress ==> item.updated(DownloadMessageView::StartDownload)
            == item,
        !(item.status is InProgress) ==> item.updated(
            DownloadMessageView::StartDownload,
        ).downloaded_bytes == 0,
{
}

/// A destination that is set stays as it is.
pub proof fn lemma_destination_is_set_once(item: DownloadItemView, message: DownloadMessageView)
    requires
        item.file_path.len() > 0,
    ensures
        item.updated(message).file_path == item.file_path,
{
}

/// Once a record is cancelled, completed or failed, no report of the transfer
/// and no further cancellation changes it.
pub proof fn lemma_reports_stop_at_the_end(item: DownloadItemView, message: DownloadMessageView)
    requires
        item.status is Cancelled || item.status is Completed || item.status is Failed,
        !(message is StartDownload),
    ensures
        item.updated(message) == item,
{
}

/// The record after one step of its transfer: changed by the message that
/// passes the report on, where the step reports anything.
pub open spec fn informed(item: DownloadItemView, state: StateView, event: EventView)
    -> DownloadItemView {
    match step_spec(state, event).1 {
        Some((_, report)) => item.updated(message_of(report)),
        None => item,
    }
}

/// The record follows its transfer. A record in progress that stands at the
/// byte count of its running transfer stands there again after every step, as
/// long as the transfer runs; when the transfer completes, the record is
/// completed; when the transfer fails, the record is failed, with the reason
/// as the error words it; and a step that cancels the transfer says nothing,
/// so that it leaves the record to the message that cancels it.
pub proof fn lemma_record_follows_transfer(
    item: DownloadItemView,
    state: StateView,
    event: EventView,
)
    requires
        item.wf(),
        item.status is InProgress,
        !(state is Terminal),
        item.downloaded_bytes == reached(state),
    ensures
        ({
            let next = step_spec(state, event).0;
            let after = informed(item, state, event);
            &&& after.wf()
            &&& !(next is Terminal) ==> after.status is InProgress && after.downloaded_bytes
                == reached(next)
            &&& next == StateView::Terminal(OutcomeView::Completed) ==> after.status is Completed
            &&& next == StateView::Terminal(OutcomeView::Cancelled) ==> after == item
            &&& forall|reason: Seq<char>|
                next == StateView::Terminal(OutcomeView::Failed(reason)) ==> after.status
                    == DownloadStatusView::Failed(Error::text(ErrorView::DownloadError(reason)))
        }),
{
}

impl DownloadMessage {
    /// The message that passes a report of the transfer on to its record.
    pub fn from_report(report: Result<Progress, Error>) -> (message: DownloadMessage)
        ensures
            message@ == message_of(
                match report {
                    Ok(progress) => Ok(progress@),
                    Err(error) => Err(error@),
                },
            ),
    {
        match report {
            Ok(Progress::Started { file_path, total_size }) => DownloadMessage::BeginTransfer(
                file_path,
                total_size,
            ),
            Ok(Progress::Advanced(_, bytes)) => DownloadMessage::UpdateProgress(bytes),
            Ok(Progress::Finished) => DownloadMessage::CompleteDownload,
            Err(error) => DownloadMessage::FailDownload(error.to_text()),
        }
    }
}

/// The announced size as far as the byte count bears it out.
fn believe(total_size: Option<u64>, downloaded_bytes: u64) -> (out: Option<u64>)
    ensures
        out == believed_size(total_size, downloaded_bytes),
{
    match total_size {
        Some(total) => if downloaded_bytes <= total {
            total_size
        } else {
            None
        },
        None => None,
    }
}

impl DownloadItem {
    /// A record for `url` under the identity `id`: pending, with nothing on
    /// disk and nothing known of the resource.
    pub fn new(id: i64, url: String) -> (item: DownloadItem)
        ensures
            item@ == (DownloadItemView {
                id,
                url: url@,
                file_path: Seq::empty(),
                total_size: None,
                downloaded_bytes: 0,
                status: DownloadStatusView::Pending,
            }),
            item@.wf(),
    {
        DownloadItem {
            id,
            url,
            file_path: String::new(),
            total_size: None,
            downloaded_bytes: 0,
            status: DownloadStatus::Pending,
        }
    }

    /// Takes `message` and changes the record as [`DownloadItemView::updated`]
    /// says.
    pub fn update(&mut self, message: DownloadMessage)
        ensures
            final(self)@ == old(self)@.updated(message@),
            old(self)@.wf() ==> final(self)@.wf(),
    {
        let running = match self.status {
            DownloadStatus::InProgress => true,
            _ => false,
        };
        match message {
            DownloadMessage::StartDownload => {
                if !running {
                    self.downloaded_bytes = 0;
                }
                self.status = DownloadStatus::InProgress;
            },
            DownloadMessage::BeginTransfer(file_path, total_size) => {
                if running {
                    if self.file_path.as_str().is_empty() {
                        self.file_path = file_path;
                    }
                    self.total_size = believe(total_size, self.downloaded_bytes);
                }
            },
            DownloadMessage::UpdateProgress(bytes) => {
                if running && bytes >= self.downloaded_bytes {
                    self.downloaded_bytes = bytes;
                    self.total_size = believe(self.total_size, bytes);
                }
            },
            DownloadMessage::CompleteDownload => {
                if running {
                    self.status = DownloadStatus::Completed;
                    match self.total_size {
                        Some(total) => {
                            self.downloaded_bytes = total;
                        },
                        None => {},
                    }
                }
            },
            DownloadMessage::CancelDownload => {
                let pending = match self.status {
                    DownloadStatus::Pending => true,
                    _ => false,
                };
                if running || pending {
                    self.status = DownloadStatus::Cancelled;
                }
            },
            DownloadMessage::FailDownload(reason) => {
                if running {
                    self.status = DownloadStatus::Failed(reason);
                }
            },
        }
    }

    /// The transfer that has to run for this record, if any.
    pub fn subscription(&self) -> (transfer: Option<State>)
        ensures
            transfer.deep_view() == self@.transfer(),
    {
        match self.status {
            DownloadStatus::InProgress => Some(
                file(self.id, self.url.clone(), self.downloaded_bytes),
            ),
            _ => None,
        }
    }

    /// The percentage done, where it is known.
    pub fn progress(&self) -> (percent: Option<u8>)
        ensures
            percent == progress_of(self.downloaded_bytes, self.total_size),
    {
        progress(self.downloaded_bytes, self.total_size)
    }
}

pub const KB: u64 = 1024;

pub const MB: u64 = 1024 * 1024;

pub const GB: u64 = 1024 * 1024 * 1024;

/// `n / d` rounded to the nearest whole number, a tie going to the even one.
pub open spec fn rounded_ratio(n: nat, d: nat) -> nat {
    let q = n / d;
    let r = n % d;
    if 2 * r > d || (2 * r == d && q % 2 == 1) {
        q + 1
    } else {
        q
    }
}

/// `bytes` in units of `unit`, with two decimal places.
pub open spec fn scaled_text(bytes: u64, unit: u64) -> Seq<char> {
    let hundredths = rounded_ratio(bytes as nat * 100, unit as nat);
    decimal_text(hundredths / 100) + seq![
        '.',
        digit_char(hundredths % 100 / 10),
        digit_char(hundredths % 10),
    ]
}

/// A byte count as people read it: in the largest binary unit that it
/// reaches, with two decimal places, or in whole bytes below 1024.
pub open spec fn formatted_bytes(bytes: u64) -> Seq<char> {
    if bytes >= GB {
        scaled_text(bytes, GB) + " GB"@
    } else if bytes >= MB {
        scaled_text(bytes, MB) + " MB"@
    } else if bytes >= KB {
        scaled_text(bytes, KB) + " KB"@
    } else {
        decimal_text(bytes as nat) + " B"@
    }
}

/// Appends `bytes` in units of `unit`, with two decimal places.
fn push_scaled(out: &mut String, bytes: u64, unit: u64)
    requires
        unit >= 1024,
    ensures
        final(out)@ == old(out)@ + scaled_text(bytes, unit),
{
    let n: u128 = (bytes as u128) * 100;
    let d: u128 = unit as u128;
    let q: u128 = n / d;
    let r: u128 = n % d;
    assert(q <= bytes) by (nonlinear_arith)
        requires
            q == (bytes * 100) / (unit as int),
            unit >= 1024,
    ;
    let hundredths: u128 = if 2 * r > d || (2 * r == d && q % 2 == 1) {
        q + 1
    } else {
        q
    };
    assert(hundredths == rounded_ratio(bytes as nat * 100, unit as nat));
    let whole: u64 = (hundredths / 100) as u64;
    let tenths: u8 = (hundredths % 100 / 10) as u8;
    let last: u8 = (hundredths % 10) as u8;
    push_decimal(out, whole);
    out.push('.');
    out.push(digit(tenths));
    out.push(digit(last));
    assert(out@ =~= old(out)@ + scaled_text(bytes, unit));
}

/// A byte count as people read it.
pub fn format_bytes(bytes: u64) -> (text: String)
    ensures
        text@ == formatted_bytes(bytes),
{
    let mut text = String::new();
    if bytes >= GB {
        push_scaled(&mut text, bytes, GB);
        push_text(&mut text, " GB");
    } else if bytes >= MB {
        push_scaled(&mut text, bytes, MB);
        push_text(&mut text, " MB");
    } else if bytes >= KB {
        push_scaled(&mut text, bytes, KB);
        push_text(&mut text, " KB");
    } else {
        push_decimal(&mut text, bytes);
        push_text(&mut text, " B");
    }
    text
}

} // verus!
