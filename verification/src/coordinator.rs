//! The coordinator: the one place that holds the records, takes every message
//! and says what is to be written to the store.
//!
//! It never performs anything itself. Each message gives the next state and one
//! action for the driver; the transfers that have to run are read off the
//! records, so that after a restart exactly those that were in progress are
//! taken up again, each from the byte it had reached.

use crate::db::{row_of, save_download, DownloadRow, DownloadRowView};
use crate::download_item::download::{State, StateView};
use crate::download_item::{
    DownloadItem, DownloadItemView, DownloadMessage, DownloadMessageView, DownloadStatusView,
};
use crate::ui::url_input::{
    clipboard_scheme, UrlInput, UrlInputAction, UrlInputActionView, UrlInputMessage,
    UrlInputMessageView, UrlInputView,
};
use crate::utils::http::parse_scheme;
use vstd::prelude::*;

verus! {

/// What the coordinator is told.
#[derive(Debug, Clone, PartialEq, Eq)]
pub enum AppMessage {
    /// Something for the URL field.
    UrlInput(UrlInputMessage),
    /// Something for the record at this position.
    DownloadItem(usize, DownloadMessage),
    ShowModal,
    HideModal,
}

/// What an [`AppMessage`] says, with its texts as sequences of characters.
pub enum AppMessageView {
    UrlInput(UrlInputMessageView),
    DownloadItem(usize, DownloadMessageView),
    ShowModal,
    HideModal,
}

impl View for AppMessage {
    type V = AppMessageView;

    open spec fn view(&self) -> AppMessageView {
        match *self {
            AppMessage::UrlInput(message) => AppMessageView::UrlInput(message@),
            AppMessage::DownloadItem(index, message) => AppMessageView::DownloadItem(
                index,
                message@,
            ),
            AppMessage::ShowModal => AppMessageView::ShowModal,
            AppMessage::HideModal => AppMessageView::HideModal,
        }
    }
}

/// What the driver has to do after a message.
#[derive(Debug, Clone, PartialEq, Eq)]
pub enum AppAction {
    Nothing,
    /// Read the clipboard and hand its text to the URL field.
    ReadClipboard,
    /// Do what the URL field asks for.
    Input(UrlInputAction),
    /// Write this row to the store, in place of any row of the same
    /// identity.
    Save(DownloadRow),
}

/// What an [`AppAction`] asks for, with its texts as sequences of
/// characters.
pub enum AppActionView {
    Nothing,
    ReadClipboard,
    Input(UrlInputActionView),
    Save(DownloadRowView),
}

impl View for AppAction {
    type V = AppActionView;

    open spec fn view(&self) -> AppActionView {
        match *self {
            AppAction::Nothing => AppActionView::Nothing,
            AppAction::ReadClipboard => AppActionView::ReadClipboard,
            AppAction::Input(action) => AppActionView::Input(action@),
            AppAction::Save(row) => AppActionView::Save(row@),
        }
    }
}

/// All that the coordinator holds.
#[derive(Debug, Clone, PartialEq, Eq)]
pub struct AppState {
    pub download_items: Vec<DownloadItem>,
    pub url_input: UrlInput,
    /// Whether the URL field is shown.
    pub show_modal: bool,
}

/// What an [`AppState`] holds, with its texts as sequences of characters.
pub struct AppStateView {
    pub download_items: Seq<DownloadItemView>,
    pub url_input: UrlInputView,
    pub show_modal: bool,
}

impl View for AppState {
    type V = AppStateView;

    open spec fn view(&self) -> AppStateView {
        AppStateView {
            download_items: self.download_items.deep_view(),
            url_input: self.url_input@,
            show_modal: self.show_modal,
        }
    }
}

/// The largest identity among `items`, if there is any item.
pub open spec fn largest_id(items: Seq<DownloadItemView>) -> Option<i64>
    decreases items.len(),
{
    if items.len() == 0 {
        None
    } else {
        match largest_id(items.drop_last()) {
            Some(largest) => if items.last().id > largest {
                Some(items.last().id)
            } else {
                Some(largest)
            },
            None => Some(items.last().id),
        }
    }
}

/// The identity that a new record gets: `wanted` where that lies above every
/// identity in use, else the one just above the largest in use; none where
/// the largest in use is the largest there is.
pub open spec fn fresh_id(items: Seq<DownloadItemView>, wanted: i64) -> Option<i64> {
    match largest_id(items) {
        Some(largest) => if wanted > largest {
            Some(wanted)
        } else if largest < i64::MAX {
            Some((largest + 1) as i64)
        } else {
            None
        },
        None => Some(wanted),
    }
}

/// No two of `items` have the same identity.
pub open spec fn distinct_ids(items: Seq<DownloadItemView>) -> bool {
    forall|i: int, j: int| 0 <= i < j < items.len() ==> items[i].id != items[j].id
}

/// Every one of `items` is sound.
pub open spec fn all_sound(items: Seq<DownloadItemView>) -> bool {
    forall|i: int| 0 <= i < items.len() ==> (#[trigger] items[i]).wf()
}

/// The record that is made for `url`: new under `id`, and started at once.
pub open spec fn added(id: i64, url: Seq<char>) -> DownloadItemView {
    DownloadItemView {
        id,
        url,
        file_path: Seq::empty(),
        total_size: None,
        downloaded_bytes: 0,
        status: DownloadStatusView::InProgress,
    }
}

/// The transfers that have to run for `items`, each with the position of its
/// record: one for every record in progress, from the byte count that the
/// record has reached, and none for any other.
pub open spec fn armed(items: Seq<DownloadItemView>) -> Seq<(usize, StateView)>
    decreases items.len(),
{
    if items.len() == 0 {
        Seq::empty()
    } else {
        let rest = armed(items.drop_last());
        match items.last().transfer() {
            Some(transfer) => rest.push(((items.len() - 1) as usize, transfer)),
            None => rest,
        }
    }
}

impl AppStateView {
    /// The state after `message`, and what the driver has to do.
    ///
    /// `wanted_id` is the identity proposed for a record that the message may
    /// make, and `scheme` the scheme of the clipboard's text read as a URL
    /// where the message brings such a text.
    ///
    /// A URL is added only once the validator has confirmed it: the record is
    /// made and started, the row for it is to be written, and the field is
    /// cleared and hidden. A message for a record changes that record and has
    /// its row written; one for a position that holds no record is dropped.
    pub open spec fn updated(
        self,
        message: AppMessageView,
        wanted_id: i64,
        scheme: Option<Seq<char>>,
    ) -> (AppStateView, AppActionView) {
        match message {
            AppMessageView::ShowModal => (
                AppStateView { show_modal: true, ..self },
                AppActionView::ReadClipboard,
            ),
            AppMessageView::HideModal => (
                AppStateView {
                    show_modal: false,
                    url_input: UrlInputView { value: Seq::empty(), ..self.url_input },
                    ..self
                },
                AppActionView::Nothing,
            ),
            AppMessageView::UrlInput(UrlInputMessageView::Add) => {
                let id = fresh_id(self.download_items, wanted_id);
                if self.url_input.add_enabled() && id is Some {
                    let item = added(id->0, self.url_input.value);
                    (
                        AppStateView {
                            download_items: self.download_items.push(item),
                            url_input: UrlInputView { value: Seq::empty(), ..self.url_input },
                            show_modal: false,
                        },
                        AppActionView::Save(row_of(item)),
                    )
                } else {
                    (self, AppActionView::Nothing)
                }
            },
            AppMessageView::UrlInput(other) => {
                let (url_input, action) = self.url_input.updated(other, scheme);
                (AppStateView { url_input, ..self }, AppActionView::Input(action))
            },
            AppMessageView::DownloadItem(index, change) => if index < self.download_items.len() {
                let item = self.download_items[index as int].updated(change);
                (
                    AppStateView {
                        download_items: self.download_items.update(index as int, item),
                        ..self
                    },
                    AppActionView::Save(row_of(item)),
                )
            } else {
                (self, AppActionView::Nothing)
            },
        }
    }
}

/// The scheme that a message to the coordinator depends on: that of the
/// clipboard's text, where the message hands one to the URL field.
pub open spec fn message_scheme(message: AppMessageView) -> Option<Seq<char>> {
    match message {
        AppMessageView::UrlInput(inner) => clipboard_scheme(inner),
        _ => None,
    }
}

/// The largest identity in use is in use, and none in use lies above it.
pub proof fn lemma_largest_id(items: Seq<DownloadItemView>, i: int)
    requires
        0 <= i < items.len(),
    ensures
        largest_id(items) is Some,
        items[i].id <= largest_id(items)->0,
    decreases items.len(),
{
    if i < items.len() - 1 {
        lemma_largest_id(items.drop_last(), i);
    }
}

/// An identity is never used twice: as long as no two records share one, no
/// message makes two records share one, and none changes the identity or the
/// source of a record that is there.
pub proof fn lemma_ids_stay_distinct(
    state: AppStateView,
    message: AppMessageView,
    wanted_id: i64,
    scheme: Option<Seq<char>>,
)
    requires
        distinct_ids(state.download_items),
    ensures
        ({
            let after = state.updated(message, wanted_id, scheme).0;
            &&& distinct_ids(after.download_items)
            &&& after.download_items.len() >= state.download_items.len()
            &&& forall|i: int|
                0 <= i < state.download_items.len() ==> {
                    &&& (#[trigger] after.download_items[i]).id == state.download_items[i].id
                    &&& after.download_items[i].url == state.download_items[i].url
                }
        }),
{
    let after = state.updated(message, wanted_id, scheme).0;
    match message {
        AppMessageView::UrlInput(UrlInputMessageView::Add) => {
            let id = fresh_id(state.download_items, wanted_id);
            if state.url_input.add_enabled() && id is Some {
                assert forall|i: int, j: int|
                    0 <= i < j < after.download_items.len() implies after.download_items[i].id
                    != after.download_items[j].id by {
                    if j == state.download_items.len() {
                        lemma_largest_id(state.download_items, i);
                    }
                }
            }
        },
        _ => {},
    }
}

/// As long as every record is sound, no message makes one unsound.
pub proof fn lemma_records_stay_sound(
    state: AppStateView,
    message: AppMessageView,
    wanted_id: i64,
    scheme: Option<Seq<char>>,
)
    requires
        all_sound(state.download_items),
    ensures
        all_sound(state.updated(message, wanted_id, scheme).0.download_items),
{
}

/// What is taken up and what is left alone: a record has a transfer armed
/// exactly if it is in progress, and then the transfer is ready to resume at
/// the byte count of the record. Records that are pending, completed,
/// cancelled or failed have none.
pub proof fn lemma_armed_exactly_in_progress(items: Seq<DownloadItemView>, i: int)
    requires
        0 <= i < items.len() <= usize::MAX,
    ensures
        items[i].status is InProgress <==> armed(items).contains(
            (i as usize, StateView::Ready(items[i].id, items[i].url, items[i].downloaded_bytes)),
        ),
        forall|k: int|
            0 <= k < armed(items).len() ==> {
                let (at, transfer) = #[trigger] armed(items)[k];
                &&& at < items.len()
                &&& items[at as int].transfer() == Some(transfer)
            },
    decreases items.len(),
{
    let rest = armed(items.drop_last());
    let last = items.len() - 1;
    let wanted = (
        i as usize,
        StateView::Ready(items[i].id, items[i].url, items[i].downloaded_bytes),
    );
    lemma_armed_positions(items);
    if i < last {
        lemma_armed_exactly_in_progress(items.drop_last(), i);
        if rest.contains(wanted) {
            let k = choose|k: int| 0 <= k < rest.len() && rest[k] == wanted;
            assert(armed(items)[k] == wanted);
        }
        if armed(items).contains(wanted) {
            let k = choose|k: int| 0 <= k < armed(items).len() && armed(items)[k] == wanted;
            if k < rest.len() {
                assert(rest[k] == wanted);
            }
        }
    } else {
        if items[i].status is InProgress {
            assert(armed(items)[rest.len() as int] == wanted);
        } else {
            lemma_armed_positions(items.drop_last());
            if armed(items).contains(wanted) {
                let k = choose|k: int| 0 <= k < armed(items).len() && armed(items)[k] == wanted;
                assert(rest[k].0 < last);
            }
        }
    }
}

/// Every transfer that is armed stands for the record at its position.
pub proof fn lemma_armed_positions(items: Seq<DownloadItemView>)
    requires
        items.len() <= usize::MAX,
    ensures
        armed(items).len() <= items.len(),
        forall|k: int|
            0 <= k < armed(items).len() ==> {
                let (at, transfer) = #[trigger] armed(items)[k];
                &&& at < items.len()
                &&& items[at as int].transfer() == Some(transfer)
            },
    decreases items.len(),
{
    if items.len() > 0 {
        lemma_armed_positions(items.drop_last());
        let rest = armed(items.drop_last());
        assert forall|k: int| 0 <= k < armed(items).len() implies {
            let (at, transfer) = #[trigger] armed(items)[k];
            &&& at < items.len()
            &&& items[at as int].transfer() == Some(transfer)
        } by {
            if k < rest.len() {
                assert(armed(items)[k] == rest[k]);
                assert(items.drop_last()[rest[k].0 as int] == items[rest[k].0 as int]);
            }
        }
    }
}

/// The largest identity among `items`.
fn largest(items: &Vec<DownloadItem>) -> (out: Option<i64>)
    ensures
        out == largest_id(items.deep_view()),
{
    let mut out: Option<i64> = None;
    let mut i: usize = 0;
    while i < items.len()
        invariant
            i <= items.len(),
            out == largest_id(items.deep_view().take(i as int)),
        decreases items.len() - i,
    {
        let id = items[i].id;
        proof {
            let shorter = items.deep_view().take(i as int);
            let longer = items.deep_view().take(i + 1);
            assert(longer.drop_last() =~= shorter);
            assert(longer.last().id == id);
        }
        out = match out {
            Some(largest) => if id > largest {
                Some(id)
            } else {
                Some(largest)
            },
            None => Some(id),
        };
        i = i + 1;
    }
    assert(items.deep_view().take(i as int) =~= items.deep_view());
    out
}

/// The identity that a new record gets.
fn allot_id(items: &Vec<DownloadItem>, wanted: i64) -> (out: Option<i64>)
    ensures
        out == fresh_id(items.deep_view(), wanted),
{
    match largest(items) {
        Some(largest) => if wanted > largest {
            Some(wanted)
        } else if largest < i64::MAX {
            Some(largest + 1)
        } else {
            None
        },
        None => Some(wanted),
    }
}

impl AppState {
    /// The coordinator at startup, holding the records that the store gave:
    /// each as it was loaded, the URL field empty and hidden.
    pub fn new(downloads: Vec<DownloadItem>) -> (state: AppState)
        ensures
            state@ == (AppStateView {
                download_items: downloads.deep_view(),
                url_input: UrlInputView::empty(),
                show_modal: false,
            }),
    {
        AppState { download_items: downloads, url_input: UrlInput::default(), show_modal: false }
    }

    /// Takes `message`, with `scheme` being the scheme of the clipboard's text
    /// read as a URL where the message brings such a text.
    pub fn update_with(&mut self, message: AppMessage, wanted_id: i64, scheme: Option<String>) -> (action:
        AppAction)
        ensures
            (final(self)@, action@) == old(self)@.updated(message@, wanted_id, scheme.deep_view()),
    {
        match message {
            AppMessage::ShowModal => {
                self.show_modal = true;
                AppAction::ReadClipboard
            },
            AppMessage::HideModal => {
                self.show_modal = false;
                self.url_input.value = String::new();
                AppAction::Nothing
            },
            AppMessage::UrlInput(UrlInputMessage::Add) => {
                let id = allot_id(&self.download_items, wanted_id);
                match id {
                    Some(id) => {
                        if self.url_input.add_enabled() {
                            let mut item = DownloadItem::new(id, self.url_input.value.clone());
                            item.update(DownloadMessage::StartDownload);
                            let row = save_download(&item);
                            proof {
                                assert(item@ == added(id, old(self)@.url_input.value));
                                assert(self.download_items.deep_view().push(item@)
                                    =~= old(self)@.download_items.push(item@));
                            }
                            let ghost before = self.download_items.deep_view();
                            self.download_items.push(item);
                            assert(self.download_items.deep_view() =~= before.push(item@));
                            self.url_input.value = String::new();
                            self.show_modal = false;
                            AppAction::Save(row)
                        } else {
                            AppAction::Nothing
                        }
                    },
                    None => AppAction::Nothing,
                }
            },
            AppMessage::UrlInput(other) => {
                let action = self.url_input.update_with(other, scheme);
                AppAction::Input(action)
            },
            AppMessage::DownloadItem(index, change) => {
                if index < self.download_items.len() {
                    let ghost before = self.download_items.deep_view();
                    self.download_items[index].update(change);
                    let row = save_download(&self.download_items[index]);
                    assert(self.download_items.deep_view() =~= before.update(
                        index as int,
                        self.download_items[index as int]@,
                    ));
                    AppAction::Save(row)
                } else {
                    AppAction::Nothing
                }
            },
        }
    }

    /// Takes `message` and says what the driver has to do. `wanted_id` is the
    /// identity proposed for a record that the message may make.
    pub fn update(&mut self, message: AppMessage, wanted_id: i64) -> (action: AppAction)
        ensures
            (final(self)@, action@) == old(self)@.updated(
                message@,
                wanted_id,
                message_scheme(message@),
            ),
    {
        let scheme = match &message {
            AppMessage::UrlInput(UrlInputMessage::ClipboardContent(Some(content))) => parse_scheme(
                content.as_str(),
            ),
            _ => None,
        };
        self.update_with(message, wanted_id, scheme)
    }

    /// The transfers that have to run, each with the position of its record.
    pub fn subscription(&self) -> (transfers: Vec<(usize, State)>)
        ensures
            transfers.deep_view() == armed(self@.download_items),
    {
        let mut transfers: Vec<(usize, State)> = Vec::new();
        let mut i: usize = 0;
        while i < self.download_items.len()
            invariant
                i <= self.download_items.len(),
                transfers.deep_view() == armed(self.download_items.deep_view().take(i as int)),
            decreases self.download_items.len() - i,
        {
            let ghost before = transfers.deep_view();
            proof {
                let shorter = self.download_items.deep_view().take(i as int);
                let longer = self.download_items.deep_view().take(i + 1);
                assert(longer.drop_last() =~= shorter);
                assert(longer.last() == self.download_items[i as int]@);
            }
            match self.download_items[i].subscription() {
                Some(transfer) => {
                    transfers.push((i, transfer));
                    assert(transfers.deep_view() =~= before.push((i, transfer@)));
                },
                None => {},
            }
            i = i + 1;
        }
        assert(self.download_items.deep_view().take(i as int) =~= self.download_items.deep_view());
        transfers
    }
}

} // verus!
