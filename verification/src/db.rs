//! The durable form of a record: one row per download, keyed by its identity.
//!
//! Writing is always the whole row, never a field of it; reading never fails,
//! whatever the row holds.

use crate::download_item::{
    believed_size, lemma_status_text_round_trip, status_from_text, status_text, DownloadItem,
    DownloadItemView, DownloadStatus,
};
use vstd::prelude::*;

verus! {

/// One row of the store.
#[derive(Debug, Clone, PartialEq, Eq)]
pub struct DownloadRow {
    pub id: i64,
    pub url: String,
    pub file_path: String,
    pub total_size: Option<u64>,
    pub status: String,
    pub downloaded_bytes: u64,
}

/// What a [`DownloadRow`] holds, with its texts as sequences of characters.
pub struct DownloadRowView {
    pub id: i64,
    pub url: Seq<char>,
    pub file_path: Seq<char>,
    pub total_size: Option<u64>,
    pub status: Seq<char>,
    pub downloaded_bytes: u64,
}

impl View for DownloadRow {
    type V = DownloadRowView;

    open spec fn view(&self) -> DownloadRowView {
        DownloadRowView {
            id: self.id,
            url: self.url@,
            file_path: self.file_path@,
            total_size: self.total_size,
            status: self.status@,
            downloaded_bytes: self.downloaded_bytes,
        }
    }
}

impl DeepView for DownloadRow {
    type V = DownloadRowView;

    open spec fn deep_view(&self) -> DownloadRowView {
        self@
    }
}

/// The row that a record is stored as: every field as it stands, the status
/// as its text.
pub open spec fn row_of(item: DownloadItemView) -> DownloadRowView {
    DownloadRowView {
        id: item.id,
        url: item.url,
        file_path: item.file_path,
        total_size: item.total_size,
        status: status_text(item.status),
        downloaded_bytes: item.downloaded_bytes,
    }
}

/// The record that a row stands for.
///
/// The fields are taken as they stand, with two exceptions that keep the
/// record sound whatever was stored: a size that the byte count has gone
/// beyond is dropped, and a completed download counts as having all of a size
/// that is known.
pub open spec fn item_of(row: DownloadRowView) -> DownloadItemView {
    let status = status_from_text(row.status);
    let total_size = believed_size(row.total_size, row.downloaded_bytes);
    DownloadItemView {
        id: row.id,
        url: row.url,
        file_path: row.file_path,
        total_size,
        downloaded_bytes: match total_size {
            Some(total) => if status is Completed {
                total
            } else {
                row.downloaded_bytes
            },
            None => row.downloaded_bytes,
        },
        status,
    }
}

/// A sound record that is stored and loaded again is the record it was, in
/// every field.
pub proof fn lemma_row_round_trip(item: DownloadItemView)
    requires
        item.wf(),
    ensures
        item_of(row_of(item)) == item,
{
    lemma_status_text_round_trip(item.status);
}

/// Whatever a row holds, the record it stands for is sound.
pub proof fn lemma_loaded_record_is_sound(row: DownloadRowView)
    ensures
        item_of(row).wf(),
{
}

/// The row to write for `item`.
pub fn save_download(item: &DownloadItem) -> (row: DownloadRow)
    ensures
        row@ == row_of(item@),
{
    DownloadRow {
        id: item.id,
        url: item.url.clone(),
        file_path: item.file_path.clone(),
        total_size: item.total_size,
        status: item.status.to_text(),
        downloaded_bytes: item.downloaded_bytes,
    }
}

/// The record that `row` stands for.
pub fn load_download(row: &DownloadRow) -> (item: DownloadItem)
    ensures
        item@ == item_of(row@),
        item@.wf(),
{
    let status = DownloadStatus::from_text(row.status.as_str());
    let total_size = match row.total_size {
        Some(total) => if row.downloaded_bytes <= total {
            Some(total)
        } else {
            None
        },
        None => None,
    };
    let completed = match status {
        DownloadStatus::Completed => true,
        _ => false,
    };
    let downloaded_bytes = match total_size {
        Some(total) => if completed {
            total
        } else {
            row.downloaded_bytes
        },
        None => row.downloaded_bytes,
    };
    DownloadItem {
        id: row.id,
        url: row.url.clone(),
        file_path: row.file_path.clone(),
        total_size,
        downloaded_bytes,
        status,
    }
}

/// The records that `rows` stand for, in the same order.
pub fn load_downloads(rows: &Vec<DownloadRow>) -> (items: Vec<DownloadItem>)
    ensures
        items.len() == rows.len(),
        forall|i: int| 0 <= i < rows.len() ==> (#[trigger] items[i])@ == item_of(rows[i]@),
        forall|i: int| 0 <= i < rows.len() ==> (#[trigger] items[i])@.wf(),
{
    let mut items: Vec<DownloadItem> = Vec::new();
    let mut i: usize = 0;
    while i < rows.len()
        invariant
            i <= rows.len(),
            items.len() == i,
            forall|k: int| 0 <= k < i ==> (#[trigger] items[k])@ == item_of(rows[k]@),
            forall|k: int| 0 <= k < i ==> (#[trigger] items[k])@.wf(),
        decreases rows.len() - i,
    {
        items.push(load_download(&rows[i]));
        i = i + 1;
    }
    items
}

} // verus!
