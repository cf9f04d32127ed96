//! The append-only log contract.
//!
//! The surrounding program owns the file handle and performs the writes; the
//! appender decides what is written — the header record exactly when the file
//! was created empty, then one record per snapshot — and accounts for the
//! outcome of each append attempt. A failed append is logged and dropped: it
//! is never retried, and it never stops the loop.

use crate::csvrow::{header_line, header_spec, render_row, row_spec};
use crate::snapshot::Snapshot;
use vstd::prelude::*;

verus! {

/// An append attempt that did not reach the file: the record is lost, the
/// loop goes on.
pub enum AppendError {
    WriteFailed,
}

impl AppendError {
    /// A short description of the failure for the error channel.
    pub fn describe(&self) -> (r: String)
        ensures
            r@ == "failed to append to the log"@,
    {
        String::from_str("failed to append to the log")
    }
}

/// Bookkeeping of the append-only log: whether this process still owes the
/// file its header, whether that header reached the file, and how many
/// records were successfully appended. Every write's outcome — the header's
/// as the rows' — is reported back, so the counts speak only of what the
/// file received.
pub struct CsvLogAppender {
    pub header_pending: bool,
    pub header_emitted: bool,
    pub rows_appended: u64,
}

impl CsvLogAppender {
    /// The opening decision. `existing_size` is the byte length of the log
    /// file as found on disk, opened in create-or-append mode: existing
    /// content is never truncated. The header record is handed back to be
    /// written exactly when the file was created empty; its write's outcome
    /// is then reported through [`Self::note_header_result`].
    pub fn open(existing_size: u64) -> (r: (CsvLogAppender, Option<String>))
        ensures
            r.0.header_pending == (existing_size == 0),
            r.0.header_emitted == false,
            r.0.rows_appended == 0,
            (existing_size == 0) == (r.1 is Some),
            r.1 matches Some(h) ==> h@ == header_spec(),
    {
        if existing_size == 0 {
            (
                CsvLogAppender { header_pending: true, header_emitted: false, rows_appended: 0 },
                Some(header_line()),
            )
        } else {
            (
                CsvLogAppender { header_pending: false, header_emitted: false, rows_appended: 0 },
                None,
            )
        }
    }

    /// Accounts for the outcome of the one header write: on success the file
    /// holds the header row, on failure it holds none and none is retried.
    pub fn note_header_result(&mut self, ok: bool)
        requires
            old(self).header_pending,
        ensures
            final(self).header_pending == false,
            final(self).header_emitted == ok,
            final(self).rows_appended == old(self).rows_appended,
    {
        self.header_pending = false;
        self.header_emitted = ok;
    }

    /// Renders the record to append for one snapshot.
    pub fn render(&self, s: &Snapshot) -> (row: String)
        ensures
            row@ == row_spec(s@),
    {
        render_row(s)
    }

    /// Accounts for the outcome of one append attempt: a success is one more
    /// record in the file, a failure leaves the count as it was.
    pub fn note_result(&mut self, ok: bool)
        requires
            old(self).rows_appended < u64::MAX,
        ensures
            final(self).header_emitted == old(self).header_emitted,
            final(self).header_pending == old(self).header_pending,
            ok ==> final(self).rows_appended == old(self).rows_appended + 1,
            !ok ==> final(self).rows_appended == old(self).rows_appended,
    {
        if ok {
            self.rows_appended = self.rows_appended + 1;
        }
    }
}

} // verus!
