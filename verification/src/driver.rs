//! The sequential tick loop: collect, update the store, append.
//!
//! Ticks never overlap: a tick is processed to completion — including the
//! outcome of its single append attempt — before the next one may start. The
//! driver holds the decision logic; the surrounding program performs the
//! timing, the sampling calls and the file writes, and reports each append's
//! outcome back.

use crate::appender::CsvLogAppender;
use crate::collector::{build_snapshot, collect_spec, OsReadings};
use crate::csvrow::{
    header_spec, in_quotes_after, lemma_header_scan, lemma_row_scan, lemma_scan_concat, row_spec,
    toplevel_count,
};
use crate::snapshot::{initial_view, SnapView, Snapshot};
use crate::store::SnapshotStore;
use vstd::prelude::*;

verus! {

/// Where the loop stands. Between ticks it is `Idle`; while the surrounding
/// program carries out a tick's single append attempt it is `Appending`;
/// `Collecting` and `Updating` are passed through inside one tick call.
pub enum Phase {
    Idle,
    Collecting,
    Updating,
    Appending,
}

/// The records of the given snapshots, one per snapshot, concatenated in
/// order.
pub open spec fn rows_concat(h: Seq<SnapView>) -> Seq<char>
    decreases h.len(),
{
    if h.len() == 0 {
        Seq::<char>::empty()
    } else {
        rows_concat(h.drop_last()) + row_spec(h.last())
    }
}

/// One more record goes at the end and changes nothing before it.
pub proof fn lemma_rows_concat_push(h: Seq<SnapView>, v: SnapView)
    ensures
        rows_concat(h.push(v)) == rows_concat(h) + row_spec(v),
{
    assert(h.push(v).drop_last() =~= h);
    assert(h.push(v).last() == v);
}

/// Appending only grows the log: the records of any earlier history stand
/// unchanged as a prefix of the records of any later history.
pub proof fn lemma_rows_concat_append_only(h1: Seq<SnapView>, h2: Seq<SnapView>)
    requires
        h1.is_prefix_of(h2),
    ensures
        rows_concat(h1).len() <= rows_concat(h2).len(),
        rows_concat(h2).take(rows_concat(h1).len() as int) == rows_concat(h1),
    decreases h2.len(),
{
    if h1.len() == h2.len() {
        assert(h1 =~= h2);
    } else {
        assert(h1.is_prefix_of(h2.drop_last()));
        lemma_rows_concat_append_only(h1, h2.drop_last());
        assert(rows_concat(h2) == rows_concat(h2.drop_last()) + row_spec(h2.last()));
        assert(rows_concat(h2).take(rows_concat(h1).len() as int) =~= rows_concat(h1));
    }
}

/// A reader of the log body sees exactly one record per appended snapshot:
/// after N successful appends, exactly N data rows stand there, counted at
/// record terminators outside quoted fields.
pub proof fn lemma_rows_concat_row_count(h: Seq<SnapView>)
    ensures
        in_quotes_after(rows_concat(h), false) == false,
        toplevel_count(rows_concat(h), false, '\n') == h.len(),
    decreases h.len(),
{
    if h.len() > 0 {
        lemma_rows_concat_row_count(h.drop_last());
        lemma_row_scan(h.last());
        lemma_scan_concat(rows_concat(h.drop_last()), row_spec(h.last()), false, '\n');
    }
}

/// What a reader of this process's log output sees: the header row exactly
/// where one was owed, and then exactly one data row per successful append —
/// however many ticks ran and however many appends failed in between.
pub proof fn lemma_emitted_log_row_count(d: Driver)
    requires
        d.wf(),
    ensures
        in_quotes_after(d.emitted_log(), false) == false,
        toplevel_count(d.emitted_log(), false, '\n') as int == d.history@.len() + (
        if d.appender.header_emitted {
            1int
        } else {
            0int
        }),
{
    lemma_rows_concat_row_count(d.history@);
    if d.appender.header_emitted {
        lemma_header_scan();
        lemma_scan_concat(header_spec(), rows_concat(d.history@), false, '\n');
    } else {
        assert(Seq::<char>::empty() + rows_concat(d.history@) =~= rows_concat(d.history@));
    }
}

/// The sequential driver: the store, the append-only bookkeeping, and the
/// phase of the loop.
pub struct Driver {
    pub phase: Phase,
    pub store: SnapshotStore,
    pub appender: CsvLogAppender,
    pub ticks: u64,
    /// The snapshots whose records were successfully appended, in order.
    pub history: Ghost<Seq<SnapView>>,
    /// The snapshot whose record is out with the writer during `Appending`.
    pub pending: Ghost<Option<SnapView>>,
}

impl Driver {
    /// The snapshot the next collection treats as the previous one: the
    /// stored snapshot, or the all-empty starting snapshot before the first
    /// tick.
    pub open spec fn prev_view(self) -> SnapView {
        match self.store.stored() {
            Some(v) => v,
            None => initial_view(),
        }
    }

    /// The bytes this process has added to the log: the header where one was
    /// owed, then one record per successful append, in order.
    pub open spec fn emitted_log(self) -> Seq<char> {
        (if self.appender.header_emitted {
            header_spec()
        } else {
            Seq::<char>::empty()
        }) + rows_concat(self.history@)
    }

    /// The driver's invariant: the append count equals the number of appended
    /// records, a record is out with the writer exactly in `Appending`, and a
    /// header still out with the writer is not yet counted as written.
    pub open spec fn wf(self) -> bool {
        &&& self.appender.rows_appended as int == self.history@.len()
        &&& (self.phase is Appending <==> self.pending@ is Some)
        &&& (self.phase is Idle || self.phase is Appending)
        &&& self.store.version == self.ticks
        &&& (self.appender.header_pending ==> !self.appender.header_emitted)
    }

    /// Starts the loop over a log file found with `existing_size` bytes. The
    /// returned header record, present exactly when the file was created
    /// empty, is to be written before any data record, and its write's
    /// outcome reported through [`Self::note_header_result`]; existing
    /// content is never touched.
    pub fn new(existing_size: u64) -> (r: (Driver, Option<String>))
        ensures
            r.0.wf(),
            r.0.phase is Idle,
            r.0.ticks == 0,
            r.0.history@ == Seq::<SnapView>::empty(),
            r.0.store.stored() is None,
            r.0.appender.rows_appended == 0,
            r.0.appender.header_pending == (existing_size == 0),
            r.0.appender.header_emitted == false,
            (existing_size == 0) == (r.1 is Some),
            r.1 matches Some(h) ==> h@ == header_spec(),
            r.0.emitted_log() == Seq::<char>::empty(),
    {
        let (appender, header) = CsvLogAppender::open(existing_size);
        let d = Driver {
            phase: Phase::Idle,
            store: SnapshotStore::new(),
            appender,
            ticks: 0,
            history: Ghost(Seq::<SnapView>::empty()),
            pending: Ghost(None),
        };
        proof {
            assert(d.emitted_log() =~= Seq::<char>::empty());
        }
        (d, header)
    }

    /// Takes the outcome of the one header write, before any tick runs. On
    /// success the file holds the header row; on failure it holds none, none
    /// is retried, and the ticks still run — the header, like a data record,
    /// is counted only when the file received it.
    pub fn note_header_result(&mut self, ok: bool)
        requires
            old(self).wf(),
            old(self).phase is Idle,
            old(self).appender.header_pending,
        ensures
            final(self).wf(),
            final(self).phase is Idle,
            final(self).store == old(self).store,
            final(self).ticks == old(self).ticks,
            final(self).history == old(self).history,
            final(self).appender.header_pending == false,
            final(self).appender.header_emitted == ok,
            final(self).appender.rows_appended == old(self).appender.rows_appended,
            ok ==> final(self).emitted_log() == header_spec() + rows_concat(old(self).history@),
            !ok ==> final(self).emitted_log() == old(self).emitted_log(),
    {
        self.appender.note_header_result(ok);
    }

    /// Processes one tick: collects a snapshot from the given readings and
    /// timestamp, replaces the store's snapshot as one whole value, and hands
    /// back the one record to append. Exactly one record per tick leaves the
    /// driver, and the previous ticks' records are untouched.
    pub fn process_tick(&mut self, r: &OsReadings, timestamp: String) -> (row: String)
        requires
            old(self).wf(),
            old(self).phase is Idle,
            !old(self).appender.header_pending,
            old(self).ticks < u64::MAX,
        ensures
            final(self).wf(),
            final(self).phase is Appending,
            final(self).ticks == old(self).ticks + 1,
            final(self).store.stored() == Some(
                collect_spec(old(self).prev_view(), r@, timestamp@),
            ),
            final(self).store.version == old(self).store.version + 1,
            row@ == row_spec(collect_spec(old(self).prev_view(), r@, timestamp@)),
            final(self).pending@ == Some(collect_spec(old(self).prev_view(), r@, timestamp@)),
            final(self).history == old(self).history,
            final(self).appender == old(self).appender,
            final(self).emitted_log() == old(self).emitted_log(),
    {
        self.phase = Phase::Collecting;
        let prev: Snapshot = match self.store.latest() {
            Some(s) => s.clone(),
            None => Snapshot::initial(),
        };
        let snap = build_snapshot(&prev, r, timestamp);
        let ghost sv = snap@;
        self.phase = Phase::Updating;
        let row = self.appender.render(&snap);
        self.store.replace(snap);
        self.phase = Phase::Appending;
        self.pending = Ghost(Some(sv));
        self.ticks = self.ticks + 1;
        row
    }

    /// Takes the outcome of the tick's single append attempt. On success the
    /// record is accounted as one more row of the log; on failure it is
    /// dropped and nothing else changes. Either way the loop returns to
    /// `Idle`, ready for the next tick.
    pub fn note_append_result(&mut self, ok: bool)
        requires
            old(self).wf(),
            old(self).phase is Appending,
            old(self).appender.rows_appended < u64::MAX,
        ensures
            final(self).wf(),
            final(self).phase is Idle,
            final(self).store == old(self).store,
            final(self).ticks == old(self).ticks,
            final(self).appender.header_emitted == old(self).appender.header_emitted,
            ok ==> final(self).appender.rows_appended == old(self).appender.rows_appended + 1
                && final(self).history@ == old(self).history@.push(old(self).pending@->0)
                && final(self).emitted_log() == old(self).emitted_log() + row_spec(
                old(self).pending@->0,
            ),
            !ok ==> final(self).appender.rows_appended == old(self).appender.rows_appended
                && final(self).history == old(self).history && final(self).emitted_log() == old(
                self,
            ).emitted_log(),
    {
        if ok {
            self.appender.note_result(true);
            let ghost v = self.pending@->0;
            self.history = Ghost(self.history@.push(v));
            proof {
                lemma_rows_concat_push(old(self).history@, v);
            }
        } else {
            self.appender.note_result(false);
        }
        self.pending = Ghost(None);
        self.phase = Phase::Idle;
    }

    /// Whether the loop is between ticks and may take the next one.
    pub fn is_idle(&self) -> (b: bool)
        ensures
            b == (self.phase is Idle),
    {
        match self.phase {
            Phase::Idle => true,
            _ => false,
        }
    }
}

} // verus!
