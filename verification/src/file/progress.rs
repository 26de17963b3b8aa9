//! File copying progress.
use vstd::prelude::*;

verus! {

/// File copying or moving progress.
#[derive(Clone, Copy, PartialEq, Eq, Debug, Structural)]
pub struct FileProgress {
    /// Current number of bytes copied or moved to the destination.
    pub bytes_finished: u64,
    /// Total number of bytes that must be copied or moved to the destination.
    pub bytes_total: u64,
}

/// A writer wrapper that keeps track of how many bytes went through it, and decides when
/// the progress should be reported to its handler: whenever more than the configured
/// interval of bytes has been written since the last report.
pub struct ProgressWriter<W, F> {
    /// Current file copying or moving progress.
    progress: FileProgress,
    /// The inner writer.
    inner: W,
    /// Minimum number of bytes required between two progress reports.
    progress_report_byte_interval: u64,
    /// Number of bytes written since the last progress report.
    bytes_written_since_last_progress_report: u64,
    /// Progress report handler.
    handler: F,
    /// The outcomes of the writes recorded so far, in order.
    history: Ghost<Seq<Option<usize>>>,
}

impl<W, F> ProgressWriter<W, F> {
    /// The progress so far.
    pub closed spec fn spec_progress(&self) -> FileProgress {
        self.progress
    }

    /// The minimum number of bytes between two progress reports.
    pub closed spec fn report_interval(&self) -> u64 {
        self.progress_report_byte_interval
    }

    /// Bytes written since the last report.
    pub closed spec fn unreported_bytes(&self) -> u64 {
        self.bytes_written_since_last_progress_report
    }

    /// The wrapped writer.
    pub closed spec fn spec_inner(&self) -> W {
        self.inner
    }

    /// The progress handler.
    pub closed spec fn spec_handler(&self) -> F {
        self.handler
    }

    /// The outcomes of the writes recorded so far, in order.
    pub closed spec fn writes(&self) -> Seq<Option<usize>> {
        self.history@
    }

    /// The writer's counts are those of a fresh writer after the writes it recorded.
    pub open spec fn tracks_writes(&self) -> bool {
        &&& write_run(self.report_interval(), self.writes()).0 == self.spec_progress().bytes_finished
        &&& write_run(self.report_interval(), self.writes()).1 == self.unreported_bytes()
    }

    /// The writer's bookkeeping is consistent: no more unreported bytes than the interval
    /// allows, and no more unreported bytes than were written at all.
    pub open spec fn well_formed(&self) -> bool {
        &&& self.unreported_bytes() <= self.report_interval()
        &&& self.unreported_bytes() <= self.spec_progress().bytes_finished
    }

    /// Wraps `inner`, with no bytes written yet out of `bytes_total`.
    pub fn new(inner: W, handler: F, progress_update_byte_interval: u64, bytes_total: u64) -> (r: Self)
        ensures
            r.spec_progress() == (FileProgress { bytes_finished: 0, bytes_total }),
            r.report_interval() == progress_update_byte_interval,
            r.unreported_bytes() == 0,
            r.spec_inner() == inner,
            r.spec_handler() == handler,
            r.well_formed(),
            r.writes() == Seq::<Option<usize>>::empty(),
            r.tracks_writes(),
    {
        Self {
            progress: FileProgress { bytes_finished: 0, bytes_total },
            inner,
            progress_report_byte_interval: progress_update_byte_interval,
            bytes_written_since_last_progress_report: 0,
            handler,
            history: Ghost(Seq::empty()),
        }
    }

    /// Consumes `self` and returns the inner writer, the last known progress and the handler.
    pub fn into_inner(self) -> (r: (W, FileProgress, F))
        ensures
            r == (self.spec_inner(), self.spec_progress(), self.spec_handler()),
    {
        (self.inner, self.progress, self.handler)
    }

    /// The progress so far.
    pub fn progress(&self) -> (r: FileProgress)
        ensures
            r == self.spec_progress(),
    {
        self.progress
    }

    /// The wrapped writer, to write through.
    pub fn inner_mut(&mut self) -> (r: &mut W)
        ensures
            *r == old(self).spec_inner(),
            final(self).spec_inner() == *final(r),
            final(self).spec_progress() == old(self).spec_progress(),
            final(self).report_interval() == old(self).report_interval(),
            final(self).unreported_bytes() == old(self).unreported_bytes(),
            final(self).spec_handler() == old(self).spec_handler(),
            final(self).writes() == old(self).writes(),
    {
        &mut self.inner
    }

    /// The progress handler, to report through.
    pub fn handler_mut(&mut self) -> (r: &mut F)
        ensures
            *r == old(self).spec_handler(),
            final(self).spec_handler() == *final(r),
            final(self).spec_progress() == old(self).spec_progress(),
            final(self).report_interval() == old(self).report_interval(),
            final(self).unreported_bytes() == old(self).unreported_bytes(),
            final(self).spec_inner() == old(self).spec_inner(),
            final(self).writes() == old(self).writes(),
    {
        &mut self.handler
    }

    /// Records the outcome of one write to the inner writer (`Some(n)` when `n` bytes were
    /// written, `None` when the write failed), and tells whether the progress must now be
    /// reported. A report restarts the count of unreported bytes.
    pub fn record_write(&mut self, bytes_written: Option<usize>) -> (report: bool)
        requires
            bytes_written matches Some(n) ==> old(self).spec_progress().bytes_finished + n <= u64::MAX,
            old(self).well_formed(),
        ensures
            final(self).well_formed(),
            final(self).spec_progress().bytes_total == old(self).spec_progress().bytes_total,
            final(self).spec_progress().bytes_finished == old(self).spec_progress().bytes_finished
                + match bytes_written {
                Some(n) => n as int,
                None => 0,
            },
            report == (old(self).unreported_bytes() + match bytes_written {
                Some(n) => n as int,
                None => 0,
            } > old(self).report_interval()),
            final(self).unreported_bytes() == if report {
                0
            } else {
                old(self).unreported_bytes() + match bytes_written {
                    Some(n) => n as int,
                    None => 0,
                }
            },
            final(self).report_interval() == old(self).report_interval(),
            final(self).spec_inner() == old(self).spec_inner(),
            final(self).spec_handler() == old(self).spec_handler(),
            (final(self).spec_progress().bytes_finished as nat, final(self).unreported_bytes() as nat, report) == write_step(
                old(self).report_interval(),
                old(self).spec_progress().bytes_finished as nat,
                old(self).unreported_bytes() as nat,
                bytes_written,
            ),
            final(self).writes() == old(self).writes().push(bytes_written),
            old(self).tracks_writes() ==> final(self).tracks_writes(),
    {
        proof {
            assert(self.history@.push(bytes_written).drop_last() =~= self.history@);
            self.history = Ghost(self.history@.push(bytes_written));
        }
        if let Some(n) = bytes_written {
            self.progress.bytes_finished = self.progress.bytes_finished + n as u64;
            self.bytes_written_since_last_progress_report = self.bytes_written_since_last_progress_report
                + n as u64;
        }
        if self.bytes_written_since_last_progress_report > self.progress_report_byte_interval {
            self.bytes_written_since_last_progress_report = 0;
            true
        } else {
            false
        }
    }

    /// Records the outcome of one write to the inner writer, like [`Self::record_write`], and
    /// gives the progress report to hand to the handler when one is due: the bytes accepted
    /// by all the writes so far, of the total the writer was made with.
    pub fn report_after_write(&mut self, bytes_written: Option<usize>) -> (r: Option<FileProgress>)
        requires
            bytes_written matches Some(n) ==> old(self).spec_progress().bytes_finished + n <= u64::MAX,
            old(self).well_formed(),
        ensures
            final(self).well_formed(),
            final(self).writes() == old(self).writes().push(bytes_written),
            old(self).tracks_writes() ==> final(self).tracks_writes(),
            final(self).spec_progress().bytes_total == old(self).spec_progress().bytes_total,
            final(self).spec_progress().bytes_finished == old(self).spec_progress().bytes_finished + accepted_bytes(
                bytes_written,
            ),
            final(self).report_interval() == old(self).report_interval(),
            final(self).spec_inner() == old(self).spec_inner(),
            final(self).spec_handler() == old(self).spec_handler(),
            r is Some <==> old(self).unreported_bytes() + accepted_bytes(bytes_written) > old(self).report_interval(),
            r matches Some(p) ==> p == final(self).spec_progress(),
            old(self).tracks_writes() ==> (r matches Some(p) ==> p.bytes_finished == total_accepted(final(self).writes())),
    {
        let report = self.record_write(bytes_written);
        proof {
            if old(self).tracks_writes() {
                law_writer_counts_what_its_writes_accepted(*self);
            }
        }
        if report {
            Some(self.progress)
        } else {
            None
        }
    }

    /// Consumes `self` once a copy through it is over, having copied `bytes_copied` bytes,
    /// and returns the inner writer, the final progress report of the copy (all
    /// `bytes_copied` bytes finished, of the total the writer was made with) and the handler.
    /// When every copied byte went through the writer, the final report carries exactly the
    /// bytes it counted.
    pub fn finish(self, bytes_copied: u64) -> (r: (W, FileProgress, F))
        ensures
            r.0 == self.spec_inner(),
            r.1 == final_copy_progress(bytes_copied, self.spec_progress().bytes_total),
            r.2 == self.spec_handler(),
            self.tracks_writes() && bytes_copied == total_accepted(self.writes()) ==> r.1 == self.spec_progress(),
    {
        proof {
            if self.tracks_writes() && bytes_copied == total_accepted(self.writes()) {
                law_writer_counts_what_its_writes_accepted(self);
            }
        }
        (self.inner, FileProgress { bytes_finished: bytes_copied, bytes_total: self.progress.bytes_total }, self.handler)
    }
}

/// The last progress report of a copy that copied `bytes_copied` of `bytes_total` bytes.
pub open spec fn final_copy_progress(bytes_copied: u64, bytes_total: u64) -> FileProgress {
    FileProgress { bytes_finished: bytes_copied, bytes_total }
}

/// The number of bytes a write accepted (`None` for a failed write).
pub open spec fn accepted_bytes(outcome: Option<usize>) -> nat {
    match outcome {
        Some(n) => n as nat,
        None => 0,
    }
}

/// The number of bytes a sequence of writes accepted.
pub open spec fn total_accepted(outcomes: Seq<Option<usize>>) -> nat
    decreases outcomes.len(),
{
    if outcomes.len() == 0 {
        0
    } else {
        total_accepted(outcomes.drop_last()) + accepted_bytes(outcomes.last())
    }
}

/// The bookkeeping of a progress writer, as (bytes finished, bytes not reported yet),
/// after one more write, and whether that write calls for a report.
pub open spec fn write_step(interval: u64, finished: nat, unreported: nat, outcome: Option<usize>) -> (nat, nat, bool) {
    let f = finished + accepted_bytes(outcome);
    let u = unreported + accepted_bytes(outcome);
    if u > interval {
        (f, 0, true)
    } else {
        (f, u, false)
    }
}

/// The bookkeeping of a fresh progress writer after the writes `outcomes`: bytes finished,
/// bytes not reported yet, and the bytes finished at each report, in order.
pub open spec fn write_run(interval: u64, outcomes: Seq<Option<usize>>) -> (nat, nat, Seq<nat>)
    decreases outcomes.len(),
{
    if outcomes.len() == 0 {
        (0, 0, Seq::empty())
    } else {
        let (f, u, reports) = write_run(interval, outcomes.drop_last());
        let (f2, u2, report) = write_step(interval, f, u, outcomes.last());
        (f2, u2, if report { reports.push(f2) } else { reports })
    }
}

/// Over any sequence of writes, a progress writer counts every accepted byte once; it asks
/// for at most one report per write; each report carries the bytes accepted so far; and
/// before the first report, as between two consecutive ones, more than the interval of
/// bytes was accepted. What is not reported yet never exceeds the interval.
pub proof fn law_progress_is_reported_after_each_interval(interval: u64, outcomes: Seq<Option<usize>>)
    ensures
        ({
            let (finished, unreported, reports) = write_run(interval, outcomes);
            &&& finished == total_accepted(outcomes)
            &&& reports.len() <= outcomes.len()
            &&& forall|j: int| 0 <= j < reports.len() ==> #[trigger] reports[j] > (if j == 0 { 0 } else { reports[j - 1] })
                + interval
            &&& forall|j: int| 0 <= j < reports.len() ==> #[trigger] reports[j] <= finished
            &&& unreported == finished - (if reports.len() == 0 { 0 } else { reports.last() })
            &&& unreported <= interval
        }),
    decreases outcomes.len(),
{
    if outcomes.len() > 0 {
        law_progress_is_reported_after_each_interval(interval, outcomes.drop_last());
        let (f, u, reports) = write_run(interval, outcomes.drop_last());
        let (f2, u2, report) = write_step(interval, f, u, outcomes.last());
        if report {
            let r2 = reports.push(f2);
            assert forall|j: int| 0 <= j < r2.len() implies #[trigger] r2[j] > (if j == 0 { 0 } else { r2[j - 1] })
                + interval by {
                if j < reports.len() {
                    assert(r2[j] == reports[j]);
                    if j > 0 {
                        assert(r2[j - 1] == reports[j - 1]);
                    }
                }
            }
            assert forall|j: int| 0 <= j < r2.len() implies #[trigger] r2[j] <= f2 by {
                if j < reports.len() {
                    assert(r2[j] == reports[j]);
                }
            }
        }
    }
}

/// A progress writer that recorded a sequence of writes since it was made counts every
/// byte those writes accepted, once: handing the writer back yields that count as the
/// bytes finished, with the total it was made with; it asked for a report after a write
/// only when more than the interval of bytes had been accepted since the last report (or
/// since it was made), and what it has not reported yet never exceeds the interval.
pub proof fn law_writer_counts_what_its_writes_accepted<W, F>(writer: ProgressWriter<W, F>)
    requires
        writer.tracks_writes(),
    ensures
        writer.spec_progress().bytes_finished == total_accepted(writer.writes()),
        writer.unreported_bytes() <= writer.report_interval(),
        writer.unreported_bytes() == total_accepted(writer.writes()) - {
            let reports = write_run(writer.report_interval(), writer.writes()).2;
            if reports.len() == 0 { 0 } else { reports.last() }
        },
{
    law_progress_is_reported_after_each_interval(writer.report_interval(), writer.writes());
}

} // verus!
