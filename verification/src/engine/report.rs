//! The audit trail: one event per targeted file, and the session report built from them.
use vstd::prelude::*;
use crate::cli::args::{method_name, ShredMethod};
use crate::error::{describes, ShredError, ShredResult};
use crate::text::{decimal_text, push_decimal};
use crate::paths::{path_bytes, path_debug, path_debug_text};
use std::path::PathBuf;
pub use crate::engine::timestamp::Timestamp;
use crate::engine::timestamp::{utc_display_text, utc_format_text};

verus! {

/// One file destruction, as the audit trail records it.
#[derive(Clone, Debug)]
pub struct ShredEvent {
    /// The targeted path.
    pub path: PathBuf,
    /// When the operation completed.
    pub timestamp: Timestamp,
    /// The erasure method used.
    pub method: ShredMethod,
    /// Whether the operation succeeded.
    pub success: bool,
    /// What went wrong, if it failed.
    pub error: Option<String>,
}

impl ShredEvent {
    /// The event for the outcome of destroying `path`: a success without error text, or
    /// a failure that carries the error's text.
    pub fn completed(path: PathBuf, timestamp: Timestamp, method: ShredMethod, outcome: &ShredResult<()>) -> (e: ShredEvent)
        ensures
            e.path == path,
            e.timestamp == timestamp,
            e.method == method,
            e.success == outcome is Ok,
            outcome is Ok ==> e.error is None,
            outcome matches Err(err) ==> (e.error matches Some(t) && describes(*err, t@)),
    {
        match outcome {
            Ok(()) => ShredEvent { path, timestamp, method, success: true, error: None },
            Err(err) => ShredEvent { path, timestamp, method, success: false, error: Some(err.to_string()) },
        }
    }
}

/// The number of successful events.
pub open spec fn success_total(events: Seq<ShredEvent>) -> nat
    decreases events.len(),
{
    if events.len() == 0 {
        0
    } else {
        success_total(events.drop_last()) + if events.last().success {
            1nat
        } else {
            0nat
        }
    }
}

/// There are never more successes than events.
pub proof fn lemma_success_total_bounded(events: Seq<ShredEvent>)
    ensures
        success_total(events) <= events.len(),
    decreases events.len(),
{
    if events.len() > 0 {
        lemma_success_total_bounded(events.drop_last());
    }
}

/// Counting goes event by event: with no events there is no success, and appending an
/// event adds one success exactly when that event succeeded.
pub proof fn lemma_success_total_push(events: Seq<ShredEvent>, e: ShredEvent)
    ensures
        success_total(Seq::<ShredEvent>::empty()) == 0,
        success_total(events.push(e)) == success_total(events) + (if e.success { 1int } else { 0int }),
{
    assert(events.push(e).drop_last() =~= events);
}

/// The successes of two lists of events together are the successes of each, added up.
pub proof fn lemma_success_total_append(a: Seq<ShredEvent>, b: Seq<ShredEvent>)
    ensures
        success_total(a + b) == success_total(a) + success_total(b),
    decreases b.len(),
{
    if b.len() == 0 {
        assert(a + b =~= a);
    } else {
        assert((a + b).drop_last() =~= a + b.drop_last());
        lemma_success_total_append(a, b.drop_last());
    }
}

/// The number of successes is the number of events whose success flag is set.
pub proof fn lemma_success_total_counts_successes(events: Seq<ShredEvent>)
    ensures
        success_total(events) == events.filter(|e: ShredEvent| e.success).len(),
    decreases events.len(),
{
    reveal(Seq::filter);
    if events.len() > 0 {
        lemma_success_total_counts_successes(events.drop_last());
    }
}

/// When every event succeeded, all of them count as successes; when none did, none does.
pub proof fn lemma_uniform_outcomes(events: Seq<ShredEvent>)
    ensures
        (forall|i: int| 0 <= i < events.len() ==> #[trigger] events[i].success) ==> success_total(events)
            == events.len(),
        (forall|i: int| 0 <= i < events.len() ==> !#[trigger] events[i].success) ==> success_total(events)
            == 0,
    decreases events.len(),
{
    if events.len() > 0 {
        let rest = events.drop_last();
        lemma_uniform_outcomes(rest);
        if forall|i: int| 0 <= i < events.len() ==> #[trigger] events[i].success {
            assert forall|i: int| 0 <= i < rest.len() implies #[trigger] rest[i].success by {
                assert(events[i].success);
            }
            assert(events[events.len() - 1].success);
        }
        if forall|i: int| 0 <= i < events.len() ==> !#[trigger] events[i].success {
            assert forall|i: int| 0 <= i < rest.len() implies !#[trigger] rest[i].success by {
                assert(!events[i].success);
            }
            assert(!events[events.len() - 1].success);
        }
    }
}

/// A session report.
#[derive(Debug)]
pub struct ShredReport {
    /// When the report was generated.
    pub generated_at: Timestamp,
    /// How many files were targeted.
    pub total_files: usize,
    /// How many were destroyed successfully.
    pub success_count: usize,
    /// How many failed.
    pub failure_count: usize,
    /// Every event, in the order recorded.
    pub events: Vec<ShredEvent>,
}

/// The report's status word for an event.
pub open spec fn status_text(success: bool) -> Seq<char> {
    if success {
        "SUCCESS"@
    } else {
        "FAILURE"@
    }
}

/// The lines of the text report for one event.
pub open spec fn event_text(e: ShredEvent) -> Seq<char> {
    "["@ + utc_format_text(e.timestamp.spec_secs(), e.timestamp.spec_nanos()) + "] "@
        + path_debug_text(path_bytes(e.path)) + " - "@ + status_text(e.success) + " ("@ + method_name(
        e.method,
    ) + ")\n"@ + match e.error {
        Some(err) => "  Error: "@ + err@ + "\n"@,
        None => Seq::<char>::empty(),
    }
}

/// The lines of the text report for a list of events.
pub open spec fn events_text(events: Seq<ShredEvent>) -> Seq<char>
    decreases events.len(),
{
    if events.len() == 0 {
        Seq::<char>::empty()
    } else {
        events_text(events.drop_last()) + event_text(events.last())
    }
}

/// The header of the text report.
pub open spec fn report_header(r: ShredReport) -> Seq<char> {
    "=== sys-shred Forensic Audit Report ===\n"@ + "Generated at: "@ + utc_display_text(
        r.generated_at.spec_secs(),
        r.generated_at.spec_nanos(),
    ) + "\n"@ + "Total Files:  "@ + decimal_text(r.total_files as nat) + "\n"@ + "Successes:    "@
        + decimal_text(r.success_count as nat) + "\n"@ + "Failures:     "@ + decimal_text(
        r.failure_count as nat,
    ) + "\n"@ + "========================================\n\n"@
}

/// The whole text report.
pub open spec fn report_text(r: ShredReport) -> Seq<char> {
    report_header(r) + events_text(r.events@)
}


/// Appends the report lines for one event.
fn push_event_text(s: &mut String, e: &ShredEvent)
    ensures
        final(s)@ == old(s)@ + event_text(*e),
{
    s.append("[");
    s.append(e.timestamp.format_seconds().as_str());
    s.append("] ");
    s.append(path_debug(&e.path).as_str());
    s.append(" - ");
    s.append(if e.success { "SUCCESS" } else { "FAILURE" });
    s.append(" (");
    s.append(e.method.name());
    s.append(")\n");
    match &e.error {
        Some(err) => {
            s.append("  Error: ");
            s.append(err.as_str());
            s.append("\n");
        },
        None => {},
    }
    assert(s@ =~= old(s)@ + event_text(*e));
}

impl ShredReport {
    /// The report on `events`, generated at `generated_at`: the number of events, how
    /// many succeeded and how many did not.
    pub fn generated(events: Vec<ShredEvent>, generated_at: Timestamp) -> (r: ShredReport)
        ensures
            r.generated_at == generated_at,
            r.events@ == events@,
            r.total_files == events.len(),
            r.success_count == success_total(events@),
            r.failure_count == events.len() - success_total(events@),
            r.success_count + r.failure_count == r.total_files,
    {
        let total = events.len();
        let mut successes: usize = 0;
        let mut i: usize = 0;
        while i < total
            invariant
                total == events.len(),
                i <= total,
                successes == success_total(events@.take(i as int)),
                successes <= i,
            decreases total - i,
        {
            proof {
                assert(events@.take(i + 1).drop_last() =~= events@.take(i as int));
            }
            if events[i].success {
                successes = successes + 1;
            }
            i = i + 1;
        }
        assert(events@.take(total as int) =~= events@);
        ShredReport {
            generated_at,
            total_files: total,
            success_count: successes,
            failure_count: total - successes,
            events,
        }
    }

    /// The report on `events`, generated now; fails with an I/O error when the system
    /// clock cannot be read into a representable instant.
    pub fn new(events: Vec<ShredEvent>) -> (res: ShredResult<ShredReport>)
        ensures
            res matches Ok(r) ==> {
                &&& r.events@ == events@
                &&& r.total_files == events.len()
                &&& r.success_count == success_total(events@)
                &&& r.failure_count == events.len() - success_total(events@)
                &&& r.success_count + r.failure_count == r.total_files
                &&& r.generated_at.spec_taken_now()
            },
            res is Err ==> res matches Err(ShredError::Io(_)),
    {
        let generated_at = Timestamp::now()?;
        Ok(ShredReport::generated(events, generated_at))
    }

    /// The human-readable report: a header with the counts, then one line per event,
    /// followed by an error line for each event that failed with an error.
    pub fn to_text(&self) -> (s: String)
        ensures
            s@ == report_text(*self),
    {
        let mut s = String::from_str("=== sys-shred Forensic Audit Report ===\n");
        s.append("Generated at: ");
        s.append(self.generated_at.display().as_str());
        s.append("\n");
        s.append("Total Files:  ");
        push_decimal(&mut s, self.total_files as u64);
        s.append("\n");
        s.append("Successes:    ");
        push_decimal(&mut s, self.success_count as u64);
        s.append("\n");
        s.append("Failures:     ");
        push_decimal(&mut s, self.failure_count as u64);
        s.append("\n");
        s.append("========================================\n\n");
        assert(s@ == report_header(*self));
        let n = self.events.len();
        let mut i: usize = 0;
        while i < n
            invariant
                n == self.events.len(),
                i <= n,
                s@ == report_header(*self) + events_text(self.events@.take(i as int)),
            decreases n - i,
        {
            let e = &self.events[i];
            push_event_text(&mut s, e);
            proof {
                assert(self.events@.take(i + 1).drop_last() =~= self.events@.take(i as int));
                assert(self.events@.take(i + 1).last() == *e);
            }
            i = i + 1;
        }
        assert(self.events@.take(n as int) =~= self.events@);
        s
    }
}

/// The counts of a generated report add up: every targeted file is either a success
/// or a failure.
pub proof fn lemma_report_counts_add_up(events: Seq<ShredEvent>)
    ensures
        success_total(events) + (events.len() - success_total(events)) == events.len(),
        success_total(events) <= events.len(),
{
    lemma_success_total_bounded(events);
}

} // verus!
