//! The per-application watch loop's decisions.
//!
//! The loop itself is driven from outside: it awaits the next delivery of
//! the subscription stream, hands the event to [`watch_step`], performs the
//! planned writes, logs the reported error, and goes on until the step says
//! the stream is over. Everything the loop decides — which files to write
//! for one batch, where a failure cuts the batch short, and when the loop
//! ends — is here, verified.

use crate::materialize::{canonical_of, materialize, materialized_bytes, pairs_view};
use vstd::prelude::*;

verus! {

/// One namespace snapshot received from the subscription stream: the
/// application, the namespace, and its key/value configuration entries.
pub struct Snapshot {
    pub app_id: String,
    pub namespace_name: String,
    pub configurations: Vec<(String, String)>,
}

/// What one batch delivered for one namespace: a snapshot, or the upstream
/// error reported for it.
pub enum NamespaceOutcome {
    Update(Snapshot),
    Failed(String),
}

/// One planned file write: the application subdirectory, the filename
/// inside it, and the full byte content.
pub struct FileWrite {
    pub app_id: String,
    pub filename: String,
    pub bytes: Vec<u8>,
}

/// The writes planned for one batch, and the failure that cut the batch
/// short, when there was one.
pub struct BatchPlan {
    pub writes: Vec<FileWrite>,
    pub failure: Option<String>,
}

/// Whether `w` is the write that materializing `s` prescribes: the
/// snapshot's application subdirectory, its canonical filename, and
/// exactly its materialized bytes.
pub open spec fn write_matches(s: Snapshot, w: FileWrite) -> bool {
    &&& w.app_id@ == s.app_id@
    &&& w.filename@ == canonical_of(s.namespace_name@)
    &&& w.bytes@ == materialized_bytes(s.namespace_name@, pairs_view(s.configurations@))
}

/// The failure-isolation contract of one batch: the writes are the
/// materializations of the longest failure-free prefix of the batch, in
/// batch order; the first failed entry, when there is one, is reported
/// and aborts the remainder of this batch only.
pub open spec fn plan_ok(
    entries: Seq<NamespaceOutcome>,
    writes: Seq<FileWrite>,
    failure: Option<String>,
) -> bool {
    let n = writes.len() as int;
    &&& n <= entries.len()
    &&& forall|i: int|
        0 <= i < n ==> ((#[trigger] entries[i]) matches NamespaceOutcome::Update(s)
            && write_matches(s, writes[i]))
    &&& if n < entries.len() {
        entries[n] matches NamespaceOutcome::Failed(message) && failure matches Some(reported)
            && reported@ == message@
    } else {
        failure is None
    }
}

/// Plans the writes of one batch with failure isolation: namespaces are
/// handled in batch order; each snapshot is materialized into its write;
/// the first failed entry stops the batch there and is reported, so that
/// the caller can log it and await the next batch.
pub fn plan_batch(entries: &Vec<NamespaceOutcome>) -> (plan: BatchPlan)
    ensures
        plan_ok(entries@, plan.writes@, plan.failure),
{
    let mut writes: Vec<FileWrite> = Vec::new();
    let mut i: usize = 0;
    while i < entries.len()
        invariant
            i <= entries@.len(),
            writes@.len() == i as int,
            forall|j: int|
                0 <= j < i ==> ((#[trigger] entries@[j]) matches NamespaceOutcome::Update(s)
                    && write_matches(s, writes@[j])),
        decreases entries@.len() - i,
    {
        match &entries[i] {
            NamespaceOutcome::Update(snapshot) => {
                let (filename, bytes) = materialize(
                    snapshot.namespace_name.as_str(),
                    &snapshot.configurations,
                );
                writes.push(FileWrite { app_id: snapshot.app_id.clone(), filename, bytes });
                i += 1;
            },
            NamespaceOutcome::Failed(message) => {
                return BatchPlan { writes, failure: Some(message.clone()) };
            },
        }
    }
    BatchPlan { writes, failure: None }
}

/// One delivery of the subscription stream, or its end: a batch of
/// per-namespace outcomes, a poll that failed as a whole, or the close of
/// the stream.
pub enum WatchEvent {
    Batch(Vec<NamespaceOutcome>),
    BatchFailed(String),
    Closed,
}

/// What the watch loop does with one event: the writes to perform, the
/// error to log, and whether the loop is over.
pub struct StepOutcome {
    pub writes: Vec<FileWrite>,
    pub log_error: Option<String>,
    pub done: bool,
}

/// The per-event decision of the watch loop. A batch is planned with
/// failure isolation; a failed poll is logged and the loop goes on; only
/// the end of the stream ends the loop. No event terminates the daemon or
/// touches a sibling application's loop.
pub fn watch_step(event: &WatchEvent) -> (step: StepOutcome)
    ensures
        step.done <==> event is Closed,
        event matches WatchEvent::Batch(entries) ==> plan_ok(
            entries@,
            step.writes@,
            step.log_error,
        ),
        event matches WatchEvent::BatchFailed(message) ==> (step.log_error matches Some(reported)
            && reported@ == message@ && step.writes@.len() == 0),
        event is Closed ==> step.writes@.len() == 0 && step.log_error is None,
{
    match event {
        WatchEvent::Batch(entries) => {
            let plan = plan_batch(entries);
            StepOutcome { writes: plan.writes, log_error: plan.failure, done: false }
        },
        WatchEvent::BatchFailed(message) => StepOutcome {
            writes: Vec::new(),
            log_error: Some(message.clone()),
            done: false,
        },
        WatchEvent::Closed => StepOutcome { writes: Vec::new(), log_error: None, done: true },
    }
}

/// Failure isolation within one batch: every namespace that precedes the
/// first failed entry is still materialized and written, exactly as if no
/// failure had followed; the failure aborts only the remainder of the
/// batch, and it is reported.
pub proof fn lemma_batch_isolation(
    entries: Seq<NamespaceOutcome>,
    writes: Seq<FileWrite>,
    failure: Option<String>,
    failed: int,
    ok: int,
)
    requires
        plan_ok(entries, writes, failure),
        0 <= ok < failed < entries.len(),
        entries[failed] is Failed,
        forall|j: int| 0 <= j < failed ==> (#[trigger] entries[j]) is Update,
    ensures
        writes.len() == failed,
        entries[ok] matches NamespaceOutcome::Update(s) && write_matches(s, writes[ok]),
        failure is Some,
{
    let n = writes.len() as int;
    if n < failed {
        assert(entries[n] is Update);
        assert(false);
    }
    if n > failed {
        assert((entries[failed]) matches NamespaceOutcome::Update(s) && write_matches(
            s,
            writes[failed],
        ));
        assert(false);
    }
}

/// The plan of one batch is determined by that batch alone: two plans of
/// the same entries prescribe the same files with the same bytes and
/// report the same kind of failure. In particular, nothing another
/// application's loop receives can influence what this batch writes.
pub proof fn lemma_plan_determined(
    entries: Seq<NamespaceOutcome>,
    writes_a: Seq<FileWrite>,
    failure_a: Option<String>,
    writes_b: Seq<FileWrite>,
    failure_b: Option<String>,
)
    requires
        plan_ok(entries, writes_a, failure_a),
        plan_ok(entries, writes_b, failure_b),
    ensures
        writes_a.len() == writes_b.len(),
        forall|i: int|
            0 <= i < writes_a.len() ==> ((#[trigger] writes_a[i]).app_id@ == writes_b[i].app_id@
                && writes_a[i].filename@ == writes_b[i].filename@ && writes_a[i].bytes@
                == writes_b[i].bytes@),
        failure_a is Some <==> failure_b is Some,
{
    let n_a = writes_a.len() as int;
    let n_b = writes_b.len() as int;
    if n_a < n_b {
        assert(entries[n_a] is Failed);
        assert((entries[n_a]) matches NamespaceOutcome::Update(s) && write_matches(
            s,
            writes_b[n_a],
        ));
        assert(false);
    }
    if n_b < n_a {
        assert(entries[n_b] is Failed);
        assert((entries[n_b]) matches NamespaceOutcome::Update(s) && write_matches(
            s,
            writes_a[n_b],
        ));
        assert(false);
    }
    assert forall|i: int| 0 <= i < writes_a.len() implies ((#[trigger] writes_a[i]).app_id@
        == writes_b[i].app_id@ && writes_a[i].filename@ == writes_b[i].filename@
        && writes_a[i].bytes@ == writes_b[i].bytes@) by {
        assert((entries[i]) matches NamespaceOutcome::Update(s) && write_matches(s, writes_a[i])
            && write_matches(s, writes_b[i]));
    }
}

/// Overwrite semantics at the planning level: two snapshots for the same
/// application and namespace prescribe writes to the same file, and the
/// later write carries exactly the later snapshot's materialization —
/// never a merge of the two.
pub proof fn lemma_overwrite(
    earlier: Snapshot,
    later: Snapshot,
    first: FileWrite,
    second: FileWrite,
)
    requires
        write_matches(earlier, first),
        write_matches(later, second),
        earlier.app_id@ == later.app_id@,
        earlier.namespace_name@ == later.namespace_name@,
    ensures
        second.app_id@ == first.app_id@,
        second.filename@ == first.filename@,
        second.bytes@ == materialized_bytes(
            later.namespace_name@,
            pairs_view(later.configurations@),
        ),
{
}

} // verus!
