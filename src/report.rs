//! What is published and counted for each outcome.
use vstd::prelude::*;
use vstd::string::StringExecFns;
use crate::dispatch::{DispatchOutcome, OutcomeView};
use crate::metrics::{bump, CounterVec, LabelKey, Labels, Metrics};

verus! {

/// The severity of an audit event.
#[derive(Clone, Copy, Debug, PartialEq, Eq, Structural)]
pub enum EventKind {
    Info,
    Warning,
}

/// A human-readable record attached to the pod.
#[derive(Debug)]
pub struct AuditEvent {
    pub kind: EventKind,
    pub message: String,
}

impl View for AuditEvent {
    type V = (EventKind, Seq<char>);

    open spec fn view(&self) -> (EventKind, Seq<char>) {
        (self.kind, self.message@)
    }
}

/// The audit event published for `o` on `container`: none for a container
/// that no action covers.
pub open spec fn event_for(o: OutcomeView, container: Seq<char>) -> Option<(EventKind, Seq<char>)> {
    match o {
        OutcomeView::Success => Some((EventKind::Info, "Shut down container "@ + container)),
        OutcomeView::TransportFailure(d) => Some(
            (EventKind::Warning, "Unsuccessfully shut down container "@ + container + ": "@ + d),
        ),
        OutcomeView::UnrecognizedSidecar => None,
    }
}

/// The audit event to publish for `outcome` on `container`.
pub fn audit_event(outcome: &DispatchOutcome, container: &String) -> (r: Option<AuditEvent>)
    ensures
        match r {
            Some(e) => event_for(outcome@, container@) == Some(e@),
            None => event_for(outcome@, container@).is_none(),
        },
{
    match outcome {
        DispatchOutcome::Success => {
            let mut m = String::from_str("Shut down container ");
            m.append(container.as_str());
            Some(AuditEvent { kind: EventKind::Info, message: m })
        },
        DispatchOutcome::TransportFailure(d) => {
            let mut m = String::from_str("Unsuccessfully shut down container ");
            m.append(container.as_str());
            m.append(": ");
            m.append(d.as_str());
            proof {
                assert(m@ =~= "Unsuccessfully shut down container "@ + container@ + ": "@ + d@);
            }
            Some(AuditEvent { kind: EventKind::Warning, message: m })
        },
        DispatchOutcome::UnrecognizedSidecar => None,
    }
}

/// `b` holds the same counters as `a`.
pub open spec fn same_counts(a: CounterVec, b: CounterVec) -> bool {
    forall|k: LabelKey| #[trigger] b.get(k) == a.get(k)
}

/// `b` is `a` with the counter under `k` increased by one.
pub open spec fn increased(a: CounterVec, b: CounterVec, k: LabelKey) -> bool {
    &&& b.get(k) == bump(a.get(k))
    &&& forall|j: LabelKey| j != k ==> #[trigger] b.get(j) == a.get(j)
}

/// `post` is `pre` after recording `o` for the labels `k`, where `published`
/// tells whether the outcome's audit event, if it has one, was published.
pub open spec fn recorded(pre: Metrics, post: Metrics, o: OutcomeView, k: LabelKey, published: bool) -> bool {
    &&& post.wf()
    &&& match o {
        OutcomeView::Success => {
            &&& increased(pre.sidecar_shutdowns, post.sidecar_shutdowns, k)
            &&& same_counts(pre.failed_sidecar_shutdowns, post.failed_sidecar_shutdowns)
            &&& same_counts(pre.unsupported_sidecars, post.unsupported_sidecars)
        },
        OutcomeView::TransportFailure(_) => {
            &&& same_counts(pre.sidecar_shutdowns, post.sidecar_shutdowns)
            &&& increased(pre.failed_sidecar_shutdowns, post.failed_sidecar_shutdowns, k)
            &&& same_counts(pre.unsupported_sidecars, post.unsupported_sidecars)
        },
        OutcomeView::UnrecognizedSidecar => {
            &&& same_counts(pre.sidecar_shutdowns, post.sidecar_shutdowns)
            &&& same_counts(pre.failed_sidecar_shutdowns, post.failed_sidecar_shutdowns)
            &&& increased(pre.unsupported_sidecars, post.unsupported_sidecars, k)
        },
    }
    &&& post.total_unsuccessful_event_posts as nat == if event_for(o, k.0).is_some() && !published {
        bump(pre.total_unsuccessful_event_posts as nat)
    } else {
        pre.total_unsuccessful_event_posts as nat
    }
}

/// Counts `outcome` for `labels`; `published` tells whether its audit event,
/// if it has one, was published.
pub fn record(metrics: &mut Metrics, outcome: &DispatchOutcome, labels: &Labels, published: bool)
    requires
        old(metrics).wf(),
    ensures
        recorded(*old(metrics), *final(metrics), outcome@, labels.key(), published),
{
    match outcome {
        DispatchOutcome::Success => metrics.sidecar_shutdowns.inc(labels),
        DispatchOutcome::TransportFailure(_) => metrics.failed_sidecar_shutdowns.inc(labels),
        DispatchOutcome::UnrecognizedSidecar => metrics.unsupported_sidecars.inc(labels),
    }
    let has_event = match outcome {
        DispatchOutcome::UnrecognizedSidecar => false,
        _ => true,
    };
    if has_event && !published && metrics.total_unsuccessful_event_posts < u64::MAX {
        metrics.total_unsuccessful_event_posts = metrics.total_unsuccessful_event_posts + 1;
    }
}

/// A shutdown that succeeded gives exactly one informational event and one
/// increase of the success counter under its labels, and leaves the failure
/// and unsupported counters alone; the failed-publication counter moves only
/// where that event could not be published.
pub proof fn success_reported_once(pre: Metrics, post: Metrics, k: LabelKey, published: bool)
    requires
        recorded(pre, post, OutcomeView::Success, k, published),
    ensures
        event_for(OutcomeView::Success, k.0) matches Some(e) && e.0 == EventKind::Info,
        post.sidecar_shutdowns.get(k) == bump(pre.sidecar_shutdowns.get(k)),
        forall|j: LabelKey| j != k ==> post.sidecar_shutdowns.get(j) == pre.sidecar_shutdowns.get(j),
        forall|j: LabelKey| post.failed_sidecar_shutdowns.get(j) == pre.failed_sidecar_shutdowns.get(j),
        forall|j: LabelKey| post.unsupported_sidecars.get(j) == pre.unsupported_sidecars.get(j),
        post.total_unsuccessful_event_posts as nat == if published {
            pre.total_unsuccessful_event_posts as nat
        } else {
            bump(pre.total_unsuccessful_event_posts as nat)
        },
{
}

/// A shutdown that failed gives exactly one warning event, carrying the
/// failure's detail, and one increase of the failure counter under its
/// labels; where the event could not be published, the failed-publication
/// counter is increased once instead.
pub proof fn failure_reported_once(
    pre: Metrics,
    post: Metrics,
    detail: Seq<char>,
    k: LabelKey,
    published: bool,
)
    requires
        recorded(pre, post, OutcomeView::TransportFailure(detail), k, published),
    ensures
        event_for(OutcomeView::TransportFailure(detail), k.0) matches Some(e) && e.0
            == EventKind::Warning && e.1 == "Unsuccessfully shut down container "@ + k.0 + ": "@
            + detail,
        post.failed_sidecar_shutdowns.get(k) == bump(pre.failed_sidecar_shutdowns.get(k)),
        forall|j: LabelKey|
            j != k ==> post.failed_sidecar_shutdowns.get(j) == pre.failed_sidecar_shutdowns.get(j),
        forall|j: LabelKey| post.sidecar_shutdowns.get(j) == pre.sidecar_shutdowns.get(j),
        forall|j: LabelKey| post.unsupported_sidecars.get(j) == pre.unsupported_sidecars.get(j),
        post.total_unsuccessful_event_posts as nat == if published {
            pre.total_unsuccessful_event_posts as nat
        } else {
            bump(pre.total_unsuccessful_event_posts as nat)
        },
{
}

/// A container that no action covers is counted once as unsupported, with
/// no audit event, and the success and failure counters stay as they were.
pub proof fn unsupported_only_counted(pre: Metrics, post: Metrics, k: LabelKey, published: bool)
    requires
        recorded(pre, post, OutcomeView::UnrecognizedSidecar, k, published),
    ensures
        event_for(OutcomeView::UnrecognizedSidecar, k.0).is_none(),
        post.unsupported_sidecars.get(k) == bump(pre.unsupported_sidecars.get(k)),
        forall|j: LabelKey| j != k ==> post.unsupported_sidecars.get(j) == pre.unsupported_sidecars.get(j),
        forall|j: LabelKey| post.sidecar_shutdowns.get(j) == pre.sidecar_shutdowns.get(j),
        forall|j: LabelKey| post.failed_sidecar_shutdowns.get(j) == pre.failed_sidecar_shutdowns.get(j),
        post.total_unsuccessful_event_posts == pre.total_unsuccessful_event_posts,
{
}

} // verus!
