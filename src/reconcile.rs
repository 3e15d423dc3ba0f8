//! The work on one observed pod, one sidecar after another.
//!
//! The caller drives it: [`PodRun::step`] names the next remote call, the
//! caller makes it and hands the result to [`PodRun::dispatched`], publishes
//! the audit event that comes back, and reports how that went to
//! [`PodRun::published`].
use vstd::prelude::*;
use crate::actions::{registry_get, ActionRegistry};
use crate::dispatch::{
    classify, plan, planned, transport_outcome, DispatchOutcome, OutcomeView, TransportRequest,
    TransportResult,
};
use crate::metrics::{LabelKey, Labels, Metrics};
use crate::pod::{default_namespace, names_view, owning_job, running_names, PodSnapshot};
use crate::report::{audit_event, event_for, record, recorded, AuditEvent, EventKind};

verus! {

/// What a run waits for.
#[derive(Debug)]
pub enum Awaiting {
    /// Nothing: the next step may be taken.
    Nothing,
    /// The result of the remote call that the last step named.
    Dispatch,
    /// Word on the publication of the event for this outcome.
    Publish(DispatchOutcome),
}

/// What the caller is to do next.
#[derive(Debug)]
pub enum Step {
    /// Make this remote call and hand its result to `dispatched`.
    Dispatch(TransportRequest),
    /// The container was not recognised and has been counted: step again.
    Skipped,
    /// Every running container of the pod has been handled.
    Finished,
}

/// The state of the work on one pod.
#[derive(Debug)]
pub struct PodRun {
    pub pod_name: String,
    pub namespace: String,
    pub job_name: String,
    /// The running containers, in the order the pod reports them.
    pub sidecars: Vec<String>,
    /// The index of the container at hand.
    pub next: usize,
    pub awaiting: Awaiting,
}

impl PodRun {
    pub open spec fn wf(&self) -> bool {
        &&& self.next <= self.sidecars@.len()
        &&& !(self.awaiting is Nothing) ==> self.next < self.sidecars@.len()
    }

    /// The labels the container at hand is counted under.
    pub open spec fn key(&self) -> LabelKey {
        (self.sidecars@[self.next as int]@, self.job_name@, self.namespace@)
    }

    /// The same pod, with the same containers.
    pub open spec fn same_pod(&self, o: &PodRun) -> bool {
        &&& self.pod_name == o.pod_name
        &&& self.namespace == o.namespace
        &&& self.job_name == o.job_name
        &&& self.sidecars == o.sidecars
    }

    /// The work on `pod`, or none where the pod has no running container or
    /// no owning job.
    pub fn begin(pod: &PodSnapshot) -> (r: Option<PodRun>)
        ensures
            r.is_none() <==> running_names(pod.containers@).len() == 0 || owning_job(
                pod.owners@,
            ).is_none(),
            r matches Some(run) ==> {
                &&& run.wf()
                &&& run.pod_name@ == pod.name@
                &&& run.namespace@ == match pod.namespace {
                    Some(n) => n@,
                    None => default_namespace(),
                }
                &&& owning_job(pod.owners@) == Some(run.job_name@)
                &&& names_view(run.sidecars@) == running_names(pod.containers@)
                &&& run.next == 0
                &&& run.awaiting is Nothing
            },
    {
        let sidecars = pod.sidecars();
        if sidecars.len() == 0 {
            return None;
        }
        let namespace = pod.namespace();
        let job_name = match pod.job_name() {
            Some(j) => j,
            None => {
                return None;
            },
        };
        Some(
            PodRun {
                pod_name: pod.name.clone(),
                namespace,
                job_name,
                sidecars,
                next: 0,
                awaiting: Awaiting::Nothing,
            },
        )
    }

    fn labels(&self) -> (r: Labels)
        requires
            self.next < self.sidecars@.len(),
        ensures
            r.key() == self.key(),
    {
        Labels {
            container: self.sidecars[self.next].clone(),
            job_name: self.job_name.clone(),
            namespace: self.namespace.clone(),
        }
    }

    /// Takes up the container at hand: names the remote call for a
    /// registered one, counts an unregistered one as unsupported.
    pub fn step(&mut self, registry: &ActionRegistry, metrics: &mut Metrics) -> (r: Step)
        requires
            old(self).wf(),
            old(self).awaiting is Nothing,
            registry.wf(),
            old(metrics).wf(),
        ensures
            final(self).wf(),
            final(self).same_pod(old(self)),
            old(self).next == old(self).sidecars@.len() ==> {
                &&& r is Finished
                &&& final(self).next == old(self).next
                &&& final(self).awaiting is Nothing
                &&& *final(metrics) == *old(metrics)
            },
            old(self).next < old(self).sidecars@.len() ==> match registry_get(
                registry@,
                old(self).sidecars@[old(self).next as int]@,
            ) {
                None => {
                    &&& r is Skipped
                    &&& final(self).next == old(self).next + 1
                    &&& final(self).awaiting is Nothing
                    &&& recorded(
                        *old(metrics),
                        *final(metrics),
                        OutcomeView::UnrecognizedSidecar,
                        old(self).key(),
                        true,
                    )
                },
                Some(a) => {
                    &&& r matches Step::Dispatch(req) && planned(
                        a,
                        old(self).pod_name@,
                        old(self).sidecars@[old(self).next as int]@,
                        req,
                    )
                    &&& final(self).next == old(self).next
                    &&& final(self).awaiting is Dispatch
                    &&& *final(metrics) == *old(metrics)
                },
            },
    {
        if self.next == self.sidecars.len() {
            return Step::Finished;
        }
        match registry.get(&self.sidecars[self.next]) {
            None => {
                let labels = self.labels();
                record(metrics, &DispatchOutcome::UnrecognizedSidecar, &labels, true);
                self.next = self.next + 1;
                Step::Skipped
            },
            Some(a) => {
                let req = plan(a, &self.pod_name, &self.sidecars[self.next]);
                self.awaiting = Awaiting::Dispatch;
                Step::Dispatch(req)
            },
        }
    }

    /// Takes the result of the remote call and gives the audit event to
    /// publish for it.
    pub fn dispatched(&mut self, result: TransportResult) -> (r: AuditEvent)
        requires
            old(self).wf(),
            old(self).awaiting is Dispatch,
        ensures
            final(self).wf(),
            final(self).same_pod(old(self)),
            final(self).next == old(self).next,
            final(self).awaiting matches Awaiting::Publish(o) && o@ == transport_outcome(result),
            event_for(transport_outcome(result), old(self).sidecars@[old(self).next as int]@)
                == Some(r@),
    {
        let outcome = classify(result);
        let event = audit_event(&outcome, &self.sidecars[self.next]);
        self.awaiting = Awaiting::Publish(outcome);
        match event {
            Some(e) => e,
            None => {
                // A classified outcome is never an unrecognised container.
                proof {
                    assert(false);
                }
                AuditEvent { kind: EventKind::Info, message: String::new() }
            },
        }
    }

    /// Counts the outcome at hand, given whether its audit event was
    /// published, and moves on to the next container.
    pub fn published(&mut self, metrics: &mut Metrics, ok: bool)
        requires
            old(self).wf(),
            old(self).awaiting is Publish,
            old(metrics).wf(),
        ensures
            final(self).wf(),
            final(self).same_pod(old(self)),
            final(self).next == old(self).next + 1,
            final(self).awaiting is Nothing,
            old(self).awaiting matches Awaiting::Publish(o) && recorded(
                *old(metrics),
                *final(metrics),
                o@,
                old(self).key(),
                ok,
            ),
    {
        let labels = self.labels();
        match &self.awaiting {
            Awaiting::Publish(o) => record(metrics, o, &labels, ok),
            _ => {},
        }
        self.awaiting = Awaiting::Nothing;
        if self.next < self.sidecars.len() {
            self.next = self.next + 1;
        }
    }
}

} // verus!
