//! The view of one observed pod, and what the controller reads from it.
use vstd::prelude::*;
use vstd::string::StringExecFns;

verus! {

/// The run-state a container reports.
#[derive(Clone, Copy, Debug, PartialEq, Eq, Structural)]
pub enum ContainerState {
    Running,
    Waiting,
    Terminated,
}

/// One container of a pod, as the pod reports it.
#[derive(Debug)]
pub struct ContainerStatus {
    pub name: String,
    pub state: ContainerState,
}

/// A reference from a pod to the object that owns it.
#[derive(Debug)]
pub struct OwnerReference {
    pub kind: String,
    pub name: String,
}

/// A snapshot of one pod at a point in time.
#[derive(Debug)]
pub struct PodSnapshot {
    pub name: String,
    pub namespace: Option<String>,
    pub owners: Vec<OwnerReference>,
    pub containers: Vec<ContainerStatus>,
}

/// The namespace used for a pod that does not state one.
pub open spec fn default_namespace() -> Seq<char> {
    "default"@
}

/// The names of the running containers of `cs`, in the order they are reported.
pub open spec fn running_names(cs: Seq<ContainerStatus>) -> Seq<Seq<char>>
    decreases cs.len(),
{
    if cs.len() == 0 {
        Seq::empty()
    } else {
        let rest = running_names(cs.drop_last());
        if cs.last().state == ContainerState::Running {
            rest.push(cs.last().name@)
        } else {
            rest
        }
    }
}

/// The name of the first owner of kind `Job`, if there is one.
pub open spec fn owning_job(os: Seq<OwnerReference>) -> Option<Seq<char>>
    decreases os.len(),
{
    if os.len() == 0 {
        None
    } else if os[0].kind@ == "Job"@ {
        Some(os[0].name@)
    } else {
        owning_job(os.drop_first())
    }
}

pub open spec fn names_view(v: Seq<String>) -> Seq<Seq<char>> {
    v.map_values(|s: String| s@)
}

impl PodSnapshot {
    /// The names of the containers that are running, in the order the pod reports them.
    pub fn sidecars(&self) -> (r: Vec<String>)
        ensures
            names_view(r@) == running_names(self.containers@),
    {
        let mut r: Vec<String> = Vec::new();
        let mut i: usize = 0;
        while i < self.containers.len()
            invariant
                i <= self.containers@.len(),
                names_view(r@) == running_names(self.containers@.subrange(0, i as int)),
            decreases self.containers@.len() - i,
        {
            let ghost pre = self.containers@.subrange(0, i as int);
            let ghost next = self.containers@.subrange(0, i + 1);
            assert(next.drop_last() =~= pre);
            let c = &self.containers[i];
            if c.state == ContainerState::Running {
                r.push(c.name.clone());
                assert(names_view(r@) =~= running_names(pre).push(c.name@));
            }
            i += 1;
        }
        assert(self.containers@.subrange(0, i as int) =~= self.containers@);
        r
    }

    /// The pod's namespace, or the default namespace where it states none.
    pub fn namespace(&self) -> (r: String)
        ensures
            r@ == match self.namespace {
                Some(n) => n@,
                None => default_namespace(),
            },
    {
        match &self.namespace {
            Some(n) => n.clone(),
            None => String::from_str("default"),
        }
    }

    /// The name of the job that owns the pod.
    pub fn job_name(&self) -> (r: Option<String>)
        ensures
            match r {
                Some(j) => owning_job(self.owners@) == Some(j@),
                None => owning_job(self.owners@).is_none(),
            },
    {
        let job = String::from_str("Job");
        let mut i: usize = 0;
        assert(self.owners@.subrange(0, self.owners@.len() as int) =~= self.owners@);
        while i < self.owners.len()
            invariant
                i <= self.owners@.len(),
                job@ == "Job"@,
                owning_job(self.owners@.subrange(i as int, self.owners@.len() as int))
                    == owning_job(self.owners@),
            decreases self.owners@.len() - i,
        {
            let ghost rest = self.owners@.subrange(i as int, self.owners@.len() as int);
            assert(rest.drop_first() =~= self.owners@.subrange(i + 1, self.owners@.len() as int));
            if self.owners[i].kind == job {
                return Some(self.owners[i].name.clone());
            }
            i += 1;
        }
        None
    }
}

} // verus!
