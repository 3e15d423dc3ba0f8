//! Counters of what the controller did, keyed by container, job and namespace.
use vstd::prelude::*;

verus! {

/// The labels of one counter: container name, job name, namespace.
pub type LabelKey = (Seq<char>, Seq<char>, Seq<char>);

/// The labels a counter sample is kept under.
#[derive(Debug)]
pub struct Labels {
    pub container: String,
    pub job_name: String,
    pub namespace: String,
}

impl Labels {
    pub open spec fn key(&self) -> LabelKey {
        (self.container@, self.job_name@, self.namespace@)
    }

    pub fn duplicate(&self) -> (r: Labels)
        ensures
            r.key() == self.key(),
    {
        Labels {
            container: self.container.clone(),
            job_name: self.job_name.clone(),
            namespace: self.namespace.clone(),
        }
    }

    fn same(&self, o: &Labels) -> (r: bool)
        ensures
            r == (self.key() == o.key()),
    {
        self.container == o.container && self.job_name == o.job_name && self.namespace
            == o.namespace
    }
}

/// One counter value and the labels it is kept under.
#[derive(Debug)]
pub struct Sample {
    pub labels: Labels,
    pub count: u64,
}

/// A counter increased by one, staying at the largest `u64` once it is there.
pub open spec fn bump(n: nat) -> nat {
    if n < u64::MAX {
        n + 1
    } else {
        n
    }
}

/// A family of counters, one per distinct set of labels.
#[derive(Debug)]
pub struct CounterVec {
    samples: Vec<Sample>,
}

pub open spec fn labels_unique(s: Seq<Sample>) -> bool {
    forall|i: int, j: int|
        0 <= i < s.len() && 0 <= j < s.len() && s[i].labels.key() == s[j].labels.key() ==> i == j
}

/// The value of the counter kept under `k`: zero where none is kept.
pub open spec fn value_of(s: Seq<Sample>, k: LabelKey) -> nat {
    if exists|i: int| 0 <= i < s.len() && s[i].labels.key() == k {
        s[choose|i: int| 0 <= i < s.len() && s[i].labels.key() == k].count as nat
    } else {
        0
    }
}

proof fn lemma_value_at(s: Seq<Sample>, i: int)
    requires
        labels_unique(s),
        0 <= i < s.len(),
    ensures
        value_of(s, s[i].labels.key()) == s[i].count as nat,
{
    let k = s[i].labels.key();
    assert(0 <= i < s.len() && s[i].labels.key() == k);
    let c = choose|j: int| 0 <= j < s.len() && s[j].labels.key() == k;
    assert(c == i);
}

proof fn lemma_value_elsewhere(s: Seq<Sample>, t: Seq<Sample>, k: LabelKey)
    requires
        labels_unique(s),
        labels_unique(t),
        s.len() <= t.len(),
        forall|j: int| 0 <= j < s.len() && s[j].labels.key() == k ==> t[j] == s[j],
        forall|j: int| s.len() <= j < t.len() ==> t[j].labels.key() != k,
        forall|j: int| 0 <= j < s.len() ==> (t[j].labels.key() == k <==> s[j].labels.key() == k),
    ensures
        value_of(t, k) == value_of(s, k),
{
    if exists|i: int| 0 <= i < s.len() && s[i].labels.key() == k {
        let i = choose|i: int| 0 <= i < s.len() && s[i].labels.key() == k;
        lemma_value_at(s, i);
        lemma_value_at(t, i);
    } else {
        assert forall|j: int| 0 <= j < t.len() implies t[j].labels.key() != k by {
            if j < s.len() {
                assert(s[j].labels.key() != k);
            }
        }
    }
}

impl CounterVec {
    pub closed spec fn wf(&self) -> bool {
        labels_unique(self.samples@)
    }

    /// The value of the counter under `k`.
    pub closed spec fn get(&self, k: LabelKey) -> nat {
        value_of(self.samples@, k)
    }

    pub closed spec fn samples_view(&self) -> Seq<Sample> {
        self.samples@
    }

    /// A family with every counter at zero.
    pub fn new() -> (r: CounterVec)
        ensures
            r.wf(),
            forall|k: LabelKey| r.get(k) == 0,
            r.samples_view().len() == 0,
    {
        CounterVec { samples: Vec::new() }
    }

    /// The value of the counter under `labels`.
    pub fn value(&self, labels: &Labels) -> (r: u64)
        requires
            self.wf(),
        ensures
            r as nat == self.get(labels.key()),
    {
        let mut i: usize = 0;
        while i < self.samples.len()
            invariant
                i <= self.samples@.len(),
                forall|j: int| 0 <= j < i ==> self.samples@[j].labels.key() != labels.key(),
                labels_unique(self.samples@),
            decreases self.samples@.len() - i,
        {
            if self.samples[i].labels.same(labels) {
                proof {
                    lemma_value_at(self.samples@, i as int);
                }
                return self.samples[i].count;
            }
            i += 1;
        }
        0
    }

    /// The samples kept, one for each set of labels that was ever increased.
    pub fn samples(&self) -> (r: &Vec<Sample>)
        ensures
            r@ == self.samples_view(),
    {
        &self.samples
    }

    /// Increases the counter under `labels` by one.
    pub fn inc(&mut self, labels: &Labels)
        requires
            old(self).wf(),
        ensures
            final(self).wf(),
            final(self).get(labels.key()) == bump(old(self).get(labels.key())),
            forall|k: LabelKey| k != labels.key() ==> final(self).get(k) == old(self).get(k),
    {
        let ghost s0 = self.samples@;
        let mut i: usize = 0;
        let mut found = false;
        while i < self.samples.len()
            invariant
                i <= self.samples@.len(),
                self.samples@ == s0,
                labels_unique(s0),
                forall|j: int| 0 <= j < i ==> s0[j].labels.key() != labels.key(),
                found ==> i < s0.len() && s0[i as int].labels.key() == labels.key(),
            ensures
                i <= s0.len(),
                self.samples@ == s0,
                forall|j: int| 0 <= j < i ==> s0[j].labels.key() != labels.key(),
                found ==> i < s0.len() && s0[i as int].labels.key() == labels.key(),
                !found ==> i == s0.len(),
            decreases self.samples@.len() - i,
        {
            if self.samples[i].labels.same(labels) {
                found = true;
                break;
            }
            i += 1;
        }
        if found {
            let c = self.samples[i].count;
            let n = if c < u64::MAX {
                c + 1
            } else {
                c
            };
            self.samples.set(i, Sample { labels: labels.duplicate(), count: n });
            proof {
                let s1 = self.samples@;
                assert(labels_unique(s1));
                lemma_value_at(s0, i as int);
                lemma_value_at(s1, i as int);
                assert forall|k: LabelKey| k != labels.key() implies value_of(s1, k) == value_of(
                    s0,
                    k,
                ) by {
                    lemma_value_elsewhere(s0, s1, k);
                }
            }
        } else {
            self.samples.push(Sample { labels: labels.duplicate(), count: 1 });
            proof {
                let s1 = self.samples@;
                assert(labels_unique(s1));
                lemma_value_at(s1, s0.len() as int);
                assert(!exists|j: int| 0 <= j < s0.len() && s0[j].labels.key() == labels.key());
                assert forall|k: LabelKey| k != labels.key() implies value_of(s1, k) == value_of(
                    s0,
                    k,
                ) by {
                    lemma_value_elsewhere(s0, s1, k);
                }
            }
        }
    }
}

/// The four counters the controller keeps.
#[derive(Debug)]
pub struct Metrics {
    /// Sidecars shut down.
    pub sidecar_shutdowns: CounterVec,
    /// Sidecars that could not be shut down.
    pub failed_sidecar_shutdowns: CounterVec,
    /// Running containers that no registered action covers.
    pub unsupported_sidecars: CounterVec,
    /// Audit events that could not be published.
    pub total_unsuccessful_event_posts: u64,
}

impl Metrics {
    pub open spec fn wf(&self) -> bool {
        &&& self.sidecar_shutdowns.wf()
        &&& self.failed_sidecar_shutdowns.wf()
        &&& self.unsupported_sidecars.wf()
    }

    /// Every counter at zero.
    pub fn new() -> (r: Metrics)
        ensures
            r.wf(),
            forall|k: LabelKey| r.sidecar_shutdowns.get(k) == 0,
            forall|k: LabelKey| r.failed_sidecar_shutdowns.get(k) == 0,
            forall|k: LabelKey| r.unsupported_sidecars.get(k) == 0,
            r.total_unsuccessful_event_posts == 0,
    {
        Metrics {
            sidecar_shutdowns: CounterVec::new(),
            failed_sidecar_shutdowns: CounterVec::new(),
            unsupported_sidecars: CounterVec::new(),
            total_unsuccessful_event_posts: 0,
        }
    }
}

} // verus!
