use vstd::prelude::*;
use crate::script::{Script, ScriptView};

verus! {

/// The jobs of a batch, claimed one by one, each exactly once, in the order
/// they were given. Workers share it behind a lock.
pub struct JobQueue {
    jobs: Vec<Script>,
    next: usize,
}

/// The queue to the contracts: every job of the batch, and how many of them
/// (from the front) have been claimed.
pub struct JobQueueView {
    pub jobs: Seq<ScriptView>,
    pub claimed: nat,
}

pub open spec fn script_views(v: Seq<Script>) -> Seq<ScriptView> {
    v.map_values(|s: Script| s@)
}

/// The jobs that `title=path` pairs describe, in their order.
pub open spec fn pair_jobs(pairs: Seq<(String, String)>) -> Seq<ScriptView> {
    pairs.map_values(|p: (String, String)| ScriptView { title: p.0@, path: p.1@ })
}

impl View for JobQueue {
    type V = JobQueueView;

    closed spec fn view(&self) -> JobQueueView {
        JobQueueView { jobs: script_views(self.jobs@), claimed: self.next as nat }
    }
}

impl JobQueue {
    pub closed spec fn wf(&self) -> bool {
        self.next <= self.jobs@.len()
    }

    /// The queue of a batch. An empty batch is a configuration error: there is
    /// then no queue, and nothing is to be started.
    pub fn from_pairs(pairs: Vec<(String, String)>) -> (r: Option<JobQueue>)
        ensures
            match r {
                Some(q) => pairs@.len() > 0 && q.wf() && q@.jobs == pair_jobs(pairs@)
                    && q@.claimed == 0,
                None => pairs@.len() == 0,
            },
    {
        if pairs.len() == 0 {
            return None;
        }
        let mut jobs: Vec<Script> = Vec::new();
        let mut i: usize = 0;
        while i < pairs.len()
            invariant
                i <= pairs@.len(),
                script_views(jobs@) =~= pair_jobs(pairs@).take(i as int),
            decreases pairs@.len() - i,
        {
            let s = Script::titled(pairs[i].0.clone(), pairs[i].1.clone());
            let ghost before = jobs@;
            proof {
                assert(s@ == pair_jobs(pairs@)[i as int]);
            }
            jobs.push(s);
            proof {
                assert(jobs@ == before.push(s));
                assert(script_views(jobs@) =~= script_views(before).push(s@));
                assert(script_views(jobs@) =~= pair_jobs(pairs@).take(i + 1));
            }
            i = i + 1;
        }
        proof {
            assert(pair_jobs(pairs@).take(pairs@.len() as int) =~= pair_jobs(pairs@));
        }
        Some(JobQueue { jobs, next: 0 })
    }

    /// Claims the next job, or `None` once every job has been claimed.
    pub fn take(&mut self) -> (r: Option<Script>)
        requires
            old(self).wf(),
        ensures
            final(self).wf(),
            final(self)@.jobs == old(self)@.jobs,
            old(self)@.claimed < old(self)@.jobs.len() ==> {
                &&& r matches Some(s)
                &&& s@ == old(self)@.jobs[old(self)@.claimed as int]
                &&& final(self)@.claimed == old(self)@.claimed + 1
            },
            old(self)@.claimed == old(self)@.jobs.len() ==> r is None && final(self)@ == old(self)@,
    {
        if self.next < self.jobs.len() {
            let s = self.jobs[self.next].duplicate();
            self.next = self.next + 1;
            Some(s)
        } else {
            None
        }
    }

    /// How many jobs the batch holds.
    pub fn len(&self) -> (r: usize)
        ensures
            r == self@.jobs.len(),
    {
        self.jobs.len()
    }

    /// How many jobs have not been claimed yet.
    pub fn remaining(&self) -> (r: usize)
        requires
            self.wf(),
        ensures
            r == self@.jobs.len() - self@.claimed,
    {
        self.jobs.len() - self.next
    }
}

} // verus!
