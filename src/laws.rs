use vstd::prelude::*;
use crate::report::{ReportView, all_ok, initial_report, report_after, resolved, step};
use crate::runner::{EventView, RunOutputView, job_events, missing_message};
use crate::script::ScriptView;

verus! {

broadcast use vstd::seq_lib::group_seq_properties;

/// One job of a batch as it went: the script, whether its path existed, and
/// what its run captured.
pub struct JobRecord {
    pub script: ScriptView,
    pub exists: bool,
    pub run: RunOutputView,
}

/// Whether the job counts as a success.
pub open spec fn job_ok(j: JobRecord) -> bool {
    j.exists && j.run.success
}

/// The events of the jobs, job after job.
pub open spec fn batch_events(jobs: Seq<JobRecord>) -> Seq<EventView>
    decreases jobs.len(),
{
    if jobs.len() == 0 {
        seq![]
    } else {
        batch_events(jobs.drop_last()) + job_events(
            jobs.last().script,
            jobs.last().exists,
            jobs.last().run,
        )
    }
}

pub open spec fn no_terminate(s: Seq<EventView>) -> bool {
    forall|i: int| 0 <= i < s.len() ==> !(s[i] is Terminate)
}

proof fn lemma_finished_ignores(r: ReportView, s: Seq<EventView>)
    requires
        r.finalizations > 0,
    ensures
        report_after(r, s) == r,
    decreases s.len(),
{
    if s.len() > 0 {
        lemma_finished_ignores(step(r, s[0]), s.skip(1));
    }
}

proof fn lemma_after_append(r: ReportView, a: Seq<EventView>, b: Seq<EventView>)
    ensures
        report_after(r, a + b) == report_after(report_after(r, a), b),
    decreases a.len(),
{
    if a.len() == 0 {
        assert(a + b =~= b);
    } else {
        assert((a + b).skip(1) =~= a.skip(1) + b);
        assert((a + b)[0] == a[0]);
        lemma_after_append(step(r, a[0]), a.skip(1), b);
    }
}

proof fn lemma_after_one(r: ReportView, e: EventView)
    ensures
        report_after(r, seq![e]) == step(r, e),
{
    assert(seq![e].skip(1) =~= Seq::<EventView>::empty());
    assert(report_after(step(r, e), Seq::<EventView>::empty()) == step(r, e));
}

proof fn lemma_pull_to_front(r: ReportView, s: Seq<EventView>, k: int)
    requires
        no_terminate(s),
        0 <= k < s.len(),
    ensures
        report_after(r, s) == report_after(step(r, s[k]), s.remove(k)),
    decreases k,
{
    if k == 0 {
        assert(s.remove(0) =~= s.skip(1));
    } else {
        let t = s.skip(1);
        assert(t[k - 1] == s[k]);
        lemma_pull_to_front(step(r, s[0]), t, k - 1);
        let u = s.remove(k);
        assert(u[0] == s[0]);
        assert(u.skip(1) =~= t.remove(k - 1));
        assert(!(s[0] is Terminate));
        assert(!(s[k] is Terminate));
        assert(step(step(r, s[0]), s[k]) == step(step(r, s[k]), s[0]));
    }
}

/// The report that events bring about does not depend on the order in which
/// they arrive, as long as none of them is `Terminate`: any two arrival
/// orders of the same events give the same report.
pub proof fn lemma_arrival_order_free(r: ReportView, s: Seq<EventView>, t: Seq<EventView>)
    requires
        no_terminate(s),
        s.to_multiset() == t.to_multiset(),
    ensures
        report_after(r, s) == report_after(r, t),
    decreases s.len(),
{
    s.to_multiset_ensures();
    t.to_multiset_ensures();
    if s.len() == 0 {
        assert(t.len() == 0);
    } else {
        let e = s[0];
        assert(s.contains(e));
        assert(s.to_multiset().count(e) > 0);
        assert(t.to_multiset().count(e) > 0);
        assert(t.contains(e));
        let k = choose|k: int| 0 <= k < t.len() && t[k] == e;
        assert(no_terminate(t)) by {
            assert forall|j: int| 0 <= j < t.len() implies !(t[j] is Terminate) by {
                assert(t.contains(t[j]));
                assert(t.to_multiset().count(t[j]) > 0);
                assert(s.to_multiset().count(t[j]) > 0);
                assert(s.contains(t[j]));
            }
        }
        lemma_pull_to_front(r, t, k);
        assert(s.remove(0) =~= s.skip(1));
        assert(s.skip(1).to_multiset() == t.remove(k).to_multiset());
        lemma_arrival_order_free(step(r, e), s.skip(1), t.remove(k));
    }
}

proof fn lemma_batch(jobs: Seq<JobRecord>)
    ensures
        no_terminate(batch_events(jobs)),
        report_after(initial_report(), batch_events(jobs)).finalizations == 0,
        resolved(report_after(initial_report(), batch_events(jobs))) == jobs.len(),
        all_ok(report_after(initial_report(), batch_events(jobs))) == (forall|i: int|
            0 <= i < jobs.len() ==> job_ok(#[trigger] jobs[i])),
    decreases jobs.len(),
{
    if jobs.len() > 0 {
        let init = jobs.drop_last();
        let j = jobs.last();
        lemma_batch(init);
        let ev = job_events(j.script, j.exists, j.run);
        lemma_after_append(initial_report(), batch_events(init), ev);
        let r0 = report_after(initial_report(), batch_events(init));
        let r1 = report_after(r0, ev);
        if j.exists {
            assert(ev =~= seq![ev[0]] + seq![ev[1]]);
            lemma_after_append(r0, seq![ev[0]], seq![ev[1]]);
            lemma_after_one(r0, ev[0]);
            lemma_after_one(step(r0, ev[0]), ev[1]);
            assert(r1 == step(step(r0, ev[0]), ev[1]));
        } else {
            assert(ev =~= seq![ev[0]]);
            lemma_after_one(r0, ev[0]);
            assert(r1 == step(r0, ev[0]));
        }
        let all = batch_events(jobs);
        assert forall|i: int| 0 <= i < all.len() implies !(all[i] is Terminate) by {
            if i >= batch_events(init).len() {
                assert(all[i] == ev[i - batch_events(init).len()]);
            } else {
                assert(all[i] == batch_events(init)[i]);
            }
        }
        if forall|i: int| 0 <= i < init.len() ==> job_ok(#[trigger] init[i]) {
            if job_ok(j) {
                assert forall|i: int| 0 <= i < jobs.len() implies job_ok(#[trigger] jobs[i]) by {
                    if i < init.len() {
                        assert(jobs[i] == init[i]);
                    }
                }
            } else {
                assert(!job_ok(jobs[jobs.len() - 1]));
            }
        } else {
            let i = choose|i: int| 0 <= i < init.len() && !job_ok(#[trigger] init[i]);
            assert(jobs[i] == init[i]);
        }
    }
}

/// Whatever the number of workers, and so whatever order the events of a batch
/// arrive in, the report counts exactly one end (`Completed` or `Error`) for
/// each job.
pub proof fn lemma_each_job_ends_once(jobs: Seq<JobRecord>, arrived: Seq<EventView>)
    requires
        arrived.to_multiset() == batch_events(jobs).to_multiset(),
    ensures
        resolved(report_after(initial_report(), arrived)) == jobs.len(),
{
    lemma_batch(jobs);
    lemma_arrival_order_free(initial_report(), batch_events(jobs), arrived);
}

/// Whatever the number of workers, and so whatever order the events of a batch
/// arrive in, the aggregate success flag holds exactly when every job's path
/// existed and its script succeeded.
pub proof fn lemma_success_flag_order_free(jobs: Seq<JobRecord>, arrived: Seq<EventView>)
    requires
        arrived.to_multiset() == batch_events(jobs).to_multiset(),
    ensures
        all_ok(report_after(initial_report(), arrived)) == (forall|i: int|
            0 <= i < jobs.len() ==> job_ok(#[trigger] jobs[i])),
{
    lemma_batch(jobs);
    lemma_arrival_order_free(initial_report(), batch_events(jobs), arrived);
}

/// A `Terminate` sent after every event of a batch finalizes the report once,
/// with the end of every job already counted, and nothing after it counts.
pub proof fn lemma_finalized_after_every_job(
    jobs: Seq<JobRecord>,
    arrived: Seq<EventView>,
    later: Seq<EventView>,
)
    requires
        arrived.to_multiset() == batch_events(jobs).to_multiset(),
    ensures
        ({
            let r = report_after(initial_report(), arrived + seq![EventView::Terminate] + later);
            &&& r.finalizations == 1
            &&& resolved(r) == jobs.len()
            &&& r == step(report_after(initial_report(), arrived), EventView::Terminate)
        }),
{
    lemma_batch(jobs);
    lemma_arrival_order_free(initial_report(), batch_events(jobs), arrived);
    let r0 = report_after(initial_report(), arrived);
    let t = seq![EventView::Terminate];
    lemma_after_append(initial_report(), arrived + t, later);
    lemma_after_append(initial_report(), arrived, t);
    lemma_after_one(r0, EventView::Terminate);
    lemma_finished_ignores(step(r0, EventView::Terminate), later);
}

/// However the events arrive, the report is finalized at most once.
pub proof fn lemma_at_most_one_finalization(events: Seq<EventView>)
    ensures
        report_after(initial_report(), events).finalizations <= 1,
{
    lemma_finalizations_bounded(initial_report(), events);
}

proof fn lemma_finalizations_bounded(r: ReportView, s: Seq<EventView>)
    requires
        r.finalizations <= 1,
    ensures
        report_after(r, s).finalizations <= 1,
    decreases s.len(),
{
    if s.len() > 0 {
        lemma_finalizations_bounded(step(r, s[0]), s.skip(1));
    }
}

/// A job whose path does not exist brings about exactly one event, an
/// `Error` that names the path, and never a `Completed`.
pub proof fn lemma_missing_path_only_error(script: ScriptView, run: RunOutputView)
    ensures
        job_events(script, false, run) == seq![
            EventView::Error { title: script.title, message: missing_message(script.path) },
        ],
        forall|i: int|
            0 <= i < job_events(script, false, run).len() ==> !(job_events(
                script,
                false,
                run,
            )[i] is Completed),
{
}

} // verus!
