use vstd::prelude::*;
use crate::runner::{Event, EventView};

verus! {

/// What the output side has rendered so far: how many scripts were queued,
/// passed, failed or were missing, and whether it has finalized.
pub struct Report {
    queued: usize,
    passed: usize,
    failed: usize,
    missing: usize,
    finalized: bool,
}

pub struct ReportView {
    pub queued: nat,
    pub passed: nat,
    pub failed: nat,
    pub missing: nat,
    pub finalizations: nat,
}

impl View for Report {
    type V = ReportView;

    closed spec fn view(&self) -> ReportView {
        ReportView {
            queued: self.queued as nat,
            passed: self.passed as nat,
            failed: self.failed as nat,
            missing: self.missing as nat,
            finalizations: if self.finalized {
                1
            } else {
                0
            },
        }
    }
}

/// A report before any event.
pub open spec fn initial_report() -> ReportView {
    ReportView { queued: 0, passed: 0, failed: 0, missing: 0, finalizations: 0 }
}

/// The report after one more event. Once finalized, the output side has
/// stopped: later events change nothing.
pub open spec fn step(r: ReportView, e: EventView) -> ReportView {
    if r.finalizations > 0 {
        r
    } else {
        match e {
            EventView::Queued { .. } => ReportView { queued: r.queued + 1, ..r },
            EventView::Completed { success, .. } => if success {
                ReportView { passed: r.passed + 1, ..r }
            } else {
                ReportView { failed: r.failed + 1, ..r }
            },
            EventView::Error { .. } => ReportView { missing: r.missing + 1, ..r },
            EventView::Terminate => ReportView { finalizations: r.finalizations + 1, ..r },
        }
    }
}

/// The report after the events, in the order in which they arrived.
pub open spec fn report_after(r: ReportView, events: Seq<EventView>) -> ReportView
    decreases events.len(),
{
    if events.len() == 0 {
        r
    } else {
        report_after(step(r, events[0]), events.skip(1))
    }
}

/// How many scripts have come to an end, by a `Completed` or an `Error` event.
pub open spec fn resolved(r: ReportView) -> nat {
    r.passed + r.failed + r.missing
}

/// The aggregate success flag: no script failed and none was missing.
pub open spec fn all_ok(r: ReportView) -> bool {
    r.failed == 0 && r.missing == 0
}

/// The exit status that a report stands for.
pub open spec fn exit_status(r: ReportView) -> i32 {
    if all_ok(r) {
        0
    } else {
        1
    }
}

impl Report {
    /// Whether every count can take one more event.
    pub open spec fn has_room(&self) -> bool {
        &&& self@.queued < usize::MAX
        &&& self@.passed < usize::MAX
        &&& self@.failed < usize::MAX
        &&& self@.missing < usize::MAX
    }

    pub fn new() -> (r: Report)
        ensures
            r@ == initial_report(),
    {
        Report { queued: 0, passed: 0, failed: 0, missing: 0, finalized: false }
    }

    /// Takes one event into the report. Returns whether this event finalizes
    /// it: the first `Terminate`, and no later event.
    pub fn apply(&mut self, e: &Event) -> (finalize: bool)
        requires
            old(self).has_room(),
        ensures
            final(self)@ == step(old(self)@, e@),
            finalize == (old(self)@.finalizations == 0 && e@ is Terminate),
    {
        if self.finalized {
            return false;
        }
        match e {
            Event::Queued { .. } => {
                self.queued = self.queued + 1;
                false
            },
            Event::Completed { success, .. } => {
                if *success {
                    self.passed = self.passed + 1;
                } else {
                    self.failed = self.failed + 1;
                }
                false
            },
            Event::Error { .. } => {
                self.missing = self.missing + 1;
                false
            },
            Event::Terminate => {
                self.finalized = true;
                true
            },
        }
    }

    /// The aggregate success flag.
    pub fn success(&self) -> (r: bool)
        ensures
            r == all_ok(self@),
    {
        self.failed == 0 && self.missing == 0
    }

    /// The process exit status: 0 where every script passed, else 1.
    pub fn exit_code(&self) -> (r: i32)
        ensures
            r == exit_status(self@),
    {
        if self.success() {
            0
        } else {
            1
        }
    }

    pub fn finished(&self) -> (r: bool)
        ensures
            r == (self@.finalizations > 0),
    {
        self.finalized
    }

    pub fn queued(&self) -> (r: usize)
        ensures
            r == self@.queued,
    {
        self.queued
    }

    pub fn passed(&self) -> (r: usize)
        ensures
            r == self@.passed,
    {
        self.passed
    }

    pub fn failed(&self) -> (r: usize)
        ensures
            r == self@.failed,
    {
        self.failed
    }

    pub fn missing(&self) -> (r: usize)
        ensures
            r == self@.missing,
    {
        self.missing
    }
}

} // verus!
