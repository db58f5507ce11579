//! Rename planning and execution state. For each selected file a new name
//! is computed by substituting the pattern's capture groups into the
//! replacement template; the renames are then performed one at a time, in
//! order, and the first failure stops the run with no rollback of the
//! renames already applied.

use vstd::prelude::*;
use vstd::string::*;
use crate::pattern::Pattern;
use crate::pattern::regex_replaced;
use crate::scan::CandidateEntry;

verus! {

/// One planned rename: the current filename and the computed new filename.
/// Both are final path components; the file stays in its directory.
#[derive(Debug)]
pub struct RenamePlan {
    pub old_name: String,
    pub new_name: String,
}

/// The replacement template, passed through unmodified. Modeled as a stage
/// of its own so the template can later be enriched.
pub fn format_replace(replace: &str) -> (r: String)
    ensures
        r@ == replace@,
{
    String::from_str(replace)
}

/// The plan for a batch of selected files: one rename per file, in the
/// given order, each new name the result of substituting the pattern's
/// capture groups into the replacement template for every match inside the
/// old name.
pub fn plan_renames(files: Vec<CandidateEntry>, pattern: &Pattern, replace: &str) -> (r: Vec<
    RenamePlan,
>)
    ensures
        r@.len() == files@.len(),
        forall|i: int|
            0 <= i < files@.len() ==> {
                &&& (#[trigger] r@[i]).old_name@ == files@[i].name@
                &&& r@[i].new_name@ == regex_replaced(pattern@, files@[i].name@, replace@)
            },
{
    let mut r: Vec<RenamePlan> = Vec::new();
    let mut i: usize = 0;
    while i < files.len()
        invariant
            i <= files@.len(),
            r@.len() == i,
            forall|j: int|
                0 <= j < i ==> {
                    &&& (#[trigger] r@[j]).old_name@ == files@[j].name@
                    &&& r@[j].new_name@ == regex_replaced(pattern@, files@[j].name@, replace@)
                },
        decreases files@.len() - i,
    {
        let entry = &files[i];
        let new_name = pattern.replace_all(entry.name.as_str(), replace);
        let old_name = entry.name.clone();
        r.push(RenamePlan { old_name, new_name });
        i = i + 1;
    }
    r
}

/// The executor's run state. Plans are performed sequentially; a failure
/// stops the run at the failing plan, and the renames applied before it
/// are not undone.
pub struct RenameRun {
    plans: Vec<RenamePlan>,
    next: usize,
    failed: bool,
}

impl RenameRun {
    /// The whole batch of plans, in order.
    pub closed spec fn spec_plans(&self) -> Seq<RenamePlan> {
        self.plans@
    }

    /// How many plans have been performed successfully.
    pub closed spec fn spec_next(&self) -> int {
        self.next as int
    }

    /// Whether a failure has been recorded.
    pub closed spec fn spec_failed(&self) -> bool {
        self.failed
    }

    pub open spec fn wf(&self) -> bool {
        self.spec_next() <= self.spec_plans().len()
    }

    /// The plans whose renames have taken effect on disk.
    pub open spec fn applied(&self) -> Seq<RenamePlan> {
        self.spec_plans().take(self.spec_next())
    }

    /// The plans whose renames have not taken effect: at the point of
    /// failure, the failing plan and all that follow it.
    pub open spec fn untouched(&self) -> Seq<RenamePlan> {
        self.spec_plans().skip(self.spec_next())
    }

    /// Whether the run still offers a plan to perform.
    pub open spec fn offers_plan(&self) -> bool {
        !self.spec_failed() && self.spec_next() < self.spec_plans().len()
    }

    /// A fresh run: nothing applied, nothing failed.
    pub fn new(plans: Vec<RenamePlan>) -> (r: Self)
        ensures
            r.wf(),
            r.spec_plans() == plans@,
            r.spec_next() == 0,
            !r.spec_failed(),
    {
        RenameRun { plans, next: 0, failed: false }
    }

    /// The next plan to perform: the first not yet applied, or nothing once
    /// the run has failed or every plan was applied.
    pub fn current(&self) -> (r: Option<RenamePlan>)
        requires
            self.wf(),
        ensures
            r is Some <==> self.offers_plan(),
            (r matches Some(p) ==> {
                &&& p.old_name@ == self.spec_plans()[self.spec_next()].old_name@
                &&& p.new_name@ == self.spec_plans()[self.spec_next()].new_name@
            }),
    {
        if self.failed || self.next >= self.plans.len() {
            None
        } else {
            let entry = &self.plans[self.next];
            Some(RenamePlan { old_name: entry.old_name.clone(), new_name: entry.new_name.clone() })
        }
    }

    /// Record that the current plan's rename took effect.
    pub fn record_success(&mut self)
        requires
            old(self).wf(),
            old(self).offers_plan(),
        ensures
            final(self).wf(),
            final(self).spec_plans() == old(self).spec_plans(),
            final(self).spec_next() == old(self).spec_next() + 1,
            !final(self).spec_failed(),
    {
        proof {
            assert(self.next < self.plans.len());
        }
        self.next = self.next + 1;
    }

    /// Record that the current plan's rename failed: the run stops here,
    /// the failing plan stays untouched, and nothing applied is undone.
    pub fn record_failure(&mut self)
        requires
            old(self).wf(),
        ensures
            final(self).wf(),
            final(self).spec_plans() == old(self).spec_plans(),
            final(self).spec_next() == old(self).spec_next(),
            final(self).spec_failed(),
    {
        self.failed = true;
    }

    /// Whether every plan in the batch was applied.
    pub fn completed(&self) -> (b: bool)
        requires
            self.wf(),
        ensures
            b == (!self.spec_failed() && self.spec_next() == self.spec_plans().len()),
    {
        !self.failed && self.next == self.plans.len()
    }
}

/// First failure stops the run: a run that has recorded a failure offers no
/// further plan; the renames already applied are exactly the plans before
/// the failing one, and the failing plan together with all later plans is
/// untouched; the two parts make up the whole batch in order.
pub proof fn lemma_first_failure_stops(run: RenameRun)
    requires
        run.wf(),
        run.spec_failed(),
    ensures
        !run.offers_plan(),
        run.applied() + run.untouched() =~= run.spec_plans(),
{
}

} // verus!

