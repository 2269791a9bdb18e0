//! The data model: record types, the aggregate, and their mathematical views.

use vstd::prelude::*;

verus! {

/// A checklist item, always embedded inside a [`DailyProgress`] entry.
#[derive(Clone, Debug, PartialEq)]
pub struct Task {
    pub name: String,
    pub completed: bool,
}

/// A free-text analysis entry for one patient.
#[derive(Clone, Debug, PartialEq)]
pub struct Analysis {
    pub patient_id: String,
    pub content: String,
}

/// A structured daily-progress entry: a date, a checklist and a description.
#[derive(Clone, Debug, PartialEq)]
pub struct DailyProgress {
    pub patient_id: String,
    pub date: u64,
    pub tasks: Vec<Task>,
    pub description: String,
}

/// The whole aggregate: every record and every viewing-key grant.
///
/// `viewing_keys` is a many-to-many grant table: a patient may hold several
/// keys at once, duplicates are allowed, and nothing is ever revoked.
#[derive(Clone, Debug, PartialEq)]
pub struct State {
    pub analyses: Vec<Analysis>,
    pub daily_progress: Vec<DailyProgress>,
    pub viewing_keys: Vec<(String, String)>,
}

/// Mathematical model of a [`Task`].
#[verifier::ext_equal]
pub ghost struct TaskView {
    pub name: Seq<char>,
    pub completed: bool,
}

/// Mathematical model of an [`Analysis`].
#[verifier::ext_equal]
pub ghost struct AnalysisView {
    pub patient_id: Seq<char>,
    pub content: Seq<char>,
}

/// Mathematical model of a [`DailyProgress`] entry.
#[verifier::ext_equal]
pub ghost struct DailyProgressView {
    pub patient_id: Seq<char>,
    pub date: u64,
    pub tasks: Seq<TaskView>,
    pub description: Seq<char>,
}

/// Mathematical model of the aggregate [`State`].
#[verifier::ext_equal]
pub ghost struct StateView {
    pub analyses: Seq<AnalysisView>,
    pub daily_progress: Seq<DailyProgressView>,
    pub viewing_keys: Seq<(Seq<char>, Seq<char>)>,
}

impl View for Task {
    type V = TaskView;

    open spec fn view(&self) -> TaskView {
        TaskView { name: self.name@, completed: self.completed }
    }
}

impl DeepView for Task {
    type V = TaskView;

    open spec fn deep_view(&self) -> TaskView {
        self.view()
    }
}

impl View for Analysis {
    type V = AnalysisView;

    open spec fn view(&self) -> AnalysisView {
        AnalysisView { patient_id: self.patient_id@, content: self.content@ }
    }
}

impl DeepView for Analysis {
    type V = AnalysisView;

    open spec fn deep_view(&self) -> AnalysisView {
        self.view()
    }
}

impl View for DailyProgress {
    type V = DailyProgressView;

    open spec fn view(&self) -> DailyProgressView {
        DailyProgressView {
            patient_id: self.patient_id@,
            date: self.date,
            tasks: self.tasks.deep_view(),
            description: self.description@,
        }
    }
}

impl DeepView for DailyProgress {
    type V = DailyProgressView;

    open spec fn deep_view(&self) -> DailyProgressView {
        self.view()
    }
}

impl View for State {
    type V = StateView;

    open spec fn view(&self) -> StateView {
        StateView {
            analyses: self.analyses.deep_view(),
            daily_progress: self.daily_progress.deep_view(),
            viewing_keys: self.viewing_keys.deep_view(),
        }
    }
}

impl StateView {
    /// The aggregate as initialization leaves it: all three collections empty.
    pub open spec fn empty() -> StateView {
        StateView {
            analyses: Seq::empty(),
            daily_progress: Seq::empty(),
            viewing_keys: Seq::empty(),
        }
    }
}

/// A `(patient_id, key)` pair authorizes a read if and only if it appears
/// verbatim among the grants; matching is exact, with no normalization.
pub open spec fn key_valid(s: StateView, patient_id: Seq<char>, key: Seq<char>) -> bool {
    exists|i: int|
        0 <= i < s.viewing_keys.len() && #[trigger] s.viewing_keys[i] == (patient_id, key)
}

/// The analyses belonging to one patient, in their original save order.
pub open spec fn analyses_for_seq(analyses: Seq<AnalysisView>, patient_id: Seq<char>) -> Seq<
    AnalysisView,
> {
    analyses.filter(|a: AnalysisView| a.patient_id == patient_id)
}

/// The analyses of `s` belonging to one patient, in their original save order.
pub open spec fn analyses_for(s: StateView, patient_id: Seq<char>) -> Seq<AnalysisView> {
    analyses_for_seq(s.analyses, patient_id)
}

/// The daily-progress entries belonging to one patient, in save order.
pub open spec fn progress_for_seq(
    entries: Seq<DailyProgressView>,
    patient_id: Seq<char>,
) -> Seq<DailyProgressView> {
    entries.filter(|p: DailyProgressView| p.patient_id == patient_id)
}

/// The daily-progress entries of `s` belonging to one patient, in save order.
pub open spec fn progress_for(s: StateView, patient_id: Seq<char>) -> Seq<DailyProgressView> {
    progress_for_seq(s.daily_progress, patient_id)
}

impl Task {
    /// An exact copy, so that query results can hand records out while the
    /// aggregate keeps its own.
    pub fn duplicate(&self) -> (r: Task)
        ensures
            r == *self,
    {
        Task { name: self.name.clone(), completed: self.completed }
    }
}

impl Analysis {
    /// An exact copy, so that query results can hand records out while the
    /// aggregate keeps its own.
    pub fn duplicate(&self) -> (r: Analysis)
        ensures
            r == *self,
    {
        Analysis { patient_id: self.patient_id.clone(), content: self.content.clone() }
    }
}

impl DailyProgress {
    /// A copy equal to the original in the model, so that query results can
    /// hand records out while the aggregate keeps its own.
    pub fn duplicate(&self) -> (r: DailyProgress)
        ensures
            r.deep_view() == self.deep_view(),
    {
        let mut tasks: Vec<Task> = Vec::new();
        let n = self.tasks.len();
        let mut i: usize = 0;
        while i < n
            invariant
                n == self.tasks.len(),
                i <= n,
                tasks.deep_view() == self.tasks.deep_view().subrange(0, i as int),
            decreases n - i,
        {
            tasks.push(self.tasks[i].duplicate());
            proof {
                let dv = self.tasks.deep_view();
                assert(dv.subrange(0, i + 1) =~= dv.subrange(0, i as int).push(dv[i as int]));
                assert(tasks.deep_view() =~= dv.subrange(0, i + 1));
            }
            i += 1;
        }
        proof {
            assert(tasks.deep_view() =~= self.tasks.deep_view());
        }
        let r = DailyProgress {
            patient_id: self.patient_id.clone(),
            date: self.date,
            tasks,
            description: self.description.clone(),
        };
        proof {
            assert(r.deep_view() =~= self.deep_view());
        }
        r
    }
}

} // verus!
