//! The record store's operations: state transitions, authorization, filtering.

use vstd::prelude::*;
use crate::msg::ExecuteMsg;
use crate::msg::ExecuteReply;
use crate::msg::QueryAnswer;
use crate::msg::QueryMsg;
use crate::state::Analysis;
use crate::state::AnalysisView;
use crate::state::DailyProgress;
use crate::state::DailyProgressView;
use crate::state::State;
use crate::state::StateView;
use crate::state::Task;
use crate::state::analyses_for;
use crate::state::analyses_for_seq;
use crate::state::key_valid;
use crate::state::progress_for;
use crate::state::progress_for_seq;

verus! {

/// The failure a read can report: the presented viewing key grants no
/// access to the requested patient's analyses.
#[derive(Clone, Copy, Debug, PartialEq, Eq)]
pub enum StoreError {
    InvalidViewingKey,
}

impl StoreError {
    /// The user-visible wording of the failure.
    pub fn message(&self) -> (r: String)
        ensures
            r@ == "Invalid viewing key"@,
    {
        "Invalid viewing key".to_owned()
    }
}

/// A fresh aggregate with all three collections empty. Initialization
/// persists exactly this value, unconditionally overwriting any prior one.
pub fn init_state() -> (s: State)
    ensures
        s@ == StateView::empty(),
{
    let s = State { analyses: Vec::new(), daily_progress: Vec::new(), viewing_keys: Vec::new() };
    proof {
        assert(s@ =~= StateView::empty());
    }
    s
}

/// Append one analysis entry. No validation, no deduplication, no
/// authorization: success is unconditional, and nothing else changes.
pub fn save_analysis(state: &mut State, patient_id: String, content: String)
    ensures
        final(state)@.analyses == old(state)@.analyses.push(
            AnalysisView { patient_id: patient_id@, content: content@ },
        ),
        final(state)@.daily_progress == old(state)@.daily_progress,
        final(state)@.viewing_keys == old(state)@.viewing_keys,
{
    let a = Analysis { patient_id, content };
    let ghost av = a@;
    state.analyses.push(a);
    proof {
        assert(state@.analyses =~= old(state)@.analyses.push(av));
        assert(state@.daily_progress =~= old(state)@.daily_progress);
        assert(state@.viewing_keys =~= old(state)@.viewing_keys);
    }
}

/// Append one daily-progress entry. As with analyses there is no
/// validation and no authorization: any caller may record progress for any
/// patient, asymmetric with the gated analysis read path.
pub fn save_daily_progress(
    state: &mut State,
    patient_id: String,
    date: u64,
    tasks: Vec<Task>,
    description: String,
)
    ensures
        final(state)@.daily_progress == old(state)@.daily_progress.push(
            DailyProgressView {
                patient_id: patient_id@,
                date,
                tasks: tasks.deep_view(),
                description: description@,
            },
        ),
        final(state)@.analyses == old(state)@.analyses,
        final(state)@.viewing_keys == old(state)@.viewing_keys,
{
    let p = DailyProgress { patient_id, date, tasks, description };
    let ghost pv = p@;
    state.daily_progress.push(p);
    proof {
        assert(state@.daily_progress =~= old(state)@.daily_progress.push(pv));
        assert(state@.analyses =~= old(state)@.analyses);
        assert(state@.viewing_keys =~= old(state)@.viewing_keys);
    }
}

/// Record a new viewing-key grant for `patient_id` and return the key.
///
/// Known weakness kept from the store's observable behavior: the key is
/// always the same fixed string, a single system-wide shared secret, rather
/// than a freshly drawn random token. Callers that need real capability
/// security must replace this issuer.
pub fn create_viewing_key(state: &mut State, patient_id: String) -> (key: String)
    ensures
        key@ == "test_key"@,
        final(state)@.viewing_keys == old(state)@.viewing_keys.push((patient_id@, key@)),
        final(state)@.analyses == old(state)@.analyses,
        final(state)@.daily_progress == old(state)@.daily_progress,
{
    let key: String = "test_key".to_owned();
    let ghost pair = (patient_id@, key@);
    state.viewing_keys.push((patient_id, key.clone()));
    proof {
        assert(state@.viewing_keys =~= old(state)@.viewing_keys.push(pair));
        assert(state@.analyses =~= old(state)@.analyses);
        assert(state@.daily_progress =~= old(state)@.daily_progress);
    }
    key
}

/// Whether a `(patient_id, key)` grant is on record, by exact string match.
pub fn key_is_valid(state: &State, patient_id: &String, viewing_key: &String) -> (b: bool)
    ensures
        b == key_valid(state@, patient_id@, viewing_key@),
{
    let n = state.viewing_keys.len();
    let mut i: usize = 0;
    while i < n
        invariant
            n == state.viewing_keys.len(),
            i <= n,
            forall|j: int| 0 <= j < i ==> state@.viewing_keys[j] != (patient_id@, viewing_key@),
        decreases n - i,
    {
        let pair = &state.viewing_keys[i];
        if pair.0 == *patient_id && pair.1 == *viewing_key {
            proof {
                assert(state@.viewing_keys[i as int] == (patient_id@, viewing_key@));
            }
            return true;
        }
        i += 1;
    }
    false
}

/// The authorization-gated read: the whole query fails unless the caller
/// presents a key granted for exactly this patient; with a valid key it
/// returns exactly this patient's analyses, in save order.
pub fn get_analyses(state: &State, patient_id: &String, viewing_key: &String) -> (r: Result<
    Vec<Analysis>,
    StoreError,
>)
    ensures
        r is Ok <==> key_valid(state@, patient_id@, viewing_key@),
        r matches Ok(v) ==> v.deep_view() == analyses_for(state@, patient_id@),
        r matches Err(e) ==> e == StoreError::InvalidViewingKey,
{
    if !key_is_valid(state, patient_id, viewing_key) {
        return Err(StoreError::InvalidViewingKey);
    }
    let mut out: Vec<Analysis> = Vec::new();
    let n = state.analyses.len();
    let mut i: usize = 0;
    proof {
        assert(state@.analyses.subrange(0, 0) =~= Seq::<AnalysisView>::empty());
        assert(out.deep_view() =~= analyses_for_seq(state@.analyses.subrange(0, 0), patient_id@))
            by {
            reveal(Seq::filter);
        }
    }
    while i < n
        invariant
            n == state.analyses.len(),
            i <= n,
            out.deep_view() == analyses_for_seq(state@.analyses.subrange(0, i as int), patient_id@),
        decreases n - i,
    {
        let a = &state.analyses[i];
        let matched = a.patient_id == *patient_id;
        if matched {
            out.push(a.duplicate());
        }
        proof {
            let dv = state@.analyses;
            let prefix = dv.subrange(0, i as int);
            assert(dv.subrange(0, i + 1) =~= prefix.push(dv[i as int]));
            prefix.lemma_filter_push(
                dv[i as int],
                |x: AnalysisView| x.patient_id == patient_id@,
            );
            if matched {
                assert(out.deep_view() =~= analyses_for_seq(prefix, patient_id@).push(
                    dv[i as int],
                ));
            }
        }
        i += 1;
    }
    proof {
        assert(state@.analyses.subrange(0, n as int) =~= state@.analyses);
    }
    Ok(out)
}

/// The ungated read: exactly this patient's daily-progress entries, in save
/// order. No key is required and the query always succeeds.
pub fn get_daily_progress(state: &State, patient_id: &String) -> (r: Vec<DailyProgress>)
    ensures
        r.deep_view() == progress_for(state@, patient_id@),
{
    let mut out: Vec<DailyProgress> = Vec::new();
    let n = state.daily_progress.len();
    let mut i: usize = 0;
    proof {
        assert(state@.daily_progress.subrange(0, 0) =~= Seq::<DailyProgressView>::empty());
        assert(out.deep_view() =~= progress_for_seq(
            state@.daily_progress.subrange(0, 0),
            patient_id@,
        )) by {
            reveal(Seq::filter);
        }
    }
    while i < n
        invariant
            n == state.daily_progress.len(),
            i <= n,
            out.deep_view() == progress_for_seq(
                state@.daily_progress.subrange(0, i as int),
                patient_id@,
            ),
        decreases n - i,
    {
        let p = &state.daily_progress[i];
        let matched = p.patient_id == *patient_id;
        if matched {
            out.push(p.duplicate());
        }
        proof {
            let dv = state@.daily_progress;
            let prefix = dv.subrange(0, i as int);
            assert(dv.subrange(0, i + 1) =~= prefix.push(dv[i as int]));
            prefix.lemma_filter_push(
                dv[i as int],
                |x: DailyProgressView| x.patient_id == patient_id@,
            );
            if matched {
                assert(out.deep_view() =~= progress_for_seq(prefix, patient_id@).push(
                    dv[i as int],
                ));
            }
        }
        i += 1;
    }
    proof {
        assert(state@.daily_progress.subrange(0, n as int) =~= state@.daily_progress);
    }
    out
}

/// Apply one mutating message to the aggregate. Every mutation succeeds and
/// appends exactly one entry to exactly one collection; only issuing a
/// viewing key returns data.
pub fn apply_execute(state: &mut State, msg: ExecuteMsg) -> (r: ExecuteReply)
    ensures
        match msg {
            ExecuteMsg::SaveAnalysis { patient_id, content } => {
                &&& final(state)@.analyses == old(state)@.analyses.push(
                    AnalysisView { patient_id: patient_id@, content: content@ },
                )
                &&& final(state)@.daily_progress == old(state)@.daily_progress
                &&& final(state)@.viewing_keys == old(state)@.viewing_keys
                &&& r is Ack
            },
            ExecuteMsg::CreateViewingKey { patient_id } => {
                &&& r matches ExecuteReply::ViewingKey(key)
                &&& key@ == "test_key"@
                &&& final(state)@.viewing_keys == old(state)@.viewing_keys.push(
                    (patient_id@, key@),
                )
                &&& final(state)@.analyses == old(state)@.analyses
                &&& final(state)@.daily_progress == old(state)@.daily_progress
            },
            ExecuteMsg::SaveDailyProgress { patient_id, date, tasks, description } => {
                &&& final(state)@.daily_progress == old(state)@.daily_progress.push(
                    DailyProgressView {
                        patient_id: patient_id@,
                        date,
                        tasks: tasks.deep_view(),
                        description: description@,
                    },
                )
                &&& final(state)@.analyses == old(state)@.analyses
                &&& final(state)@.viewing_keys == old(state)@.viewing_keys
            },
        },
{
    match msg {
        ExecuteMsg::SaveAnalysis { patient_id, content } => {
            save_analysis(state, patient_id, content);
            ExecuteReply::Ack
        },
        ExecuteMsg::CreateViewingKey { patient_id } => {
            let key = create_viewing_key(state, patient_id);
            ExecuteReply::ViewingKey(key)
        },
        ExecuteMsg::SaveDailyProgress { patient_id, date, tasks, description } => {
            save_daily_progress(state, patient_id, date, tasks, description);
            ExecuteReply::Ack
        },
    }
}

/// Answer one read message against the aggregate. Reading analyses is
/// authorization-gated and fails exactly when the presented key was never
/// granted for the patient; reading daily progress always succeeds.
pub fn apply_query(state: &State, msg: QueryMsg) -> (r: Result<QueryAnswer, StoreError>)
    ensures
        match msg {
            QueryMsg::GetAnalyses { patient_id, viewing_key } => {
                &&& r is Ok <==> key_valid(state@, patient_id@, viewing_key@)
                &&& (r matches Ok(ans) ==> {
                    &&& ans matches QueryAnswer::Analyses(v)
                    &&& v.deep_view() == analyses_for(state@, patient_id@)
                })
                &&& (r matches Err(e) ==> e == StoreError::InvalidViewingKey)
            },
            QueryMsg::GetDailyProgress { patient_id } => {
                &&& r matches Ok(ans)
                &&& ans matches QueryAnswer::DailyProgress(v)
                &&& v.deep_view() == progress_for(state@, patient_id@)
            },
        },
{
    match msg {
        QueryMsg::GetAnalyses { patient_id, viewing_key } => {
            let v = get_analyses(state, &patient_id, &viewing_key)?;
            Ok(QueryAnswer::Analyses(v))
        },
        QueryMsg::GetDailyProgress { patient_id } => {
            Ok(QueryAnswer::DailyProgress(get_daily_progress(state, &patient_id)))
        },
    }
}

} // verus!
