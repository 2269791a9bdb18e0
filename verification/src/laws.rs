//! The store's guarantees as proved laws, stated over the mathematical
//! model that the operations' contracts use.

use vstd::prelude::*;
use vstd::seq_lib::group_filter_ensures;
use crate::state::AnalysisView;
use crate::state::DailyProgressView;
use crate::state::StateView;
use crate::state::analyses_for;
use crate::state::analyses_for_seq;
use crate::state::key_valid;
use crate::state::progress_for;
use crate::state::progress_for_seq;

verus! {

/// In the freshly initialized aggregate every read comes back empty: no
/// patient has analyses or daily progress on record, and no viewing key is
/// valid, so the gated analysis read rejects every key.
pub proof fn lemma_initial_state_reads(patient_id: Seq<char>, key: Seq<char>)
    ensures
        analyses_for(StateView::empty(), patient_id) == Seq::<AnalysisView>::empty(),
        progress_for(StateView::empty(), patient_id) == Seq::<DailyProgressView>::empty(),
        !key_valid(StateView::empty(), patient_id, key),
{
    reveal(Seq::filter);
}

/// Appending is the only way the record collections grow: one append makes
/// the sequence exactly one longer, leaves every prior entry unchanged and
/// in place, and puts the new entry at the end.
pub proof fn lemma_append_preserves_prior<A>(s1: Seq<A>, s2: Seq<A>, x: A)
    requires
        s2 == s1.push(x),
    ensures
        s2.len() == s1.len() + 1,
        forall|i: int| 0 <= i < s1.len() ==> s2[i] == s1[i],
        s2[s1.len() as int] == x,
{
}

/// A freshly recorded grant authorizes its own pair: right after the grant
/// `(patient_id, key)` is appended, that key is valid for that patient.
pub proof fn lemma_new_grant_authorizes(
    s1: StateView,
    s2: StateView,
    patient_id: Seq<char>,
    key: Seq<char>,
)
    requires
        s2.viewing_keys == s1.viewing_keys.push((patient_id, key)),
    ensures
        key_valid(s2, patient_id, key),
{
    assert(s2.viewing_keys[s1.viewing_keys.len() as int] == (patient_id, key));
}

/// Grants are never revoked: once a key is valid for a patient, it stays
/// valid in every later aggregate, since each operation at most appends to
/// the grant table.
pub proof fn lemma_grant_persists(
    s1: StateView,
    s2: StateView,
    patient_id: Seq<char>,
    key: Seq<char>,
)
    requires
        key_valid(s1, patient_id, key),
        s1.viewing_keys.is_prefix_of(s2.viewing_keys),
    ensures
        key_valid(s2, patient_id, key),
{
    let i = choose|i: int|
        0 <= i < s1.viewing_keys.len() && #[trigger] s1.viewing_keys[i] == (patient_id, key);
    assert(s2.viewing_keys[i] == (patient_id, key));
}

/// A key never granted for a patient is invalid for that patient, whatever
/// other grants exist and whatever records the patient has.
pub proof fn lemma_ungranted_key_rejected(s: StateView, patient_id: Seq<char>, key: Seq<char>)
    requires
        forall|i: int|
            0 <= i < s.viewing_keys.len() ==> #[trigger] s.viewing_keys[i] != (patient_id, key),
    ensures
        !key_valid(s, patient_id, key),
{
}

/// Saving an analysis changes each patient's view of the analyses in the
/// one expected way: the saved entry is appended to its own patient's list,
/// and every other patient's list is untouched.
pub proof fn lemma_analyses_filter_after_save(
    analyses: Seq<AnalysisView>,
    a: AnalysisView,
    patient_id: Seq<char>,
)
    ensures
        analyses_for_seq(analyses.push(a), patient_id) == if a.patient_id == patient_id {
            analyses_for_seq(analyses, patient_id).push(a)
        } else {
            analyses_for_seq(analyses, patient_id)
        },
{
    analyses.lemma_filter_push(a, |x: AnalysisView| x.patient_id == patient_id);
}

/// Saving a daily-progress entry changes each patient's view of the entries
/// in the one expected way: appended for its own patient, invisible to all
/// others.
pub proof fn lemma_progress_filter_after_save(
    entries: Seq<DailyProgressView>,
    p: DailyProgressView,
    patient_id: Seq<char>,
)
    ensures
        progress_for_seq(entries.push(p), patient_id) == if p.patient_id == patient_id {
            progress_for_seq(entries, patient_id).push(p)
        } else {
            progress_for_seq(entries, patient_id)
        },
{
    entries.lemma_filter_push(p, |x: DailyProgressView| x.patient_id == patient_id);
}

/// The ungated read filters exactly by patient identity: every returned
/// entry carries the requested patient id, every stored entry with that id
/// is returned, and nothing is fabricated.
pub proof fn lemma_progress_filter_exact(s: StateView, patient_id: Seq<char>)
    ensures
        forall|i: int|
            0 <= i < progress_for(s, patient_id).len() ==> (#[trigger] progress_for(
                s,
                patient_id,
            )[i]).patient_id == patient_id,
        forall|i: int|
            0 <= i < s.daily_progress.len() && (#[trigger] s.daily_progress[i]).patient_id
                == patient_id ==> progress_for(s, patient_id).contains(s.daily_progress[i]),
        progress_for(s, patient_id).len() <= s.daily_progress.len(),
{
    broadcast use group_filter_ensures;

}

/// The gated read, once authorized, filters exactly by patient identity,
/// just as the ungated read does.
pub proof fn lemma_analyses_filter_exact(s: StateView, patient_id: Seq<char>)
    ensures
        forall|i: int|
            0 <= i < analyses_for(s, patient_id).len() ==> (#[trigger] analyses_for(
                s,
                patient_id,
            )[i]).patient_id == patient_id,
        forall|i: int|
            0 <= i < s.analyses.len() && (#[trigger] s.analyses[i]).patient_id == patient_id
                ==> analyses_for(s, patient_id).contains(s.analyses[i]),
        analyses_for(s, patient_id).len() <= s.analyses.len(),
{
    broadcast use group_filter_ensures;

}

} // verus!
