use record_store::msg::ExecuteMsg;
use record_store::msg::ExecuteReply;
use record_store::msg::QueryAnswer;
use record_store::msg::QueryMsg;
use record_store::state::Analysis;
use record_store::state::Task;
use record_store::store::StoreError;
use record_store::store::apply_execute;
use record_store::store::apply_query;
use record_store::store::create_viewing_key;
use record_store::store::get_analyses;
use record_store::store::get_daily_progress;
use record_store::store::init_state;
use record_store::store::key_is_valid;
use record_store::store::save_analysis;
use record_store::store::save_daily_progress;

#[test]
fn proper_initialization() {
    let state = init_state();
    assert_eq!(0, state.analyses.len());
    assert_eq!(0, state.daily_progress.len());
    assert_eq!(0, state.viewing_keys.len());
}

#[test]
fn test_save_analysis() {
    let mut state = init_state();

    let msg = ExecuteMsg::CreateViewingKey { patient_id: "123".to_string() };
    apply_execute(&mut state, msg);

    let msg = ExecuteMsg::SaveAnalysis {
        patient_id: "123".to_string(),
        content: "test content".to_string(),
    };
    apply_execute(&mut state, msg);

    let msg = QueryMsg::GetAnalyses {
        patient_id: "123".to_string(),
        viewing_key: "test_key".to_string(),
    };
    let res = apply_query(&state, msg).unwrap();
    match res {
        QueryAnswer::Analyses(analyses) => assert_eq!(1, analyses.len()),
        _ => panic!("expected analyses"),
    }
}

#[test]
fn empty_state_reads() {
    let state = init_state();
    // The ungated read of an empty aggregate succeeds with an empty result.
    let progress = get_daily_progress(&state, &"p1".to_string());
    assert_eq!(0, progress.len());
    // No key is valid in an empty aggregate, so the gated read rejects.
    assert!(!key_is_valid(&state, &"p1".to_string(), &"test_key".to_string()));
    let res = get_analyses(&state, &"p1".to_string(), &"test_key".to_string());
    assert_eq!(res, Err(StoreError::InvalidViewingKey));
}

#[test]
fn append_only_growth() {
    let mut state = init_state();
    save_analysis(&mut state, "p1".to_string(), "first".to_string());
    assert_eq!(1, state.analyses.len());
    save_analysis(&mut state, "p2".to_string(), "second".to_string());
    assert_eq!(2, state.analyses.len());
    // Prior entries are untouched and keep their position.
    assert_eq!("p1", state.analyses[0].patient_id);
    assert_eq!("first", state.analyses[0].content);
    assert_eq!("p2", state.analyses[1].patient_id);
    assert_eq!("second", state.analyses[1].content);

    save_daily_progress(&mut state, "p1".to_string(), 1, vec![], "a".to_string());
    assert_eq!(1, state.daily_progress.len());
    save_daily_progress(&mut state, "p1".to_string(), 2, vec![], "b".to_string());
    assert_eq!(2, state.daily_progress.len());
    assert_eq!(1, state.daily_progress[0].date);
    assert_eq!("a", state.daily_progress[0].description);
}

#[test]
fn auth_gate_scenario() {
    let mut state = init_state();
    let key = create_viewing_key(&mut state, "p1".to_string());
    assert_eq!("test_key", key);
    save_analysis(&mut state, "p1".to_string(), "stable".to_string());
    save_analysis(&mut state, "p2".to_string(), "other".to_string());

    // The granted key reads exactly p1's analyses, in save order.
    let res = get_analyses(&state, &"p1".to_string(), &key).unwrap();
    assert_eq!(
        res,
        vec![Analysis { patient_id: "p1".to_string(), content: "stable".to_string() }]
    );

    // A key never granted for p1 is rejected, though analyses for p1 exist.
    let res = get_analyses(&state, &"p1".to_string(), &"wrong".to_string());
    assert_eq!(res, Err(StoreError::InvalidViewingKey));

    // The key was granted to p1, not p2, so p2's analyses stay unreadable
    // with it even though content for p2 exists.
    let res = get_analyses(&state, &"p2".to_string(), &key);
    assert_eq!(res, Err(StoreError::InvalidViewingKey));
}

#[test]
fn daily_progress_scenario() {
    let mut state = init_state();
    let tasks = vec![
        Task { name: "walk".to_string(), completed: true },
        Task { name: "meds".to_string(), completed: false },
    ];
    save_daily_progress(&mut state, "p1".to_string(), 20240101, tasks, "ok day".to_string());

    // No viewing key is needed on this path.
    let res = get_daily_progress(&state, &"p1".to_string());
    assert_eq!(1, res.len());
    assert_eq!("p1", res[0].patient_id);
    assert_eq!(20240101, res[0].date);
    assert_eq!("ok day", res[0].description);
    assert_eq!(2, res[0].tasks.len());
    assert_eq!("walk", res[0].tasks[0].name);
    assert!(res[0].tasks[0].completed);
    assert_eq!("meds", res[0].tasks[1].name);
    assert!(!res[0].tasks[1].completed);
}

#[test]
fn progress_filter_excludes_others() {
    let mut state = init_state();
    save_daily_progress(&mut state, "p1".to_string(), 1, vec![], "one".to_string());
    save_daily_progress(&mut state, "p2".to_string(), 2, vec![], "two".to_string());
    save_daily_progress(&mut state, "p1".to_string(), 3, vec![], "three".to_string());

    let res = get_daily_progress(&state, &"p1".to_string());
    assert_eq!(2, res.len());
    assert_eq!("one", res[0].description);
    assert_eq!("three", res[1].description);

    let res = get_daily_progress(&state, &"p3".to_string());
    assert_eq!(0, res.len());
}

#[test]
fn invalid_key_error_message() {
    assert_eq!("Invalid viewing key", StoreError::InvalidViewingKey.message());
}

#[test]
fn duplicate_grants_accumulate() {
    let mut state = init_state();
    let k1 = create_viewing_key(&mut state, "p1".to_string());
    let k2 = create_viewing_key(&mut state, "p1".to_string());
    // Repeated issuance appends a new grant every time, duplicates included.
    assert_eq!(2, state.viewing_keys.len());
    assert_eq!(k1, k2);
    assert!(key_is_valid(&state, &"p1".to_string(), &k1));
}

#[test]
fn execute_replies() {
    let mut state = init_state();
    let reply = apply_execute(
        &mut state,
        ExecuteMsg::SaveAnalysis { patient_id: "p1".to_string(), content: "c".to_string() },
    );
    assert_eq!(reply, ExecuteReply::Ack);

    let reply = apply_execute(
        &mut state,
        ExecuteMsg::CreateViewingKey { patient_id: "p1".to_string() },
    );
    assert_eq!(reply, ExecuteReply::ViewingKey("test_key".to_string()));

    let reply = apply_execute(
        &mut state,
        ExecuteMsg::SaveDailyProgress {
            patient_id: "p1".to_string(),
            date: 7,
            tasks: vec![],
            description: "d".to_string(),
        },
    );
    assert_eq!(reply, ExecuteReply::Ack);
}

#[test]
fn query_dispatch() {
    let mut state = init_state();
    let key = create_viewing_key(&mut state, "p1".to_string());
    save_analysis(&mut state, "p1".to_string(), "stable".to_string());
    save_daily_progress(&mut state, "p1".to_string(), 5, vec![], "day".to_string());

    let res = apply_query(
        &state,
        QueryMsg::GetAnalyses { patient_id: "p1".to_string(), viewing_key: key },
    );
    match res {
        Ok(QueryAnswer::Analyses(v)) => {
            assert_eq!(1, v.len());
            assert_eq!("stable", v[0].content);
        }
        _ => panic!("expected analyses"),
    }

    let res = apply_query(
        &state,
        QueryMsg::GetAnalyses {
            patient_id: "p1".to_string(),
            viewing_key: "never granted".to_string(),
        },
    );
    assert_eq!(res, Err(StoreError::InvalidViewingKey));

    let res = apply_query(&state, QueryMsg::GetDailyProgress { patient_id: "p1".to_string() });
    match res {
        Ok(QueryAnswer::DailyProgress(v)) => {
            assert_eq!(1, v.len());
            assert_eq!("day", v[0].description);
        }
        _ => panic!("expected daily progress"),
    }
}
