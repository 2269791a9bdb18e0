//! The message surface: one variant per entry point, plus replies and errors.

use vstd::prelude::*;
use crate::state::Task;

verus! {

/// The initialization request. It carries no data: the store starts empty.
#[derive(Clone, Debug, PartialEq)]
pub struct InstantiateMsg {}

/// One variant per mutating entry point.
#[derive(Clone, Debug, PartialEq)]
pub enum ExecuteMsg {
    SaveAnalysis { patient_id: String, content: String },
    CreateViewingKey { patient_id: String },
    SaveDailyProgress { patient_id: String, date: u64, tasks: Vec<Task>, description: String },
}

/// One variant per read entry point.
#[derive(Clone, Debug, PartialEq)]
pub enum QueryMsg {
    GetAnalyses { patient_id: String, viewing_key: String },
    GetDailyProgress { patient_id: String },
}

/// What a mutating entry point reports back: a bare acknowledgment, except
/// that issuing a viewing key also returns the key itself.
#[derive(Clone, Debug, PartialEq)]
pub enum ExecuteReply {
    Ack,
    ViewingKey(String),
}

/// What a read entry point returns on success.
#[derive(Clone, Debug, PartialEq)]
pub enum QueryAnswer {
    Analyses(Vec<crate::state::Analysis>),
    DailyProgress(Vec<crate::state::DailyProgress>),
}

} // verus!
