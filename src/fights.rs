//! The fights of a report, as the event source lists them.
use vstd::prelude::*;
use vstd::string::StringExecFns;

use crate::types::{Instance, Unit};

verus! {

/// The request path of the fight list of a report.
pub fn construct_path(report_code: &String) -> (r: String)
    ensures
        r@ == "/v1/report/fights/"@ + report_code@,
{
    let mut path = String::new();
    path.append("/v1/report/fights/");
    path.append(report_code.as_str());
    path
}

/// The fights of a report and the report's own metadata. Times are milliseconds.
#[derive(Debug, Clone, PartialEq)]
pub struct ReportFightsList {
    pub fights: Vec<Fight>,
    pub language: Option<String>,
    pub friendlies: Vec<Unit>,
    pub enemies: Vec<Unit>,
    pub friendly_pets: Vec<Unit>,
    pub enemy_pets: Vec<Unit>,
    pub phases: Vec<Instance>,
    pub log_version: Option<i32>,
    pub title: Option<String>,
    pub owner: Option<String>,
    pub start: Option<u64>,
    pub end: Option<u64>,
    pub zone: Option<i64>,
}

/// One recorded attempt at an encounter; its times are relative to the report's start.
#[derive(Debug, Clone, PartialEq)]
pub struct Fight {
    pub id: i64,
    pub start_time: u64,
    pub end_time: u64,
    pub boss: Option<i64>,
    pub name: Option<String>,
    pub zone_id: Option<i64>,
    pub zone_name: Option<String>,
    pub size: Option<i64>,
    pub difficulty: Option<i64>,
    pub kill: Option<bool>,
    pub partial: Option<i64>,
    pub standard_composition: Option<bool>,
    pub boss_percentage: Option<i32>,
    pub fight_percentage: Option<i64>,
    pub last_phase_for_percentage_display: Option<i64>,
}

} // verus!
