//! The report: the record it was made from, the six partial scores, their
//! sum and the two labels.

use vstd::prelude::*;
use crate::outlook::{cvd_risk, cvd_risk_label, heart_age, heart_age_label};
use crate::patient::{Person, PersonView};
use crate::points::{
    age_score, age_scoring, diabetic_score, diabetic_scoring, hdl_score, hdl_scoring, sbp_score,
    sbp_scoring, smoke_scoring, smoker_score, total_cholesterol_score, total_cholesterol_scoring,
};

verus! {

/// What is known of a patient's cardiovascular risk.
#[derive(Debug, Clone)]
pub struct RiskReport {
    /// The record that was scored, unchanged.
    pub person: Person,
    pub age_score: i32,
    pub smoke_score: i32,
    pub diabetic_score: i32,
    pub sbp_score: i32,
    pub total_cholesterol_score: i32,
    pub hdl_score: i32,
    /// The sum of the six partial scores.
    pub framingham_score: i32,
    /// The estimated heart age, such as `"57 y/o"`.
    pub heart_age: &'static str,
    /// The predicted ten-year risk, such as `"11.2 %"`.
    pub cvd_risk: &'static str,
}

/// A report as mathematical values.
pub struct ReportView {
    pub person: PersonView,
    pub age_score: int,
    pub smoke_score: int,
    pub diabetic_score: int,
    pub sbp_score: int,
    pub total_cholesterol_score: int,
    pub hdl_score: int,
    pub framingham_score: int,
    pub heart_age: Seq<char>,
    pub cvd_risk: Seq<char>,
}

impl View for RiskReport {
    type V = ReportView;

    open spec fn view(&self) -> ReportView {
        ReportView {
            person: self.person@,
            age_score: self.age_score as int,
            smoke_score: self.smoke_score as int,
            diabetic_score: self.diabetic_score as int,
            sbp_score: self.sbp_score as int,
            total_cholesterol_score: self.total_cholesterol_score as int,
            hdl_score: self.hdl_score as int,
            framingham_score: self.framingham_score as int,
            heart_age: self.heart_age@,
            cvd_risk: self.cvd_risk@,
        }
    }
}

/// The Framingham score of a patient: the plain sum of the six partial
/// scores.
pub open spec fn framingham_score(p: PersonView) -> int {
    age_score(p.age, p.sex) + smoker_score(p.smoker, p.sex) + diabetic_score(p.diabetic, p.sex)
        + sbp_score(p.systolic_blood_pressure, p.on_sbp_treatment, p.sex)
        + total_cholesterol_score(p.total_cholesterol, p.sex) + hdl_score(p.hdl_cholesterol)
}

/// The report that belongs to a patient record.
pub open spec fn risk_report(p: PersonView) -> ReportView {
    ReportView {
        person: p,
        age_score: age_score(p.age, p.sex),
        smoke_score: smoker_score(p.smoker, p.sex),
        diabetic_score: diabetic_score(p.diabetic, p.sex),
        sbp_score: sbp_score(p.systolic_blood_pressure, p.on_sbp_treatment, p.sex),
        total_cholesterol_score: total_cholesterol_score(p.total_cholesterol, p.sex),
        hdl_score: hdl_score(p.hdl_cholesterol),
        framingham_score: framingham_score(p),
        heart_age: heart_age_label(p.sex, framingham_score(p)),
        cvd_risk: cvd_risk_label(p.sex, framingham_score(p)),
    }
}

/// Scores a patient and assembles the report.
pub fn evaluate_score(person: Person) -> (report: RiskReport)
    ensures
        report@ == risk_report(person@),
{
    let age_score: i32 = age_scoring(&person);
    let smoke_score: i32 = smoke_scoring(&person);
    let diabetic_score: i32 = diabetic_scoring(&person);
    let sbp_score: i32 = sbp_scoring(&person);
    let total_cholesterol_score: i32 = total_cholesterol_scoring(&person);
    let hdl_score: i32 = hdl_scoring(&person);
    let framingham_score: i32 = age_score + smoke_score + diabetic_score + sbp_score
        + total_cholesterol_score + hdl_score;
    let heart_age: &'static str = heart_age(&person.sex, framingham_score);
    let cvd_risk: &'static str = cvd_risk(&person.sex, framingham_score);
    RiskReport {
        person,
        age_score,
        smoke_score,
        diabetic_score,
        sbp_score,
        total_cholesterol_score,
        hdl_score,
        framingham_score,
        heart_age,
        cvd_risk,
    }
}

} // verus!
