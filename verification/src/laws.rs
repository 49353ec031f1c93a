//! What holds of the scoring as a whole.

use vstd::prelude::*;
use crate::outlook::{cvd_risk_label, heart_age_label};
use crate::patient::{is_men, is_women, men_tag, tags_differ, women_tag, Person, PersonView};
use crate::points::{
    age_score, diabetic_score, sbp_score, smoker_score, total_cholesterol_score,
};
use crate::report::{framingham_score, risk_report, ReportView, RiskReport};

verus! {

/// Scoring is repeatable: two reports made from records that hold the same
/// values hold the same values.
pub proof fn scoring_is_repeatable(
    first: Person,
    second: Person,
    first_report: RiskReport,
    second_report: RiskReport,
)
    requires
        first@ == second@,
        first_report@ == risk_report(first@),
        second_report@ == risk_report(second@),
    ensures
        first_report@ == second_report@,
{
}

/// With the sex fixed, the age score of an older patient is never below
/// that of a younger one.
pub proof fn age_score_never_drops(sex: Seq<char>, younger: nat, older: nat)
    requires
        younger <= older,
    ensures
        age_score(younger, sex) <= age_score(older, sex),
{
}

/// Every tag other than `"Men"` reads the tables for women: the age,
/// blood pressure and total cholesterol scores and both labels are those
/// of `"Women"`.
pub proof fn other_tags_read_womens_tables(
    sex: Seq<char>,
    age: nat,
    pressure: nat,
    treated: bool,
    cholesterol: nat,
    score: int,
)
    requires
        !is_men(sex),
    ensures
        age_score(age, sex) == age_score(age, women_tag()),
        sbp_score(pressure, treated, sex) == sbp_score(pressure, treated, women_tag()),
        total_cholesterol_score(cholesterol, sex) == total_cholesterol_score(
            cholesterol,
            women_tag(),
        ),
        heart_age_label(sex, score) == heart_age_label(women_tag(), score),
        cvd_risk_label(sex, score) == cvd_risk_label(women_tag(), score),
{
    tags_differ();
}

/// The two flag scores single out `"Women"`: under every other tag a
/// smoker and a diabetic score as under `"Men"`.
pub proof fn other_tags_flag_scores(sex: Seq<char>, smoker: bool, diabetic: bool)
    requires
        !is_women(sex),
    ensures
        smoker_score(smoker, sex) == smoker_score(smoker, men_tag()),
        diabetic_score(diabetic, sex) == diabetic_score(diabetic, men_tag()),
        smoker ==> smoker_score(smoker, sex) != smoker_score(smoker, women_tag()),
        diabetic ==> diabetic_score(diabetic, sex) != diabetic_score(diabetic, women_tag()),
{
    tags_differ();
}

/// The record with its tag replaced by `"Women"`.
pub open spec fn tagged_as_women(p: PersonView) -> PersonView {
    PersonView { sex: women_tag(), ..p }
}

/// A patient whose tag is not `"Men"` gets the scores and labels of the
/// same patient tagged `"Women"`, unless the tag is a third one and the
/// patient smokes or is diabetic: only those two scores tell a third tag
/// from `"Women"`.
pub proof fn other_tags_report_as_women(p: PersonView)
    requires
        !is_men(p.sex),
        is_women(p.sex) || (!p.smoker && !p.diabetic),
    ensures
        risk_report(p) == (ReportView { person: p, ..risk_report(tagged_as_women(p)) }),
{
    tags_differ();
    let w = tagged_as_women(p);
    other_tags_read_womens_tables(
        p.sex,
        p.age,
        p.systolic_blood_pressure,
        p.on_sbp_treatment,
        p.total_cholesterol,
        framingham_score(p),
    );
    assert(framingham_score(p) == framingham_score(w));
}

/// The Framingham score of every patient lies between -5 and 33, and the
/// score in a report is the sum of the six partial scores in it.
pub proof fn framingham_score_range(p: PersonView)
    ensures
        -5 <= framingham_score(p) <= 33,
        ({
            let r = risk_report(p);
            r.framingham_score == r.age_score + r.smoke_score + r.diabetic_score + r.sbp_score
                + r.total_cholesterol_score + r.hdl_score
        }),
{
    tags_differ();
}

} // verus!
