//! The six partial scores, each a step table over one risk factor.
//!
//! Bands are written with their lower bound included and their upper bound
//! excluded. Where a table depends on sex, the tag `"Men"` selects the
//! table for men and every other tag the table for women; the two flag
//! scores single out `"Women"` instead.

use vstd::prelude::*;
use crate::patient::{is_men, is_women, tagged_men, tagged_women, Person};

verus! {

/// Points for age in the table for men, from 40 years on.
pub open spec fn men_age_score(age: nat) -> int
    recommends
        age >= 40,
{
    if age < 45 {
        5
    } else if age < 50 {
        6
    } else if age < 55 {
        8
    } else if age < 60 {
        10
    } else if age < 65 {
        11
    } else if age < 70 {
        12
    } else if age < 75 {
        14
    } else {
        15
    }
}

/// Points for age in the table for women, from 40 years on.
pub open spec fn women_age_score(age: nat) -> int
    recommends
        age >= 40,
{
    if age < 45 {
        4
    } else if age < 50 {
        5
    } else if age < 55 {
        7
    } else if age < 60 {
        8
    } else if age < 65 {
        9
    } else if age < 70 {
        10
    } else if age < 75 {
        11
    } else {
        12
    }
}

/// Points for age: 0 below 35, 2 below 40, then by the table of the sex.
pub open spec fn age_score(age: nat, sex: Seq<char>) -> int {
    if age < 35 {
        0
    } else if age < 40 {
        2
    } else if is_men(sex) {
        men_age_score(age)
    } else {
        women_age_score(age)
    }
}

/// Points for smoking: none for a non-smoker, 3 for women, 4 for anyone else.
pub open spec fn smoker_score(smoker: bool, sex: Seq<char>) -> int {
    if !smoker {
        0
    } else if is_women(sex) {
        3
    } else {
        4
    }
}

/// Points for diabetes: none without it, 4 for women, 3 for anyone else.
pub open spec fn diabetic_score(diabetic: bool, sex: Seq<char>) -> int {
    if !diabetic {
        0
    } else if is_women(sex) {
        4
    } else {
        3
    }
}

/// Points for systolic blood pressure in the table for men.
pub open spec fn men_sbp_score(pressure: nat, treated: bool) -> int {
    if pressure < 120 {
        if treated { 0 } else { -2 }
    } else if pressure < 130 {
        if treated { 2 } else { 0 }
    } else if pressure < 140 {
        if treated { 3 } else { 1 }
    } else if pressure < 160 {
        if treated { 4 } else { 2 }
    } else {
        if treated { 5 } else { 3 }
    }
}

/// Points for systolic blood pressure in the table for women.
pub open spec fn women_sbp_score(pressure: nat, treated: bool) -> int {
    if pressure < 120 {
        if treated { -1 } else { -3 }
    } else if pressure < 130 {
        if treated { 2 } else { 0 }
    } else if pressure < 140 {
        if treated { 3 } else { 1 }
    } else if pressure < 150 {
        if treated { 5 } else { 2 }
    } else if pressure < 160 {
        if treated { 6 } else { 4 }
    } else {
        if treated { 7 } else { 5 }
    }
}

/// Points for systolic blood pressure, by sex and by whether it is treated.
pub open spec fn sbp_score(pressure: nat, treated: bool, sex: Seq<char>) -> int {
    if is_men(sex) {
        men_sbp_score(pressure, treated)
    } else {
        women_sbp_score(pressure, treated)
    }
}

/// Points for total cholesterol: the bands below 200 are shared, and from
/// 200 on the table for women lies one point above that for men.
pub open spec fn total_cholesterol_score(cholesterol: nat, sex: Seq<char>) -> int {
    if cholesterol < 160 {
        0
    } else if cholesterol < 200 {
        1
    } else if cholesterol < 240 {
        if is_men(sex) { 2 } else { 3 }
    } else if cholesterol < 280 {
        if is_men(sex) { 3 } else { 4 }
    } else {
        if is_men(sex) { 4 } else { 5 }
    }
}

/// Points for HDL cholesterol: the more of it, the fewer points.
pub open spec fn hdl_score(hdl: nat) -> int {
    if hdl >= 60 {
        -2
    } else if hdl >= 50 {
        -1
    } else if hdl >= 45 {
        0
    } else if hdl >= 35 {
        1
    } else {
        2
    }
}

/// The age score of a patient.
pub fn age_scoring(person: &Person) -> (score: i32)
    ensures
        score == age_score(person@.age, person@.sex),
{
    let age: usize = person.age;
    if age < 35 {
        return 0;
    }
    if age < 40 {
        return 2;
    }
    let men: bool = tagged_men(&person.sex);
    if age < 45 {
        if men { 5 } else { 4 }
    } else if age < 50 {
        if men { 6 } else { 5 }
    } else if age < 55 {
        if men { 8 } else { 7 }
    } else if age < 60 {
        if men { 10 } else { 8 }
    } else if age < 65 {
        if men { 11 } else { 9 }
    } else if age < 70 {
        if men { 12 } else { 10 }
    } else if age < 75 {
        if men { 14 } else { 11 }
    } else {
        if men { 15 } else { 12 }
    }
}

/// The smoking score of a patient.
pub fn smoke_scoring(person: &Person) -> (score: i32)
    ensures
        score == smoker_score(person@.smoker, person@.sex),
{
    if !person.smoker {
        0
    } else if tagged_women(&person.sex) {
        3
    } else {
        4
    }
}

/// The diabetes score of a patient.
pub fn diabetic_scoring(person: &Person) -> (score: i32)
    ensures
        score == diabetic_score(person@.diabetic, person@.sex),
{
    if !person.diabetic {
        0
    } else if tagged_women(&person.sex) {
        4
    } else {
        3
    }
}

/// The blood pressure score of a patient.
pub fn sbp_scoring(person: &Person) -> (score: i32)
    ensures
        score == sbp_score(
            person@.systolic_blood_pressure,
            person@.on_sbp_treatment,
            person@.sex,
        ),
{
    let pressure: usize = person.systolic_blood_pressure;
    let men: bool = tagged_men(&person.sex);
    let untreated: i32 = if pressure < 120 {
        if men { -2 } else { -3 }
    } else if pressure < 130 {
        0
    } else if pressure < 140 {
        1
    } else if men {
        if pressure < 160 { 2 } else { 3 }
    } else if pressure < 150 {
        2
    } else if pressure < 160 {
        4
    } else {
        5
    };
    // Treatment adds two points in every band but one: 140 to 149 for women.
    if !person.on_sbp_treatment {
        untreated
    } else if !men && 140 <= pressure && pressure < 150 {
        5
    } else {
        untreated + 2
    }
}

/// The total cholesterol score of a patient.
pub fn total_cholesterol_scoring(person: &Person) -> (score: i32)
    ensures
        score == total_cholesterol_score(person@.total_cholesterol, person@.sex),
{
    let cholesterol: usize = person.total_cholesterol;
    if cholesterol < 160 {
        return 0;
    }
    if cholesterol < 200 {
        return 1;
    }
    let shared: i32 = if cholesterol < 240 {
        2
    } else if cholesterol < 280 {
        3
    } else {
        4
    };
    if tagged_men(&person.sex) {
        shared
    } else {
        shared + 1
    }
}

/// The HDL cholesterol score of a patient.
pub fn hdl_scoring(person: &Person) -> (score: i32)
    ensures
        score == hdl_score(person@.hdl_cholesterol),
{
    let hdl: usize = person.hdl_cholesterol;
    if hdl >= 60 {
        -2
    } else if hdl >= 50 {
        -1
    } else if hdl >= 45 {
        0
    } else if hdl >= 35 {
        1
    } else {
        2
    }
}

} // verus!
