//! The two labels read off the Framingham score: the estimated heart age
//! and the predicted ten-year risk of cardiovascular disease.
//!
//! Each table has one entry for every whole score between its two ends,
//! a label for everything below and a label for everything above. The tag
//! `"Men"` selects the table for men, every other tag the table for women.

use vstd::prelude::*;
use crate::patient::{is_men, tagged_men};

verus! {

/// Heart ages of men for the scores 0 to 16, in that order.
pub open spec fn men_heart_ages() -> Seq<Seq<char>> {
    seq![
        "30 y/o"@, "32 y/o"@, "34 y/o"@, "36 y/o"@, "38 y/o"@, "40 y/o"@,
        "42 y/o"@, "45 y/o"@, "48 y/o"@, "51 y/o"@, "54 y/o"@, "57 y/o"@,
        "60 y/o"@, "64 y/o"@, "68 y/o"@, "72 y/o"@, "76 y/o"@,
    ]
}

/// Heart ages of women for the scores 1 to 14, in that order.
pub open spec fn women_heart_ages() -> Seq<Seq<char>> {
    seq![
        "31 y/o"@, "34 y/o"@, "36 y/o"@, "39 y/o"@, "42 y/o"@, "45 y/o"@,
        "48 y/o"@, "51 y/o"@, "55 y/o"@, "59 y/o"@, "64 y/o"@, "68 y/o"@,
        "73 y/o"@, "79 y/o"@,
    ]
}

/// The heart age label of a score: `"<30 y/o"` below the table of the
/// sex, `">80 y/o"` above it, the table's entry in between.
pub open spec fn heart_age_label(sex: Seq<char>, score: int) -> Seq<char> {
    if is_men(sex) {
        if score < 0 {
            "<30 y/o"@
        } else if score >= 17 {
            ">80 y/o"@
        } else {
            men_heart_ages()[score]
        }
    } else {
        if score < 1 {
            "<30 y/o"@
        } else if score >= 15 {
            ">80 y/o"@
        } else {
            women_heart_ages()[score - 1]
        }
    }
}

/// Ten-year risks of men for the scores -2 to 17, in that order.
pub open spec fn men_cvd_risks() -> Seq<Seq<char>> {
    seq![
        "1.1 %"@, "1.4 %"@, "1.6 %"@, "1.9 %"@, "2.3 %"@, "2.8 %"@, "3.3 %"@,
        "3.9 %"@, "4.7 %"@, "5.6 %"@, "6.7 %"@, "7.9 %"@, "9.4 %"@, "11.2 %"@,
        "13.2 %"@, "15.6 %"@, "18.4 %"@, "21.6 %"@, "25.3 %"@, "29.4 %"@,
    ]
}

/// Ten-year risks of women for the scores -1 to 20, in that order.
pub open spec fn women_cvd_risks() -> Seq<Seq<char>> {
    seq![
        "1.0 %"@, "1.2 %"@, "1.5 %"@, "1.7 %"@, "2.0 %"@, "2.4 %"@, "2.8 %"@,
        "3.3 %"@, "3.9 %"@, "4.5 %"@, "5.3 %"@, "6.3 %"@, "7.3 %"@, "8.6 %"@,
        "10.0 %"@, "11.7 %"@, "13.7 %"@, "15.9 %"@, "18.5 %"@, "21.5 %"@,
        "24.8 %"@, "28.5 %"@,
    ]
}

/// The risk label of a score: `"<1 %"` below the table of the sex, the
/// table's entry inside it, and above it `">30 %"` for men and `"<30 %"`
/// for women.
pub open spec fn cvd_risk_label(sex: Seq<char>, score: int) -> Seq<char> {
    if is_men(sex) {
        if score <= -3 {
            "<1 %"@
        } else if score > 17 {
            ">30 %"@
        } else {
            men_cvd_risks()[score + 2]
        }
    } else {
        if score <= -2 {
            "<1 %"@
        } else if score > 20 {
            "<30 %"@
        } else {
            women_cvd_risks()[score + 1]
        }
    }
}

/// The estimated heart age for a Framingham score.
pub fn heart_age(sex: &String, framingham_score: i32) -> (label: &'static str)
    ensures
        label@ == heart_age_label(sex@, framingham_score as int),
{
    let score: i32 = framingham_score;
    if score == 2 {
        return "34 y/o";
    }
    if score == 3 {
        return "36 y/o";
    }
    if tagged_men(sex) {
        if score < 0 {
            "<30 y/o"
        } else if score < 1 {
            "30 y/o"
        } else if score < 2 {
            "32 y/o"
        } else if score < 5 {
            "38 y/o"
        } else if score < 6 {
            "40 y/o"
        } else if score < 7 {
            "42 y/o"
        } else if score < 8 {
            "45 y/o"
        } else if score < 9 {
            "48 y/o"
        } else if score < 10 {
            "51 y/o"
        } else if score < 11 {
            "54 y/o"
        } else if score < 12 {
            "57 y/o"
        } else if score < 13 {
            "60 y/o"
        } else if score < 14 {
            "64 y/o"
        } else if score < 15 {
            "68 y/o"
        } else if score < 16 {
            "72 y/o"
        } else if score < 17 {
            "76 y/o"
        } else {
            ">80 y/o"
        }
    } else {
        if score < 1 {
            "<30 y/o"
        } else if score < 2 {
            "31 y/o"
        } else if score < 5 {
            "39 y/o"
        } else if score < 6 {
            "42 y/o"
        } else if score < 7 {
            "45 y/o"
        } else if score < 8 {
            "48 y/o"
        } else if score < 9 {
            "51 y/o"
        } else if score < 10 {
            "55 y/o"
        } else if score < 11 {
            "59 y/o"
        } else if score < 12 {
            "64 y/o"
        } else if score < 13 {
            "68 y/o"
        } else if score < 14 {
            "73 y/o"
        } else if score < 15 {
            "79 y/o"
        } else {
            ">80 y/o"
        }
    }
}

/// The predicted ten-year risk of cardiovascular disease for a Framingham
/// score.
pub fn cvd_risk(sex: &String, framingham_score: i32) -> (label: &'static str)
    ensures
        label@ == cvd_risk_label(sex@, framingham_score as int),
{
    let score: i32 = framingham_score;
    if tagged_men(sex) {
        if score <= -3 {
            "<1 %"
        } else if score <= -2 {
            "1.1 %"
        } else if score <= -1 {
            "1.4 %"
        } else if score <= 0 {
            "1.6 %"
        } else if score <= 1 {
            "1.9 %"
        } else if score <= 2 {
            "2.3 %"
        } else if score <= 3 {
            "2.8 %"
        } else if score <= 4 {
            "3.3 %"
        } else if score <= 5 {
            "3.9 %"
        } else if score <= 6 {
            "4.7 %"
        } else if score <= 7 {
            "5.6 %"
        } else if score <= 8 {
            "6.7 %"
        } else if score <= 9 {
            "7.9 %"
        } else if score <= 10 {
            "9.4 %"
        } else if score <= 11 {
            "11.2 %"
        } else if score <= 12 {
            "13.2 %"
        } else if score <= 13 {
            "15.6 %"
        } else if score <= 14 {
            "18.4 %"
        } else if score <= 15 {
            "21.6 %"
        } else if score <= 16 {
            "25.3 %"
        } else if score <= 17 {
            "29.4 %"
        } else {
            ">30 %"
        }
    } else {
        if score <= -2 {
            "<1 %"
        } else if score <= -1 {
            "1.0 %"
        } else if score <= 0 {
            "1.2 %"
        } else if score <= 1 {
            "1.5 %"
        } else if score <= 2 {
            "1.7 %"
        } else if score <= 3 {
            "2.0 %"
        } else if score <= 4 {
            "2.4 %"
        } else if score <= 5 {
            "2.8 %"
        } else if score <= 6 {
            "3.3 %"
        } else if score <= 7 {
            "3.9 %"
        } else if score <= 8 {
            "4.5 %"
        } else if score <= 9 {
            "5.3 %"
        } else if score <= 10 {
            "6.3 %"
        } else if score <= 11 {
            "7.3 %"
        } else if score <= 12 {
            "8.6 %"
        } else if score <= 13 {
            "10.0 %"
        } else if score <= 14 {
            "11.7 %"
        } else if score <= 15 {
            "13.7 %"
        } else if score <= 16 {
            "15.9 %"
        } else if score <= 17 {
            "18.5 %"
        } else if score <= 18 {
            "21.5 %"
        } else if score <= 19 {
            "24.8 %"
        } else if score <= 20 {
            "28.5 %"
        } else {
            "<30 %"
        }
    }
}

} // verus!
