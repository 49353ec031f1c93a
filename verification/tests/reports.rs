use framingham::outlook::{cvd_risk, heart_age};
use framingham::patient::Person;
use framingham::report::{evaluate_score, RiskReport};

fn record(
    age: usize,
    sex: &str,
    smoker: bool,
    pressure: usize,
    treated: bool,
    total: usize,
    hdl: usize,
    diabetic: bool,
) -> Person {
    Person {
        age,
        sex: sex.to_string(),
        smoker,
        systolic_blood_pressure: pressure,
        on_sbp_treatment: treated,
        total_cholesterol: total,
        hdl_cholesterol: hdl,
        diabetic,
    }
}

fn scores(report: &RiskReport) -> [i32; 7] {
    [
        report.age_score,
        report.smoke_score,
        report.diabetic_score,
        report.sbp_score,
        report.total_cholesterol_score,
        report.hdl_score,
        report.framingham_score,
    ]
}

#[test]
fn heart_age_table_for_men() {
    let men = "Men".to_string();
    let ages: [&str; 17] = [
        "30 y/o", "32 y/o", "34 y/o", "36 y/o", "38 y/o", "40 y/o", "42 y/o", "45 y/o", "48 y/o",
        "51 y/o", "54 y/o", "57 y/o", "60 y/o", "64 y/o", "68 y/o", "72 y/o", "76 y/o",
    ];
    let mut score: i32 = 0;
    for age in ages {
        assert_eq!(heart_age(&men, score), age);
        score += 1;
    }
    assert_eq!(heart_age(&men, -1), "<30 y/o");
    assert_eq!(heart_age(&men, i32::MIN), "<30 y/o");
    assert_eq!(heart_age(&men, 17), ">80 y/o");
    assert_eq!(heart_age(&men, 33), ">80 y/o");
    assert_eq!(heart_age(&men, i32::MAX), ">80 y/o");
}

#[test]
fn heart_age_table_for_women() {
    let ages: [&str; 14] = [
        "31 y/o", "34 y/o", "36 y/o", "39 y/o", "42 y/o", "45 y/o", "48 y/o", "51 y/o", "55 y/o",
        "59 y/o", "64 y/o", "68 y/o", "73 y/o", "79 y/o",
    ];
    for sex in ["Women", "Other"] {
        let sex = sex.to_string();
        let mut score: i32 = 1;
        for age in ages {
            assert_eq!(heart_age(&sex, score), age);
            score += 1;
        }
        assert_eq!(heart_age(&sex, 0), "<30 y/o");
        assert_eq!(heart_age(&sex, -5), "<30 y/o");
        assert_eq!(heart_age(&sex, i32::MIN), "<30 y/o");
        assert_eq!(heart_age(&sex, 15), ">80 y/o");
        assert_eq!(heart_age(&sex, i32::MAX), ">80 y/o");
    }
}

#[test]
fn cvd_risk_table_for_men() {
    let men = "Men".to_string();
    let risks: [&str; 20] = [
        "1.1 %", "1.4 %", "1.6 %", "1.9 %", "2.3 %", "2.8 %", "3.3 %", "3.9 %", "4.7 %", "5.6 %",
        "6.7 %", "7.9 %", "9.4 %", "11.2 %", "13.2 %", "15.6 %", "18.4 %", "21.6 %", "25.3 %",
        "29.4 %",
    ];
    let mut score: i32 = -2;
    for risk in risks {
        assert_eq!(cvd_risk(&men, score), risk);
        score += 1;
    }
    assert_eq!(score, 18);
    assert_eq!(cvd_risk(&men, -3), "<1 %");
    assert_eq!(cvd_risk(&men, i32::MIN), "<1 %");
    assert_eq!(cvd_risk(&men, 18), ">30 %");
    assert_eq!(cvd_risk(&men, i32::MAX), ">30 %");
}

#[test]
fn cvd_risk_table_for_women() {
    let risks: [&str; 22] = [
        "1.0 %", "1.2 %", "1.5 %", "1.7 %", "2.0 %", "2.4 %", "2.8 %", "3.3 %", "3.9 %", "4.5 %",
        "5.3 %", "6.3 %", "7.3 %", "8.6 %", "10.0 %", "11.7 %", "13.7 %", "15.9 %", "18.5 %",
        "21.5 %", "24.8 %", "28.5 %",
    ];
    for sex in ["Women", "Other"] {
        let sex = sex.to_string();
        let mut score: i32 = -1;
        for risk in risks {
            assert_eq!(cvd_risk(&sex, score), risk);
            score += 1;
        }
        assert_eq!(score, 21);
        assert_eq!(cvd_risk(&sex, -2), "<1 %");
        assert_eq!(cvd_risk(&sex, i32::MIN), "<1 %");
    }
}

// Above its last band the table for women reads "<30 %", where that for
// men reads ">30 %". The label is kept as the table has it.
#[test]
fn cvd_risk_above_the_table_for_women() {
    let women = "Women".to_string();
    assert_eq!(cvd_risk(&women, 21), "<30 %");
    assert_eq!(cvd_risk(&women, 33), "<30 %");
    assert_eq!(cvd_risk(&women, i32::MAX), "<30 %");
    assert_ne!(cvd_risk(&women, 21), cvd_risk(&"Men".to_string(), 21));
}

#[test]
fn composite_is_the_sum_of_the_partial_scores() {
    let report = evaluate_score(record(44, "Men", false, 125, false, 150, 55, false));
    assert_eq!(report.age_score, 5);
    assert_eq!(report.smoke_score, 0);
    assert_eq!(report.diabetic_score, 0);
    assert_eq!(report.sbp_score, 0);
    assert_eq!(report.total_cholesterol_score, 0);
    assert_eq!(report.hdl_score, -1);
    assert_eq!(report.framingham_score, 4);
}

// At 45 a man has left the band of five points, which ends with 44.
#[test]
fn composite_for_a_man_of_45() {
    let report = evaluate_score(record(45, "Men", false, 125, false, 150, 55, false));
    assert_eq!(report.age_score, 6);
    assert_eq!(report.smoke_score, 0);
    assert_eq!(report.diabetic_score, 0);
    assert_eq!(report.sbp_score, 0);
    assert_eq!(report.total_cholesterol_score, 0);
    assert_eq!(report.hdl_score, -1);
    assert_eq!(report.framingham_score, 5);
    assert_eq!(report.heart_age, "40 y/o");
    assert_eq!(report.cvd_risk, "3.9 %");
}

#[test]
fn labels_for_a_score_of_four() {
    let men = "Men".to_string();
    assert_eq!(heart_age(&men, 4), "38 y/o");
    // Four is the seventh whole score of the table for men, which starts at -2.
    assert_eq!(cvd_risk(&men, 4), "3.3 %");
    let report = evaluate_score(record(44, "Men", false, 125, false, 150, 55, false));
    assert_eq!(report.framingham_score, 4);
    assert_eq!(report.heart_age, "38 y/o");
    assert_eq!(report.cvd_risk, "3.3 %");
    let women = "Women".to_string();
    assert_eq!(heart_age(&women, 4), "39 y/o");
    assert_eq!(cvd_risk(&women, 4), "2.4 %");
}

#[test]
fn report_for_a_man_of_54() {
    let report = evaluate_score(record(54, "Men", false, 130, false, 210, 45, false));
    assert_eq!(report.age_score, 8);
    assert_eq!(report.sbp_score, 1);
    assert_eq!(report.total_cholesterol_score, 2);
    assert_eq!(report.hdl_score, 0);
    assert_eq!(report.smoke_score, 0);
    assert_eq!(report.diabetic_score, 0);
    assert_eq!(report.framingham_score, 11);
    assert_eq!(report.heart_age, "57 y/o");
    // Eleven is the fourteenth whole score of the table for men.
    assert_eq!(report.cvd_risk, "11.2 %");
}

#[test]
fn report_echoes_the_record() {
    let report = evaluate_score(record(61, "Women", true, 152, true, 245, 38, true));
    assert_eq!(report.person.age, 61);
    assert_eq!(report.person.sex, "Women");
    assert!(report.person.smoker);
    assert_eq!(report.person.systolic_blood_pressure, 152);
    assert!(report.person.on_sbp_treatment);
    assert_eq!(report.person.total_cholesterol, 245);
    assert_eq!(report.person.hdl_cholesterol, 38);
    assert!(report.person.diabetic);
    assert_eq!(scores(&report), [9, 3, 4, 6, 4, 1, 27]);
    assert_eq!(report.heart_age, ">80 y/o");
    assert_eq!(report.cvd_risk, "<30 %");
}

#[test]
fn smoking_counts_in_the_sum() {
    let without = evaluate_score(record(54, "Men", false, 130, false, 210, 45, false));
    let with = evaluate_score(record(54, "Men", true, 130, false, 210, 45, false));
    assert_eq!(with.smoke_score, 4);
    assert_eq!(with.framingham_score, without.framingham_score + 4);
    assert_eq!(with.heart_age, "72 y/o");
    assert_eq!(with.cvd_risk, "21.6 %");
}

#[test]
fn lowest_and_highest_scores() {
    let low = evaluate_score(record(20, "Women", false, 100, false, 120, 80, false));
    assert_eq!(scores(&low), [0, 0, 0, -3, 0, -2, -5]);
    assert_eq!(low.heart_age, "<30 y/o");
    assert_eq!(low.cvd_risk, "<1 %");
    let low_man = evaluate_score(record(20, "Men", false, 100, false, 120, 80, false));
    assert_eq!(scores(&low_man), [0, 0, 0, -2, 0, -2, -4]);
    assert_eq!(low_man.heart_age, "<30 y/o");
    assert_eq!(low_man.cvd_risk, "<1 %");
    let high = evaluate_score(record(90, "Men", true, 200, true, 300, 20, true));
    assert_eq!(scores(&high), [15, 4, 3, 5, 4, 2, 33]);
    assert_eq!(high.heart_age, ">80 y/o");
    assert_eq!(high.cvd_risk, ">30 %");
    let high_woman = evaluate_score(record(90, "Women", true, 200, true, 300, 20, true));
    assert_eq!(scores(&high_woman), [12, 3, 4, 7, 5, 2, 33]);
}

#[test]
fn scoring_twice_gives_the_same_report() {
    let person = record(58, "Women", true, 145, true, 250, 40, true);
    let first = evaluate_score(person.clone());
    let second = evaluate_score(person);
    assert_eq!(scores(&first), scores(&second));
    assert_eq!(scores(&first), [8, 3, 4, 5, 4, 1, 25]);
    assert_eq!(first.heart_age, second.heart_age);
    assert_eq!(first.cvd_risk, second.cvd_risk);
    assert_eq!(first.person.sex, second.person.sex);
    assert_eq!(format!("{:?}", first), format!("{:?}", second));
}

#[test]
fn other_tags_are_scored_as_women() {
    for age in [30usize, 37, 42, 58, 80] {
        for pressure in [110usize, 125, 135, 145, 155, 170] {
            for treated in [false, true] {
                for total in [150usize, 180, 220, 260, 300] {
                    let other =
                        evaluate_score(record(age, "Other", false, pressure, treated, total, 47, false));
                    let women =
                        evaluate_score(record(age, "Women", false, pressure, treated, total, 47, false));
                    assert_eq!(scores(&other), scores(&women));
                    assert_eq!(other.heart_age, women.heart_age);
                    assert_eq!(other.cvd_risk, women.cvd_risk);
                    assert_eq!(other.person.sex, "Other");
                }
            }
        }
    }
}

#[test]
fn other_tags_with_a_flag_differ_from_women() {
    let other = evaluate_score(record(58, "Other", true, 145, true, 250, 40, true));
    let women = evaluate_score(record(58, "Women", true, 145, true, 250, 40, true));
    assert_eq!(scores(&other), [8, 4, 3, 5, 4, 1, 25]);
    assert_eq!(scores(&women), [8, 3, 4, 5, 4, 1, 25]);
    let smoker = evaluate_score(record(58, "Other", true, 145, true, 250, 40, false));
    assert_eq!(smoker.framingham_score, 22);
    let smoking_woman = evaluate_score(record(58, "Women", true, 145, true, 250, 40, false));
    assert_eq!(smoking_woman.framingham_score, 21);
}

#[test]
fn every_score_lies_between_the_two_ends() {
    for sex in ["Men", "Women", "Other"] {
        for age in [0usize, 36, 44, 52, 63, 74, 99] {
            for pressure in [90usize, 128, 139, 148, 158, 190] {
                for total in [100usize, 199, 239, 279, 400] {
                    for hdl in [10usize, 40, 47, 55, 90] {
                        for flags in 0..8u8 {
                            let report = evaluate_score(record(
                                age,
                                sex,
                                flags & 1 != 0,
                                pressure,
                                flags & 2 != 0,
                                total,
                                hdl,
                                flags & 4 != 0,
                            ));
                            let [a, s, d, b, t, h, sum] = scores(&report);
                            assert_eq!(sum, a + s + d + b + t + h);
                            assert!(-5 <= sum && sum <= 33);
                        }
                    }
                }
            }
        }
    }
}
