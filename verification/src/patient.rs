//! The patient record and the sex tags that select a scoring table.

use vstd::prelude::*;
use vstd::string::StrSliceExecFns;

verus! {

/// The risk factors of one patient.
#[derive(Debug, Clone)]
pub struct Person {
    /// Age in years.
    pub age: usize,
    /// `"Men"` or `"Women"`; how any other tag is scored is said at each table.
    pub sex: String,
    pub smoker: bool,
    /// Systolic blood pressure in mmHg.
    pub systolic_blood_pressure: usize,
    pub on_sbp_treatment: bool,
    /// Total cholesterol in mg/dL.
    pub total_cholesterol: usize,
    /// HDL cholesterol in mg/dL.
    pub hdl_cholesterol: usize,
    pub diabetic: bool,
}

/// A patient record as mathematical values.
pub struct PersonView {
    pub age: nat,
    pub sex: Seq<char>,
    pub smoker: bool,
    pub systolic_blood_pressure: nat,
    pub on_sbp_treatment: bool,
    pub total_cholesterol: nat,
    pub hdl_cholesterol: nat,
    pub diabetic: bool,
}

impl View for Person {
    type V = PersonView;

    open spec fn view(&self) -> PersonView {
        PersonView {
            age: self.age as nat,
            sex: self.sex@,
            smoker: self.smoker,
            systolic_blood_pressure: self.systolic_blood_pressure as nat,
            on_sbp_treatment: self.on_sbp_treatment,
            total_cholesterol: self.total_cholesterol as nat,
            hdl_cholesterol: self.hdl_cholesterol as nat,
            diabetic: self.diabetic,
        }
    }
}

/// The tag of the tables for men.
pub open spec fn men_tag() -> Seq<char> {
    "Men"@
}

/// The tag of the tables for women.
pub open spec fn women_tag() -> Seq<char> {
    "Women"@
}

/// The tag selects the tables for men.
pub open spec fn is_men(sex: Seq<char>) -> bool {
    sex == men_tag()
}

/// The tag is exactly that of women.
pub open spec fn is_women(sex: Seq<char>) -> bool {
    sex == women_tag()
}

/// The two tags are different strings.
pub proof fn tags_differ()
    ensures
        men_tag() != women_tag(),
        men_tag().len() == 3,
        women_tag().len() == 5,
{
    reveal_strlit("Men");
    reveal_strlit("Women");
    assert("Men"@.len() == 3);
    assert("Women"@.len() == 5);
}

/// Whether two strings hold the same characters.
///
/// Walks both strings once the lengths agree; meant for short tags.
pub fn same_text(text: &str, tag: &str) -> (same: bool)
    ensures
        same == (text@ == tag@),
{
    let n: usize = tag.unicode_len();
    if text.unicode_len() != n {
        return false;
    }
    let mut i: usize = 0;
    while i < n
        invariant
            i <= n,
            n == tag@.len(),
            n == text@.len(),
            forall|j: int| 0 <= j < i ==> text@[j] == tag@[j],
        decreases n - i,
    {
        if text.get_char(i) != tag.get_char(i) {
            return false;
        }
        i += 1;
    }
    proof {
        assert(text@ =~= tag@);
    }
    true
}

/// Whether the tag selects the tables for men.
pub fn tagged_men(sex: &String) -> (men: bool)
    ensures
        men == is_men(sex@),
{
    same_text(sex.as_str(), "Men")
}

/// Whether the tag is exactly that of women.
pub fn tagged_women(sex: &String) -> (women: bool)
    ensures
        women == is_women(sex@),
{
    same_text(sex.as_str(), "Women")
}

} // verus!
