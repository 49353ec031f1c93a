//! Framingham cardiovascular risk scoring.
//!
//! A patient record is turned into six partial scores, their sum (the
//! Framingham score), and two labels read off that sum: the estimated
//! heart age and the predicted ten-year risk of cardiovascular disease.
//! Every function is total and its result is fixed by a spec function
//! over the record's view.

pub mod patient;
pub mod points;
pub mod outlook;
pub mod report;
pub mod laws;
