//! Grade bookkeeping and weekly study planning for Google Classroom courses.
//!
//! The verified core: letter grades, the decimal text fields of the
//! schedule form, the schedule builder, the screen state machine, the OAuth
//! sign-in request and redirect, and the summaries of courses assembled from
//! what the Classroom API returned.
mod text;
pub mod decimal;
pub mod grade;
pub mod course;
pub mod schedule;
pub mod model;
pub mod redirect;
pub mod auth;

pub use course::CourseData;
pub use grade::gradething;
pub use schedule::ScheduleEntry;
