use vstd::prelude::*;

use crate::decimal::{lemma_signed_decimal_parses_back, parse_i32, parse_signed, signed_decimal};
use crate::grade::{gradething, letter_for};
use crate::text::{copy_opt, owned, same_text};

verus! {

/// What the planner keeps of one Classroom course.
#[derive(Clone, Debug)]
pub struct CourseData {
    pub name: String,
    pub latest_assignment: Option<String>,
    pub grade: Option<String>,
}

/// One piece of coursework of a course, as the Classroom API lists it.
#[derive(Clone, Debug)]
pub struct CourseWorkInfo {
    pub id: String,
    pub title: Option<String>,
    pub description: Option<String>,
}

/// The latest assignment shown for a course: the title of the first listed
/// coursework, or its description where it has no title.
pub open spec fn latest_assignment_of(works: Seq<CourseWorkInfo>) -> Option<String> {
    if works.len() == 0 {
        None
    } else if works[0].title is Some {
        works[0].title
    } else {
        works[0].description
    }
}

pub fn latest_assignment(works: &Vec<CourseWorkInfo>) -> (r: Option<String>)
    ensures
        r == latest_assignment_of(works@),
{
    if works.len() == 0 {
        None
    } else {
        let first = &works[0];
        match &first.title {
            Some(t) => Some(t.clone()),
            None => copy_opt(&first.description),
        }
    }
}

/// The outcome of asking for the student's submission to one coursework.
#[derive(Debug)]
pub enum SubmissionOutcome {
    /// A submission came back; it may carry no grade yet.
    Received(Option<String>),
    /// The request succeeded but its body was not a submission.
    Unreadable,
    /// The request was refused.
    Failed,
}

/// The search for a course's grade: submissions are asked for coursework by
/// coursework until the first one that comes back.
#[derive(Debug)]
pub struct GradeSearch {
    pub grade: Option<String>,
    pub finished: bool,
}

pub open spec fn search_start() -> GradeSearch {
    GradeSearch { grade: None, finished: false }
}

/// One step of the search: the first submission received decides the grade.
pub open spec fn search_step(s: GradeSearch, outcome: SubmissionOutcome) -> GradeSearch {
    if s.finished {
        s
    } else {
        match outcome {
            SubmissionOutcome::Received(g) => GradeSearch { grade: g, finished: true },
            _ => s,
        }
    }
}

/// The search after a series of outcomes, in order.
pub open spec fn search_over(s: GradeSearch, outcomes: Seq<SubmissionOutcome>) -> GradeSearch
    decreases outcomes.len(),
{
    if outcomes.len() == 0 {
        s
    } else {
        search_over(search_step(s, outcomes[0]), outcomes.drop_first())
    }
}

/// The grade carried by the first received submission, if any.
pub open spec fn first_received(outcomes: Seq<SubmissionOutcome>) -> Option<Option<String>>
    decreases outcomes.len(),
{
    if outcomes.len() == 0 {
        None
    } else {
        match outcomes[0] {
            SubmissionOutcome::Received(g) => Some(g),
            _ => first_received(outcomes.drop_first()),
        }
    }
}

impl GradeSearch {
    pub fn new() -> (s: Self)
        ensures
            s == search_start(),
    {
        GradeSearch { grade: None, finished: false }
    }

    /// Takes in the outcome of one more submission request.
    pub fn observe(&mut self, outcome: SubmissionOutcome)
        ensures
            *final(self) == search_step(*old(self), outcome),
    {
        if !self.finished {
            match outcome {
                SubmissionOutcome::Received(g) => {
                    self.grade = g;
                    self.finished = true;
                },
                _ => {},
            }
        }
    }
}

/// A finished search ignores every later outcome.
pub proof fn lemma_finished_search_is_final(s: GradeSearch, outcomes: Seq<SubmissionOutcome>)
    requires
        s.finished,
    ensures
        search_over(s, outcomes) == s,
    decreases outcomes.len(),
{
    if outcomes.len() > 0 {
        lemma_finished_search_is_final(search_step(s, outcomes[0]), outcomes.drop_first());
    }
}

/// Searching from the start finds the grade of the first submission
/// received, and finishes exactly when one was received.
pub proof fn lemma_search_finds_first_received(outcomes: Seq<SubmissionOutcome>)
    ensures
        search_over(search_start(), outcomes).finished == (first_received(outcomes) is Some),
        first_received(outcomes) matches Some(g) ==> search_over(search_start(), outcomes).grade
            == g,
        first_received(outcomes) is None ==> search_over(search_start(), outcomes).grade is None,
    decreases outcomes.len(),
{
    if outcomes.len() > 0 {
        match outcomes[0] {
            SubmissionOutcome::Received(g) => {
                lemma_finished_search_is_final(
                    search_step(search_start(), outcomes[0]),
                    outcomes.drop_first(),
                );
            },
            _ => {
                lemma_search_finds_first_received(outcomes.drop_first());
            },
        }
    }
}

/// What was fetched for one course: its name, its coursework where the
/// coursework could be read, and the search for its grade.
#[derive(Debug)]
pub struct CourseFetch {
    pub name: String,
    pub coursework: Option<Vec<CourseWorkInfo>>,
    pub search: GradeSearch,
}

/// What the planner keeps of a fetched course: its name, the latest
/// assignment of its coursework, and the grade that the search found.
pub open spec fn summary_of(f: CourseFetch) -> CourseData {
    CourseData {
        name: f.name,
        latest_assignment: match f.coursework {
            Some(works) => latest_assignment_of(works@),
            None => None,
        },
        grade: f.search.grade,
    }
}

/// The course list: one summary per fetched course, in the order fetched.
pub fn course_list(fetched: &Vec<CourseFetch>) -> (list: Vec<CourseData>)
    ensures
        list@.len() == fetched@.len(),
        forall|i: int| 0 <= i < fetched@.len() ==> #[trigger] list@[i] == summary_of(fetched@[i]),
        forall|i: int|
            0 <= i < fetched@.len() ==> {
                let f = fetched@[i];
                &&& (#[trigger] list@[i]).name == f.name
                &&& list@[i].grade == f.search.grade
                &&& list@[i].latest_assignment == match f.coursework {
                    Some(works) => if works@.len() == 0 {
                        None
                    } else if works@[0].title is Some {
                        works@[0].title
                    } else {
                        works@[0].description
                    },
                    None => None,
                }
            },
{
    let mut list: Vec<CourseData> = Vec::new();
    let mut i: usize = 0;
    while i < fetched.len()
        invariant
            i <= fetched@.len(),
            list@.len() == i,
            forall|k: int| 0 <= k < i ==> #[trigger] list@[k] == summary_of(fetched@[k]),
        decreases fetched@.len() - i,
    {
        let f = &fetched[i];
        let latest = match &f.coursework {
            Some(works) => latest_assignment(works),
            None => None,
        };
        let c = CourseData { name: f.name.clone(), latest_assignment: latest, grade: copy_opt(&f.search.grade) };
        list.push(c);
        i = i + 1;
    }
    list
}


/// A course's latest assignment is its first coursework's title; where that
/// has no title, its description; and nothing where no coursework was listed
/// or none could be read.
pub proof fn lemma_latest_assignment_is_first_work(f: CourseFetch)
    ensures
        f.coursework is None ==> summary_of(f).latest_assignment is None,
        f.coursework matches Some(works) ==> (works@.len() == 0
            ==> summary_of(f).latest_assignment is None),
        f.coursework matches Some(works) ==> (works@.len() > 0 && works@[0].title is Some
            ==> summary_of(f).latest_assignment == works@[0].title),
        f.coursework matches Some(works) ==> (works@.len() > 0 && works@[0].title is None
            ==> summary_of(f).latest_assignment == works@[0].description),
{
}

/// Coursework listed after the first never changes a course's summary.
pub proof fn lemma_later_coursework_is_ignored(f: CourseFetch, g: CourseFetch)
    requires
        f.name == g.name,
        f.search.grade == g.search.grade,
        f.coursework matches Some(a) && g.coursework matches Some(b) && a@.len() > 0 && b@.len()
            > 0 && a@[0] == b@[0],
    ensures
        summary_of(f) == summary_of(g),
{
}

/// A course's summary keeps its name and the grade its search found.
pub proof fn lemma_summary_keeps_name_and_grade(f: CourseFetch)
    ensures
        summary_of(f).name == f.name,
        summary_of(f).grade == f.search.grade,
{
}

/// The grade text shown for a course: its grade, or `N/A`.
pub open spec fn grade_text_of(course: CourseData) -> Seq<char> {
    match course.grade {
        Some(g) => g@,
        None => "N/A"@,
    }
}

/// The colour of a grade badge, by the grade's text.
pub open spec fn badge_color(text: Seq<char>) -> (u8, u8, u8) {
    if text == "A"@ || text == "A+"@ {
        (34, 177, 76)
    } else if text == "B"@ || text == "B+"@ {
        (52, 152, 219)
    } else if text == "C"@ || text == "C+"@ {
        (241, 196, 15)
    } else if text == "D"@ || text == "D+"@ {
        (230, 126, 34)
    } else if text == "F"@ {
        (231, 76, 60)
    } else {
        (149, 165, 166)
    }
}

/// The number a grade text stands for: the text read as an `i32`, or -1.
pub open spec fn grade_number(text: Seq<char>) -> int {
    match parse_signed(text, i32::MIN as int, i32::MAX as int) {
        Some(v) => v,
        None => -1,
    }
}

pub fn grade_color(text: &str) -> (rgb: (u8, u8, u8))
    ensures
        rgb == badge_color(text@),
{
    if same_text(text, "A") || same_text(text, "A+") {
        (34, 177, 76)
    } else if same_text(text, "B") || same_text(text, "B+") {
        (52, 152, 219)
    } else if same_text(text, "C") || same_text(text, "C+") {
        (241, 196, 15)
    } else if same_text(text, "D") || same_text(text, "D+") {
        (230, 126, 34)
    } else if same_text(text, "F") {
        (231, 76, 60)
    } else {
        (149, 165, 166)
    }
}

/// What the grades screen shows of one course.
#[derive(Debug)]
pub struct GradeView {
    pub text: String,
    pub letter: String,
    pub color: (u8, u8, u8),
}

pub fn grade_view(course: &CourseData) -> (v: GradeView)
    ensures
        v.text@ == grade_text_of(*course),
        v.letter@ == letter_for(grade_number(grade_text_of(*course))),
        v.color == badge_color(grade_text_of(*course)),
        forall|n: int|
            i32::MIN <= n <= i32::MAX && #[trigger] signed_decimal(n) == grade_text_of(*course)
                ==> v.letter@ == letter_for(n),
{
    proof {
        assert forall|n: int|
            i32::MIN <= n <= i32::MAX && #[trigger] signed_decimal(n) == grade_text_of(
                *course,
            ) implies letter_for(grade_number(grade_text_of(*course))) == letter_for(n) by {
            lemma_signed_decimal_parses_back(n);
        }
    }
    let text = match &course.grade {
        Some(g) => g.clone(),
        None => owned("N/A"),
    };
    let number = match parse_i32(text.as_str()) {
        Some(n) => n,
        None => -1,
    };
    let letter = gradething(number);
    let color = grade_color(text.as_str());
    GradeView { text, letter, color }
}

/// The text under a course's tab: tab 0 shows the latest assignment (or
/// `No assignments`), tab 1 the grade (or `N/A`); no other tab shows anything.
pub open spec fn tab_text_of(course: CourseData, tab: int) -> Option<Seq<char>> {
    if tab == 0 {
        Some(
            match course.latest_assignment {
                Some(a) => a@,
                None => "No assignments"@,
            },
        )
    } else if tab == 1 {
        Some(grade_text_of(course))
    } else {
        None
    }
}

pub fn course_tab_text(course: &CourseData, tab: usize) -> (r: Option<String>)
    ensures
        r.deep_view() == tab_text_of(*course, tab as int),
        tab == 0 ==> r.deep_view() == Some(
            match course.latest_assignment {
                Some(a) => a@,
                None => "No assignments"@,
            },
        ),
        tab == 1 ==> r.deep_view() == Some(
            match course.grade {
                Some(g) => g@,
                None => "N/A"@,
            },
        ),
        tab > 1 ==> r is None,
{
    if tab == 0 {
        match &course.latest_assignment {
            Some(a) => Some(a.clone()),
            None => Some(owned("No assignments")),
        }
    } else if tab == 1 {
        match &course.grade {
            Some(g) => Some(g.clone()),
            None => Some(owned("N/A")),
        }
    } else {
        None
    }
}


/// Every `i32` written as a grade reads back as itself, so its badge shows
/// the letter of that very number; text that is no `i32` counts as -1.
pub proof fn lemma_grade_number_reads_back(n: int)
    requires
        i32::MIN <= n <= i32::MAX,
    ensures
        grade_number(signed_decimal(n)) == n,
        letter_for(grade_number(signed_decimal(n))) == letter_for(n),
{
    lemma_signed_decimal_parses_back(n);
}

/// Text that does not read as an `i32` counts as the number -1.
pub proof fn lemma_unreadable_grade_is_minus_one(text: Seq<char>)
    requires
        parse_signed(text, i32::MIN as int, i32::MAX as int) is None,
    ensures
        grade_number(text) == -1,
{
}

/// The grade tab shows the course's grade, or `N/A` where it has none,
/// whatever the latest assignment is; the assignment tab shows the latest
/// assignment, or `No assignments`, whatever the grade is.
pub proof fn lemma_tabs_show_their_own_field(c: CourseData, d: CourseData)
    ensures
        c.grade is None ==> tab_text_of(c, 1) == Some("N/A"@),
        c.grade matches Some(g) ==> tab_text_of(c, 1) == Some(g@),
        c.latest_assignment is None ==> tab_text_of(c, 0) == Some("No assignments"@),
        c.latest_assignment matches Some(a) ==> tab_text_of(c, 0) == Some(a@),
        c.grade == d.grade ==> tab_text_of(c, 1) == tab_text_of(d, 1),
        c.latest_assignment == d.latest_assignment ==> tab_text_of(c, 0) == tab_text_of(d, 0),
        forall|t: int| t != 0 && t != 1 ==> #[trigger] tab_text_of(c, t) is None,
{
}

/// Where a course's coursework is listed.
pub fn coursework_url(course_id: &str) -> (r: String)
    ensures
        r@ == "https://classroom.googleapis.com/v1/courses/"@ + course_id@ + "/courseWork"@,
{
    let mut r = owned("https://classroom.googleapis.com/v1/courses/");
    r.append(course_id);
    r.append("/courseWork");
    r
}

/// Where the student's own submission to one coursework is found.
pub fn submission_url(course_id: &str, coursework_id: &str) -> (r: String)
    ensures
        r@ == "https://classroom.googleapis.com/v1/courses/"@ + course_id@ + "/courseWork/"@
            + coursework_id@ + "/studentSubmissions/me"@,
{
    let mut r = owned("https://classroom.googleapis.com/v1/courses/");
    r.append(course_id);
    r.append("/courseWork/");
    r.append(coursework_id);
    r.append("/studentSubmissions/me");
    r
}

} // verus!
