use gradething::course::{
    course_list, course_tab_text, coursework_url, grade_color, grade_view, latest_assignment,
    submission_url, CourseFetch, CourseWorkInfo, GradeSearch, SubmissionOutcome,
};
use gradething::decimal::{clock_label, parse_i32, parse_u8, two_digits};
use gradething::{gradething, CourseData};

fn course(name: &str, latest: Option<&str>, grade: Option<&str>) -> CourseData {
    CourseData {
        name: name.to_string(),
        latest_assignment: latest.map(|s| s.to_string()),
        grade: grade.map(|s| s.to_string()),
    }
}

fn work(id: &str, title: Option<&str>, description: Option<&str>) -> CourseWorkInfo {
    CourseWorkInfo {
        id: id.to_string(),
        title: title.map(|s| s.to_string()),
        description: description.map(|s| s.to_string()),
    }
}

#[test]
fn letter_boundaries() {
    assert_eq!(gradething(100), "A");
    assert_eq!(gradething(90), "A");
    assert_eq!(gradething(89), "B");
    assert_eq!(gradething(80), "B");
    assert_eq!(gradething(79), "C");
    assert_eq!(gradething(60), "C");
    assert_eq!(gradething(59), "D");
    assert_eq!(gradething(50), "D");
    assert_eq!(gradething(49), "F");
    assert_eq!(gradething(0), "F");
    assert_eq!(gradething(-1), "F");
    assert_eq!(gradething(i32::MIN), "F");
    assert_eq!(gradething(i32::MAX), "A");
}

#[test]
fn letters_never_get_worse_as_grades_rise() {
    let rank = |l: &str| "FDCBA".find(l).unwrap();
    let mut last = 0;
    for g in -5..=105 {
        let r = rank(&gradething(g));
        assert!(r >= last);
        last = r;
    }
}

#[test]
fn parse_u8_like_std() {
    for s in ["09", "00", "+5", "255", "256", "", "+", "-0", " 9", "9 ", "1a", "0000000000007", "99999999999999999999", "٣"] {
        assert_eq!(parse_u8(s), s.parse::<u8>().ok(), "input {:?}", s);
    }
    assert_eq!(parse_u8("09"), Some(9));
    assert_eq!(parse_u8("256"), None);
}

#[test]
fn parse_i32_like_std() {
    for s in ["-1", "-2147483648", "2147483647", "2147483648", "-2147483649", "87.5", "N/A", "+0", "-0", "-", "+", "", "95", "-+1", "--1"] {
        assert_eq!(parse_i32(s), s.parse::<i32>().ok(), "input {:?}", s);
    }
    assert_eq!(parse_i32("-2147483648"), Some(i32::MIN));
}

#[test]
fn two_digit_padding() {
    assert_eq!(two_digits(0), "00");
    assert_eq!(two_digits(9), "09");
    assert_eq!(two_digits(10), "10");
    assert_eq!(two_digits(99), "99");
    assert_eq!(two_digits(100), "100");
    assert_eq!(two_digits(255), "255");
    for n in 0..=255u8 {
        assert_eq!(two_digits(n), format!("{:02}", n));
    }
    assert_eq!(clock_label(9, 5), "09:05");
    assert_eq!(clock_label(23, 59), "23:59");
}

#[test]
fn padded_numbers_parse_back() {
    for n in 0..=255u8 {
        assert_eq!(parse_u8(&two_digits(n)), Some(n));
    }
}

#[test]
fn badge_colours() {
    assert_eq!(grade_color("A"), (34, 177, 76));
    assert_eq!(grade_color("A+"), (34, 177, 76));
    assert_eq!(grade_color("B+"), (52, 152, 219));
    assert_eq!(grade_color("C"), (241, 196, 15));
    assert_eq!(grade_color("D+"), (230, 126, 34));
    assert_eq!(grade_color("F"), (231, 76, 60));
    assert_eq!(grade_color("F+"), (149, 165, 166));
    assert_eq!(grade_color("A-"), (149, 165, 166));
    assert_eq!(grade_color("95"), (149, 165, 166));
    assert_eq!(grade_color(""), (149, 165, 166));
}

#[test]
fn grade_views() {
    let v = grade_view(&course("Math", None, Some("95")));
    assert_eq!(v.text, "95");
    assert_eq!(v.letter, "A");
    assert_eq!(v.color, (149, 165, 166));
    let v = grade_view(&course("Art", None, None));
    assert_eq!(v.text, "N/A");
    assert_eq!(v.letter, "F");
    let v = grade_view(&course("Bio", None, Some("87.5")));
    assert_eq!(v.text, "87.5");
    assert_eq!(v.letter, "F");
    let v = grade_view(&course("Gym", None, Some("72")));
    assert_eq!(v.letter, "C");
    let v = grade_view(&course("Lit", None, Some("B")));
    assert_eq!(v.letter, "F");
    assert_eq!(v.color, (52, 152, 219));
}

#[test]
fn course_tabs_show_assignment_or_grade() {
    let c = course("Math", Some("Homework 3"), Some("91"));
    assert_eq!(course_tab_text(&c, 0), Some("Homework 3".to_string()));
    assert_eq!(course_tab_text(&c, 1), Some("91".to_string()));
    assert_eq!(course_tab_text(&c, 2), None);
    let empty = course("Art", None, None);
    assert_eq!(course_tab_text(&empty, 0), Some("No assignments".to_string()));
    assert_eq!(course_tab_text(&empty, 1), Some("N/A".to_string()));
}

#[test]
fn latest_assignment_is_first_coursework() {
    assert_eq!(latest_assignment(&vec![]), None);
    let works = vec![work("1", Some("Essay"), Some("Write it")), work("2", Some("Quiz"), None)];
    assert_eq!(latest_assignment(&works), Some("Essay".to_string()));
    let works = vec![work("1", None, Some("Read chapter 2")), work("2", Some("Quiz"), None)];
    assert_eq!(latest_assignment(&works), Some("Read chapter 2".to_string()));
    let works = vec![work("1", None, None), work("2", Some("Quiz"), None)];
    assert_eq!(latest_assignment(&works), None);
}

#[test]
fn grade_search_stops_at_first_submission() {
    let mut s = GradeSearch::new();
    assert!(!s.finished);
    s.observe(SubmissionOutcome::Failed);
    s.observe(SubmissionOutcome::Unreadable);
    assert!(!s.finished);
    assert_eq!(s.grade, None);
    s.observe(SubmissionOutcome::Received(Some("88".to_string())));
    assert!(s.finished);
    s.observe(SubmissionOutcome::Received(Some("12".to_string())));
    assert_eq!(s.grade, Some("88".to_string()));

    let mut s = GradeSearch::new();
    s.observe(SubmissionOutcome::Received(None));
    s.observe(SubmissionOutcome::Received(Some("70".to_string())));
    assert!(s.finished);
    assert_eq!(s.grade, None);
}

#[test]
fn summaries_of_courses() {
    let mut s = GradeSearch::new();
    s.observe(SubmissionOutcome::Received(Some("93".to_string())));
    let fetched = vec![
        CourseFetch {
            name: "Chem".to_string(),
            coursework: Some(vec![work("7", Some("Lab"), None)]),
            search: s,
        },
        CourseFetch { name: "Art".to_string(), coursework: None, search: GradeSearch::new() },
        CourseFetch {
            name: "Bio".to_string(),
            coursework: Some(vec![]),
            search: GradeSearch::new(),
        },
    ];
    let list = course_list(&fetched);
    assert_eq!(list.len(), 3);
    assert_eq!(list[0].name, "Chem");
    assert_eq!(list[0].latest_assignment, Some("Lab".to_string()));
    assert_eq!(list[0].grade, Some("93".to_string()));
    assert_eq!(list[1].name, "Art");
    assert_eq!(list[1].latest_assignment, None);
    assert_eq!(list[1].grade, None);
    assert_eq!(list[2].name, "Bio");
    assert_eq!(list[2].latest_assignment, None);
    assert!(course_list(&vec![]).is_empty());
}

#[test]
fn classroom_urls() {
    assert_eq!(coursework_url("123"), "https://classroom.googleapis.com/v1/courses/123/courseWork");
    assert_eq!(
        submission_url("123", "456"),
        "https://classroom.googleapis.com/v1/courses/123/courseWork/456/studentSubmissions/me"
    );
}
