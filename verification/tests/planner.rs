use gradething::model::{AppModel, Screen};
use gradething::schedule::{day_name, entries_for_day, entry_time_label};
use gradething::{CourseData, ScheduleEntry};

fn course(name: &str) -> CourseData {
    CourseData { name: name.to_string(), latest_assignment: None, grade: None }
}

fn entry(day: u8, hour: u8, minute: u8) -> ScheduleEntry {
    ScheduleEntry {
        day_of_week: day,
        hour,
        minute,
        course: "Math".to_string(),
        assignment: "HW".to_string(),
    }
}

fn loaded() -> AppModel {
    let mut m = AppModel::default();
    assert!(m.press_login());
    m.receive_courses(vec![course("Math"), course("Art")]);
    m
}

#[test]
fn starts_on_login_screen() {
    let m = AppModel::default();
    assert_eq!(m.state, Screen::Login);
    assert_eq!(m.state.label(), "login");
    assert!(m.courses.is_empty());
    assert!(m.course_tabs.is_empty());
    assert!(m.schedule_entries.is_empty());
    assert_eq!(m.schedule_form_day, 0);
    assert_eq!(m.schedule_form_hour, "09");
    assert_eq!(m.schedule_form_minute, "00");
    assert_eq!(m.schedule_form_course, 0);
    assert_eq!(m.schedule_form_assignment, "");
}

#[test]
fn screen_labels() {
    assert_eq!(Screen::Loading.label(), "loading");
    assert_eq!(Screen::Main.label(), "Main");
    assert_eq!(Screen::Schedule.label(), "Schedule");
    assert_eq!(Screen::Grades.label(), "Grades");
}

#[test]
fn login_then_courses() {
    let mut m = AppModel::default();
    assert!(m.press_login());
    assert_eq!(m.state, Screen::Loading);
    assert!(!m.press_login());
    assert_eq!(m.state, Screen::Loading);
    m.receive_courses(vec![course("Math"), course("Art"), course("Bio")]);
    assert_eq!(m.state, Screen::Main);
    assert_eq!(m.course_tabs, vec![0, 0, 0]);
    assert_eq!(m.courses.len(), 3);
}

#[test]
fn navigation_between_screens() {
    let mut m = loaded();
    m.back_to_main();
    assert_eq!(m.state, Screen::Main);
    m.open_schedule();
    assert_eq!(m.state, Screen::Schedule);
    m.open_grades();
    assert_eq!(m.state, Screen::Schedule);
    m.back_to_main();
    assert_eq!(m.state, Screen::Main);
    m.open_grades();
    assert_eq!(m.state, Screen::Grades);
    m.back_to_main();
    assert_eq!(m.state, Screen::Main);
    let mut fresh = AppModel::default();
    fresh.open_schedule();
    assert_eq!(fresh.state, Screen::Login);
}

#[test]
fn course_tab_selection() {
    let mut m = loaded();
    m.select_tab(1, 1);
    assert_eq!(m.course_tabs, vec![0, 1]);
    m.select_tab(1, 0);
    assert_eq!(m.course_tabs, vec![0, 0]);
}

#[test]
fn adding_a_session() {
    let mut m = loaded();
    m.open_schedule();
    m.select_day(2);
    m.select_course(1);
    m.schedule_form_hour = "14".to_string();
    m.schedule_form_minute = "5".to_string();
    m.schedule_form_assignment = "Sketchbook".to_string();
    assert_eq!(m.validated_form_time(), Some((14, 5)));
    assert!(m.add_schedule_entry());
    assert_eq!(m.schedule_entries.len(), 1);
    let e = &m.schedule_entries[0];
    assert_eq!((e.day_of_week, e.hour, e.minute), (2, 14, 5));
    assert_eq!(e.course, "Art");
    assert_eq!(e.assignment, "Sketchbook");
    assert_eq!(m.schedule_form_assignment, "");
    assert_eq!(m.schedule_form_hour, "09");
    assert_eq!(m.schedule_form_minute, "00");
    assert_eq!(m.schedule_form_day, 2);
    assert_eq!(m.schedule_form_course, 1);
}

#[test]
fn refused_sessions_change_nothing() {
    let mut m = loaded();
    m.open_schedule();
    // no assignment name
    assert!(!m.add_schedule_entry());
    m.schedule_form_assignment = "Read".to_string();
    for (h, mi) in [("24", "00"), ("09", "60"), ("nine", "00"), ("", "00"), ("-1", "00"), ("256", "0")] {
        m.schedule_form_hour = h.to_string();
        m.schedule_form_minute = mi.to_string();
        assert_eq!(m.validated_form_time(), None);
        assert!(!m.add_schedule_entry());
        assert_eq!(m.schedule_form_hour, h);
        assert_eq!(m.schedule_form_assignment, "Read");
    }
    assert!(m.schedule_entries.is_empty());
    m.schedule_form_hour = "+7".to_string();
    m.schedule_form_minute = "0030".to_string();
    assert!(m.add_schedule_entry());
    assert_eq!((m.schedule_entries[0].hour, m.schedule_entries[0].minute), (7, 30));

    let mut none = AppModel::default();
    none.schedule_form_assignment = "Read".to_string();
    assert!(!none.add_schedule_entry());
}

#[test]
fn form_and_tabs_only_on_their_screens() {
    let mut m = loaded();
    m.schedule_form_assignment = "Read".to_string();
    assert_eq!(m.validated_form_time(), Some((9, 0)));
    assert!(!m.add_schedule_entry());
    assert!(m.schedule_entries.is_empty());
    assert_eq!(m.schedule_form_assignment, "Read");
    m.select_day(4);
    m.select_course(1);
    assert_eq!((m.schedule_form_day, m.schedule_form_course), (0, 0));
    m.open_schedule();
    m.select_tab(0, 1);
    assert_eq!(m.course_tabs, vec![0, 0]);
    m.select_day(4);
    m.select_course(1);
    assert_eq!((m.schedule_form_day, m.schedule_form_course), (4, 1));
    assert!(m.add_schedule_entry());
    assert_eq!(m.schedule_entries[0].day_of_week, 4);
    assert_eq!(m.schedule_entries[0].course, "Art");
}

#[test]
fn from_session_keeps_loaded_data() {
    let m = AppModel::from_session(vec![course("Math")], "user-1".to_string(), vec![entry(1, 8, 0)]);
    assert_eq!(m.state, Screen::Login);
    assert_eq!(m.courses.len(), 1);
    assert!(m.course_tabs.is_empty());
    assert_eq!(m.current_user_id, "user-1");
    assert_eq!(m.schedule_entries.len(), 1);
    assert_eq!(m.schedule_form_hour, "09");
}

#[test]
fn days_and_their_sessions() {
    let names: Vec<String> = (0..7).map(day_name).collect();
    assert_eq!(names, ["Monday", "Tuesday", "Wednesday", "Thursday", "Friday", "Saturday", "Sunday"]);
    let entries = vec![entry(0, 9, 0), entry(3, 10, 30), entry(0, 8, 15), entry(9, 1, 1), entry(6, 23, 59)];
    assert_eq!(entries_for_day(&entries, 0), vec![0, 2]);
    assert_eq!(entries_for_day(&entries, 3), vec![1]);
    assert_eq!(entries_for_day(&entries, 1), Vec::<usize>::new());
    assert_eq!(entries_for_day(&entries, 6), vec![4]);
    let listed: usize = (0..7).map(|d| entries_for_day(&entries, d).len()).sum();
    assert_eq!(listed, 4);
    assert_eq!(entry_time_label(&entries[2]), "08:15");
    assert_eq!(entry_time_label(&entries[4]), "23:59");
}
