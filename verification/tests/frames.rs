use gradething::model::{AppModel, FrameInput, Screen};
use gradething::CourseData;

fn course(name: &str) -> CourseData {
    CourseData { name: name.to_string(), latest_assignment: None, grade: None }
}

fn idle() -> FrameInput {
    FrameInput {
        login_clicked: false,
        arrived: None,
        schedule_back: false,
        picked_day: None,
        picked_course: None,
        add_clicked: false,
        grades_back: false,
        schedule_clicked: false,
        grades_clicked: false,
        picked_tab: None,
    }
}

#[test]
fn frames_through_sign_in() {
    let mut m = AppModel::default();
    let out = m.frame(idle());
    assert!(!out.start_sign_in);
    assert_eq!(m.state, Screen::Login);

    let out = m.frame(FrameInput { login_clicked: true, ..idle() });
    assert!(out.start_sign_in);
    assert_eq!(m.state, Screen::Loading);

    let out = m.frame(FrameInput { login_clicked: true, schedule_clicked: true, ..idle() });
    assert!(!out.start_sign_in);
    assert_eq!(m.state, Screen::Loading);

    m.frame(FrameInput { arrived: Some(vec![course("Math"), course("Art")]), ..idle() });
    assert_eq!(m.state, Screen::Main);
    assert_eq!(m.course_tabs, vec![0, 0]);
}

#[test]
fn frames_on_the_course_screens() {
    let mut m = AppModel::default();
    m.frame(FrameInput { login_clicked: true, ..idle() });
    m.frame(FrameInput { arrived: Some(vec![course("Math"), course("Art")]), ..idle() });

    m.frame(FrameInput { picked_tab: Some((1, 1)), ..idle() });
    assert_eq!(m.course_tabs, vec![0, 1]);
    m.frame(FrameInput { picked_tab: Some((5, 1)), ..idle() });
    assert_eq!(m.course_tabs, vec![0, 1]);

    m.frame(FrameInput { grades_clicked: true, ..idle() });
    assert_eq!(m.state, Screen::Grades);
    m.frame(FrameInput { grades_back: true, ..idle() });
    assert_eq!(m.state, Screen::Main);

    m.frame(FrameInput { schedule_clicked: true, ..idle() });
    assert_eq!(m.state, Screen::Schedule);
    m.schedule_form_assignment = "Essay".to_string();
    m.schedule_form_hour = "18".to_string();
    let out = m.frame(FrameInput {
        picked_day: Some(3),
        picked_course: Some(1),
        add_clicked: true,
        ..idle()
    });
    assert!(out.save_last_entry);
    assert_eq!(m.schedule_entries.len(), 1);
    let e = &m.schedule_entries[0];
    assert_eq!((e.day_of_week, e.hour, e.minute), (3, 18, 0));
    assert_eq!(e.course, "Art");
    assert_eq!(m.schedule_form_hour, "09");

    let out = m.frame(FrameInput { add_clicked: true, ..idle() });
    assert!(!out.save_last_entry);
    assert_eq!(m.schedule_entries.len(), 1);

    m.schedule_form_assignment = "Again".to_string();
    let out = m.frame(FrameInput { schedule_back: true, add_clicked: true, ..idle() });
    assert!(!out.save_last_entry);
    assert_eq!(m.state, Screen::Main);
    assert_eq!(m.schedule_entries.len(), 1);
}
