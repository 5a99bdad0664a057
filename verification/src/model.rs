use vstd::prelude::*;

use crate::course::CourseData;
use crate::decimal::{parse_u8, parse_unsigned};
use crate::schedule::{valid_entry, ScheduleEntry};
use crate::text::owned;

verus! {

/// The screens of the planner.
#[derive(Clone, Copy, Debug, PartialEq, Eq, Structural)]
pub enum Screen {
    Login,
    Loading,
    Main,
    Schedule,
    Grades,
}

pub open spec fn screen_label(s: Screen) -> Seq<char> {
    match s {
        Screen::Login => "login"@,
        Screen::Loading => "loading"@,
        Screen::Main => "Main"@,
        Screen::Schedule => "Schedule"@,
        Screen::Grades => "Grades"@,
    }
}

impl Screen {
    /// The name under which the screen is known.
    pub fn label(&self) -> (r: String)
        ensures
            r@ == screen_label(*self),
    {
        match self {
            Screen::Login => owned("login"),
            Screen::Loading => owned("loading"),
            Screen::Main => owned("Main"),
            Screen::Schedule => owned("Schedule"),
            Screen::Grades => owned("Grades"),
        }
    }
}

/// Everything the planner's screens show and edit.
#[derive(Debug)]
pub struct AppModel {
    pub state: Screen,
    pub courses: Vec<CourseData>,
    /// The tab open under each course: 0 for the latest assignment, 1 for the grade.
    pub course_tabs: Vec<usize>,
    pub current_user_id: String,
    pub schedule_entries: Vec<ScheduleEntry>,
    pub schedule_form_day: usize,
    pub schedule_form_hour: String,
    pub schedule_form_minute: String,
    pub schedule_form_course: usize,
    pub schedule_form_assignment: String,
}

impl AppModel {
    /// The schedule form as it stands before anything is typed into it.
    pub open spec fn form_is_fresh(self) -> bool {
        &&& self.schedule_form_day == 0
        &&& self.schedule_form_hour@ == "09"@
        &&& self.schedule_form_minute@ == "00"@
        &&& self.schedule_form_course == 0
        &&& self.schedule_form_assignment@ == Seq::<char>::empty()
    }

    /// The model as the planner starts.
    pub open spec fn is_initial(self) -> bool {
        &&& self.state == Screen::Login
        &&& self.courses@.len() == 0
        &&& self.course_tabs@.len() == 0
        &&& self.current_user_id@ == Seq::<char>::empty()
        &&& self.schedule_entries@.len() == 0
        &&& self.form_is_fresh()
    }

    /// What every state that the screens reach keeps: one tab per course,
    /// each 0 or 1, a weekday selected, and only sessions at a valid day and time.
    pub open spec fn wf(self) -> bool {
        &&& self.course_tabs@.len() == self.courses@.len()
        &&& forall|i: int| 0 <= i < self.course_tabs@.len() ==> #[trigger] self.course_tabs@[i] <= 1
        &&& self.schedule_form_day < 7
        &&& forall|i: int|
            0 <= i < self.schedule_entries@.len() ==> valid_entry(#[trigger] self.schedule_entries@[i])
    }

    /// The time that the schedule form asks for, when it can be added: there
    /// is a course to pick, an assignment name, and an hour below 24 and a
    /// minute below 60 written as numbers.
    pub open spec fn form_time(self) -> Option<(u8, u8)> {
        if self.courses@.len() > 0 && self.schedule_form_assignment@.len() > 0 {
            match (
                parse_unsigned(self.schedule_form_hour@, 255),
                parse_unsigned(self.schedule_form_minute@, 255),
            ) {
                (Some(h), Some(m)) => if h < 24 && m < 60 {
                    Some((h as u8, m as u8))
                } else {
                    None
                },
                _ => None,
            }
        } else {
            None
        }
    }

    /// The session that the schedule form adds, at the time it asks for.
    pub open spec fn form_entry(self, hour: u8, minute: u8) -> ScheduleEntry {
        ScheduleEntry {
            day_of_week: self.schedule_form_day as u8,
            hour,
            minute,
            course: self.courses@[self.schedule_form_course as int].name,
            assignment: self.schedule_form_assignment,
        }
    }

    /// `self` and `other` agree on the screen, the courses and their tabs,
    /// and the user.
    pub open spec fn same_view(self, other: Self) -> bool {
        &&& self.state == other.state
        &&& self.courses == other.courses
        &&& self.course_tabs == other.course_tabs
        &&& self.current_user_id == other.current_user_id
    }

    /// `self` and `other` agree on the sessions and on the schedule form.
    pub open spec fn same_schedule(self, other: Self) -> bool {
        &&& self.schedule_entries == other.schedule_entries
        &&& self.schedule_form_day == other.schedule_form_day
        &&& self.schedule_form_hour == other.schedule_form_hour
        &&& self.schedule_form_minute == other.schedule_form_minute
        &&& self.schedule_form_course == other.schedule_form_course
        &&& self.schedule_form_assignment == other.schedule_form_assignment
    }

    /// The model as a finished sign-in hands it over: the courses, the user
    /// and the saved sessions, on the login screen, with no tabs and a fresh form.
    pub fn from_session(
        courses: Vec<CourseData>,
        current_user_id: String,
        schedule_entries: Vec<ScheduleEntry>,
    ) -> (m: Self)
        ensures
            m.state == Screen::Login,
            m.courses == courses,
            m.course_tabs@.len() == 0,
            m.current_user_id == current_user_id,
            m.schedule_entries == schedule_entries,
            m.form_is_fresh(),
    {
        proof {
            reveal_strlit("09");
            reveal_strlit("00");
        }
        AppModel {
            state: Screen::Login,
            courses,
            course_tabs: Vec::new(),
            current_user_id,
            schedule_entries,
            schedule_form_day: 0,
            schedule_form_hour: owned("09"),
            schedule_form_minute: owned("00"),
            schedule_form_course: 0,
            schedule_form_assignment: String::new(),
        }
    }

    /// The login button: on the login screen it moves to the loading screen
    /// and answers `true`, for the sign-in to start; elsewhere it does nothing.
    pub fn press_login(&mut self) -> (start: bool)
        ensures
            start == (old(self).state == Screen::Login),
            start ==> final(self).state == Screen::Loading,
            !start ==> final(self).state == old(self).state,
            final(self).courses == old(self).courses,
            final(self).course_tabs == old(self).course_tabs,
            final(self).current_user_id == old(self).current_user_id,
            final(self).same_schedule(*old(self)),
            old(self).wf() ==> final(self).wf(),
    {
        if self.state == Screen::Login {
            self.state = Screen::Loading;
            true
        } else {
            false
        }
    }

    /// The courses have arrived: they replace the old ones, each with its
    /// first tab open, and the main screen shows.
    pub fn receive_courses(&mut self, courses: Vec<CourseData>)
        ensures
            final(self).state == Screen::Main,
            final(self).courses == courses,
            final(self).course_tabs@.len() == courses@.len(),
            forall|i: int|
                0 <= i < courses@.len() ==> #[trigger] final(self).course_tabs@[i] == 0,
            final(self).current_user_id == old(self).current_user_id,
            final(self).same_schedule(*old(self)),
            old(self).wf() ==> final(self).wf(),
    {
        let n = courses.len();
        let mut tabs: Vec<usize> = Vec::new();
        let mut i: usize = 0;
        while i < n
            invariant
                i <= n,
                tabs@.len() == i,
                forall|k: int| 0 <= k < i ==> #[trigger] tabs@[k] == 0,
            decreases n - i,
        {
            tabs.push(0);
            i = i + 1;
        }
        self.courses = courses;
        self.course_tabs = tabs;
        self.state = Screen::Main;
    }

    /// The schedule button of the main screen.
    pub fn open_schedule(&mut self)
        ensures
            final(self).state == (if old(self).state == Screen::Main {
                Screen::Schedule
            } else {
                old(self).state
            }),
            final(self).courses == old(self).courses,
            final(self).course_tabs == old(self).course_tabs,
            final(self).current_user_id == old(self).current_user_id,
            final(self).same_schedule(*old(self)),
            old(self).wf() ==> final(self).wf(),
    {
        if self.state == Screen::Main {
            self.state = Screen::Schedule;
        }
    }

    /// The grades button of the main screen.
    pub fn open_grades(&mut self)
        ensures
            final(self).state == (if old(self).state == Screen::Main {
                Screen::Grades
            } else {
                old(self).state
            }),
            final(self).courses == old(self).courses,
            final(self).course_tabs == old(self).course_tabs,
            final(self).current_user_id == old(self).current_user_id,
            final(self).same_schedule(*old(self)),
            old(self).wf() ==> final(self).wf(),
    {
        if self.state == Screen::Main {
            self.state = Screen::Grades;
        }
    }

    /// The back button of the schedule and grades screens.
    pub fn back_to_main(&mut self)
        ensures
            final(self).state == (if old(self).state == Screen::Schedule || old(self).state
                == Screen::Grades {
                Screen::Main
            } else {
                old(self).state
            }),
            final(self).courses == old(self).courses,
            final(self).course_tabs == old(self).course_tabs,
            final(self).current_user_id == old(self).current_user_id,
            final(self).same_schedule(*old(self)),
            old(self).wf() ==> final(self).wf(),
    {
        if self.state == Screen::Schedule || self.state == Screen::Grades {
            self.state = Screen::Main;
        }
    }

    /// Picks the weekday of the schedule form; only the schedule screen offers it.
    pub fn select_day(&mut self, day: usize)
        requires
            day < 7,
        ensures
            final(self).schedule_form_day == (if old(self).state == Screen::Schedule {
                day
            } else {
                old(self).schedule_form_day
            }),
            final(self).same_view(*old(self)),
            final(self).schedule_entries == old(self).schedule_entries,
            final(self).schedule_form_hour == old(self).schedule_form_hour,
            final(self).schedule_form_minute == old(self).schedule_form_minute,
            final(self).schedule_form_course == old(self).schedule_form_course,
            final(self).schedule_form_assignment == old(self).schedule_form_assignment,
            old(self).wf() ==> final(self).wf(),
    {
        if self.state == Screen::Schedule {
            self.schedule_form_day = day;
        }
    }

    /// Picks the course of the schedule form; only the schedule screen offers it.
    pub fn select_course(&mut self, course: usize)
        requires
            course < old(self).courses@.len(),
        ensures
            final(self).schedule_form_course == (if old(self).state == Screen::Schedule {
                course
            } else {
                old(self).schedule_form_course
            }),
            final(self).same_view(*old(self)),
            final(self).schedule_entries == old(self).schedule_entries,
            final(self).schedule_form_day == old(self).schedule_form_day,
            final(self).schedule_form_hour == old(self).schedule_form_hour,
            final(self).schedule_form_minute == old(self).schedule_form_minute,
            final(self).schedule_form_assignment == old(self).schedule_form_assignment,
            old(self).wf() ==> final(self).wf(),
    {
        if self.state == Screen::Schedule {
            self.schedule_form_course = course;
        }
    }

    /// Opens a tab under a course: 0 for the latest assignment, 1 for the
    /// grade; only the main screen offers it.
    pub fn select_tab(&mut self, course: usize, tab: usize)
        requires
            course < old(self).course_tabs@.len(),
            tab <= 1,
        ensures
            final(self).course_tabs@ == (if old(self).state == Screen::Main {
                old(self).course_tabs@.update(course as int, tab)
            } else {
                old(self).course_tabs@
            }),
            final(self).state == old(self).state,
            final(self).courses == old(self).courses,
            final(self).current_user_id == old(self).current_user_id,
            final(self).same_schedule(*old(self)),
            old(self).wf() ==> final(self).wf(),
    {
        if self.state == Screen::Main {
            self.course_tabs.set(course, tab);
        }
    }

    /// The time that the schedule form asks for, when it can be added.
    pub fn validated_form_time(&self) -> (r: Option<(u8, u8)>)
        ensures
            r == self.form_time(),
            r matches Some((h, m)) ==> h < 24 && m < 60,
    {
        if self.courses.len() > 0 && !self.schedule_form_assignment.as_str().is_empty() {
            match (
                parse_u8(self.schedule_form_hour.as_str()),
                parse_u8(self.schedule_form_minute.as_str()),
            ) {
                (Some(h), Some(m)) => if h < 24 && m < 60 {
                    Some((h, m))
                } else {
                    None
                },
                _ => None,
            }
        } else {
            None
        }
    }

    /// The add button of the schedule form, which only the schedule screen
    /// offers. There, where the form asks for a valid session, the session is appended, the assignment name is cleared and
    /// the time goes back to 09:00, and the answer is `true`; otherwise
    /// nothing changes and the answer is `false`.
    pub fn add_schedule_entry(&mut self) -> (added: bool)
        requires
            old(self).state == Screen::Schedule && old(self).form_time() is Some
                ==> old(self).schedule_form_course < old(self).courses@.len(),
        ensures
            added == (old(self).state == Screen::Schedule && old(self).form_time() is Some),
            added ==> old(self).state == Screen::Schedule,
            final(self).same_view(*old(self)),
            !added ==> final(self).same_schedule(*old(self)),
            added ==> ({
                let (h, m) = old(self).form_time().unwrap();
                &&& final(self).schedule_entries@ == old(self).schedule_entries@.push(
                    old(self).form_entry(h, m),
                )
                &&& final(self).schedule_form_assignment@ == Seq::<char>::empty()
                &&& final(self).schedule_form_hour@ == "09"@
                &&& final(self).schedule_form_minute@ == "00"@
                &&& final(self).schedule_form_day == old(self).schedule_form_day
                &&& final(self).schedule_form_course == old(self).schedule_form_course
            }),
            old(self).wf() ==> final(self).wf(),
    {
        if self.state != Screen::Schedule {
            return false;
        }
        match self.validated_form_time() {
            Some((hour, minute)) => {
                let course = self.courses[self.schedule_form_course].name.clone();
                let entry = ScheduleEntry {
                    day_of_week: self.schedule_form_day as u8,
                    hour,
                    minute,
                    course,
                    assignment: self.schedule_form_assignment.clone(),
                };
                let ghost before = self.schedule_entries@;
                self.schedule_entries.push(entry);
                proof {
                    if old(self).wf() {
                        let d = old(self).schedule_form_day;
                        assert((d as u8) < 7) by (bit_vector)
                            requires
                                d < 7,
                        ;
                        assert forall|i: int|
                            0 <= i < self.schedule_entries@.len() implies valid_entry(
                            #[trigger] self.schedule_entries@[i],
                        ) by {
                            if i < before.len() {
                                assert(self.schedule_entries@[i] == before[i]);
                            }
                        }
                    }
                }
                self.schedule_form_assignment = String::new();
                self.schedule_form_hour = owned("09");
                self.schedule_form_minute = owned("00");
                true
            },
            None => false,
        }
    }
}


/// What the user and the sign-in task did during one frame of the window,
/// each screen's part taken only when that screen is drawn.
#[derive(Debug)]
pub struct FrameInput {
    /// The login button was clicked.
    pub login_clicked: bool,
    /// The courses that the sign-in task delivered, if it delivered.
    pub arrived: Option<Vec<CourseData>>,
    /// The back button of the schedule screen was clicked.
    pub schedule_back: bool,
    /// A weekday of the schedule form was picked.
    pub picked_day: Option<usize>,
    /// A course of the schedule form was picked.
    pub picked_course: Option<usize>,
    /// The add button of the schedule form was clicked.
    pub add_clicked: bool,
    /// The back button of the grades screen was clicked.
    pub grades_back: bool,
    /// The schedule button of the main screen was clicked.
    pub schedule_clicked: bool,
    /// The grades button of the main screen was clicked.
    pub grades_clicked: bool,
    /// A tab (course, tab) of the main screen was picked.
    pub picked_tab: Option<(usize, usize)>,
}

/// What a frame asks of the program around the model.
#[derive(Debug)]
pub struct FrameOutcome {
    /// Start the sign-in task.
    pub start_sign_in: bool,
    /// Save the session that was just appended.
    pub save_last_entry: bool,
}

/// The schedule screen is drawn in the frame: it was showing, and no
/// courses arrived to replace it with the main screen.
pub open spec fn schedule_drawn(m: AppModel, input: FrameInput) -> bool {
    m.state == Screen::Schedule && input.arrived is None
}

/// The course that the schedule form holds when its add button is handled.
pub open spec fn course_at_add(m: AppModel, input: FrameInput) -> usize {
    match input.picked_course {
        Some(c) => c,
        None => m.schedule_form_course,
    }
}

/// The screen is one of the course screens, which show after sign-in.
pub open spec fn signed_in_screen(s: Screen) -> bool {
    s == Screen::Main || s == Screen::Schedule || s == Screen::Grades
}

impl AppModel {
    /// One frame of the window: the login button, then the arrival of the
    /// courses, then the schedule screen's back button, weekday, course and
    /// add button, then the grades screen's back button, then the main
    /// screen's schedule and grades buttons and tabs, each on the screen
    /// showing when its turn comes. A tab picked for a course that is no
    /// longer listed is ignored.
    pub fn frame(&mut self, input: FrameInput) -> (out: FrameOutcome)
        requires
            old(self).wf(),
            schedule_drawn(*old(self), input) ==> (input.picked_day matches Some(d) ==> d < 7),
            schedule_drawn(*old(self), input) ==> (input.picked_course matches Some(c) ==> c
                < old(self).courses@.len()),
            input.picked_tab matches Some((i, t)) ==> t <= 1,
            schedule_drawn(*old(self), input) && !input.schedule_back && input.add_clicked
                && old(self).form_time() is Some ==> course_at_add(*old(self), input)
                < old(self).courses@.len(),
        ensures
            final(self).wf(),
            final(self).state == Screen::Login ==> old(self).state == Screen::Login,
            final(self).state == Screen::Loading ==> old(self).state == Screen::Login
                || old(self).state == Screen::Loading,
            old(self).state == Screen::Login || old(self).state == Screen::Loading ==> (
            signed_in_screen(final(self).state) <==> input.arrived is Some),
            final(self).schedule_entries@.len() <= old(self).schedule_entries@.len() + 1,
            final(self).schedule_entries@.subrange(0, old(self).schedule_entries@.len() as int)
                == old(self).schedule_entries@,
            final(self).schedule_entries@.len() > old(self).schedule_entries@.len()
                ==> old(self).state == Screen::Schedule,
            schedule_drawn(*old(self), input) && !input.schedule_back ==> final(self).schedule_form_day
                == (match input.picked_day {
                Some(d) => d,
                None => old(self).schedule_form_day,
            }),
            schedule_drawn(*old(self), input) && !input.schedule_back
                ==> final(self).schedule_form_course == course_at_add(*old(self), input),
            !(schedule_drawn(*old(self), input) && !input.schedule_back) ==> final(self).schedule_form_day
                == old(self).schedule_form_day && final(self).schedule_form_course
                == old(self).schedule_form_course,
            out.save_last_entry ==> ({
                let e = final(self).schedule_entries@.last();
                let (h, m) = old(self).form_time().unwrap();
                &&& e.day_of_week == final(self).schedule_form_day as u8
                &&& e.course == final(self).courses@[final(self).schedule_form_course as int].name
                &&& e.assignment == old(self).schedule_form_assignment
                &&& e.hour == h
                &&& e.minute == m
            }),
            out.start_sign_in == (old(self).state == Screen::Login && input.login_clicked),
            out.save_last_entry == (final(self).schedule_entries@.len()
                > old(self).schedule_entries@.len()),
    {
        let ghost start = *self;
        let mut start_sign_in = false;
        if self.state == Screen::Login && input.login_clicked {
            start_sign_in = self.press_login();
        }
        match input.arrived {
            Some(courses) => self.receive_courses(courses),
            None => {},
        }
        assert(self.schedule_entries == start.schedule_entries);
        assert(self.wf());
        assert(self.state == Screen::Schedule ==> schedule_drawn(start, input));
        let mut added = false;
        if self.state == Screen::Schedule {
            if input.schedule_back {
                self.back_to_main();
            }
            match input.picked_day {
                Some(d) => self.select_day(d),
                None => {},
            }
            match input.picked_course {
                Some(c) => self.select_course(c),
                None => {},
            }
            proof {
                if schedule_drawn(start, input) && !input.schedule_back {
                    assert(self.state == Screen::Schedule);
                    assert(self.courses == start.courses);
                    assert(self.schedule_form_assignment == start.schedule_form_assignment);
                    assert(self.schedule_form_hour == start.schedule_form_hour);
                    assert(self.schedule_form_minute == start.schedule_form_minute);
                    assert(self.form_time() == start.form_time());
                }
            }
            if input.add_clicked {
                added = self.add_schedule_entry();
            }
        }
        assert(self.wf());
        assert(added ==> start.state == Screen::Schedule);
        assert(self.schedule_entries@.len() == start.schedule_entries@.len() + (if added {
            1int
        } else {
            0int
        }));
        assert(self.schedule_entries@.subrange(0, start.schedule_entries@.len() as int)
            =~= start.schedule_entries@);
        let ghost middle = *self;
        if self.state == Screen::Grades && input.grades_back {
            self.back_to_main();
        }
        if self.state == Screen::Main {
            if input.schedule_clicked {
                self.open_schedule();
            }
            if input.grades_clicked {
                self.open_grades();
            }
            match input.picked_tab {
                Some((i, t)) => if i < self.course_tabs.len() {
                    self.select_tab(i, t)
                },
                None => {},
            }
        }
        assert(self.schedule_entries == middle.schedule_entries);
        FrameOutcome { start_sign_in, save_last_entry: added }
    }
}

impl Default for AppModel {
    /// The planner as it starts: the login screen, nothing loaded, a fresh form.
    fn default() -> (m: Self)
        ensures
            m.is_initial(),
            m.wf(),
    {
        AppModel::from_session(Vec::new(), String::new(), Vec::new())
    }
}

} // verus!
