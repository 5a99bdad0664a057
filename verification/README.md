# gradething

A desktop planner for Google Classroom students: it signs in with Google,
lists the courses with their latest assignment and grade, and keeps a weekly
study schedule.

- `src/` is the library, verified with Verus:
  - `grade`: numeric grades to letters;
  - `decimal`: reading and writing the numbers typed into the schedule form;
  - `course`: course summaries, the grade search over submissions, the grade
    badge and the Classroom URLs;
  - `schedule`: schedule sessions, weekdays and the per-day lists;
  - `model`: the screens and the schedule form as a state machine;
  - `redirect`: the authorization code and state of the sign-in redirect;
  - `auth`: the sign-in request.
- `app/` is the program around it: the egui window, the HTTP calls, the
  SQLite store and the local redirect server.
- `tests/` exercises the library.

The program reads the OAuth client from `GOOGLE_CLIENT_ID` and
`GOOGLE_CLIENT_SECRET`.
