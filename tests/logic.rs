use chores::date::{calc_next_date, is_iso_date, next_due_after, CivilDate};
use chores::dispatch::{dispatch, get_chores, get_persons, Command, Reply};
use chores::entities::{read_rows, Assignment, Chore, Person, SqlValue, Task};
use chores::error::{DataError, Table};
use chores::schedule::{derive_schedules, latest_task_index, text_less};
use chores::store::{
    assignment_args, chore_args, deleted, id_args, inserted, person_args, read_result,
    schedules_from, task_args, SqlArg,
};

fn person(id: i32, name: &str) -> Person {
    Person { id, name: name.to_string() }
}

fn chore(id: i32, description: &str, level: u8, frequency: u8) -> Chore {
    Chore { id, description: description.to_string(), level, frequency }
}

fn task(id: i32, person_id: i32, chore_id: i32, done: &str) -> Task {
    Task { id, person_id, chore_id, done: done.to_string() }
}

#[test]
fn next_date_adds_frequency() {
    assert_eq!(calc_next_date("2024-01-10", 3), "2024-01-13");
}

#[test]
fn next_date_crosses_leap_february() {
    assert_eq!(calc_next_date("2024-02-27", 3), "2024-03-01");
    assert_eq!(calc_next_date("2023-02-27", 3), "2023-03-02");
}

#[test]
fn next_date_crosses_year() {
    assert_eq!(calc_next_date("2023-12-30", 5), "2024-01-04");
}

#[test]
fn next_date_zero_frequency_is_same_day() {
    assert_eq!(calc_next_date("2024-06-01", 0), "2024-06-01");
}

#[test]
fn next_date_of_bad_date_is_unknown() {
    assert_eq!(calc_next_date("2024-13-40", 3), "unknown");
    assert_eq!(calc_next_date("unknown", 3), "unknown");
    assert_eq!(calc_next_date("", 3), "unknown");
}

#[test]
fn next_due_after_parsed_date() {
    let d = CivilDate { year: 2024, month: 1, day: 10 };
    assert_eq!(next_due_after(Some(d), 255), "2024-09-21");
    assert_eq!(next_due_after(None, 1), "unknown");
}

#[test]
fn next_due_after_last_date_is_unknown() {
    let d = CivilDate { year: 262142, month: 12, day: 31 };
    assert_eq!(next_due_after(Some(d), 1), "unknown");
    assert_eq!(next_due_after(Some(d), 0), "+262142-12-31");
}

#[test]
fn iso_dates_are_recognised() {
    assert!(is_iso_date("2024-01-10"));
    assert!(is_iso_date("2024-02-29"));
    assert!(!is_iso_date("2023-02-29"));
    assert!(!is_iso_date("2024-13-40"));
    assert!(!is_iso_date("10/01/2024"));
    assert!(!is_iso_date("2024-1-5"));
    assert!(!is_iso_date("+2024-01-10"));
    assert!(!is_iso_date(" 2024-01-10"));
    assert!(!is_iso_date("2024-01-10 "));
    assert!(is_iso_date("0000-01-01"));
    assert!(!is_iso_date(""));
}

#[test]
fn person_label_pads_id() {
    assert_eq!(person(1, "anna").label(), "anna (id:0001)");
    assert_eq!(person(12345, "bo").label(), "bo (id:12345)");
    assert_eq!(person(-5, "x").label(), "x (id:-005)");
}

#[test]
fn chore_label_shows_frequency() {
    assert_eq!(chore(1, "dishes", 2, 3).label(), "dishes (id:0001) [fr: 3]");
    assert_eq!(chore(42, "laundry", 0, 255).label(), "laundry (id:0042) [fr: 255]");
}

#[test]
fn text_order_is_by_code_point() {
    let a = "2024-01-09".to_string();
    let b = "2024-01-10".to_string();
    assert!(text_less(&a, &b));
    assert!(!text_less(&b, &a));
    assert!(!text_less(&a, &a));
    assert!(text_less(&"2024".to_string(), &"2024-01-01".to_string()));
}

#[test]
fn rows_are_read_in_order() {
    let rows = vec![
        vec![SqlValue::Integer(1), SqlValue::Text("anna".to_string())],
        vec![SqlValue::Integer(4), SqlValue::Text("cy".to_string())],
    ];
    let people: Vec<Person> = read_rows(&rows).unwrap();
    assert_eq!(people.len(), 2);
    assert_eq!((people[0].id, people[0].name.as_str()), (1, "anna"));
    assert_eq!((people[1].id, people[1].name.as_str()), (4, "cy"));
}

#[test]
fn a_row_with_wrong_cells_fails_the_read() {
    let good = vec![SqlValue::Integer(1), SqlValue::Text("anna".to_string())];
    for bad in [
        vec![SqlValue::Text("2".to_string()), SqlValue::Text("bo".to_string())],
        vec![SqlValue::Integer(1i64 << 40), SqlValue::Text("big".to_string())],
        vec![SqlValue::Integer(3), SqlValue::Null],
        vec![SqlValue::Integer(3)],
    ] {
        let rows = vec![good.clone(), bad];
        assert!(read_rows::<Person>(&rows).is_none());
        let r: Result<Vec<Person>, DataError> = read_result(Ok(rows));
        assert!(matches!(r, Err(DataError::UnreadableRow)));
    }
}

#[test]
fn chore_rows_need_small_level_and_frequency() {
    let ok = vec![
        SqlValue::Integer(1),
        SqlValue::Text("dishes".to_string()),
        SqlValue::Integer(2),
        SqlValue::Integer(3),
    ];
    let chores: Vec<Chore> = read_rows(&vec![ok.clone()]).unwrap();
    assert_eq!(chores[0].description, "dishes");
    assert_eq!((chores[0].level, chores[0].frequency), (2, 3));
    let big = vec![
        SqlValue::Integer(2),
        SqlValue::Text("floor".to_string()),
        SqlValue::Integer(256),
        SqlValue::Integer(3),
    ];
    assert!(read_rows::<Chore>(&vec![ok.clone(), big]).is_none());
    let real = vec![SqlValue::Integer(3), SqlValue::Text("bins".to_string()), SqlValue::Real, SqlValue::Integer(1)];
    assert!(read_rows::<Chore>(&vec![ok, real]).is_none());
}

fn icell(i: i64) -> SqlValue {
    SqlValue::Integer(i)
}

fn tcell(t: &str) -> SqlValue {
    SqlValue::Text(t.to_string())
}

#[test]
fn schedules_from_rows() {
    let s = schedules_from(
        Ok(vec![vec![icell(1), tcell("anna")]]),
        Ok(vec![vec![icell(1), tcell("dishes"), icell(2), icell(3)]]),
        Ok(vec![vec![icell(1), icell(1), icell(1)]]),
        Ok(vec![vec![icell(1), icell(1), icell(1), tcell("2024-01-10")]]),
    )
    .unwrap();
    assert_eq!(s.len(), 1);
    assert_eq!(s[0].last, "2024-01-10");
    assert_eq!(s[0].next, "2024-01-13");
}

#[test]
fn schedules_from_failed_or_unreadable_reads() {
    let r = schedules_from(
        Ok(vec![vec![icell(1), tcell("anna")]]),
        Err(rusqlite::Error::QueryReturnedNoRows),
        Ok(vec![]),
        Ok(vec![]),
    );
    assert!(matches!(r, Err(DataError::QueryError(_))));
    let r = schedules_from(Ok(vec![vec![icell(1)]]), Ok(vec![]), Ok(vec![]), Err(rusqlite::Error::QueryReturnedNoRows));
    assert!(matches!(r, Err(DataError::QueryError(_))));
    let r = schedules_from(Ok(vec![]), Ok(vec![]), Ok(vec![vec![tcell("x")]]), Ok(vec![]));
    assert!(matches!(r, Err(DataError::UnreadableRow)));
}

fn arg_text(a: &SqlArg) -> String {
    match a {
        SqlArg::Integer(i) => format!("i{}", i),
        SqlArg::Text(t) => format!("t{}", t),
    }
}

fn args_text(v: Vec<SqlArg>) -> Vec<String> {
    v.iter().map(arg_text).collect()
}

#[test]
fn bound_values_follow_the_statements() {
    assert_eq!(args_text(person_args("anna")), vec!["tanna"]);
    assert_eq!(args_text(chore_args("dishes", 2, 3)), vec!["tdishes", "i2", "i3"]);
    assert_eq!(args_text(assignment_args(4, 5)), vec!["i4", "i5"]);
    assert_eq!(args_text(task_args(4, 5, "2024-01-10")), vec!["i4", "i5", "t2024-01-10"]);
    assert_eq!(args_text(id_args(7)), vec!["i7"]);
}

#[test]
fn schedule_without_record_is_unknown() {
    let s = derive_schedules(
        &vec![person(1, "anna")],
        &vec![chore(1, "dishes", 2, 3)],
        &vec![Assignment { id: 1, person_id: 1, chore_id: 1 }],
        &vec![],
    );
    assert_eq!(s.len(), 1);
    assert_eq!(s[0].name, "anna");
    assert_eq!(s[0].last, "unknown");
    assert_eq!(s[0].next, "unknown");
}

#[test]
fn schedule_single_record() {
    let s = derive_schedules(
        &vec![person(1, "anna")],
        &vec![chore(1, "dishes", 2, 3)],
        &vec![Assignment { id: 1, person_id: 1, chore_id: 1 }],
        &vec![task(1, 1, 1, "2024-01-10")],
    );
    assert_eq!(s.len(), 1);
    assert_eq!(s[0].name, "anna");
    assert_eq!(s[0].description, "dishes");
    assert_eq!((s[0].level, s[0].frequency), (2, 3));
    assert_eq!(s[0].last, "2024-01-10");
    assert_eq!(s[0].next, "2024-01-13");
}

#[test]
fn schedule_takes_latest_day() {
    let tasks = vec![
        task(1, 1, 1, "2024-01-10"),
        task(2, 1, 1, "2024-03-01"),
        task(3, 1, 1, "2024-02-01"),
        task(4, 2, 1, "2024-05-01"),
        task(5, 1, 2, "2024-06-01"),
    ];
    let s = derive_schedules(
        &vec![person(1, "anna"), person(2, "bo")],
        &vec![chore(1, "dishes", 2, 3), chore(2, "floor", 1, 7)],
        &vec![Assignment { id: 1, person_id: 1, chore_id: 1 }],
        &tasks,
    );
    assert_eq!(s.len(), 1);
    assert_eq!(s[0].last, "2024-03-01");
    assert_eq!(s[0].next, "2024-03-04");
}

#[test]
fn same_day_records_larger_id_wins() {
    let tasks = vec![
        task(7, 1, 1, "2024-01-10"),
        task(3, 1, 1, "2024-01-10"),
        task(9, 1, 1, "2024-01-10"),
        task(5, 1, 1, "2024-01-10"),
    ];
    assert_eq!(latest_task_index(&tasks, 1, 1), Some(2));
    let tasks2 = vec![task(9, 1, 1, "2024-01-10"), task(3, 1, 1, "2024-01-10")];
    assert_eq!(latest_task_index(&tasks2, 1, 1), Some(0));
    assert_eq!(latest_task_index(&tasks2, 2, 1), None);
}

#[test]
fn schedule_one_line_per_pair_and_only_existing_rows() {
    let s = derive_schedules(
        &vec![person(1, "anna"), person(2, "bo")],
        &vec![chore(1, "dishes", 2, 3)],
        &vec![
            Assignment { id: 1, person_id: 2, chore_id: 1 },
            Assignment { id: 2, person_id: 1, chore_id: 1 },
            Assignment { id: 3, person_id: 2, chore_id: 1 },
            Assignment { id: 4, person_id: 9, chore_id: 1 },
            Assignment { id: 5, person_id: 1, chore_id: 9 },
        ],
        &vec![task(1, 1, 1, "2024-01-10")],
    );
    assert_eq!(s.len(), 2);
    assert_eq!(s[0].name, "bo");
    assert_eq!(s[0].last, "unknown");
    assert_eq!(s[1].name, "anna");
    assert_eq!(s[1].next, "2024-01-13");
}

#[test]
fn schedule_with_unreadable_day() {
    let s = derive_schedules(
        &vec![person(1, "anna")],
        &vec![chore(1, "dishes", 2, 3)],
        &vec![Assignment { id: 1, person_id: 1, chore_id: 1 }],
        &vec![task(1, 1, 1, "2024-01-10 08:00:00x")],
    );
    assert_eq!(s[0].last, "2024-01-10 08:00:00x");
    assert_eq!(s[0].next, "unknown");
}

#[test]
fn outcomes_map_to_error_kinds() {
    assert!(inserted(Ok(1)).is_ok());
    assert!(matches!(
        inserted(Err(rusqlite::Error::QueryReturnedNoRows)),
        Err(DataError::InsertError(_))
    ));
    assert!(deleted(Ok(0), Table::Person, 7).is_ok());
    match deleted(Err(rusqlite::Error::QueryReturnedNoRows), Table::Chore, 7) {
        Err(DataError::DeleteError { table, index, .. }) => {
            assert_eq!(table, Table::Chore);
            assert_eq!(index, 7);
            assert_eq!(table.name(), "chore");
        }
        _ => panic!("expected a delete error"),
    }
    let r: Result<Vec<Person>, DataError> = read_result(Err(rusqlite::Error::QueryReturnedNoRows));
    assert!(matches!(r, Err(DataError::QueryError(_))));
}

#[test]
fn table_names() {
    assert_eq!(Table::Person.name(), "person");
    assert_eq!(Table::Assignment.name(), "assignment");
}

#[test]
fn dispatch_answers_each_command() {
    let mut d = chores::store::db(":memory:").unwrap();
    let add = Command::AddPerson { name: "anna".to_string() };
    assert!(matches!(dispatch(&mut d, &add), Ok(Reply::Done)));
    assert!(matches!(dispatch(&mut d, &add), Err(DataError::InsertError(_))));
    let chore = Command::AddChore { description: "dishes".to_string(), level: 2, freq_days: 3 };
    assert!(matches!(dispatch(&mut d, &chore), Ok(Reply::Done)));
    match dispatch(&mut d, &Command::ListPersons) {
        Ok(Reply::Persons(v)) => assert_eq!(v.len(), 1),
        _ => panic!("expected persons"),
    }
    match dispatch(&mut d, &Command::ListChores) {
        Ok(Reply::Chores(v)) => assert_eq!(v.len(), 1),
        _ => panic!("expected chores"),
    }
    assert!(matches!(dispatch(&mut d, &Command::Assign { person: 1, chore: 1 }), Ok(Reply::Done)));
    let bad = Command::Task { person: 1, chore: 1, date: "2024-13-40".to_string() };
    match dispatch(&mut d, &bad) {
        Err(DataError::ParseError(m)) => {
            assert_eq!(m, "Could not parse date \"2024-13-40\", should match YYYY-MM-DD")
        }
        _ => panic!("expected a parse error"),
    }
    let good = Command::Task { person: 1, chore: 1, date: "2024-01-10".to_string() };
    assert!(matches!(dispatch(&mut d, &good), Ok(Reply::Done)));
    match dispatch(&mut d, &Command::Report) {
        Ok(Reply::Schedules(v)) => assert_eq!(v[0].next, "2024-01-13"),
        _ => panic!("expected schedules"),
    }
    match dispatch(&mut d, &Command::ListAssignments) {
        Ok(Reply::Assignments(v)) => assert_eq!(v.len(), 1),
        _ => panic!("expected assignments"),
    }
    assert!(matches!(dispatch(&mut d, &Command::RemoveAssignment { index: 1 }), Ok(Reply::Done)));
    assert!(matches!(dispatch(&mut d, &Command::RemoveChore { index: 1 }), Ok(Reply::Done)));
    assert!(matches!(dispatch(&mut d, &Command::RemovePerson { index: 1 }), Ok(Reply::Done)));
    assert_eq!(get_persons(&mut d).len(), 0);
    assert_eq!(get_chores(&mut d).len(), 0);
}
