//! The store: the four tables kept in an SQLite database file, and the
//! operations on them.
use vstd::prelude::*;
use vstd::string::*;
use rusqlite::types::Value;
use rusqlite::Connection;
use crate::date::{is_iso_date, is_valid_ymd};
use crate::entities::{read_rows, rows_read, Assignment, Chore, FromRow, Person, SqlValue, Task};
use crate::error::{DataError, Table};
use crate::schedule::{derive_schedules, schedules_of, Schedule};

verus! {

/// A connection to an SQLite database.
#[verifier::external_type_specification]
#[verifier::external_body]
pub struct ExConnection(rusqlite::Connection);

/// The schema; every statement may run again on a database that has it.
pub const SCHEMA: &'static str = "
PRAGMA foreign_keys = ON;
CREATE TABLE IF NOT EXISTS person (
    id INTEGER PRIMARY KEY AUTOINCREMENT,
    name TEXT UNIQUE NOT NULL CHECK (name <> '')
);
CREATE TABLE IF NOT EXISTS chore (
    id INTEGER PRIMARY KEY AUTOINCREMENT,
    description TEXT UNIQUE NOT NULL CHECK (description <> ''),
    level INTEGER NOT NULL,
    frequency INTEGER NOT NULL
);
CREATE TABLE IF NOT EXISTS assignment (
    id INTEGER PRIMARY KEY AUTOINCREMENT,
    person_id INTEGER NOT NULL REFERENCES person(id) ON DELETE CASCADE,
    chore_id INTEGER NOT NULL REFERENCES chore(id) ON DELETE CASCADE
);
CREATE TABLE IF NOT EXISTS task (
    id INTEGER PRIMARY KEY AUTOINCREMENT,
    person_id INTEGER NOT NULL REFERENCES person(id) ON DELETE CASCADE,
    chore_id INTEGER NOT NULL REFERENCES chore(id) ON DELETE CASCADE,
    done DATETIME NOT NULL DEFAULT CURRENT_TIMESTAMP
);
";

pub const SELECT_PERSONS: &'static str = "SELECT id, name FROM person ORDER BY id";

pub const SELECT_CHORES: &'static str =
    "SELECT id, description, level, frequency FROM chore ORDER BY id";

pub const SELECT_ASSIGNMENTS: &'static str =
    "SELECT id, person_id, chore_id FROM assignment ORDER BY id";

pub const SELECT_TASKS: &'static str = "SELECT id, person_id, chore_id, done FROM task ORDER BY id";

pub const INSERT_PERSON: &'static str = "INSERT INTO person (name) VALUES (?1)";

pub const INSERT_CHORE: &'static str =
    "INSERT INTO chore (description, level, frequency) VALUES (?1, ?2, ?3)";

pub const INSERT_ASSIGNMENT: &'static str =
    "INSERT INTO assignment (person_id, chore_id) VALUES (?1, ?2)";

pub const INSERT_TASK: &'static str =
    "INSERT INTO task (person_id, chore_id, done) VALUES (?1, ?2, ?3)";

pub const DELETE_PERSON: &'static str = "DELETE FROM person WHERE id = ?1";

pub const DELETE_CHORE: &'static str = "DELETE FROM chore WHERE id = ?1";

pub const DELETE_ASSIGNMENT: &'static str = "DELETE FROM assignment WHERE id = ?1";

/// A value bound to a parameter of a statement.
#[derive(Clone, Debug)]
pub enum SqlArg {
    Integer(i64),
    Text(String),
}

/// The content of a bound value.
pub enum ArgValue {
    Integer(int),
    Text(Seq<char>),
}

impl View for SqlArg {
    type V = ArgValue;

    open spec fn view(&self) -> ArgValue {
        match self {
            SqlArg::Integer(i) => ArgValue::Integer(*i as int),
            SqlArg::Text(t) => ArgValue::Text(t@),
        }
    }
}

pub open spec fn args_view(args: Seq<SqlArg>) -> Seq<ArgValue> {
    args.map_values(|a: SqlArg| a@)
}

/// A statement handed to the store, with the values bound to its parameters.
pub struct Statement {
    pub sql: Seq<char>,
    pub args: Seq<ArgValue>,
}

pub open spec fn statement(sql: Seq<char>, args: Seq<ArgValue>) -> Statement {
    Statement { sql, args }
}

/// A statement without parameters.
pub open spec fn plain(sql: Seq<char>) -> Statement {
    statement(sql, Seq::empty())
}

pub open spec fn person_args_of(name: Seq<char>) -> Seq<ArgValue> {
    seq![ArgValue::Text(name)]
}

pub open spec fn chore_args_of(description: Seq<char>, level: u8, freq_days: u8) -> Seq<ArgValue> {
    seq![ArgValue::Text(description), ArgValue::Integer(level as int), ArgValue::Integer(freq_days as int)]
}

pub open spec fn assignment_args_of(person_id: i32, chore_id: i32) -> Seq<ArgValue> {
    seq![ArgValue::Integer(person_id as int), ArgValue::Integer(chore_id as int)]
}

pub open spec fn task_args_of(person_id: i32, chore_id: i32, date: Seq<char>) -> Seq<ArgValue> {
    seq![ArgValue::Integer(person_id as int), ArgValue::Integer(chore_id as int), ArgValue::Text(date)]
}

pub open spec fn id_args_of(index: u8) -> Seq<ArgValue> {
    seq![ArgValue::Integer(index as int)]
}

/// The values bound when a person is added: the name.
pub fn person_args(name: &str) -> (r: Vec<SqlArg>)
    ensures
        args_view(r@) == person_args_of(name@),
{
    let r = vec![SqlArg::Text(name.to_owned())];
    assert(args_view(r@) =~= person_args_of(name@));
    r
}

/// The values bound when a chore is added: description, level, frequency.
pub fn chore_args(description: &str, level: u8, freq_days: u8) -> (r: Vec<SqlArg>)
    ensures
        args_view(r@) == chore_args_of(description@, level, freq_days),
{
    let r = vec![
        SqlArg::Text(description.to_owned()),
        SqlArg::Integer(level as i64),
        SqlArg::Integer(freq_days as i64),
    ];
    assert(args_view(r@) =~= chore_args_of(description@, level, freq_days));
    r
}

/// The values bound when a person is assigned a chore: person id, chore id.
pub fn assignment_args(person_id: i32, chore_id: i32) -> (r: Vec<SqlArg>)
    ensures
        args_view(r@) == assignment_args_of(person_id, chore_id),
{
    let r = vec![SqlArg::Integer(person_id as i64), SqlArg::Integer(chore_id as i64)];
    assert(args_view(r@) =~= assignment_args_of(person_id, chore_id));
    r
}

/// The values bound when a done chore is recorded: person id, chore id and the
/// date text as it was given.
pub fn task_args(person_id: i32, chore_id: i32, date: &str) -> (r: Vec<SqlArg>)
    ensures
        args_view(r@) == task_args_of(person_id, chore_id, date@),
{
    let r = vec![
        SqlArg::Integer(person_id as i64),
        SqlArg::Integer(chore_id as i64),
        SqlArg::Text(date.to_owned()),
    ];
    assert(args_view(r@) =~= task_args_of(person_id, chore_id, date@));
    r
}

/// The value bound when a row is removed: its id.
pub fn id_args(index: u8) -> (r: Vec<SqlArg>)
    ensures
        args_view(r@) == id_args_of(index),
{
    let r = vec![SqlArg::Integer(index as i64)];
    assert(args_view(r@) =~= id_args_of(index));
    r
}

/// The records kept in an SQLite database file.
pub struct RusqData {
    conn: Connection,
    /// The statements handed to the database so far, oldest first.
    log: Ghost<Seq<Statement>>,
}

impl RusqData {
    /// The statements handed to the database so far, oldest first.
    pub closed spec fn statements(&self) -> Seq<Statement> {
        self.log@
    }
}

/// Relies on `rusqlite::Connection::open`: opens the database file at `path`,
/// creating it where it does not exist.
#[verifier::external_body]
fn open_connection(path: &str) -> (r: Result<Connection, rusqlite::Error>) {
    Connection::open(path)
}

/// Relies on `rusqlite::Connection::execute_batch`: runs the statements of `sql`
/// in turn. The text is recorded as handed to the database.
#[verifier::external_body]
fn execute_batch(store: &mut RusqData, sql: &str) -> (r: Result<(), rusqlite::Error>)
    ensures
        final(store).statements() == old(store).statements().push(plain(sql@)),
{
    store.conn.execute_batch(sql)
}

/// Relies on `rusqlite::Connection::execute`: runs one statement with `args`
/// bound to its parameters in order, and counts the rows it changed. The
/// statement and its values are recorded as handed to the database.
#[verifier::external_body]
fn execute(store: &mut RusqData, sql: &str, args: &Vec<SqlArg>) -> (r: Result<
    usize,
    rusqlite::Error,
>)
    ensures
        final(store).statements() == old(store).statements().push(statement(sql@, args_view(args@))),
{
    let values = args.iter().map(
        |a| match a {
            SqlArg::Integer(i) => Value::Integer(*i),
            SqlArg::Text(t) => Value::Text(t.clone()),
        },
    );
    store.conn.execute(sql, rusqlite::params_from_iter(values))
}

/// Relies on `rusqlite::Connection::prepare`, `Statement::query_map` and
/// `Row::get`: the rows of the query's result, each cell as it is stored. The
/// query is recorded as handed to the database.
#[verifier::external_body]
fn query_rows(store: &mut RusqData, sql: &str) -> (r: Result<Vec<Vec<SqlValue>>, rusqlite::Error>)
    ensures
        final(store).statements() == old(store).statements().push(plain(sql@)),
{
    let mut stmt = store.conn.prepare(sql)?;
    let width = stmt.column_count();
    let rows = stmt.query_map([], |row| (0..width).map(|i| row.get(i)).collect())?;
    let cell = |v: Value| match v {
        Value::Null => SqlValue::Null,
        Value::Integer(i) => SqlValue::Integer(i),
        Value::Text(t) => SqlValue::Text(t),
        Value::Real(_) => SqlValue::Real,
        Value::Blob(b) => SqlValue::Blob(b),
    };
    rows.map(|r| r.map(|cells: Vec<Value>| cells.into_iter().map(cell).collect())).collect()
}

/// The outcome of a statement that adds a row.
pub fn inserted(res: Result<usize, rusqlite::Error>) -> (r: Result<(), DataError>)
    ensures
        match res {
            Ok(_) => r is Ok,
            Err(e) => r == Err::<(), DataError>(DataError::InsertError(e)),
        },
{
    match res {
        Ok(_) => Ok(()),
        Err(e) => Err(DataError::InsertError(e)),
    }
}

/// The outcome of a statement that removes the row `index` of `table`; that no
/// row matched is no failure.
pub fn deleted(res: Result<usize, rusqlite::Error>, table: Table, index: u8) -> (r: Result<
    (),
    DataError,
>)
    ensures
        match res {
            Ok(_) => r is Ok,
            Err(e) => r == Err::<(), DataError>(DataError::DeleteError { table, index, source: e }),
        },
{
    match res {
        Ok(_) => Ok(()),
        Err(e) => Err(DataError::DeleteError { table, index, source: e }),
    }
}

/// The rows of a query's result read as values of `T`.
pub fn read_result<T: FromRow>(res: Result<Vec<Vec<SqlValue>>, rusqlite::Error>) -> (r: Result<
    Vec<T>,
    DataError,
>)
    ensures
        match res {
            Ok(rows) => match rows_read::<T>(rows@) {
                Some(s) => r matches Ok(v) && v@ == s,
                None => r matches Err(DataError::UnreadableRow),
            },
            Err(e) => r == Err::<Vec<T>, DataError>(DataError::QueryError(e)),
        },
{
    match res {
        Ok(rows) => match read_rows(&rows) {
            Some(v) => Ok(v),
            None => Err(DataError::UnreadableRow),
        },
        Err(e) => Err(DataError::QueryError(e)),
    }
}

/// The schedule from the results of reading the four tables: a query error
/// where a read failed, else an unreadable row where one does not read, else
/// the schedule that the rows give.
pub fn schedules_from(
    persons: Result<Vec<Vec<SqlValue>>, rusqlite::Error>,
    chores: Result<Vec<Vec<SqlValue>>, rusqlite::Error>,
    assignments: Result<Vec<Vec<SqlValue>>, rusqlite::Error>,
    tasks: Result<Vec<Vec<SqlValue>>, rusqlite::Error>,
) -> (r: Result<Vec<Schedule>, DataError>)
    ensures
        match (persons, chores, assignments, tasks) {
            (Ok(pr), Ok(cr), Ok(ar), Ok(tr)) => match (
                rows_read::<Person>(pr@),
                rows_read::<Chore>(cr@),
                rows_read::<Assignment>(ar@),
                rows_read::<Task>(tr@),
            ) {
                (Some(ps), Some(cs), Some(asg), Some(ts)) => r matches Ok(v) && v@.map_values(
                    |s: Schedule| s@,
                ) == schedules_of(ps, cs, asg, ts),
                _ => r matches Err(DataError::UnreadableRow),
            },
            _ => r matches Err(e) && e is QueryError,
        },
{
    let pr = match persons {
        Ok(v) => v,
        Err(e) => return Err(DataError::QueryError(e)),
    };
    let cr = match chores {
        Ok(v) => v,
        Err(e) => return Err(DataError::QueryError(e)),
    };
    let ar = match assignments {
        Ok(v) => v,
        Err(e) => return Err(DataError::QueryError(e)),
    };
    let tr = match tasks {
        Ok(v) => v,
        Err(e) => return Err(DataError::QueryError(e)),
    };
    let ps: Vec<Person> = match read_rows(&pr) {
        Some(v) => v,
        None => return Err(DataError::UnreadableRow),
    };
    let cs: Vec<Chore> = match read_rows(&cr) {
        Some(v) => v,
        None => return Err(DataError::UnreadableRow),
    };
    let asg: Vec<Assignment> = match read_rows(&ar) {
        Some(v) => v,
        None => return Err(DataError::UnreadableRow),
    };
    let ts: Vec<Task> = match read_rows(&tr) {
        Some(v) => v,
        None => return Err(DataError::UnreadableRow),
    };
    Ok(derive_schedules(&ps, &cs, &asg, &ts))
}

/// The message of a date that is not written `YYYY-MM-DD`.
pub open spec fn date_message(date: Seq<char>) -> Seq<char> {
    seq!['C', 'o', 'u', 'l', 'd', ' ', 'n', 'o', 't', ' ', 'p', 'a', 'r', 's', 'e', ' ', 'd', 'a', 't', 'e', ' ', '"']
        + date + seq!['"', ',', ' ', 's', 'h', 'o', 'u', 'l', 'd', ' ', 'm', 'a', 't', 'c', 'h', ' ', 'Y', 'Y', 'Y', 'Y', '-', 'M', 'M', '-', 'D', 'D']
}

fn bad_date(date: &str) -> (r: String)
    ensures
        r@ == date_message(date@),
{
    let mut s = String::from_str("Could not parse date \"");
    s.append(date);
    s.append("\", should match YYYY-MM-DD");
    proof {
        reveal_strlit("Could not parse date \"");
        reveal_strlit("\", should match YYYY-MM-DD");
    }
    assert(s@ =~= date_message(date@));
    s
}

/// Whether `e` is a failure of a read.
pub open spec fn read_failure(e: DataError) -> bool {
    e is QueryError || e is UnreadableRow
}

/// The operations on the household's records, each handing statements to the
/// database that keeps them.
pub trait Data {
    /// The statements handed to the database so far, oldest first.
    spec fn sent(&self) -> Seq<Statement>;

    /// Adds a person.
    fn add_person(&mut self, name: &str) -> (r: Result<(), DataError>)
        ensures
            final(self).sent() == old(self).sent().push(
                statement(INSERT_PERSON@, person_args_of(name@)),
            ),
            r matches Err(e) ==> e is InsertError,
    ;

    /// The people, by id.
    fn get_persons(&mut self) -> (r: Result<Vec<Person>, DataError>)
        ensures
            final(self).sent() == old(self).sent().push(plain(SELECT_PERSONS@)),
            r matches Err(e) ==> read_failure(e),
    ;

    /// Removes the person with id `index`, with their assignments and records.
    fn remove_person(&mut self, index: u8) -> (r: Result<(), DataError>)
        ensures
            final(self).sent() == old(self).sent().push(statement(DELETE_PERSON@, id_args_of(index))),
            r matches Err(e) ==> e matches DataError::DeleteError { table, index: i, .. } && table
                == Table::Person && i == index,
    ;

    /// Adds a chore.
    fn add_chore(&mut self, description: &str, level: u8, freq_days: u8) -> (r: Result<
        (),
        DataError,
    >)
        ensures
            final(self).sent() == old(self).sent().push(
                statement(INSERT_CHORE@, chore_args_of(description@, level, freq_days)),
            ),
            r matches Err(e) ==> e is InsertError,
    ;

    /// Removes the chore with id `index`, with its assignments and records.
    fn remove_chore(&mut self, index: u8) -> (r: Result<(), DataError>)
        ensures
            final(self).sent() == old(self).sent().push(statement(DELETE_CHORE@, id_args_of(index))),
            r matches Err(e) ==> e matches DataError::DeleteError { table, index: i, .. } && table
                == Table::Chore && i == index,
    ;

    /// The chores, by id.
    fn get_chores(&mut self) -> (r: Result<Vec<Chore>, DataError>)
        ensures
            final(self).sent() == old(self).sent().push(plain(SELECT_CHORES@)),
            r matches Err(e) ==> read_failure(e),
    ;

    /// The schedule, from a read of each of the four tables.
    fn get_schedules(&mut self) -> (r: Result<Vec<Schedule>, DataError>)
        ensures
            final(self).sent() == old(self).sent() + seq![
                plain(SELECT_PERSONS@),
                plain(SELECT_CHORES@),
                plain(SELECT_ASSIGNMENTS@),
                plain(SELECT_TASKS@),
            ],
            r matches Err(e) ==> read_failure(e),
    ;

    /// Makes a person responsible for a chore.
    fn assign(&mut self, person_id: i32, chore_id: i32) -> (r: Result<(), DataError>)
        ensures
            final(self).sent() == old(self).sent().push(
                statement(INSERT_ASSIGNMENT@, assignment_args_of(person_id, chore_id)),
            ),
            r matches Err(e) ==> e is InsertError,
    ;

    /// Removes the assignment with id `index`.
    fn remove_assignment(&mut self, index: u8) -> (r: Result<(), DataError>)
        ensures
            final(self).sent() == old(self).sent().push(
                statement(DELETE_ASSIGNMENT@, id_args_of(index)),
            ),
            r matches Err(e) ==> e matches DataError::DeleteError { table, index: i, .. } && table
                == Table::Assignment && i == index,
    ;

    /// The assignments, by id.
    fn get_assignments(&mut self) -> (r: Result<Vec<Assignment>, DataError>)
        ensures
            final(self).sent() == old(self).sent().push(plain(SELECT_ASSIGNMENTS@)),
            r matches Err(e) ==> read_failure(e),
    ;

    /// Records that a person did a chore on `date`, which must be written
    /// `YYYY-MM-DD` and name a day of the calendar; where it does not, nothing
    /// reaches the database.
    fn add_task(&mut self, person_id: i32, chore_id: i32, date: &str) -> (r: Result<
        (),
        DataError,
    >)
        ensures
            (r matches Err(e) && e is ParseError) <==> !is_valid_ymd(date@),
            r matches Err(DataError::ParseError(m)) ==> m@ == date_message(date@),
            !is_valid_ymd(date@) ==> final(self).sent() == old(self).sent(),
            is_valid_ymd(date@) ==> final(self).sent() == old(self).sent().push(
                statement(INSERT_TASK@, task_args_of(person_id, chore_id, date@)),
            ),
            r matches Err(e) ==> e is ParseError || e is InsertError,
    ;
}

impl RusqData {
    /// Opens the database at `path`, creating it where it does not exist, and
    /// applies the schema.
    pub fn new(path: &str) -> (r: Result<RusqData, DataError>)
        ensures
            r matches Err(e) ==> e is InitError,
            r matches Ok(s) ==> s.statements() == seq![plain(SCHEMA@)],
    {
        let conn = match open_connection(path) {
            Ok(c) => c,
            Err(e) => return Err(DataError::InitError(e)),
        };
        let mut store = RusqData { conn, log: Ghost(Seq::empty()) };
        match execute_batch(&mut store, SCHEMA) {
            Ok(()) => {
                assert(store.statements() =~= seq![plain(SCHEMA@)]);
                Ok(store)
            },
            Err(e) => Err(DataError::InitError(e)),
        }
    }

    fn remove(&mut self, sql: &str, table: Table, index: u8) -> (r: Result<(), DataError>)
        ensures
            final(self).statements() == old(self).statements().push(
                statement(sql@, id_args_of(index)),
            ),
            r matches Err(e) ==> e matches DataError::DeleteError { table: t, index: i, .. } && t
                == table && i == index,
    {
        let args = id_args(index);
        deleted(execute(self, sql, &args), table, index)
    }
}

impl Data for RusqData {
    open spec fn sent(&self) -> Seq<Statement> {
        self.statements()
    }

    fn add_person(&mut self, name: &str) -> (r: Result<(), DataError>) {
        let args = person_args(name);
        inserted(execute(self, INSERT_PERSON, &args))
    }

    fn get_persons(&mut self) -> (r: Result<Vec<Person>, DataError>) {
        read_result(query_rows(self, SELECT_PERSONS))
    }

    fn remove_person(&mut self, index: u8) -> (r: Result<(), DataError>) {
        self.remove(DELETE_PERSON, Table::Person, index)
    }

    fn add_chore(&mut self, description: &str, level: u8, freq_days: u8) -> (r: Result<
        (),
        DataError,
    >) {
        let args = chore_args(description, level, freq_days);
        inserted(execute(self, INSERT_CHORE, &args))
    }

    fn remove_chore(&mut self, index: u8) -> (r: Result<(), DataError>) {
        self.remove(DELETE_CHORE, Table::Chore, index)
    }

    fn get_chores(&mut self) -> (r: Result<Vec<Chore>, DataError>) {
        read_result(query_rows(self, SELECT_CHORES))
    }

    fn get_schedules(&mut self) -> (r: Result<Vec<Schedule>, DataError>) {
        let ghost start = self.statements();
        let persons = query_rows(self, SELECT_PERSONS);
        let chores = query_rows(self, SELECT_CHORES);
        let assignments = query_rows(self, SELECT_ASSIGNMENTS);
        let tasks = query_rows(self, SELECT_TASKS);
        assert(self.statements() =~= start + seq![
            plain(SELECT_PERSONS@),
            plain(SELECT_CHORES@),
            plain(SELECT_ASSIGNMENTS@),
            plain(SELECT_TASKS@),
        ]);
        schedules_from(persons, chores, assignments, tasks)
    }

    fn assign(&mut self, person_id: i32, chore_id: i32) -> (r: Result<(), DataError>) {
        let args = assignment_args(person_id, chore_id);
        inserted(execute(self, INSERT_ASSIGNMENT, &args))
    }

    fn remove_assignment(&mut self, index: u8) -> (r: Result<(), DataError>) {
        self.remove(DELETE_ASSIGNMENT, Table::Assignment, index)
    }

    fn get_assignments(&mut self) -> (r: Result<Vec<Assignment>, DataError>) {
        read_result(query_rows(self, SELECT_ASSIGNMENTS))
    }

    fn add_task(&mut self, person_id: i32, chore_id: i32, date: &str) -> (r: Result<
        (),
        DataError,
    >) {
        if !is_iso_date(date) {
            return Err(DataError::ParseError(bad_date(date)));
        }
        let args = task_args(person_id, chore_id, date);
        inserted(execute(self, INSERT_TASK, &args))
    }
}

/// Opens the store at `path`.
pub fn db(path: &str) -> (r: Result<RusqData, DataError>)
    ensures
        r matches Err(e) ==> e is InitError,
        r matches Ok(s) ==> s.statements() == seq![plain(SCHEMA@)],
{
    RusqData::new(path)
}

} // verus!
