//! The operations a front end can ask for, and what each one answers.
use vstd::prelude::*;
use crate::date::is_valid_ymd;
use crate::entities::{Assignment, Chore, Person};
use crate::error::{DataError, Table};
use crate::schedule::Schedule;
use crate::store::{
    assignment_args_of, chore_args_of, id_args_of, person_args_of, plain, read_failure, statement,
    task_args_of, Data, Statement, DELETE_ASSIGNMENT, DELETE_CHORE, DELETE_PERSON, INSERT_ASSIGNMENT,
    INSERT_CHORE, INSERT_PERSON, INSERT_TASK, SELECT_ASSIGNMENTS, SELECT_CHORES, SELECT_PERSONS,
    SELECT_TASKS,
};

verus! {

/// One request of a front end.
#[derive(Clone, Debug)]
pub enum Command {
    AddPerson { name: String },
    RemovePerson { index: u8 },
    ListPersons,
    AddChore { description: String, level: u8, freq_days: u8 },
    RemoveChore { index: u8 },
    ListChores,
    Assign { person: i32, chore: i32 },
    RemoveAssignment { index: u8 },
    ListAssignments,
    Report,
    Task { person: i32, chore: i32, date: String },
}

/// What a request gives back: nothing, or the rows to show.
#[derive(Debug)]
pub enum Reply {
    Done,
    Persons(Vec<Person>),
    Chores(Vec<Chore>),
    Assignments(Vec<Assignment>),
    Schedules(Vec<Schedule>),
}

/// Whether `reply` is the kind of answer that `command` gives.
pub open spec fn answers(command: Command, reply: Reply) -> bool {
    match command {
        Command::ListPersons => reply is Persons,
        Command::ListChores => reply is Chores,
        Command::ListAssignments => reply is Assignments,
        Command::Report => reply is Schedules,
        _ => reply is Done,
    }
}

/// Whether `e` is a failure that the operation `command` asks for may report.
pub open spec fn may_fail_with(command: Command, e: DataError) -> bool {
    match command {
        Command::AddPerson { .. } | Command::AddChore { .. } | Command::Assign { .. } =>
            e is InsertError,
        Command::RemovePerson { index } => e matches DataError::DeleteError { table, index: i, .. }
            && table == Table::Person && i == index,
        Command::RemoveChore { index } => e matches DataError::DeleteError { table, index: i, .. }
            && table == Table::Chore && i == index,
        Command::RemoveAssignment { index } => e matches DataError::DeleteError {
            table,
            index: i,
            ..
        } && table == Table::Assignment && i == index,
        Command::Task { .. } => e is InsertError || e is ParseError,
        _ => read_failure(e),
    }
}

/// The statements that carrying out `command` hands to the database.
pub open spec fn statements_for(command: Command) -> Seq<Statement> {
    match command {
        Command::AddPerson { name } => seq![statement(INSERT_PERSON@, person_args_of(name@))],
        Command::RemovePerson { index } => seq![statement(DELETE_PERSON@, id_args_of(index))],
        Command::ListPersons => seq![plain(SELECT_PERSONS@)],
        Command::AddChore { description, level, freq_days } => seq![
            statement(INSERT_CHORE@, chore_args_of(description@, level, freq_days)),
        ],
        Command::RemoveChore { index } => seq![statement(DELETE_CHORE@, id_args_of(index))],
        Command::ListChores => seq![plain(SELECT_CHORES@)],
        Command::Assign { person, chore } => seq![
            statement(INSERT_ASSIGNMENT@, assignment_args_of(person, chore)),
        ],
        Command::RemoveAssignment { index } => seq![
            statement(DELETE_ASSIGNMENT@, id_args_of(index)),
        ],
        Command::ListAssignments => seq![plain(SELECT_ASSIGNMENTS@)],
        Command::Report => seq![
            plain(SELECT_PERSONS@),
            plain(SELECT_CHORES@),
            plain(SELECT_ASSIGNMENTS@),
            plain(SELECT_TASKS@),
        ],
        Command::Task { person, chore, date } => if is_valid_ymd(date@) {
            seq![statement(INSERT_TASK@, task_args_of(person, chore, date@))]
        } else {
            Seq::empty()
        },
    }
}

fn done(r: Result<(), DataError>) -> (out: Result<Reply, DataError>)
    ensures
        match r {
            Ok(()) => out matches Ok(Reply::Done),
            Err(e) => out == Err::<Reply, DataError>(e),
        },
{
    match r {
        Ok(()) => Ok(Reply::Done),
        Err(e) => Err(e),
    }
}

/// Carries out `command` on the store `d`.
pub fn dispatch<D: Data>(d: &mut D, command: &Command) -> (r: Result<Reply, DataError>)
    ensures
        final(d).sent() == old(d).sent() + statements_for(*command),
        r matches Ok(reply) ==> answers(*command, reply),
        r matches Err(e) ==> may_fail_with(*command, e),
        command matches Command::Task { date, .. } ==> ((r matches Err(e) && e is ParseError)
            <==> !is_valid_ymd(date@)),
{
    let ghost start = d.sent();
    let r = match command {
        Command::AddPerson { name } => done(d.add_person(name.as_str())),
        Command::RemovePerson { index } => done(d.remove_person(*index)),
        Command::ListPersons => match d.get_persons() {
            Ok(v) => Ok(Reply::Persons(v)),
            Err(e) => Err(e),
        },
        Command::AddChore { description, level, freq_days } => done(
            d.add_chore(description.as_str(), *level, *freq_days),
        ),
        Command::RemoveChore { index } => done(d.remove_chore(*index)),
        Command::ListChores => match d.get_chores() {
            Ok(v) => Ok(Reply::Chores(v)),
            Err(e) => Err(e),
        },
        Command::Assign { person, chore } => done(d.assign(*person, *chore)),
        Command::RemoveAssignment { index } => done(d.remove_assignment(*index)),
        Command::ListAssignments => match d.get_assignments() {
            Ok(v) => Ok(Reply::Assignments(v)),
            Err(e) => Err(e),
        },
        Command::Report => match d.get_schedules() {
            Ok(v) => Ok(Reply::Schedules(v)),
            Err(e) => Err(e),
        },
        Command::Task { person, chore, date } => done(d.add_task(*person, *chore, date.as_str())),
    };
    assert(d.sent() =~= start + statements_for(*command));
    r
}

/// The people to pick from: all of them, or none where the store cannot be read.
pub fn get_persons<D: Data>(d: &mut D) -> (r: Vec<Person>)
    ensures
        final(d).sent() == old(d).sent().push(plain(SELECT_PERSONS@)),
{
    match d.get_persons() {
        Ok(v) => v,
        Err(_) => Vec::new(),
    }
}

/// The chores to pick from: all of them, or none where the store cannot be read.
pub fn get_chores<D: Data>(d: &mut D) -> (r: Vec<Chore>)
    ensures
        final(d).sent() == old(d).sent().push(plain(SELECT_CHORES@)),
{
    match d.get_chores() {
        Ok(v) => v,
        Err(_) => Vec::new(),
    }
}

} // verus!
