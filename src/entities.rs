//! The rows of the store: people, chores, assignments and completed tasks,
//! how they are read from the cells of a result row, and how people and
//! chores are shown in pick lists.
use vstd::prelude::*;
use vstd::string::*;
use crate::text::{decimal, push_decimal, push_padded, zero_padded};

verus! {

/// A member of the household.
#[derive(Clone, Debug)]
pub struct Person {
    pub id: i32,
    pub name: String,
}

/// A recurring chore; `frequency` is in days.
#[derive(Clone, Debug)]
pub struct Chore {
    pub id: i32,
    pub description: String,
    pub level: u8,
    pub frequency: u8,
}

/// A person being responsible for a chore.
#[derive(Clone, Copy, Debug, PartialEq, Eq, Structural)]
pub struct Assignment {
    pub id: i32,
    pub person_id: i32,
    pub chore_id: i32,
}

/// A record that a person did a chore on the day `done`.
#[derive(Clone, Debug)]
pub struct Task {
    pub id: i32,
    pub person_id: i32,
    pub chore_id: i32,
    pub done: String,
}

/// One cell of a result row, as the store hands it over.
#[derive(Clone, Debug)]
pub enum SqlValue {
    Null,
    Integer(i64),
    Text(String),
    Blob(Vec<u8>),
    /// A floating-point number, whose value this library does not read: no
    /// column of the schema holds one.
    Real,
}

/// An id written with at least four digits, zero filled after the sign.
pub open spec fn padded_id(id: int) -> Seq<char> {
    if id < 0 {
        seq!['-'] + zero_padded(decimal((-id) as nat), 3)
    } else {
        zero_padded(decimal(id as nat), 4)
    }
}

fn push_str(s: &mut String, t: &str)
    ensures
        final(s)@ == old(s)@ + t@,
{
    s.append(t);
}

fn push_padded_id(s: &mut String, id: i32)
    ensures
        final(s)@ == old(s)@ + padded_id(id as int),
{
    if id < 0 {
        let ghost start = s@;
        s.push('-');
        let magnitude: i64 = -(id as i64);
        push_padded(s, magnitude as u64, 3);
        assert(s@ =~= start + padded_id(id as int));
    } else {
        push_padded(s, id as u64, 4);
    }
}

impl Person {
    /// `{name} (id:{id:04})`
    pub open spec fn label_text(self) -> Seq<char> {
        self.name@ + seq![' ', '(', 'i', 'd', ':'] + padded_id(self.id as int) + seq![')']
    }

    /// How the person is shown in a pick list.
    pub fn label(&self) -> (r: String)
        ensures
            r@ == self.label_text(),
    {
        let mut s = self.name.clone();
        push_str(&mut s, " (id:");
        push_padded_id(&mut s, self.id);
        s.push(')');
        proof {
            reveal_strlit(" (id:");
        }
        assert(s@ =~= self.label_text());
        s
    }
}

impl Chore {
    /// `{description} (id:{id:04}) [fr: {frequency}]`
    pub open spec fn label_text(self) -> Seq<char> {
        self.description@ + seq![' ', '(', 'i', 'd', ':'] + padded_id(self.id as int) + seq![
            ')',
            ' ',
            '[',
            'f',
            'r',
            ':',
            ' ',
        ] + decimal(self.frequency as nat) + seq![']']
    }

    /// How the chore is shown in a pick list.
    pub fn label(&self) -> (r: String)
        ensures
            r@ == self.label_text(),
    {
        let mut s = self.description.clone();
        push_str(&mut s, " (id:");
        push_padded_id(&mut s, self.id);
        push_str(&mut s, ") [fr: ");
        push_decimal(&mut s, self.frequency as u64);
        s.push(']');
        proof {
            reveal_strlit(" (id:");
            reveal_strlit(") [fr: ");
        }
        assert(s@ =~= self.label_text());
        s
    }
}

/// The integer in cell `i` of `row`, if it holds one.
pub open spec fn int_at(row: Seq<SqlValue>, i: int) -> Option<i64> {
    if 0 <= i < row.len() {
        match row[i] {
            SqlValue::Integer(v) => Some(v),
            _ => None,
        }
    } else {
        None
    }
}

/// The text in cell `i` of `row`, if it holds one.
pub open spec fn text_at(row: Seq<SqlValue>, i: int) -> Option<String> {
    if 0 <= i < row.len() {
        match row[i] {
            SqlValue::Text(t) => Some(t),
            _ => None,
        }
    } else {
        None
    }
}

/// The integer in cell `i`, where it fits an `i32`.
pub open spec fn i32_at(row: Seq<SqlValue>, i: int) -> Option<i32> {
    match int_at(row, i) {
        Some(v) => if i32::MIN <= v <= i32::MAX { Some(v as i32) } else { None },
        None => None,
    }
}

/// The integer in cell `i`, where it fits a `u8`.
pub open spec fn u8_at(row: Seq<SqlValue>, i: int) -> Option<u8> {
    match int_at(row, i) {
        Some(v) => if 0 <= v <= 255 { Some(v as u8) } else { None },
        None => None,
    }
}

fn get_i32(row: &Vec<SqlValue>, i: usize) -> (r: Option<i32>)
    ensures
        r == i32_at(row@, i as int),
{
    if i < row.len() {
        match &row[i] {
            SqlValue::Integer(v) => if i32::MIN as i64 <= *v && *v <= i32::MAX as i64 {
                Some(*v as i32)
            } else {
                None
            },
            _ => None,
        }
    } else {
        None
    }
}

fn get_u8(row: &Vec<SqlValue>, i: usize) -> (r: Option<u8>)
    ensures
        r == u8_at(row@, i as int),
{
    if i < row.len() {
        match &row[i] {
            SqlValue::Integer(v) => if 0 <= *v && *v <= 255 {
                Some(*v as u8)
            } else {
                None
            },
            _ => None,
        }
    } else {
        None
    }
}

fn get_text(row: &Vec<SqlValue>, i: usize) -> (r: Option<String>)
    ensures
        r == text_at(row@, i as int),
{
    if i < row.len() {
        match &row[i] {
            SqlValue::Text(t) => Some(t.clone()),
            _ => None,
        }
    } else {
        None
    }
}

/// A row type that can be read from the cells of a result row.
pub trait FromRow: Sized {
    /// The value that `row` holds, if its cells have the expected kinds.
    spec fn of_row(row: Seq<SqlValue>) -> Option<Self>;

    fn from_row(row: &Vec<SqlValue>) -> (r: Option<Self>)
        ensures
            r == Self::of_row(row@),
    ;
}

impl FromRow for Person {
    /// Cells `id, name`.
    open spec fn of_row(row: Seq<SqlValue>) -> Option<Person> {
        match (i32_at(row, 0), text_at(row, 1)) {
            (Some(id), Some(name)) => Some(Person { id, name }),
            _ => None,
        }
    }

    fn from_row(row: &Vec<SqlValue>) -> (r: Option<Person>) {
        match (get_i32(row, 0), get_text(row, 1)) {
            (Some(id), Some(name)) => Some(Person { id, name }),
            _ => None,
        }
    }
}

impl FromRow for Chore {
    /// Cells `id, description, level, frequency`.
    open spec fn of_row(row: Seq<SqlValue>) -> Option<Chore> {
        match (i32_at(row, 0), text_at(row, 1), u8_at(row, 2), u8_at(row, 3)) {
            (Some(id), Some(description), Some(level), Some(frequency)) => Some(
                Chore { id, description, level, frequency },
            ),
            _ => None,
        }
    }

    fn from_row(row: &Vec<SqlValue>) -> (r: Option<Chore>) {
        match (get_i32(row, 0), get_text(row, 1), get_u8(row, 2), get_u8(row, 3)) {
            (Some(id), Some(description), Some(level), Some(frequency)) => Some(
                Chore { id, description, level, frequency },
            ),
            _ => None,
        }
    }
}

impl FromRow for Assignment {
    /// Cells `id, person_id, chore_id`.
    open spec fn of_row(row: Seq<SqlValue>) -> Option<Assignment> {
        match (i32_at(row, 0), i32_at(row, 1), i32_at(row, 2)) {
            (Some(id), Some(person_id), Some(chore_id)) => Some(
                Assignment { id, person_id, chore_id },
            ),
            _ => None,
        }
    }

    fn from_row(row: &Vec<SqlValue>) -> (r: Option<Assignment>) {
        match (get_i32(row, 0), get_i32(row, 1), get_i32(row, 2)) {
            (Some(id), Some(person_id), Some(chore_id)) => Some(
                Assignment { id, person_id, chore_id },
            ),
            _ => None,
        }
    }
}

impl FromRow for Task {
    /// Cells `id, person_id, chore_id, done`.
    open spec fn of_row(row: Seq<SqlValue>) -> Option<Task> {
        match (i32_at(row, 0), i32_at(row, 1), i32_at(row, 2), text_at(row, 3)) {
            (Some(id), Some(person_id), Some(chore_id), Some(done)) => Some(
                Task { id, person_id, chore_id, done },
            ),
            _ => None,
        }
    }

    fn from_row(row: &Vec<SqlValue>) -> (r: Option<Task>) {
        match (get_i32(row, 0), get_i32(row, 1), get_i32(row, 2), get_text(row, 3)) {
            (Some(id), Some(person_id), Some(chore_id), Some(done)) => Some(
                Task { id, person_id, chore_id, done },
            ),
            _ => None,
        }
    }
}

/// The values that the rows hold, in order, where every row has the expected
/// cells; `None` where one does not.
pub open spec fn rows_read<T: FromRow>(rows: Seq<Vec<SqlValue>>) -> Option<Seq<T>>
    decreases rows.len(),
{
    if rows.len() == 0 {
        Some(Seq::empty())
    } else {
        match (rows_read::<T>(rows.drop_last()), T::of_row(rows.last()@)) {
            (Some(before), Some(v)) => Some(before.push(v)),
            _ => None,
        }
    }
}

proof fn lemma_unreadable_prefix<T: FromRow>(rows: Seq<Vec<SqlValue>>, i: int)
    requires
        0 <= i <= rows.len(),
        rows_read::<T>(rows.subrange(0, i)) is None,
    ensures
        rows_read::<T>(rows) is None,
    decreases rows.len() - i,
{
    if i < rows.len() {
        assert(rows.subrange(0, i + 1).drop_last() =~= rows.subrange(0, i));
        lemma_unreadable_prefix::<T>(rows, i + 1);
    } else {
        assert(rows.subrange(0, i) =~= rows);
    }
}

/// Reads every row, keeping their order; `None` where a row does not have the
/// expected cells.
pub fn read_rows<T: FromRow>(rows: &Vec<Vec<SqlValue>>) -> (r: Option<Vec<T>>)
    ensures
        match r {
            Some(v) => rows_read::<T>(rows@) == Some(v@),
            None => rows_read::<T>(rows@) is None,
        },
{
    let mut out: Vec<T> = Vec::new();
    let mut i: usize = 0;
    assert(rows@.subrange(0, 0) =~= Seq::<Vec<SqlValue>>::empty());
    while i < rows.len()
        invariant
            i <= rows.len(),
            rows_read::<T>(rows@.subrange(0, i as int)) == Some(out@),
        decreases rows.len() - i,
    {
        assert(rows@.subrange(0, i as int + 1).drop_last() =~= rows@.subrange(0, i as int));
        match T::from_row(&rows[i]) {
            Some(v) => out.push(v),
            None => {
                proof {
                    lemma_unreadable_prefix::<T>(rows@, i as int + 1);
                }
                return None;
            },
        }
        i = i + 1;
    }
    assert(rows@.subrange(0, i as int) =~= rows@);
    Some(out)
}

} // verus!
