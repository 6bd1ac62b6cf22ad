//! What can go wrong in the store.
use vstd::prelude::*;

verus! {

/// The error type of the `rusqlite` crate.
#[verifier::external_type_specification]
#[verifier::external_body]
pub struct ExSqlError(rusqlite::Error);

/// A table from which rows are removed.
#[derive(Clone, Copy, Debug, PartialEq, Eq, Structural)]
pub enum Table {
    Person,
    Chore,
    Assignment,
}

impl Table {
    /// The table's name in the schema.
    pub fn name(&self) -> (r: &'static str)
        ensures
            r@ == self.name_text(),
    {
        proof {
            reveal_strlit("person");
            reveal_strlit("chore");
            reveal_strlit("assignment");
        }
        match self {
            Table::Person => "person",
            Table::Chore => "chore",
            Table::Assignment => "assignment",
        }
    }

    pub open spec fn name_text(self) -> Seq<char> {
        match self {
            Table::Person => seq!['p', 'e', 'r', 's', 'o', 'n'],
            Table::Chore => seq!['c', 'h', 'o', 'r', 'e'],
            Table::Assignment => seq!['a', 's', 's', 'i', 'g', 'n', 'm', 'e', 'n', 't'],
        }
    }
}

/// The kinds of failure of a store operation.
#[derive(Debug)]
pub enum DataError {
    /// The store rejected a new row (a repeated name, a missing person or chore).
    InsertError(rusqlite::Error),
    /// A read from the store failed.
    QueryError(rusqlite::Error),
    /// A read from the store gave a row whose cells do not have the kinds that
    /// its table holds.
    UnreadableRow,
    /// A row could not be removed.
    DeleteError { table: Table, index: u8, source: rusqlite::Error },
    /// Input did not match its format; the message names the input.
    ParseError(String),
    /// The database could not be opened or its schema not applied.
    InitError(rusqlite::Error),
}

} // verus!
