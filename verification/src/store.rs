//! The store of reply texts: one table of rows, each an integer identifier
//! and a text body. This module holds the two statements that are run
//! against it and the reading of what a fetch brought back.
//!
//! The table is only ever read. Rows are put there by other means.

use vstd::prelude::*;

verus! {

/// Name of the table of replies. The statement that creates the table and
/// the statement that reads from it both take the name from here.
pub open spec fn table_name() -> Seq<char> {
    "responses"@
}

/// Text of the statement that creates `table` unless it exists already.
pub open spec fn schema_statement_for(table: Seq<char>) -> Seq<char> {
    "CREATE TABLE IF NOT EXISTS "@ + table + " (id INTEGER PRIMARY KEY, text TEXT NOT NULL)"@
}

/// Text of the statement that reads the text of one row of `table`, picked
/// at random.
pub open spec fn random_text_statement_for(table: Seq<char>) -> Seq<char> {
    "SELECT text FROM "@ + table + " ORDER BY RANDOM() LIMIT 1"@
}

/// The statement that creates the table of replies unless it exists already.
pub fn schema_statement() -> (sql: String)
    ensures
        sql@ == schema_statement_for(table_name()),
{
    let mut sql = String::from_str("CREATE TABLE IF NOT EXISTS ");
    sql.append("responses");
    sql.append(" (id INTEGER PRIMARY KEY, text TEXT NOT NULL)");
    sql
}

/// The statement that reads the text of one random row of the table of
/// replies. It yields no row when the table is empty.
pub fn random_text_statement() -> (sql: String)
    ensures
        sql@ == random_text_statement_for(table_name()),
{
    let mut sql = String::from_str("SELECT text FROM ");
    sql.append("responses");
    sql.append(" ORDER BY RANDOM() LIMIT 1");
    sql
}

/// The text that the outcome of a fetch stands for: the fetched text where
/// there is one, and nothing both for an empty table and for a failed read.
pub open spec fn fetched_text<S>(read: Result<Option<String>, S>) -> Option<String> {
    match read {
        Ok(Some(text)) => Some(text),
        Ok(None) => None,
        Err(_) => None,
    }
}

/// Reduces the outcome of a fetch to the text it brought, if any. A failed
/// read counts as no text, like an empty table.
pub fn get_random_response<S>(read: Result<Option<String>, S>) -> (text: Option<String>)
    ensures
        text == fetched_text(read),
{
    match read {
        Ok(Some(text)) => Some(text),
        Ok(None) => None,
        Err(_) => None,
    }
}

/// Whether `read` is an outcome that fetching one random row from `table`
/// may have. The table is given as a map from identifier to text body. A
/// fetch that succeeds brings the text of some row, or nothing exactly when
/// there is no row; a fetch may also fail, whatever the table holds.
pub open spec fn read_agrees<S>(table: Map<int, Seq<char>>, read: Result<Option<String>, S>) -> bool {
    match read {
        Ok(Some(text)) => table.contains_value(text@),
        Ok(None) => table.dom() =~= Set::<int>::empty(),
        Err(_) => true,
    }
}

} // verus!
