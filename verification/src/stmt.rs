//! Construction of the reference backend's SQL statements.
//!
//! Condition values are always passed as bound parameters (`?`), never
//! interpolated into the statement text. Given zero conditions a statement
//! has no filter clause; given one or more, the first condition contributes
//! a bare `column = ?` filter and every subsequent condition contributes
//! `AND` or `OR` plus `column = ?` per its conjunction-flag. The chain is
//! emitted left to right with no parenthesization.

use crate::database::{Condition, SqlValue, ValueType};
use vstd::prelude::*;

verus! {

/// The named columns' names joined with `,`.
pub open spec fn spec_column_list<T>(cols: Seq<(String, T)>) -> Seq<char>
    decreases cols.len(),
{
    if cols.len() == 0 {
        Seq::empty()
    } else if cols.len() == 1 {
        cols[0].0@
    } else {
        spec_column_list(cols.drop_last()) + ","@ + cols.last().0@
    }
}

/// The left-to-right condition chain: `c0 = ?` followed, for each further
/// condition, by ` AND c = ?` or ` OR c = ?` per its conjunction-flag. The
/// first condition's flag is ignored.
pub open spec fn spec_condition_chain(conds: Seq<Condition>) -> Seq<char>
    decreases conds.len(),
{
    if conds.len() == 0 {
        Seq::empty()
    } else if conds.len() == 1 {
        conds[0].0@ + " = ?"@
    } else {
        spec_condition_chain(conds.drop_last()) + (if conds.last().1 {
            " AND "@
        } else {
            " OR "@
        }) + conds.last().0@ + " = ?"@
    }
}

/// The filter clause: empty for zero conditions, otherwise ` WHERE `
/// followed by the condition chain.
pub open spec fn spec_where_clause(conds: Seq<Condition>) -> Seq<char> {
    if conds.len() == 0 {
        Seq::empty()
    } else {
        " WHERE "@ + spec_condition_chain(conds)
    }
}

/// The text of a read statement.
pub open spec fn spec_select_stmt(
    table: Seq<char>,
    cols: Seq<(String, ValueType)>,
    conds: Seq<Condition>,
) -> Seq<char> {
    "SELECT "@ + spec_column_list(cols) + " FROM "@ + table + spec_where_clause(conds)
}

/// Append the column names joined with `,`.
fn append_column_list<T>(out: &mut String, cols: &Vec<(String, T)>)
    ensures
        final(out)@ == old(out)@ + spec_column_list(cols@),
{
    let ghost start = out@;
    let mut i: usize = 0;
    while i < cols.len()
        invariant
            i <= cols@.len(),
            out@ == start + spec_column_list(cols@.take(i as int)),
        decreases cols@.len() - i,
    {
        if i > 0 {
            out.append(",");
        }
        out.append(cols[i].0.as_str());
        proof {
            assert(cols@.take(i + 1).drop_last() =~= cols@.take(i as int));
            assert(cols@.take(i + 1).last() == cols@[i as int]);
        }
        i = i + 1;
    }
    proof {
        assert(cols@.take(cols@.len() as int) =~= cols@);
    }
}

/// Append the filter clause for the given conditions.
fn append_where_clause(out: &mut String, conds: &Vec<Condition>)
    ensures
        final(out)@ == old(out)@ + spec_where_clause(conds@),
{
    if conds.len() == 0 {
        return ;
    }
    out.append(" WHERE ");
    let ghost start = out@;
    let mut i: usize = 0;
    while i < conds.len()
        invariant
            i <= conds@.len(),
            conds@.len() > 0,
            out@ == start + spec_condition_chain(conds@.take(i as int)),
        decreases conds@.len() - i,
    {
        if i > 0 {
            if conds[i].1 {
                out.append(" AND ");
            } else {
                out.append(" OR ");
            }
        }
        out.append(conds[i].0.as_str());
        out.append(" = ?");
        proof {
            assert(conds@.take(i + 1).drop_last() =~= conds@.take(i as int));
            assert(conds@.take(i + 1).last() == conds@[i as int]);
        }
        i = i + 1;
    }
    proof {
        assert(conds@.take(conds@.len() as int) =~= conds@);
    }
}

/// One `?` placeholder per assigned column, joined with `,`.
pub open spec fn spec_placeholders(n: nat) -> Seq<char>
    decreases n,
{
    if n == 0 {
        Seq::empty()
    } else if n == 1 {
        "?"@
    } else {
        spec_placeholders((n - 1) as nat) + ",?"@
    }
}

/// The assignments of a write statement: each column's name followed by
/// ` = ?`, joined with `, `.
pub open spec fn spec_set_list<T>(cols: Seq<(String, T)>) -> Seq<char>
    decreases cols.len(),
{
    if cols.len() == 0 {
        Seq::empty()
    } else if cols.len() == 1 {
        cols[0].0@ + " = ?"@
    } else {
        spec_set_list(cols.drop_last()) + ", "@ + cols.last().0@ + " = ?"@
    }
}

/// The text of an insert statement.
pub open spec fn spec_insert_stmt(table: Seq<char>, cols: Seq<(String, SqlValue)>) -> Seq<char> {
    "INSERT INTO "@ + table + " ("@ + spec_column_list(cols) + ") VALUES ("@ + spec_placeholders(
        cols.len(),
    ) + ")"@
}

/// The text of an update statement.
pub open spec fn spec_update_stmt(
    table: Seq<char>,
    cols: Seq<(String, SqlValue)>,
    conds: Seq<Condition>,
) -> Seq<char> {
    "UPDATE "@ + table + " SET "@ + spec_set_list(cols) + spec_where_clause(conds)
}

/// Append one `?` placeholder per assigned column, joined with `,`.
fn append_placeholders(out: &mut String, n: usize)
    ensures
        final(out)@ == old(out)@ + spec_placeholders(n as nat),
{
    let ghost start = out@;
    let mut i: usize = 0;
    while i < n
        invariant
            i <= n,
            out@ == start + spec_placeholders(i as nat),
        decreases n - i,
    {
        if i > 0 {
            out.append(",?");
        } else {
            out.append("?");
        }
        i = i + 1;
    }
}

/// Append the assignments of a write statement.
fn append_set_list<T>(out: &mut String, cols: &Vec<(String, T)>)
    ensures
        final(out)@ == old(out)@ + spec_set_list(cols@),
{
    let ghost start = out@;
    let mut i: usize = 0;
    while i < cols.len()
        invariant
            i <= cols@.len(),
            out@ == start + spec_set_list(cols@.take(i as int)),
        decreases cols@.len() - i,
    {
        if i > 0 {
            out.append(", ");
        }
        out.append(cols[i].0.as_str());
        out.append(" = ?");
        proof {
            assert(cols@.take(i + 1).drop_last() =~= cols@.take(i as int));
            assert(cols@.take(i + 1).last() == cols@[i as int]);
        }
        i = i + 1;
    }
    proof {
        assert(cols@.take(cols@.len() as int) =~= cols@);
    }
}

/// Build the text of a read statement: the projected column names, the
/// table, and the filter clause.
pub fn build_select(
    table: &str,
    cols: &Vec<(String, ValueType)>,
    conditions: &Vec<Condition>,
) -> (stmt: String)
    ensures
        stmt@ == spec_select_stmt(table@, cols@, conditions@),
{
    let mut stmt = String::new();
    stmt.append("SELECT ");
    append_column_list(&mut stmt, cols);
    stmt.append(" FROM ");
    stmt.append(table);
    append_where_clause(&mut stmt, conditions);
    stmt
}

/// Build the text of an insert statement: the assigned column names and one
/// bound placeholder per assigned value.
pub fn build_insert(table: &str, cols: &Vec<(String, SqlValue)>) -> (stmt: String)
    ensures
        stmt@ == spec_insert_stmt(table@, cols@),
{
    let mut stmt = String::new();
    stmt.append("INSERT INTO ");
    stmt.append(table);
    stmt.append(" (");
    append_column_list(&mut stmt, cols);
    stmt.append(") VALUES (");
    append_placeholders(&mut stmt, cols.len());
    stmt.append(")");
    stmt
}

/// Build the text of an update statement: one bound assignment per column,
/// and the filter clause.
pub fn build_update(
    table: &str,
    cols: &Vec<(String, SqlValue)>,
    conditions: &Vec<Condition>,
) -> (stmt: String)
    ensures
        stmt@ == spec_update_stmt(table@, cols@, conditions@),
{
    let mut stmt = String::new();
    stmt.append("UPDATE ");
    stmt.append(table);
    stmt.append(" SET ");
    append_set_list(&mut stmt, cols);
    append_where_clause(&mut stmt, conditions);
    stmt
}

} // verus!
