//! Rows of the session database as the library reads them: the value of
//! each column, checked against the type the schema gives it.

use vstd::prelude::*;
use vstd::string::*;

use crate::text::{debug_text, decimal, push_decimal, push_signed_decimal, signed_decimal, str_debug};

verus! {

/// The value of one column of a result row. A floating-point value is
/// never read by these rows; it is carried as the text `Debug` writes for
/// the number, for error messages.
#[derive(Debug, Clone)]
pub enum Cell {
    Null,
    Integer(i64),
    Real(String),
    Text(String),
    Blob(Vec<u8>),
}

/// The decimal texts of `bytes`, separated by `", "`.
pub open spec fn bytes_list_text(bytes: Seq<u8>) -> Seq<char>
    decreases bytes.len(),
{
    if bytes.len() == 0 {
        Seq::empty()
    } else if bytes.len() == 1 {
        decimal(bytes[0] as nat)
    } else {
        bytes_list_text(bytes.drop_last()) + ", "@ + decimal(bytes.last() as nat)
    }
}

/// The text `Debug` writes for a column value (`Integer(5)`, `Text("a")`,
/// `Blob([1, 2])`, ...).
pub open spec fn cell_debug_spec(c: Cell) -> Seq<char> {
    match c {
        Cell::Null => "Null"@,
        Cell::Integer(v) => "Integer("@ + signed_decimal(v as int) + ")"@,
        Cell::Real(t) => "Real("@ + t@ + ")"@,
        Cell::Text(t) => "Text("@ + str_debug(t@) + ")"@,
        Cell::Blob(b) => "Blob(["@ + bytes_list_text(b@) + "])"@,
    }
}

/// The text `Debug` writes for a column value.
pub fn cell_debug(c: &Cell) -> (r: String)
    ensures
        r@ == cell_debug_spec(*c),
{
    match c {
        Cell::Null => String::from_str("Null"),
        Cell::Integer(v) => {
            let mut s = String::from_str("Integer(");
            push_signed_decimal(&mut s, *v);
            s.append(")");
            s
        },
        Cell::Real(t) => {
            let mut s = String::from_str("Real(");
            s.append(t.as_str());
            s.append(")");
            s
        },
        Cell::Text(t) => {
            let mut s = String::from_str("Text(");
            s.append(debug_text(t.as_str()).as_str());
            s.append(")");
            s
        },
        Cell::Blob(b) => {
            let mut s = String::from_str("Blob([");
            let mut i: usize = 0;
            while i < b.len()
                invariant
                    i <= b@.len(),
                    s@ == "Blob(["@ + bytes_list_text(b@.take(i as int)),
                decreases b@.len() - i,
            {
                let ghost before = s@;
                if i > 0 {
                    s.append(", ");
                }
                push_decimal(&mut s, b[i] as u64);
                proof {
                    let t = b@.take(i as int + 1);
                    assert(t.drop_last() =~= b@.take(i as int));
                    assert(t.last() == b@[i as int]);
                    if i == 0 {
                        assert(b@.take(0) =~= Seq::<u8>::empty());
                    }
                }
                i = i + 1;
            }
            assert(b@.take(b@.len() as int) =~= b@);
            s.append("])");
            s
        },
    }
}

/// Why a row could not be read.
#[derive(Debug, Clone)]
pub enum RowError {
    /// Column `field` held a value of the wrong type; `value` is what
    /// `Debug` writes for that value.
    UnexpectedType { field: String, value: String },
    /// Column `field` held an integer outside the `u32` range.
    OutOfRange { field: String, value: i64 },
    /// The row has only `columns` columns, none at `index`.
    MissingColumn { index: usize, columns: usize },
}

/// The message for a row without column `index`.
pub open spec fn missing_column_text(index: nat, columns: nat) -> Seq<char> {
    "column index "@ + decimal(index) + " out of bounds (row has "@ + decimal(columns) + " columns)"@
}

/// The message for a row without column `index`.
pub fn missing_column_message(index: usize, columns: usize) -> (r: String)
    ensures
        r@ == missing_column_text(index as nat, columns as nat),
{
    let mut s = String::from_str("column index ");
    push_decimal(&mut s, index as u64);
    s.append(" out of bounds (row has ");
    push_decimal(&mut s, columns as u64);
    s.append(" columns)");
    s
}

impl RowError {
    /// The error message.
    pub fn message(&self) -> (r: String)
        ensures
            r@ == match self {
                RowError::UnexpectedType { field, value } => "unexpected value type for "@ + field@ + ": "@
                    + value@,
                RowError::OutOfRange { field, value } => field@ + " value "@ + signed_decimal(*value as int)
                    + " is outside the u32 range"@,
                RowError::MissingColumn { index, columns } => missing_column_text(
                    *index as nat,
                    *columns as nat,
                ),
            },
    {
        match self {
            RowError::UnexpectedType { field, value } => {
                let mut s = String::from_str("unexpected value type for ");
                s.append(field.as_str());
                s.append(": ");
                s.append(value.as_str());
                s
            },
            RowError::OutOfRange { field, value } => {
                let mut s = field.clone();
                s.append(" value ");
                push_signed_decimal(&mut s, *value);
                s.append(" is outside the u32 range");
                s
            },
            RowError::MissingColumn { index, columns } => missing_column_message(*index, *columns),
        }
    }
}

/// The column at `idx`.
fn cell_at(row: &Vec<Cell>, idx: usize) -> (r: Result<&Cell, RowError>)
    ensures
        idx < row@.len() ==> r == Ok::<&Cell, RowError>(&row@[idx as int]),
        idx >= row@.len() ==> r == Err::<&Cell, RowError>(
            RowError::MissingColumn { index: idx, columns: row@.len() as usize },
        ),
{
    if idx < row.len() {
        Ok(&row[idx])
    } else {
        Err(RowError::MissingColumn { index: idx, columns: row.len() })
    }
}

/// The error for column `field` holding `c`.
fn type_error(field: &str, c: &Cell) -> (r: RowError)
    ensures
        r matches RowError::UnexpectedType { field: f, value: v } && f@ == field@ && v@
            == cell_debug_spec(*c),
{
    RowError::UnexpectedType { field: String::from_str(field), value: cell_debug(c) }
}

/// A text column: its text; any other value is an error.
pub fn row_text(row: &Vec<Cell>, idx: usize, field: &str) -> (r: Result<String, RowError>)
    ensures
        idx >= row@.len() ==> r == Err::<String, RowError>(
            RowError::MissingColumn { index: idx, columns: row@.len() as usize },
        ),
        idx < row@.len() ==> match row@[idx as int] {
            Cell::Text(t) => r == Ok::<String, RowError>(t),
            c => r matches Err(RowError::UnexpectedType { field: f, value: v }) && f@ == field@ && v@
                == cell_debug_spec(c),
        },
{
    let c = cell_at(row, idx)?;
    match c {
        Cell::Text(t) => Ok(t.clone()),
        _ => Err(type_error(field, c)),
    }
}

/// A nullable text column: nothing for NULL, the text for text; any other
/// value is an error.
pub fn row_optional_text(row: &Vec<Cell>, idx: usize, field: &str) -> (r: Result<Option<String>, RowError>)
    ensures
        idx >= row@.len() ==> r == Err::<Option<String>, RowError>(
            RowError::MissingColumn { index: idx, columns: row@.len() as usize },
        ),
        idx < row@.len() ==> match row@[idx as int] {
            Cell::Null => r == Ok::<Option<String>, RowError>(None),
            Cell::Text(t) => r == Ok::<Option<String>, RowError>(Some(t)),
            c => r matches Err(RowError::UnexpectedType { field: f, value: v }) && f@ == field@ && v@
                == cell_debug_spec(c),
        },
{
    let c = cell_at(row, idx)?;
    match c {
        Cell::Null => Ok(None),
        Cell::Text(t) => Ok(Some(t.clone())),
        _ => Err(type_error(field, c)),
    }
}

/// A counter column: 0 for NULL, the integer when it fits in a `u32`;
/// an integer outside that range, or any other value, is an error.
pub fn row_u32(row: &Vec<Cell>, idx: usize, field: &str) -> (r: Result<u32, RowError>)
    ensures
        idx >= row@.len() ==> r == Err::<u32, RowError>(
            RowError::MissingColumn { index: idx, columns: row@.len() as usize },
        ),
        idx < row@.len() ==> match row@[idx as int] {
            Cell::Null => r == Ok::<u32, RowError>(0),
            Cell::Integer(v) => if 0 <= v <= u32::MAX {
                r == Ok::<u32, RowError>(v as u32)
            } else {
                r matches Err(RowError::OutOfRange { field: f, value }) && f@ == field@ && value == v
            },
            c => r matches Err(RowError::UnexpectedType { field: f, value: w }) && f@ == field@ && w@
                == cell_debug_spec(c),
        },
{
    let c = cell_at(row, idx)?;
    match c {
        Cell::Null => Ok(0),
        Cell::Integer(v) => {
            let v = *v;
            if 0 <= v && v <= 4294967295 {
                Ok(v as u32)
            } else {
                Err(RowError::OutOfRange { field: String::from_str(field), value: v })
            }
        },
        _ => Err(type_error(field, c)),
    }
}

/// A persisted message. `created_at` is the RFC 3339 time it was stored.
#[derive(Debug, Clone)]
pub struct StoredMessage {
    pub id: String,
    pub role: String,
    pub content: String,
    pub created_at: String,
}

/// One session as listed or found by a search.
#[derive(Debug, Clone)]
pub struct SessionSummary {
    pub id: String,
    pub title: Option<String>,
    pub model: String,
    pub created_at: String,
    pub updated_at: String,
    pub message_count: u32,
}

/// The text of column `i` when it holds text.
pub open spec fn text_at(row: Seq<Cell>, i: int) -> Option<String> {
    if 0 <= i < row.len() {
        match row[i] {
            Cell::Text(t) => Some(t),
            _ => None,
        }
    } else {
        None
    }
}

/// Whether column `i` is NULL or text.
pub open spec fn optional_text_ok(row: Seq<Cell>, i: int) -> bool {
    0 <= i < row.len() && (row[i] is Null || row[i] is Text)
}

/// Whether column `i` is NULL or an integer in the `u32` range.
pub open spec fn counter_ok(row: Seq<Cell>, i: int) -> bool {
    &&& 0 <= i < row.len()
    &&& (row[i] is Null || (row[i] matches Cell::Integer(v) && 0 <= v <= u32::MAX))
}

/// The value of a counter column that is `counter_ok`.
pub open spec fn counter_value(row: Seq<Cell>, i: int) -> u32 {
    match row[i] {
        Cell::Integer(v) => v as u32,
        _ => 0,
    }
}

/// Whether `e` is the error for reading column `idx` of `row` as
/// `field`: a missing column, or a value of the wrong type.
pub open spec fn column_error(row: Seq<Cell>, idx: int, field: Seq<char>, e: RowError) -> bool {
    if idx >= row.len() {
        e == (RowError::MissingColumn { index: idx as usize, columns: row.len() as usize })
    } else {
        e matches RowError::UnexpectedType { field: f, value: v } && f@ == field && v@ == cell_debug_spec(
            row[idx],
        )
    }
}

/// Whether `e` is the error for reading counter column `idx` of `row` as
/// `field`.
pub open spec fn counter_error(row: Seq<Cell>, idx: int, field: Seq<char>, e: RowError) -> bool {
    if idx < row.len() && row[idx] is Integer {
        e matches RowError::OutOfRange { field: f, value } && f@ == field && value == row[idx]->Integer_0
    } else {
        column_error(row, idx, field, e)
    }
}

/// A message from a row `(id, role, content, created_at)`: every column
/// must hold text. The error is that of the first column that does not.
pub fn stored_message_from_row(row: &Vec<Cell>) -> (r: Result<StoredMessage, RowError>)
    ensures
        r matches Err(e) ==> if text_at(row@, 0) is None {
            column_error(row@, 0, "id"@, e)
        } else if text_at(row@, 1) is None {
            column_error(row@, 1, "role"@, e)
        } else if text_at(row@, 2) is None {
            column_error(row@, 2, "content"@, e)
        } else {
            column_error(row@, 3, "created_at"@, e)
        },
        r is Ok <==> (text_at(row@, 0) is Some && text_at(row@, 1) is Some && text_at(row@, 2) is Some
            && text_at(row@, 3) is Some),
        r matches Ok(m) ==> {
            &&& Some(m.id) == text_at(row@, 0)
            &&& Some(m.role) == text_at(row@, 1)
            &&& Some(m.content) == text_at(row@, 2)
            &&& Some(m.created_at) == text_at(row@, 3)
        },
{
    Ok(
        StoredMessage {
            id: row_text(row, 0, "id")?,
            role: row_text(row, 1, "role")?,
            content: row_text(row, 2, "content")?,
            created_at: row_text(row, 3, "created_at")?,
        },
    )
}

/// A session from a row `(id, title, model, created_at, updated_at,
/// message_count)`: the title may be NULL, a NULL model reads as empty, a
/// NULL count as 0, and the count must fit in a `u32`. The error is that of
/// the first column that cannot be read.
pub fn session_summary_from_row(row: &Vec<Cell>) -> (r: Result<SessionSummary, RowError>)
    ensures
        r matches Err(e) ==> if text_at(row@, 0) is None {
            column_error(row@, 0, "id"@, e)
        } else if !optional_text_ok(row@, 1) {
            column_error(row@, 1, "title"@, e)
        } else if !optional_text_ok(row@, 2) {
            column_error(row@, 2, "model"@, e)
        } else if text_at(row@, 3) is None {
            column_error(row@, 3, "created_at"@, e)
        } else if text_at(row@, 4) is None {
            column_error(row@, 4, "updated_at"@, e)
        } else {
            counter_error(row@, 5, "message_count"@, e)
        },
        r is Ok <==> (text_at(row@, 0) is Some && optional_text_ok(row@, 1) && optional_text_ok(row@, 2)
            && text_at(row@, 3) is Some && text_at(row@, 4) is Some && counter_ok(row@, 5)),
        r matches Ok(s) ==> {
            &&& Some(s.id) == text_at(row@, 0)
            &&& s.title == text_at(row@, 1)
            &&& (match text_at(row@, 2) {
                Some(m) => s.model == m,
                None => s.model@ == Seq::<char>::empty(),
            })
            &&& Some(s.created_at) == text_at(row@, 3)
            &&& Some(s.updated_at) == text_at(row@, 4)
            &&& s.message_count == counter_value(row@, 5)
        },
{
    let id = row_text(row, 0, "id")?;
    let title = row_optional_text(row, 1, "title")?;
    let model = match row_optional_text(row, 2, "model")? {
        Some(m) => m,
        None => String::new(),
    };
    let created_at = row_text(row, 3, "created_at")?;
    let updated_at = row_text(row, 4, "updated_at")?;
    let message_count = row_u32(row, 5, "message_count")?;
    Ok(SessionSummary { id, title, model, created_at, updated_at, message_count })
}

/// The `LIKE` pattern of a search: the query anywhere in the text.
pub fn search_pattern(query: &str) -> (r: String)
    ensures
        r@ == "%"@ + query@ + "%"@,
{
    let mut s = String::from_str("%");
    s.append(query);
    s.append("%");
    s
}

} // verus!
