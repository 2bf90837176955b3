use vstd::prelude::*;
use vstd::string::*;
use vstd::utf8::encode_utf8;
use crate::cache_error::{with_cause, CacheError, ErrorKind};
use crate::layout::{byte_width, cells_line, column_width, rule, rule_line, two_cells, widest};
use crate::record::{content_of, has_name, inserted_if_absent, upserted, Record};
use crate::table::{no_table_text, Table, TableState};

verus! {

/// A record of the cache: the key it is stored under and its payload.
#[derive(Debug, PartialEq, Eq)]
pub struct CacheData {
    pub name: String,
    pub content: String,
}

impl View for CacheData {
    type V = Record;

    open spec fn view(&self) -> Record {
        Record { name: self.name@, content: self.content@ }
    }
}

impl Clone for CacheData {
    /// A record with the same name and payload.
    fn clone(&self) -> (c: CacheData)
        ensures
            c@ == self@,
    {
        CacheData { name: self.name.clone(), content: self.content.clone() }
    }
}

/// The records that a list of rows stands for, in the same order.
pub open spec fn records(rows: Seq<CacheData>) -> Seq<Record> {
    Seq::new(rows.len(), |i: int| rows[i]@)
}

/// The message of a lookup that failed.
pub open spec fn retrieve_message(name: Seq<char>) -> Seq<char> {
    "Could not retrieve cache for name "@ + name
}

/// The cause that a lookup gives where no record has the name.
pub open spec fn no_rows_text() -> Seq<char> {
    "no rows returned by a query that expected to return at least one row"@
}

/// What a statement that returns nothing came to: done, or a failure of the
/// store whose text is the message followed by the cause.
pub fn finish_write(outcome: Result<(), String>, message: &str) -> (r: Result<(), CacheError>)
    ensures
        match outcome {
            Ok(_) => r is Ok,
            Err(cause) => r is Err && r->Err_0.kind_of() == ErrorKind::Backend
                && r->Err_0.text() == with_cause(message@, cause@),
        },
{
    match outcome {
        Ok(_) => Ok(()),
        Err(cause) => Err(CacheError::caused(ErrorKind::Backend, message, cause.as_str())),
    }
}

/// What a lookup by name came to: the record, a not-found error where the
/// store had no row for the name, or a failure of the store.
pub fn finish_select(name: &str, outcome: Result<Option<CacheData>, String>) -> (r: Result<
    CacheData,
    CacheError,
>)
    ensures
        match outcome {
            Ok(Some(row)) => r == Ok::<CacheData, CacheError>(row),
            Ok(None) => r is Err && r->Err_0.kind_of() == ErrorKind::NotFound
                && r->Err_0.text() == with_cause(retrieve_message(name@), no_rows_text()),
            Err(cause) => r is Err && r->Err_0.kind_of() == ErrorKind::Backend
                && r->Err_0.text() == with_cause(retrieve_message(name@), cause@),
        },
{
    match outcome {
        Ok(Some(row)) => Ok(row),
        Ok(None) => {
            let mut message = String::from_str("Could not retrieve cache for name ");
            message.append(name);
            Err(
                CacheError::caused(
                    ErrorKind::NotFound,
                    message.as_str(),
                    "no rows returned by a query that expected to return at least one row",
                ),
            )
        },
        Err(cause) => {
            let mut message = String::from_str("Could not retrieve cache for name ");
            message.append(name);
            Err(CacheError::caused(ErrorKind::Backend, message.as_str(), cause.as_str()))
        },
    }
}

/// What a scan of the whole table came to: the rows as they came, or a
/// failure of the store.
pub fn finish_select_all(outcome: Result<Vec<CacheData>, String>) -> (r: Result<
    Vec<CacheData>,
    CacheError,
>)
    ensures
        match outcome {
            Ok(rows) => r == Ok::<Vec<CacheData>, CacheError>(rows),
            Err(cause) => r is Err && r->Err_0.kind_of() == ErrorKind::Backend
                && r->Err_0.text() == with_cause(
                "Could not retrieve data from Database"@,
                cause@,
            ),
        },
{
    match outcome {
        Ok(rows) => Ok(rows),
        Err(cause) => Err(
            CacheError::caused(
                ErrorKind::Backend,
                "Could not retrieve data from Database",
                cause.as_str(),
            ),
        ),
    }
}

/// Drops the table with all its records. Succeeds whether or not the table
/// was there.
pub fn drop_table(table: &mut Table) -> (r: Result<(), CacheError>)
    requires
        old(table).wf(),
    ensures
        final(table).wf(),
        r is Ok,
        final(table)@ == TableState::dropped(),
{
    finish_write(table.drop_table(), "Could not Drop DB table \"cache\"")
}

/// Creates the table where it is missing. Succeeds, and keeps the records,
/// where it is there already.
pub fn create_table(table: &mut Table) -> (r: Result<(), CacheError>)
    requires
        old(table).wf(),
    ensures
        final(table).wf(),
        r is Ok,
        final(table)@ == old(table)@.ensured(),
{
    finish_write(table.ensure_table(), "Could not create table")
}

/// Stores the payload under the name; the last writer wins. Fails, as a
/// failure of the store that changes nothing, exactly where the table is
/// missing.
pub fn insert_into_db(table: &mut Table, cache_name: &str, content: &str) -> (r: Result<
    (),
    CacheError,
>)
    requires
        old(table).wf(),
    ensures
        final(table).wf(),
        old(table)@.exists ==> r is Ok && final(table)@ == (TableState {
            exists: true,
            rows: upserted(old(table)@.rows, cache_name@, content@),
        }),
        !old(table)@.exists ==> r is Err && r->Err_0.kind_of() == ErrorKind::Backend
            && r->Err_0.text() == with_cause("Could not insert into DB!"@, no_table_text())
            && final(table)@ == old(table)@,
{
    finish_write(table.upsert(cache_name, content), "Could not insert into DB!")
}

/// Stores the payload under the name where the name has no record yet. Where
/// it has one the call succeeds and changes nothing. Fails, as a failure of
/// the store, exactly where the table is missing.
pub fn insert_into_db_if_not_exist(table: &mut Table, cache_name: &str, content: &str) -> (r:
    Result<(), CacheError>)
    requires
        old(table).wf(),
    ensures
        final(table).wf(),
        old(table)@.exists ==> r is Ok && final(table)@ == (TableState {
            exists: true,
            rows: inserted_if_absent(old(table)@.rows, cache_name@, content@),
        }),
        !old(table)@.exists ==> r is Err && r->Err_0.kind_of() == ErrorKind::Backend
            && r->Err_0.text() == with_cause("Could not insert into DB!"@, no_table_text())
            && final(table)@ == old(table)@,
{
    finish_write(table.insert_if_absent(cache_name, content), "Could not insert into DB!")
}

/// The record stored under the name. Where no record has the name the error
/// is of kind `NotFound`; where the table is missing it is a failure of the
/// store.
pub fn select_from_db(table: &Table, cache_name: &str) -> (r: Result<CacheData, CacheError>)
    requires
        table.wf(),
    ensures
        match r {
            Ok(row) => table@.exists && has_name(table@.rows, cache_name@) && row@ == (Record {
                name: cache_name@,
                content: content_of(table@.rows, cache_name@),
            }),
            Err(e) => if table@.exists {
                !has_name(table@.rows, cache_name@) && e.kind_of() == ErrorKind::NotFound
                    && e.text() == with_cause(retrieve_message(cache_name@), no_rows_text())
            } else {
                e.kind_of() == ErrorKind::Backend && e.text() == with_cause(
                    retrieve_message(cache_name@),
                    no_table_text(),
                )
            },
        },
{
    finish_select(cache_name, table.query_one(cache_name))
}

/// Every record of the table, in the order in which the names first came.
/// Fails, as a failure of the store, exactly where the table is missing.
pub fn select_all_from_cache(table: &Table) -> (r: Result<Vec<CacheData>, CacheError>)
    requires
        table.wf(),
    ensures
        match r {
            Ok(rows) => table@.exists && records(rows@) == table@.rows,
            Err(e) => !table@.exists && e.kind_of() == ErrorKind::Backend && e.text()
                == with_cause("Could not retrieve data from Database"@, no_table_text()),
        },
{
    finish_select_all(table.query_all())
}

/// The names of the records, in their order.
pub open spec fn names(rows: Seq<Record>) -> Seq<Seq<char>> {
    Seq::new(rows.len(), |i: int| rows[i].name)
}

/// The payloads of the records, in their order.
pub open spec fn contents(rows: Seq<Record>) -> Seq<Seq<char>> {
    Seq::new(rows.len(), |i: int| rows[i].content)
}

/// The width of the name column: the byte length of the longest name, or
/// that of the heading where there is no record.
pub open spec fn name_width(rows: Seq<Record>) -> usize {
    column_width(names(rows), 4)
}

/// The width of the content column: the byte length of the longest payload,
/// or that of the heading where there is no record.
pub open spec fn content_width(rows: Seq<Record>) -> usize {
    column_width(contents(rows), 7)
}

/// The heading: both titles padded to the wider of the two columns.
pub open spec fn header_line(rows: Seq<Record>) -> Seq<char> {
    let width = if name_width(rows) > content_width(rows) {
        name_width(rows)
    } else {
        content_width(rows)
    };
    two_cells("Name"@, width, "Content"@, width)
}

/// The line of the record at `i`: each cell padded to its column.
pub open spec fn row_line(rows: Seq<Record>, i: int) -> Seq<char> {
    two_cells(rows[i].name, name_width(rows), rows[i].content, content_width(rows))
}

/// The line that closes the listing.
pub open spec fn footer_line() -> Seq<char> {
    "\nEnd----------------------\u{1F9D0}\n"@
}

/// The whole listing: heading, rule, one line for each record in order, and
/// the closing line.
pub open spec fn table_lines(rows: Seq<Record>) -> Seq<Seq<char>> {
    Seq::new(
        rows.len() + 3,
        |i: int|
            if i == 0 {
                header_line(rows)
            } else if i == 1 {
                rule(name_width(rows), content_width(rows))
            } else if i < rows.len() + 2 {
                row_line(rows, i - 2)
            } else {
                footer_line()
            },
    )
}

/// The texts of a list of lines.
pub open spec fn texts(lines: Seq<String>) -> Seq<Seq<char>> {
    Seq::new(lines.len(), |i: int| lines[i]@)
}

/// The widths of the two columns of a listing of the rows.
pub fn column_widths(list_of_rows: &Vec<CacheData>) -> (widths: (usize, usize))
    ensures
        widths.0 == name_width(records(list_of_rows@)),
        widths.1 == content_width(records(list_of_rows@)),
{
    if list_of_rows.len() == 0 {
        return (4, 7);
    }
    let ghost rows = records(list_of_rows@);
    let mut name_width: usize = 0;
    let mut content_width: usize = 0;
    let mut i: usize = 0;
    while i < list_of_rows.len()
        invariant
            i <= list_of_rows.len(),
            rows == records(list_of_rows@),
            name_width == widest(names(rows).take(i as int)),
            content_width == widest(contents(rows).take(i as int)),
        decreases list_of_rows.len() - i,
    {
        let name_len = list_of_rows[i].name.as_str().len();
        let content_len = list_of_rows[i].content.as_str().len();
        proof {
            let next = i + 1;
            assert(names(rows).take(next).drop_last() =~= names(rows).take(i as int));
            assert(contents(rows).take(next).drop_last() =~= contents(rows).take(i as int));
            assert(names(rows).take(next).last() == list_of_rows[i as int].name@);
            assert(contents(rows).take(next).last() == list_of_rows[i as int].content@);
            assert(name_len == byte_width(list_of_rows[i as int].name@));
            assert(content_len == byte_width(list_of_rows[i as int].content@));
        }
        if name_len > name_width {
            name_width = name_len;
        }
        if content_len > content_width {
            content_width = content_len;
        }
        i += 1;
    }
    proof {
        assert(names(rows).take(i as int) =~= names(rows));
        assert(contents(rows).take(i as int) =~= contents(rows));
    }
    (name_width, content_width)
}

/// Lays the records out as the lines of a two-column listing, for a log or a
/// display: a heading, a rule, one line for each record, a closing line.
pub fn print_all_cache(list_of_rows: &Vec<CacheData>) -> (lines: Vec<String>)
    ensures
        texts(lines@) == table_lines(records(list_of_rows@)),
{
    let ghost rows = records(list_of_rows@);
    let (name_width, content_width) = column_widths(list_of_rows);
    let header_width = if name_width > content_width {
        name_width
    } else {
        content_width
    };
    let mut lines: Vec<String> = Vec::new();
    lines.push(cells_line("Name", header_width, "Content", header_width));
    lines.push(rule_line(name_width, content_width));
    let mut i: usize = 0;
    while i < list_of_rows.len()
        invariant
            i <= list_of_rows.len(),
            rows == records(list_of_rows@),
            name_width == self::name_width(rows),
            content_width == self::content_width(rows),
            lines@.len() == i + 2,
            forall|j: int| 0 <= j < i + 2 ==> (#[trigger] lines@[j])@ == table_lines(rows)[j],
        decreases list_of_rows.len() - i,
    {
        let row = &list_of_rows[i];
        lines.push(cells_line(row.name.as_str(), name_width, row.content.as_str(), content_width));
        i += 1;
    }
    lines.push(String::from_str("\nEnd----------------------\u{1F9D0}\n"));
    assert(texts(lines@) =~= table_lines(rows));
    lines
}

} // verus!
