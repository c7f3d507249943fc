//! How records are laid out where an engine keeps them outside the program:
//! as rows of a table and as files of a directory.

use crate::db::{Record, ALREADY_EXISTS_ERROR, NOT_FOUND_ERROR, SQLITE_ERROR};
use crate::utils::str_eq;
use crate::model::RecordView;
use vstd::prelude::*;
use vstd::string::StringExecFns;

verus! {

/// What a row of the table of records holds: the columns `id`, `data`,
/// `max_clicks`, `created` and `lifetime`. The three numbers are signed
/// integers of 64 bits, as the tables keep them.
pub struct RowView {
    pub id: Seq<char>,
    pub data: Seq<char>,
    pub max_clicks: int,
    pub created: int,
    pub lifetime: int,
}

/// A row of the table of records.
pub struct Row {
    pub id: String,
    pub data: String,
    pub max_clicks: i64,
    pub created: i64,
    pub lifetime: i64,
}

impl View for Row {
    type V = RowView;

    open spec fn view(&self) -> RowView {
        RowView {
            id: self.id@,
            data: self.data@,
            max_clicks: self.max_clicks as int,
            created: self.created as int,
            lifetime: self.lifetime as int,
        }
    }
}

/// The longest lifetime that a row can tell.
pub open spec fn max_row_lifetime() -> int {
    0x7fff_ffff_ffff_ffff
}

/// The row that keeps the record `rec`. A lifetime beyond what the column can
/// tell is kept as the longest that it can.
pub open spec fn row_of(rec: RecordView) -> RowView {
    RowView {
        id: rec.id,
        data: rec.data,
        max_clicks: rec.max_clicks as int,
        created: rec.created,
        lifetime: if rec.lifetime > max_row_lifetime() {
            max_row_lifetime()
        } else {
            rec.lifetime as int
        },
    }
}

/// Whether `row` tells a record: it has at least one read left, and no more
/// than a record can count; its lifetime is not negative.
pub open spec fn tells_record(row: RowView) -> bool {
    &&& 1 <= row.max_clicks <= 0xffff_ffff
    &&& 0 <= row.lifetime
}

/// The record that `row` tells.
pub open spec fn record_of(row: RowView) -> RecordView
    recommends
        tells_record(row),
{
    RecordView {
        id: row.id,
        data: row.data,
        max_clicks: row.max_clicks as nat,
        created: row.created,
        lifetime: row.lifetime as nat,
    }
}

impl Row {
    /// The row that keeps `rec`.
    pub fn from_record(rec: &Record) -> (row: Row)
        ensures
            row@ == row_of(rec@),
            tells_record(row@),
    {
        let lifetime: i64 = if rec.lifetime() > i64::MAX as u64 {
            i64::MAX
        } else {
            rec.lifetime() as i64
        };
        Row {
            id: rec.id().clone(),
            data: rec.data().clone(),
            max_clicks: rec.max_clicks() as i64,
            created: rec.created(),
            lifetime,
        }
    }

    /// The record that the row tells, or `None` where it tells none.
    pub fn into_record(self) -> (r: Option<Record>)
        ensures
            match r {
                Some(rec) => tells_record(self@) && rec@ == record_of(self@),
                None => !tells_record(self@),
            },
    {
        if self.max_clicks < 1 || self.max_clicks > u32::MAX as i64 || self.lifetime < 0 {
            None
        } else {
            Record::from_parts(
                self.id,
                self.data,
                self.max_clicks as u32,
                self.created,
                self.lifetime as u64,
            )
        }
    }
}

/// A record comes back from its row as it went in, as long as its lifetime is
/// one that a row can tell.
pub proof fn law_row_round_trip(rec: RecordView)
    requires
        1 <= rec.max_clicks <= 0xffff_ffff,
        rec.lifetime <= max_row_lifetime(),
    ensures
        tells_record(row_of(rec)),
        record_of(row_of(rec)) == rec,
{
}

/// The one record among the rows that a query by identifier found, or
/// `NOT_FOUND_ERROR` where it found none. Such a query finds one row at most.
pub fn single_row(rows: Vec<Record>) -> (r: Result<Record, &'static str>)
    requires
        rows.len() <= 1,
    ensures
        match r {
            Ok(rec) => rows.len() == 1 && rec@ == rows[0]@,
            Err(e) => e == NOT_FOUND_ERROR && rows.len() == 0,
        },
{
    let mut rows = rows;
    match rows.pop() {
        Some(rec) => Ok(rec),
        None => Err(NOT_FOUND_ERROR),
    }
}

/// How a step of a query by identifier ended.
#[derive(Clone, Copy, Debug, PartialEq, Eq, Structural)]
pub enum Stepped {
    /// At a row: the record was found.
    Row,
    /// At the end of the rows, before any: there is no such record.
    Done,
    /// The step failed.
    Failed,
}

/// What a step of a query by identifier says of the record: a row is there to
/// be read; the end of the rows is "not found"; a step that failed is a
/// failure of the engine, not "not found".
pub fn step_answer(step: Stepped) -> (r: Result<bool, &'static str>)
    ensures
        step == Stepped::Row ==> r == Ok::<bool, &'static str>(true),
        step == Stepped::Done ==> r == Err::<bool, &'static str>(NOT_FOUND_ERROR),
        step == Stepped::Failed ==> r == Err::<bool, &'static str>(SQLITE_ERROR),
{
    match step {
        Stepped::Row => Ok(true),
        Stepped::Done => Err(NOT_FOUND_ERROR),
        Stepped::Failed => Err(SQLITE_ERROR),
    }
}

/// Whether an identifier is free, from what a look for its record found: a
/// record that was found says that it is taken, `ALREADY_EXISTS_ERROR`; "not
/// found" says that it is free; any other failure of the look stands.
pub fn free_identifier(found: Result<Record, &'static str>) -> (r: Result<(), &'static str>)
    ensures
        match found {
            Ok(_) => r == Err::<(), &'static str>(ALREADY_EXISTS_ERROR),
            Err(e) => if e@ == NOT_FOUND_ERROR@ {
                r is Ok
            } else {
                r == Err::<(), &'static str>(e)
            },
        },
{
    match found {
        Ok(_) => Err(ALREADY_EXISTS_ERROR),
        Err(e) => {
            if str_eq(e, NOT_FOUND_ERROR) {
                Ok(())
            } else {
                Err(e)
            }
        },
    }
}

/// Whether a statement found its record, from the number of rows that it
/// changed: none says that there was no such record, `NOT_FOUND_ERROR`.
pub fn changed_rows(count: u64) -> (r: Result<(), &'static str>)
    ensures
        count == 0 ==> r == Err::<(), &'static str>(NOT_FOUND_ERROR),
        count != 0 ==> r is Ok,
{
    if count == 0 {
        Err(NOT_FOUND_ERROR)
    } else {
        Ok(())
    }
}

/// The path of the file that keeps the record `id` in the directory
/// `dir_path`: the directory, a slash and the identifier.
pub fn file_path(dir_path: &String, id: &String) -> (path: String)
    ensures
        path@ == dir_path@ + "/"@ + id@,
{
    let mut path = dir_path.clone();
    path.append("/");
    path.append(id.as_str());
    path
}

} // verus!
