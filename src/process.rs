//! The whole operation on an in-memory sheet, its failures, and the
//! three-field result handed back to the caller.

use vstd::prelude::*;
use vstd::string::*;
use crate::cell::CellValue;
use crate::region::RegionEntry;
use crate::table::{find_column, is_first_column, no_column, out_rows, texts, transform};

verus! {

/// Why the operation failed.
#[derive(Clone, Debug)]
pub enum ProcessError {
    /// The input could not be opened as a workbook; carries the cause.
    Open(String),
    /// The workbook holds no sheet.
    NoSheet,
    /// The first sheet could not be read; carries the cause.
    SheetUnreadable(String),
    /// No header cell has the requested name; carries that name.
    ColumnNotFound(String),
    /// The output could not be written or finished; carries the cause.
    Write(String),
}

/// The description of a failure.
pub open spec fn error_text(e: ProcessError) -> Seq<char> {
    match e {
        ProcessError::Open(cause) => cause@,
        ProcessError::NoSheet => "Excel文件中没有工作表"@,
        ProcessError::SheetUnreadable(cause) => "无法读取工作表: "@ + cause@,
        ProcessError::ColumnNotFound(name) => "未找到列名为'"@ + name@ + "'的列"@,
        ProcessError::Write(cause) => cause@,
    }
}

impl ProcessError {
    /// The description of this failure.
    pub fn message(&self) -> (r: String)
        ensures
            r@ == error_text(*self),
    {
        match self {
            ProcessError::Open(cause) => cause.clone(),
            ProcessError::NoSheet => String::from_str("Excel文件中没有工作表"),
            ProcessError::SheetUnreadable(cause) => {
                String::from_str("无法读取工作表: ").concat(cause.as_str())
            },
            ProcessError::ColumnNotFound(name) => {
                String::from_str("未找到列名为'").concat(name.as_str()).concat("'的列")
            },
            ProcessError::Write(cause) => cause.clone(),
        }
    }
}

/// What the caller gets back: whether it worked, a message, and on success
/// the path of the written workbook.
#[derive(Clone, Debug)]
pub struct ProcessResult {
    pub success: bool,
    pub message: String,
    pub output_path: Option<String>,
}

/// The message of a successful run.
pub open spec fn success_text() -> Seq<char> {
    "Excel文件处理成功"@
}

/// The message of a failed run.
pub open spec fn failure_text(e: ProcessError) -> Seq<char> {
    "处理失败: "@ + error_text(e)
}

/// The result of a run that ended as `outcome` and wrote to `output_path`.
pub fn report(outcome: Result<(), ProcessError>, output_path: String) -> (r: ProcessResult)
    ensures
        r.success == outcome is Ok,
        outcome is Ok ==> r.message@ == success_text() && r.output_path == Some(output_path),
        outcome matches Err(e) ==> r.message@ == failure_text(e) && r.output_path is None,
{
    match outcome {
        Ok(()) => ProcessResult {
            success: true,
            message: String::from_str("Excel文件处理成功"),
            output_path: Some(output_path),
        },
        Err(e) => ProcessResult {
            success: false,
            message: String::from_str("处理失败: ").concat(e.message().as_str()),
            output_path: None,
        },
    }
}

/// Transforms a sheet given as rows, header first: finds the first column
/// whose header text is `column_name` and rewrites the sheet around it.
/// Fails with the name when the sheet is empty or no header cell has it.
pub fn process_table(table: &Vec<RegionEntry>, rows: &Vec<Vec<CellValue>>, column_name: &str) -> (r:
    Result<Vec<Vec<String>>, ProcessError>)
    ensures
        match r {
            Ok(out) => rows@.len() > 0 && exists|col: int|
                #[trigger] is_first_column(rows@[0]@, column_name@, col) && out@.len()
                    == rows@.len() && forall|i: int|
                    0 <= i < rows@.len() ==> texts(#[trigger] out@[i]@) == out_rows(
                        table@,
                        rows@,
                        col,
                    )[i],
            Err(e) => {
                &&& rows@.len() == 0 || no_column(rows@[0]@, column_name@)
                &&& e matches ProcessError::ColumnNotFound(name) && name@ == column_name@
            },
        },
{
    if rows.len() == 0 {
        return Err(ProcessError::ColumnNotFound(String::from_str(column_name)));
    }
    match find_column(&rows[0], column_name) {
        Some(col) => {
            let out = transform(table, rows, col);
            assert(is_first_column(rows@[0]@, column_name@, col as int));
            Ok(out)
        },
        None => Err(ProcessError::ColumnNotFound(String::from_str(column_name))),
    }
}

/// The greeting for `name`.
pub fn greet(name: &str) -> (r: String)
    ensures
        r@ == "Hello, "@ + name@ + "! You've been greeted from Rust!"@,
{
    String::from_str("Hello, ").concat(name).concat("! You've been greeted from Rust!")
}

} // verus!
