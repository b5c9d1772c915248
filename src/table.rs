//! The sheet transform: find the target column by its header, expand the
//! district names in it, and append a code column to every row.

use vstd::prelude::*;
use vstd::string::*;
use crate::cell::{cell_text, normalize, CellValue};
use crate::region::{code_text, first_match, mapped_text, resolve, RegionEntry};

verus! {

/// The header of the appended column: "province, city and district code".
pub open spec fn code_header() -> Seq<char> {
    "省市区编码"@
}

/// The texts of a row of strings.
pub open spec fn texts(v: Seq<String>) -> Seq<Seq<char>> {
    v.map_values(|s: String| s@)
}

/// The display text of cell `i` of `row`, empty where the row is too short.
pub open spec fn text_at(row: Seq<CellValue>, i: int) -> Seq<char> {
    if 0 <= i < row.len() {
        cell_text(row[i])
    } else {
        Seq::empty()
    }
}

/// Column `i` is the first whose header text is `name`.
pub open spec fn is_first_column(header: Seq<CellValue>, name: Seq<char>, i: int) -> bool {
    &&& 0 <= i < header.len()
    &&& cell_text(header[i]) == name
    &&& forall|j: int| 0 <= j < i ==> cell_text(#[trigger] header[j]) != name
}

/// No header cell has the text `name`.
pub open spec fn no_column(header: Seq<CellValue>, name: Seq<char>) -> bool {
    forall|j: int| 0 <= j < header.len() ==> cell_text(#[trigger] header[j]) != name
}

/// What row `r` of the sheet becomes when column `col` is the target.
///
/// The header row keeps its texts and gains the code header. A data row has
/// its target cell mapped, keeps its other texts, and gains the code of its
/// target cell; the code goes right after the row's own last cell, so each
/// row gains exactly one cell whatever its length.
pub open spec fn out_row(table: Seq<RegionEntry>, row: Seq<CellValue>, r: int, col: int) -> Seq<
    Seq<char>,
> {
    if r == 0 {
        row.map_values(|c: CellValue| cell_text(c)).push(code_header())
    } else {
        Seq::new(
            row.len(),
            |j: int|
                if j == col {
                    mapped_text(table, cell_text(row[j]))
                } else {
                    cell_text(row[j])
                },
        ).push(code_text(table, text_at(row, col)))
    }
}

/// The whole sheet after the transform.
pub open spec fn out_rows(table: Seq<RegionEntry>, rows: Seq<Vec<CellValue>>, col: int) -> Seq<
    Seq<Seq<char>>,
> {
    Seq::new(rows.len(), |r: int| out_row(table, rows[r]@, r, col))
}

/// The index of the first cell of `header` whose display text is `name`.
pub fn find_column(header: &Vec<CellValue>, name: &str) -> (r: Option<usize>)
    ensures
        match r {
            Some(i) => is_first_column(header@, name@, i as int),
            None => no_column(header@, name@),
        },
{
    let target = String::from_str(name);
    let mut i: usize = 0;
    while i < header.len()
        invariant
            i <= header@.len(),
            target@ == name@,
            forall|j: int| 0 <= j < i ==> cell_text(#[trigger] header@[j]) != name@,
        decreases header@.len() - i,
    {
        let t = normalize(&header[i]);
        if t == target {
            return Some(i);
        }
        i = i + 1;
    }
    None
}

/// What the target cell text becomes.
pub fn map_text(table: &Vec<RegionEntry>, text: &String) -> (r: String)
    ensures
        r@ == mapped_text(table@, text@),
{
    match resolve(table, text.as_str()) {
        Some(k) => table[k].full_name.clone(),
        None => text.clone(),
    }
}

/// The code for the target cell text, or the empty text.
pub fn code_for(table: &Vec<RegionEntry>, text: &String) -> (r: String)
    ensures
        r@ == code_text(table@, text@),
{
    match resolve(table, text.as_str()) {
        Some(k) => table[k].code.clone(),
        None => String::new(),
    }
}

/// Row `r` of the sheet after the transform, with column `col` as target.
pub fn transform_row(table: &Vec<RegionEntry>, row: &Vec<CellValue>, r: usize, col: usize) -> (out: Vec<String>)
    ensures
        texts(out@) == out_row(table@, row@, r as int, col as int),
{
    let mut out: Vec<String> = Vec::new();
    let mut j: usize = 0;
    while j < row.len()
        invariant
            j <= row@.len(),
            out@.len() == j,
            forall|k: int|
                0 <= k < j ==> (#[trigger] out@[k])@ == (if r != 0 && k == col {
                    mapped_text(table@, cell_text(row@[k]))
                } else {
                    cell_text(row@[k])
                }),
        decreases row@.len() - j,
    {
        let t = normalize(&row[j]);
        if r != 0 && j == col {
            out.push(map_text(table, &t));
        } else {
            out.push(t);
        }
        j = j + 1;
    }
    if r == 0 {
        out.push(String::from_str("省市区编码"));
    } else {
        let target_text = if col < row.len() {
            normalize(&row[col])
        } else {
            String::new()
        };
        out.push(code_for(table, &target_text));
    }
    assert(texts(out@) =~= out_row(table@, row@, r as int, col as int));
    out
}

/// The whole sheet after the transform, with column `col` as target.
pub fn transform(table: &Vec<RegionEntry>, rows: &Vec<Vec<CellValue>>, col: usize) -> (out: Vec<
    Vec<String>,
>)
    ensures
        out@.len() == rows@.len(),
        forall|r: int| 0 <= r < rows@.len() ==> texts(#[trigger] out@[r]@) == out_rows(table@, rows@, col as int)[r],
{
    let mut out: Vec<Vec<String>> = Vec::new();
    let mut r: usize = 0;
    while r < rows.len()
        invariant
            r <= rows@.len(),
            out@.len() == r,
            forall|k: int| 0 <= k < r ==> texts(#[trigger] out@[k]@) == out_row(table@, rows@[k]@, k, col as int),
        decreases rows@.len() - r,
    {
        let row_out = transform_row(table, &rows[r], r, col);
        out.push(row_out);
        r = r + 1;
    }
    out
}

} // verus!
