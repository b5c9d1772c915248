//! What holds of the transform for every sheet and every region table.

use vstd::prelude::*;
use crate::cell::{cell_text, CellValue};
use crate::region::{
    code_text, first_match, lemma_first_match_in, mapped_text, table_is, xuzhou_table,
    RegionEntry,
};
use crate::table::{is_first_column, no_column, out_row, out_rows};
use crate::text::{contains_seq, occurs_at};

verus! {

/// A header that holds the requested name in exactly one cell resolves to
/// that cell's index and to no other.
pub proof fn lemma_unique_header_resolves(header: Seq<CellValue>, name: Seq<char>, i: int)
    requires
        0 <= i < header.len(),
        cell_text(header[i]) == name,
        forall|j: int| 0 <= j < header.len() && j != i ==> cell_text(#[trigger] header[j]) != name,
    ensures
        is_first_column(header, name, i),
        forall|k: int| #[trigger] is_first_column(header, name, k) ==> k == i,
        !no_column(header, name),
{
}

/// A header that does not hold the requested name has no target column.
pub proof fn lemma_missing_header_fails(header: Seq<CellValue>, name: Seq<char>)
    requires
        forall|j: int| 0 <= j < header.len() ==> cell_text(#[trigger] header[j]) != name,
    ensures
        no_column(header, name),
        forall|k: int| !(#[trigger] is_first_column(header, name, k)),
{
}

/// When exactly one entry's key occurs in `t`, the lookup finds that entry.
pub proof fn lemma_single_key_found(table: Seq<RegionEntry>, t: Seq<char>, k: int)
    requires
        0 <= k < table.len(),
        contains_seq(t, table[k].key@),
        forall|j: int|
            0 <= j < table.len() && j != k ==> !contains_seq(t, #[trigger] table[j].key@),
    ensures
        first_match(table, t) == Some(k),
        mapped_text(table, t) == table[k].full_name@,
        code_text(table, t) == table[k].code@,
{
    lemma_first_match_in(table, t, table.len() as int);
}

/// In a data row whose target cell holds exactly one entry's key, the cell
/// becomes that entry's full name and the appended cell holds its code.
pub proof fn lemma_single_key_row(
    table: Seq<RegionEntry>,
    row: Seq<CellValue>,
    r: int,
    col: int,
    k: int,
)
    requires
        r > 0,
        0 <= col < row.len(),
        0 <= k < table.len(),
        contains_seq(cell_text(row[col]), table[k].key@),
        forall|j: int|
            0 <= j < table.len() && j != k ==> !contains_seq(
                cell_text(row[col]),
                #[trigger] table[j].key@,
            ),
    ensures
        out_row(table, row, r, col)[col] == table[k].full_name@,
        out_row(table, row, r, col)[row.len() as int] == table[k].code@,
{
    lemma_single_key_found(table, cell_text(row[col]), k);
}

/// In a data row whose target cell holds no key, the cell keeps its text and
/// the appended cell is empty.
pub proof fn lemma_no_key_row(table: Seq<RegionEntry>, row: Seq<CellValue>, r: int, col: int)
    requires
        r > 0,
        0 <= col < row.len(),
        forall|j: int| 0 <= j < table.len() ==> !contains_seq(cell_text(row[col]), #[trigger] table[j].key@),
    ensures
        out_row(table, row, r, col)[col] == cell_text(row[col]),
        out_row(table, row, r, col)[row.len() as int] == Seq::<char>::empty(),
{
    lemma_first_match_in(table, cell_text(row[col]), table.len() as int);
}

/// The transform keeps the number of rows, and every row, the header
/// included, gains exactly one cell after its own last cell.
pub proof fn lemma_shape(table: Seq<RegionEntry>, rows: Seq<Vec<CellValue>>, col: int)
    ensures
        out_rows(table, rows, col).len() == rows.len(),
        forall|r: int|
            0 <= r < rows.len() ==> (#[trigger] out_rows(table, rows, col)[r]).len() == rows[r]@.len() + 1,
{
}

/// Every cell outside the target column keeps its display text.
pub proof fn lemma_other_cells_kept(
    table: Seq<RegionEntry>,
    row: Seq<CellValue>,
    r: int,
    col: int,
    j: int,
)
    requires
        0 <= j < row.len(),
        j != col,
    ensures
        out_row(table, row, r, col)[j] == cell_text(row[j]),
{
}

/// When every full name of the table maps to itself, mapping a mapped text
/// again leaves it as it is.
pub proof fn lemma_second_pass_kept(table: Seq<RegionEntry>, t: Seq<char>)
    requires
        forall|i: int|
            0 <= i < table.len() ==> mapped_text(table, #[trigger] table[i].full_name@)
                == table[i].full_name@,
    ensures
        mapped_text(table, mapped_text(table, t)) == mapped_text(table, t),
{
    lemma_first_match_in(table, t, table.len() as int);
    if let Some(k) = first_match(table, t) {
        assert(mapped_text(table, table[k].full_name@) == table[k].full_name@);
    }
}

/// When no full name of the table holds any key, every full name maps to
/// itself, so a second pass leaves the target column as it is.
pub proof fn lemma_second_pass_kept_without_nested_keys(table: Seq<RegionEntry>, t: Seq<char>)
    requires
        forall|i: int, j: int|
            0 <= i < table.len() && 0 <= j < table.len() ==> !contains_seq(
                #[trigger] table[i].full_name@,
                #[trigger] table[j].key@,
            ),
    ensures
        forall|i: int|
            0 <= i < table.len() ==> mapped_text(table, #[trigger] table[i].full_name@)
                == table[i].full_name@,
        mapped_text(table, mapped_text(table, t)) == mapped_text(table, t),
{
    assert forall|i: int| 0 <= i < table.len() implies mapped_text(
        table,
        #[trigger] table[i].full_name@,
    ) == table[i].full_name@ by {
        lemma_first_match_in(table, table[i].full_name@, table.len() as int);
        if let Some(j) = first_match(table, table[i].full_name@) {
            assert(!contains_seq(table[i].full_name@, table[j].key@));
        }
    }
    lemma_second_pass_kept(table, t);
}

/// When the full name that a text maps to holds the key of an entry with
/// another full name, and that entry comes first, mapping again changes it.
pub proof fn lemma_second_pass_changed(table: Seq<RegionEntry>, t: Seq<char>, j: int)
    requires
        first_match(table, t) is Some,
        first_match(table, mapped_text(table, t)) == Some(j),
        table[j].full_name@ != mapped_text(table, t),
    ensures
        mapped_text(table, mapped_text(table, t)) != mapped_text(table, t),
{
}

/// A key whose first character is missing from `hay` does not occur in it.
pub proof fn lemma_absent_first_char(hay: Seq<char>, key: Seq<char>)
    requires
        key.len() > 0,
        forall|p: int| 0 <= p < hay.len() ==> hay[p] != key[0],
    ensures
        !contains_seq(hay, key),
{
    assert forall|p: int| !occurs_at(hay, key, p) by {
        if occurs_at(hay, key, p) {
            assert(hay.subrange(p, p + key.len())[0] == key[0]);
        }
    }
}

/// Entry `i` of the Xuzhou table has its own key inside its full name, and
/// no character that starts another key.
proof fn lemma_xuzhou_entry(i: int)
    requires
        0 <= i < 12,
    ensures
        contains_seq(xuzhou_table()[i].1, xuzhou_table()[i].0),
        forall|j: int|
            0 <= j < 12 && j != i ==> !contains_seq(xuzhou_table()[i].1, #[trigger] xuzhou_table()[j].0),
{
    reveal_strlit("鼓楼");
    reveal_strlit("江苏省徐州市鼓楼区");
    reveal_strlit("云龙");
    reveal_strlit("江苏省徐州市云龙区");
    reveal_strlit("泉山");
    reveal_strlit("江苏省徐州市泉山区");
    reveal_strlit("铜山");
    reveal_strlit("江苏省徐州市铜山区");
    reveal_strlit("丰县");
    reveal_strlit("江苏省徐州市丰县");
    reveal_strlit("睢宁");
    reveal_strlit("江苏省徐州市睢宁县");
    reveal_strlit("开发区");
    reveal_strlit("江苏省徐州市徐州经济技术开发区");
    reveal_strlit("新沂");
    reveal_strlit("江苏省徐州市新沂市");
    reveal_strlit("邳州");
    reveal_strlit("江苏省徐州市邳州市");
    reveal_strlit("工业园");
    reveal_strlit("江苏省徐州市工业园区");
    reveal_strlit("贾汪");
    reveal_strlit("江苏省徐州市贾汪区");
    reveal_strlit("沛县");
    reveal_strlit("江苏省徐州市沛县");
    let full = xuzhou_table()[i].1;
    let key = xuzhou_table()[i].0;
    if i == 0 {
        assert(full.subrange(6, 8) =~= key);
        assert(occurs_at(full, key, 6));
    }
    if i == 1 {
        assert(full.subrange(6, 8) =~= key);
        assert(occurs_at(full, key, 6));
    }
    if i == 2 {
        assert(full.subrange(6, 8) =~= key);
        assert(occurs_at(full, key, 6));
    }
    if i == 3 {
        assert(full.subrange(6, 8) =~= key);
        assert(occurs_at(full, key, 6));
    }
    if i == 4 {
        assert(full.subrange(6, 8) =~= key);
        assert(occurs_at(full, key, 6));
    }
    if i == 5 {
        assert(full.subrange(6, 8) =~= key);
        assert(occurs_at(full, key, 6));
    }
    if i == 6 {
        assert(full.subrange(12, 15) =~= key);
        assert(occurs_at(full, key, 12));
    }
    if i == 7 {
        assert(full.subrange(6, 8) =~= key);
        assert(occurs_at(full, key, 6));
    }
    if i == 8 {
        assert(full.subrange(6, 8) =~= key);
        assert(occurs_at(full, key, 6));
    }
    if i == 9 {
        assert(full.subrange(6, 9) =~= key);
        assert(occurs_at(full, key, 6));
    }
    if i == 10 {
        assert(full.subrange(6, 8) =~= key);
        assert(occurs_at(full, key, 6));
    }
    if i == 11 {
        assert(full.subrange(6, 8) =~= key);
        assert(occurs_at(full, key, 6));
    }
    assert forall|j: int| 0 <= j < 12 && j != i implies !contains_seq(full, #[trigger] xuzhou_table()[j].0) by {
        lemma_absent_first_char(full, xuzhou_table()[j].0);
    }
}

/// In the Xuzhou table every full name maps to itself, so a second pass
/// over the transformed target column leaves it as it is.
pub proof fn lemma_xuzhou_second_pass_kept(table: Seq<RegionEntry>, t: Seq<char>)
    requires
        table_is(table, xuzhou_table()),
    ensures
        forall|i: int|
            0 <= i < table.len() ==> mapped_text(table, #[trigger] table[i].full_name@)
                == table[i].full_name@,
        mapped_text(table, mapped_text(table, t)) == mapped_text(table, t),
{
    assert forall|i: int| 0 <= i < table.len() implies mapped_text(
        table,
        #[trigger] table[i].full_name@,
    ) == table[i].full_name@ by {
        lemma_xuzhou_entry(i);
        assert forall|j: int| 0 <= j < table.len() && j != i implies !contains_seq(
            table[i].full_name@,
            #[trigger] table[j].key@,
        ) by {
            assert(xuzhou_table()[j].0 == table[j].key@);
        }
        lemma_single_key_found(table, table[i].full_name@, i);
    }
    lemma_second_pass_kept(table, t);
}

} // verus!
