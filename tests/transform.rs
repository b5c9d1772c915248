use region_coder::cell::{integer_text, normalize, CellValue};
use region_coder::process::{greet, process_table, report, ProcessError};
use region_coder::region::{default_regions, entry, resolve, RegionEntry};
use region_coder::table::{find_column, map_text, transform, transform_row};
use region_coder::text::contains_text;

fn text(s: &str) -> CellValue {
    CellValue::Text(s.to_string())
}

fn strings(v: &[&str]) -> Vec<String> {
    v.iter().map(|s| s.to_string()).collect()
}

fn run(rows: Vec<Vec<CellValue>>, column: &str) -> Vec<Vec<String>> {
    match process_table(&default_regions(), &rows, column) {
        Ok(out) => out,
        Err(e) => panic!("unexpected failure: {}", e.message()),
    }
}

#[test]
fn example_gulou_store() {
    let rows = vec![vec![text("区域"), text("销量")], vec![text("鼓楼店"), text("100")]];
    let out = run(rows, "区域");
    assert_eq!(out.len(), 2);
    assert_eq!(out[0], strings(&["区域", "销量", "省市区编码"]));
    assert_eq!(out[1], strings(&["江苏省徐州市鼓楼区", "100", "320000,320300,320302"]));
}

#[test]
fn example_gulou_store_with_integer_sales() {
    let rows = vec![vec![text("区域"), text("销量")], vec![text("鼓楼店"), CellValue::Int(100)]];
    let out = run(rows, "区域");
    assert_eq!(out[1], strings(&["江苏省徐州市鼓楼区", "100", "320000,320300,320302"]));
}

#[test]
fn example_unmatched_row_kept() {
    let rows = vec![vec![text("区域"), text("销量")], vec![text("上海"), text("50")]];
    let out = run(rows, "区域");
    assert_eq!(out[1], strings(&["上海", "50", ""]));
}

#[test]
fn failure_result_for_missing_input() {
    let e = ProcessError::Open("No such file or directory (os error 2)".to_string());
    let r = report(Err(e), "out.xlsx".to_string());
    assert!(!r.success);
    assert!(r.message.contains("处理失败"));
    assert_eq!(r.message, "处理失败: No such file or directory (os error 2)");
    assert_eq!(r.output_path, None);
}

#[test]
fn success_result_echoes_output_path() {
    let r = report(Ok(()), "/tmp/out.xlsx".to_string());
    assert!(r.success);
    assert_eq!(r.message, "Excel文件处理成功");
    assert_eq!(r.output_path, Some("/tmp/out.xlsx".to_string()));
}

#[test]
fn column_not_found_names_the_column() {
    let rows = vec![vec![text("地区"), text("销量")], vec![text("鼓楼店"), text("1")]];
    match process_table(&default_regions(), &rows, "区域") {
        Err(ProcessError::ColumnNotFound(name)) => assert_eq!(name, "区域"),
        _ => panic!("expected a missing column"),
    }
    let e = ProcessError::ColumnNotFound("区域".to_string());
    assert_eq!(e.message(), "未找到列名为'区域'的列");
    let r = report(Err(e), "out.xlsx".to_string());
    assert_eq!(r.message, "处理失败: 未找到列名为'区域'的列");
}

#[test]
fn empty_sheet_has_no_column() {
    let rows: Vec<Vec<CellValue>> = Vec::new();
    assert!(matches!(
        process_table(&default_regions(), &rows, "区域"),
        Err(ProcessError::ColumnNotFound(_))
    ));
}

#[test]
fn other_error_messages() {
    assert_eq!(ProcessError::NoSheet.message(), "Excel文件中没有工作表");
    assert_eq!(
        ProcessError::SheetUnreadable("bad xml".to_string()).message(),
        "无法读取工作表: bad xml"
    );
    assert_eq!(ProcessError::Write("disk full".to_string()).message(), "disk full");
    assert_eq!(ProcessError::Open("not a zip".to_string()).message(), "not a zip");
}

#[test]
fn first_matching_header_wins() {
    let header = vec![text("a"), text("区域"), text("区域")];
    assert_eq!(find_column(&header, "区域"), Some(1));
    assert_eq!(find_column(&header, "区"), None);
    assert_eq!(find_column(&header, "a"), Some(0));
}

#[test]
fn header_match_is_exact() {
    let header = vec![text(" 区域"), text("区域 "), text("Region")];
    assert_eq!(find_column(&header, "区域"), None);
    assert_eq!(find_column(&header, "region"), None);
    assert_eq!(find_column(&header, "Region"), Some(2));
}

#[test]
fn header_match_uses_display_text() {
    let header = vec![CellValue::Empty, CellValue::Int(2024), CellValue::Bool(true)];
    assert_eq!(find_column(&header, "2024"), Some(1));
    assert_eq!(find_column(&header, "TRUE"), Some(2));
    assert_eq!(find_column(&header, ""), Some(0));
}

#[test]
fn rows_gain_one_cell_each() {
    let rows = vec![
        vec![text("店名"), text("区域"), text("销量")],
        vec![text("A"), text("云龙万达"), text("5")],
        vec![text("B")],
        vec![text("C"), text("沛县"), text("7"), text("extra")],
    ];
    let out = run(rows.clone(), "区域");
    assert_eq!(out.len(), rows.len());
    for (o, r) in out.iter().zip(rows.iter()) {
        assert_eq!(o.len(), r.len() + 1);
    }
    assert_eq!(out[1], strings(&["A", "江苏省徐州市云龙区", "5", "320000,320300,320303"]));
    assert_eq!(out[3], strings(&["C", "江苏省徐州市沛县", "7", "extra", "320000,320300,320322"]));
}

#[test]
fn short_row_gets_empty_code() {
    let rows = vec![vec![text("店名"), text("区域")], vec![text("B")], vec![]];
    let out = run(rows, "区域");
    assert_eq!(out[1], strings(&["B", ""]));
    assert_eq!(out[2], strings(&[""]));
}

#[test]
fn header_cell_is_not_mapped() {
    let rows = vec![vec![text("鼓楼")], vec![text("鼓楼")]];
    let out = run(rows, "鼓楼");
    assert_eq!(out[0], strings(&["鼓楼", "省市区编码"]));
    assert_eq!(out[1], strings(&["江苏省徐州市鼓楼区", "320000,320300,320302"]));
}

#[test]
fn other_columns_only_normalized() {
    let rows = vec![
        vec![text("区域"), text("备注"), text("n"), text("ok"), text("x")],
        vec![
            text("泉山"),
            text("鼓楼"),
            CellValue::Int(-42),
            CellValue::Bool(false),
            CellValue::Number("1.5".to_string()),
        ],
    ];
    let out = run(rows, "区域");
    assert_eq!(
        out[1],
        strings(&["江苏省徐州市泉山区", "鼓楼", "-42", "FALSE", "1.5", "320000,320300,320311"])
    );
}

#[test]
fn key_inside_longer_text_matches() {
    let rows = vec![vec![text("区域")], vec![text("徐州市邳州市运河镇")], vec![text("睢宁")]];
    let out = run(rows, "区域");
    assert_eq!(out[1], strings(&["江苏省徐州市邳州市", "320000,320300,320382"]));
    assert_eq!(out[2], strings(&["江苏省徐州市睢宁县", "320000,320300,320324"]));
}

#[test]
fn two_keys_take_the_earlier_entry() {
    let table = default_regions();
    assert_eq!(resolve(&table, "鼓楼开发区"), Some(0));
    assert_eq!(resolve(&table, "开发区鼓楼"), Some(0));
    assert_eq!(resolve(&table, "贾汪工业园"), Some(9));
    assert_eq!(resolve(&table, "上海"), None);
    assert_eq!(resolve(&table, ""), None);
}

#[test]
fn default_table_layout() {
    let table = default_regions();
    assert_eq!(table.len(), 12);
    assert_eq!(table[6].key, "开发区");
    assert_eq!(table[6].full_name, "江苏省徐州市徐州经济技术开发区");
    assert_eq!(table[6].code, "320000,320300,320371");
    assert_eq!(table[11].key, "沛县");
    assert_eq!(table[11].code, "320000,320300,320322");
}

#[test]
fn second_pass_with_default_table_keeps_column() {
    let rows = vec![vec![text("区域")], vec![text("工业园A区")], vec![text("丰县")], vec![text("北京")]];
    let first = run(rows, "区域");
    let again: Vec<Vec<CellValue>> = first
        .iter()
        .map(|r| r[..r.len() - 1].iter().map(|s| text(s)).collect())
        .collect();
    let second = run(again, "区域");
    for i in 0..first.len() {
        assert_eq!(second[i], first[i]);
    }
}

#[test]
fn second_pass_changes_when_full_name_holds_earlier_key() {
    let table: Vec<RegionEntry> = vec![
        entry("中山", "广东省中山市", "440000,442000,442000"),
        entry("山路", "中山路街道", "000000,000000,000001"),
    ];
    let once = map_text(&table, &"山路口".to_string());
    assert_eq!(once, "中山路街道");
    let twice = map_text(&table, &once);
    assert_eq!(twice, "广东省中山市");
    assert_ne!(twice, once);
}

#[test]
fn custom_table_is_used() {
    let table = vec![entry("东区", "某市东区", "1,2,3")];
    let rows = vec![vec![text("区")], vec![text("东区店")], vec![text("鼓楼店")]];
    let out = transform(&table, &rows, 0);
    assert_eq!(out[1], strings(&["某市东区", "1,2,3"]));
    assert_eq!(out[2], strings(&["鼓楼店", ""]));
}

#[test]
fn empty_key_matches_everything() {
    let table = vec![entry("", "全部", "0")];
    let row = vec![text("任意")];
    assert_eq!(transform_row(&table, &row, 1, 0), strings(&["全部", "0"]));
    assert_eq!(transform_row(&table, &row, 0, 0), strings(&["任意", "省市区编码"]));
}

#[test]
fn cell_display_text() {
    assert_eq!(normalize(&CellValue::Empty), "");
    assert_eq!(normalize(&CellValue::Bool(true)), "TRUE");
    assert_eq!(normalize(&CellValue::Bool(false)), "FALSE");
    assert_eq!(normalize(&CellValue::Int(0)), "0");
    assert_eq!(normalize(&text("鼓楼")), "鼓楼");
    assert_eq!(normalize(&CellValue::Number("3.25".to_string())), "3.25");
}

#[test]
fn integer_text_matches_std() {
    for i in [0i64, 7, 10, 99, 100, 1234567890, -1, -10, -305, i64::MAX, i64::MIN] {
        assert_eq!(integer_text(i), i.to_string());
    }
}

#[test]
fn substring_test() {
    assert!(contains_text("鼓楼店", "鼓楼"));
    assert!(contains_text("新鼓楼", "鼓楼"));
    assert!(contains_text("abc", ""));
    assert!(contains_text("", ""));
    assert!(!contains_text("", "a"));
    assert!(!contains_text("鼓", "鼓楼"));
    assert!(!contains_text("楼鼓", "鼓楼"));
    assert!(contains_text("aab", "ab"));
}

#[test]
fn greeting() {
    assert_eq!(greet("Ann"), "Hello, Ann! You've been greeted from Rust!");
}
