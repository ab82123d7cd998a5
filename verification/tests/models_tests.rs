use data_comparison_tool::models::comparison_data::{ComparisonData, ComparisonRow};
use data_comparison_tool::models::table_data::{Cell, CellValue, ColumnInfo};

fn cell(value: CellValue) -> Cell {
    Cell { column: ColumnInfo { name: "c".to_string(), sql_type: "VARCHAR".to_string() }, value }
}

#[test]
fn from_row_reads_text_values() {
    let row = vec![cell(CellValue::Text("a".to_string())), cell(CellValue::Text("b".to_string()))];
    let r = ComparisonData::from_row(&row).ok().unwrap();
    assert_eq!(r.row, vec!["a".to_string(), "b".to_string()]);
}

#[test]
fn from_row_fails_on_first_integer() {
    let row = vec![cell(CellValue::Text("a".to_string())), cell(CellValue::Int(3)), cell(CellValue::Int(4))];
    assert_eq!(ComparisonData::from_row(&row).err(), Some(1));
}

#[test]
fn from_sqlite_comparison_pairs_become_changed_rows() {
    let one = ComparisonRow { row: vec!["1".to_string()] };
    let two = ComparisonRow { row: vec!["2".to_string()] };
    let data = ComparisonData::from_sqlite_comparison(vec![one.clone()], vec![], vec![(one, two)]);
    assert_eq!(data.unique_table_1_rows.len(), 1);
    assert!(data.unique_table_2_rows.is_empty());
    assert_eq!(data.changed_rows[0].table_1_row, vec!["1".to_string()]);
    assert_eq!(data.changed_rows[0].table_2_row, vec!["2".to_string()]);
}
