use data_comparison_tool::datastore::csv::{self, ExportStep};
use data_comparison_tool::datastore::sqlite::changed_pairs_from_rows;
use data_comparison_tool::models::comparison_data::{ChangedRow, ComparisonData, ComparisonRow};
use data_comparison_tool::models::table_data::{Cell, CellValue, ColumnInfo};

#[test]
fn sqlite_to_csv() {
    let comparison_data = ComparisonData::empty_data();
    let output_file_name = "sqlite_to_csv_test.csv";
    let steps = csv::export(&comparison_data, output_file_name);
    assert_eq!(steps.len(), 3);
    for step in steps {
        match step {
            ExportStep::Skip { warning } => assert_eq!(
                warning,
                "Sqlite rows passed in are empty, no need to log to sqlite_to_csv_test.csv"
            ),
            ExportStep::Write { .. } => panic!("empty data writes nothing"),
        }
    }
}

fn strings(list: &[&str]) -> Vec<String> {
    list.iter().map(|s| s.to_string()).collect()
}

#[test]
fn export_writes_non_empty_lists() {
    let mut data = ComparisonData::new();
    data.unique_table_1_rows.push(ComparisonRow { row: strings(&["1", "a"]) });
    data.changed_rows.push(ChangedRow { table_1_row: strings(&["2", "b"]), table_2_row: strings(&["2", "c"]) });
    let steps = csv::export(&data, "out.csv");
    match &steps[0] {
        ExportStep::Write { file_name, records } => {
            assert_eq!(file_name, "unique_table_1_rows_out.csv");
            assert_eq!(records, &vec![strings(&["1", "a"])]);
        },
        _ => panic!("the first list is not empty"),
    }
    assert!(matches!(&steps[1], ExportStep::Skip { .. }));
    match &steps[2] {
        ExportStep::Write { file_name, records } => {
            assert_eq!(file_name, "changed_rows_out.csv");
            assert_eq!(records, &vec![strings(&["2", "b", "2", "c"])]);
        },
        _ => panic!("the changed rows are not empty"),
    }
}

fn cell(sql_type: &str, value: CellValue) -> Cell {
    Cell { column: ColumnInfo { name: "c".to_string(), sql_type: sql_type.to_string() }, value }
}

#[test]
fn sqlite_row_fields_by_type() {
    let row = vec![
        cell("TEXT", CellValue::Text("hello".to_string())),
        cell("INTEGER", CellValue::Int(-42)),
        cell("REAL", CellValue::Text("1.5".to_string())),
        cell("BLOB", CellValue::Text("bytes".to_string())),
        cell("NUMERIC", CellValue::Text("9".to_string())),
    ];
    let r = csv::sqlite_row_to_string_vec(&row);
    assert_eq!(r.fields, strings(&["hello", "-42", "1.5", "bytes"]));
    assert_eq!(r.unknown_types, strings(&["NUMERIC"]));
}

#[test]
fn known_types_give_every_field() {
    let row = vec![cell("TEXT", CellValue::Text("a".to_string())), cell("INTEGER", CellValue::Int(7))];
    let r = csv::sqlite_row_to_string_vec(&row);
    assert_eq!(r.fields, strings(&["a", "7"]));
    assert!(r.unknown_types.is_empty());
}

#[test]
fn changed_rows_export_as_joined_rows() {
    let joined = vec![strings(&["1", "a", "1", "b"]), strings(&["2", "c", "2", "d", "ignored"])];
    let pairs = changed_pairs_from_rows(&joined, 2);
    let data = ComparisonData::from_sqlite_comparison(vec![], vec![], pairs);
    let steps = csv::export(&data, "x.csv");
    match &steps[2] {
        ExportStep::Write { records, .. } => {
            assert_eq!(records, &vec![strings(&["1", "a", "1", "b"]), strings(&["2", "c", "2", "d"])])
        },
        _ => panic!("two changed rows were exported"),
    }
}

#[test]
fn export_gives_each_list_its_own_file() {
    let mut data = ComparisonData::new();
    data.unique_table_1_rows.push(ComparisonRow { row: strings(&["1"]) });
    data.unique_table_2_rows.push(ComparisonRow { row: strings(&["2"]) });
    data.changed_rows.push(ChangedRow { table_1_row: strings(&["3"]), table_2_row: strings(&["4"]) });
    let names: Vec<String> = csv::export(&data, "r.csv")
        .into_iter()
        .map(|step| match step {
            ExportStep::Write { file_name, .. } => file_name,
            ExportStep::Skip { .. } => panic!("every list has rows"),
        })
        .collect();
    assert_eq!(names, strings(&["unique_table_1_rows_r.csv", "unique_table_2_rows_r.csv", "changed_rows_r.csv"]));
}
