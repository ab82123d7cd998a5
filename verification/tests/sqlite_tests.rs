use data_comparison_tool::datastore::sqlite;
use data_comparison_tool::models::table_data::{ColumnInfo, TableData};

fn column(name: &str, sql_type: &str) -> ColumnInfo {
    ColumnInfo { name: name.to_string(), sql_type: sql_type.to_string() }
}

fn table(name: &str, columns: Vec<ColumnInfo>) -> TableData {
    TableData::new(name.to_string(), columns, "id".to_string())
}

#[test]
fn table_exists_and_drop_queries() {
    assert_eq!(
        sqlite::table_exists_query("t"),
        "select count(*) from sqlite_master where type='table' and name='t'"
    );
    assert!(sqlite::table_exists_from_count(1));
    assert!(!sqlite::table_exists_from_count(0));
    assert_eq!(sqlite::drop_table_query("t"), "drop table t");
    assert_eq!(sqlite::changed_table_name("t"), "changedRows_t");
    assert_eq!(sqlite::unique_table_name("t"), "unique_t");
}

#[test]
fn changed_rows_query_compares_every_column() {
    let t1 = table("a", vec![column("id", "INT"), column("name", "VARCHAR")]);
    let t2 = table("b", vec![]);
    assert_eq!(
        sqlite::changed_rows_query(&t1, &t2),
        "\n            select t1.*, t2.*\n            from a t1\n            join b t2 on t1.id = t2.id\n            where not (t1.id = t2.id and t1.name = t2.name)"
    );
    assert!(sqlite::get_changed_rows_stale_table(&t1, false).is_none());
    assert_eq!(sqlite::get_changed_rows_stale_table(&t1, true).unwrap(), "changedRows_a");
}

#[test]
fn unique_rows_plans() {
    let t1 = table("a", vec![]);
    let t2 = table("b", vec![]);
    let plan = sqlite::get_unique_rows(&t1, &t2, true);
    assert_eq!(plan.stale_table, Some(("a".to_string(), "unique_a".to_string())));
    assert_eq!(
        plan.query,
        "create table unique_a\n            as\n            select *\n            from a\n            where not exists (\n                select * from b where b.id = a.id\n            );\n            select * from unique_a"
    );
    let plan = sqlite::get_unique_rows(&t1, &t2, false);
    assert!(plan.stale_table.is_none());
    assert_eq!(
        plan.query,
        "select *\n            from a\n            where not exists (\n                select * from b where b.id = a.id\n            );"
    );
}

#[test]
fn main_comparison_query_one_column() {
    let t1 = table("a", vec![column("x", "INT")]);
    let t2 = table("b", vec![]);
    let expected = "create table main_out_7 as select case\n                when t1.x is null and t2.x is not null then '()'||t2.x\n                when t1.x is not null and t2.x is null then t1.x||'()'\n                when t1.x != t2.x then t1.x||'('||t2.x||')'\n                else t1.x\n            end as x\n        from a t1\n        left join b t2 on t1.id = t2.id\n        left join unique_a new on t1.id = new.id\n        ";
    assert_eq!(sqlite::main_comparison_query(&t1, &t2, 7), expected);
    let stamped = sqlite::generate_main_comparison_file(&t1, &t2);
    assert!(stamped.starts_with("create table main_out_"));
    assert!(stamped.ends_with("left join unique_a new on t1.id = new.id\n        "));
}

#[test]
fn main_comparison_query_without_columns() {
    let t1 = table("a", vec![]);
    let t2 = table("b", vec![]);
    assert!(sqlite::main_comparison_query(&t1, &t2, -3).starts_with("create table main_out_-3 as select\n        from a t1"));
}

#[test]
fn changed_pairs_split_joined_rows() {
    let rows = vec![
        vec!["1".to_string(), "a".to_string(), "1".to_string(), "b".to_string(), "extra".to_string()],
    ];
    let pairs = sqlite::changed_pairs_from_rows(&rows, 2);
    assert_eq!(pairs.len(), 1);
    assert_eq!(pairs[0].0.row, vec!["1".to_string(), "a".to_string()]);
    assert_eq!(pairs[0].1.row, vec!["1".to_string(), "b".to_string()]);
}

#[test]
fn rows_become_comparison_rows() {
    let rows = vec![vec!["1".to_string()], vec![]];
    let out = sqlite::rows_to_comparison_rows(rows);
    assert_eq!(out.len(), 2);
    assert_eq!(out[0].row, vec!["1".to_string()]);
    assert!(out[1].row.is_empty());
}

#[test]
fn sqlite_files_are_recognized() {
    assert!(sqlite::is_sqlite_file("db.sqlite"));
    assert!(sqlite::is_sqlite_file(".sqlite"));
    assert!(sqlite::is_sqlite_file("db.sqlite3"));
    assert!(!sqlite::is_sqlite_file("db.sqlite4"));
    assert!(!sqlite::is_sqlite_file("sqlite"));
    assert!(!sqlite::is_sqlite_file("notes.txt"));
}
