use data_comparison_tool::datastore::{generator, mysql, transformer};
use data_comparison_tool::interface::config::Config;
use data_comparison_tool::models::table_data::{Cell, CellValue, ColumnInfo};

fn cell(name: &str, sql_type: &str, value: CellValue) -> Cell {
    Cell { column: ColumnInfo { name: name.to_string(), sql_type: sql_type.to_string() }, value }
}

#[test]
fn generate_table_rows_and_queries() {
    let mut config = Config::default_at("S");
    config.data_generation.number_of_rows_to_generate = 3;
    config.database_1_config.table_name = "gen".to_string();
    let t = generator::generate_table(&config, &config.database_1_config);
    assert_eq!(t.rows.len(), 3);
    for r in &t.rows {
        assert!((1..500).contains(&r.random_number));
        assert!((1..100).contains(&r.second_random_number));
        assert_eq!(r.random_string.len(), 4);
        assert!(r.random_string.chars().all(|c| c.is_ascii_lowercase()));
        assert!(r.second_random_string.chars().all(|c| c.is_ascii_lowercase()));
    }
    assert_eq!(
        t.create_query,
        "CREATE TABLE IF NOT EXISTS gen\n        (\n            id INT NOT NULL AUTO_INCREMENT,\n            randomNumber INT NOT NULL,\n            secondRandomNumber INT NOT NULL,\n            randomString VARCHAR(255) NOT NULL,\n            secondRandomString VARCHAR(255) NOT NULL,\n            PRIMARY KEY (id)\n        )"
    );
    let mut expected =
        "INSERT INTO gen\n            (randomNumber,secondRandomNumber,randomString,secondRandomString)\n            VALUES ".to_string();
    for r in &t.rows {
        expected.push_str(&format!(
            "({},'{}','{}','{}'),",
            r.random_number, r.second_random_number, r.random_string, r.second_random_string
        ));
    }
    expected.pop();
    assert_eq!(t.insert_query, expected);
}

#[test]
fn generate_table_without_rows() {
    let mut config = Config::default_at("S");
    config.data_generation.number_of_rows_to_generate = -4;
    let t = generator::generate_table(&config, &config.database_2_config);
    assert!(t.rows.is_empty());
    assert_eq!(
        t.insert_query,
        "INSERT INTO \n            (randomNumber,secondRandomNumber,randomString,secondRandomString)\n            VALUES"
    );
}

#[test]
fn generate_data_follows_flag() {
    let mut config = Config::default_at("S");
    assert!(generator::generate_data(&config).is_empty());
    config.data_generation.generate_data = true;
    config.data_generation.number_of_rows_to_generate = 2;
    config.database_1_config.table_name = "one".to_string();
    config.database_2_config.table_name = "two".to_string();
    let tables = generator::generate_data(&config);
    assert_eq!(tables.len(), 2);
    assert_eq!(tables[0].table_name, "one");
    assert_eq!(tables[1].table_name, "two");
    assert_eq!(tables[1].rows.len(), 2);
}

#[test]
fn mysql_statements() {
    let mut config = Config::default_at("S");
    let db = &mut config.database_1_config;
    db.db_user = "u".to_string();
    db.db_password = "p".to_string();
    db.db_host = "h".to_string();
    db.table_name = "t".to_string();
    assert_eq!(mysql::connection_string(db), "mysql://u:p@h:3306/ComparisonData");
    assert_eq!(mysql::drop_table_query(db), "drop table if exists t");
    assert_eq!(mysql::table_data_query(db), "select * from t limit 1");
    let cols = vec![ColumnInfo { name: "id".to_string(), sql_type: "INT".to_string() }];
    let td = mysql::get_table_data(db, cols);
    assert_eq!(td.table_name, "t");
    assert_eq!(td.primary_key, "id");
    assert_eq!(td.columns.len(), 1);
}

#[test]
fn mysql_types_map_to_sqlite() {
    assert_eq!(transformer::mysql_type_to_sqlite_type("INT"), "INTEGER");
    assert_eq!(transformer::mysql_type_to_sqlite_type("VARCHAR"), "TEXT");
    assert_eq!(transformer::mysql_type_to_sqlite_type("DATETIME"), "BLOB");
}

#[test]
fn sqlite_table_and_insert_from_mysql_rows() {
    let rows = vec![
        vec![cell("id", "INT", CellValue::Int(1)), cell("name", "VARCHAR", CellValue::Text("x".to_string()))],
        vec![cell("id", "INT", CellValue::Int(-2)), cell("name", "VARCHAR", CellValue::Text("y".to_string()))],
    ];
    assert_eq!(
        transformer::create_new_sqlite_table(&rows, "t"),
        "create table if not exists t (id INTEGER,name TEXT)"
    );
    assert_eq!(generator::export_mysql_rows_to_sqlite_table(&rows, "t"), "create table if not exists t (id INTEGER,name TEXT)");
    assert_eq!(
        transformer::create_sqlite_insert_query_from_mysql_row(&rows, "t"),
        "insert into t (id,name) VALUES (1,'x'),(-2,'y')"
    );
    assert_eq!(transformer::create_table_query("t", &Vec::new()), "create table if not exists t )");
}

#[test]
fn create_new_data_rows() {
    let t = data_comparison_tool::data_creator::create_new_data(2, "test_table");
    assert_eq!(t.table_name, "test_table");
    assert_eq!(t.rows.len(), 2);
    for r in &t.rows {
        assert!((1..500).contains(&r.random_number));
        assert!((1..500).contains(&r.second_random_number));
        assert_eq!(r.random_string.len(), 25);
        assert_eq!(r.second_random_string.len(), 25);
    }
    assert!(t.insert_query.starts_with("INSERT INTO test_table\n"));
    assert!(t.insert_query.ends_with("')"));
}
