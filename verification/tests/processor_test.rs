use data_comparison_tool::interface::config::Config;
use data_comparison_tool::models::comparison_data::{ChangedRow, ComparisonData, ComparisonRow};
use data_comparison_tool::processor::{comparison_summary, compare_query, run_plan, ExportPlan};

/// a defaultly initialized configuration should always pass this test
#[test]
fn processor_test_run_comparison_no_terminal_default_arg() {
    let config = Config::default();
    let plan = run_plan(&config);
    let _query_1 = compare_query(&config.database_1_config);
    let _query_2 = compare_query(&config.database_2_config);
    let _summary = comparison_summary(&ComparisonData::empty_data());
    assert!(!plan.generate_data);
    assert!(plan.clean);
    match plan.export {
        ExportPlan::Csv(name) => assert!(name.starts_with("comparison_output_") && name.ends_with(".csv")),
        _ => panic!("the default configuration exports to CSV"),
    }
}

#[test]
fn run_plan_follows_flags() {
    let mut config = Config::default_at("20240101000000");
    config.data_generation.generate_data = true;
    config.comparison_options.clean = false;
    config.comparison_options.output_file_type = data_comparison_tool::interface::config::OutputFileType::Json;
    let plan = run_plan(&config);
    assert!(plan.generate_data);
    assert!(!plan.clean);
    assert!(matches!(plan.export, ExportPlan::JsonNotImplemented));

    config.comparison_options.output_file_name = String::new();
    let plan = run_plan(&config);
    assert!(matches!(plan.export, ExportPlan::NoExport));
}

#[test]
fn compare_query_defaults_to_whole_table() {
    let mut config = Config::default_at("1");
    config.database_1_config.table_name = "people".to_string();
    assert_eq!(compare_query(&config.database_1_config), "select * from people");
    config.database_1_config.query = "select id from people".to_string();
    assert_eq!(compare_query(&config.database_1_config), "select id from people");
}

#[test]
fn summary_counts_rows() {
    let mut data = ComparisonData::new();
    data.unique_table_1_rows.push(ComparisonRow { row: vec!["1".to_string()] });
    data.unique_table_1_rows.push(ComparisonRow { row: vec!["2".to_string()] });
    data.changed_rows.push(ChangedRow { table_1_row: vec![], table_2_row: vec![] });
    let lines = comparison_summary(&data);
    assert_eq!(
        lines,
        vec![
            "rows in table 1 that are not in table 2: 2".to_string(),
            "rows in table 2 that are not in table 1: 0".to_string(),
            "rows that are different between the two tables: 1".to_string(),
        ]
    );
}
