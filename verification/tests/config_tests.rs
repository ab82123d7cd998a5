use data_comparison_tool::interface::config::{Config, ConfigError, ConfigSource, OutputFileType};
use data_comparison_tool::interface::log_options::LogOutput;

fn args(list: &[&str]) -> Vec<String> {
    list.iter().map(|s| s.to_string()).collect()
}

fn complete(config: &mut Config) {
    for db in [&mut config.database_1_config, &mut config.database_2_config] {
        db.db_name = "db".to_string();
        db.db_user = "user".to_string();
        db.db_password = "pw".to_string();
        db.db_host = "localhost".to_string();
        db.table_name = "t".to_string();
    }
}

#[test]
fn default_config() {
    let toml_config = Config::default();
    // log related information
    assert!(toml_config.log_config.log_level == "DEBUG");
    assert!(toml_config.log_config.log_file == "test.log");

    // db config
    assert!(toml_config.database_1_config.db_name == "");
    assert!(toml_config.database_1_config.db_port == 3306);
    assert!(toml_config.database_1_config.db_password == "");
    assert!(toml_config.database_1_config.db_user == "");
    assert!(toml_config.database_1_config.db_host == "");
}

#[test]
fn default_at_stamps_output_file() {
    let c = Config::default_at("20240102030405");
    assert_eq!(c.comparison_options.output_file_name, "comparison_output_20240102030405.csv");
    assert_eq!(c.globals.config_file_path, "src/comparison_default.toml");
    assert!(matches!(c.comparison_options.output_file_type, OutputFileType::Csv));
    assert!(c.comparison_options.create_sqlite_comparison_files);
    assert!(c.comparison_options.in_memory_sqlite);
    assert!(c.comparison_options.clean);
    assert!(c.log_config.verbose);
    assert!(matches!(c.log_config.log_output_type, LogOutput::File));
    assert!(!c.data_generation.generate_data);
}

#[test]
fn from_arguments_reads_values() {
    let r = Config::from_arguments(&args(&["prog", "-t1=left", "-t2=right", "-output=out.csv", "-gen=12", "-c", "-h"]), "S");
    let c = r.ok().expect("a help request keeps the settings as they stand");
    assert_eq!(c.database_1_config.table_name, "left");
    assert_eq!(c.database_2_config.table_name, "right");
    assert_eq!(c.comparison_options.output_file_name, "out.csv");
    assert!(c.data_generation.generate_data);
    assert_eq!(c.data_generation.number_of_rows_to_generate, 12);
}

#[test]
fn from_arguments_value_stops_at_second_equals() {
    let c = Config::from_arguments(&args(&["prog", "-t1=a=b", "-version"]), "S").ok().unwrap();
    assert_eq!(c.database_1_config.table_name, "a");
}

#[test]
fn from_arguments_rejects_bad_row_count() {
    let r = Config::from_arguments(&args(&["prog", "-gen=ten"]), "S");
    assert!(matches!(r, Err(ConfigError::InvalidRowCount)));
}

#[test]
fn from_arguments_help_stops_parsing() {
    let c = Config::from_arguments(&args(&["prog", "-h", "-gen=oops"]), "S").ok().unwrap();
    assert!(c.log_config.help);
    assert!(!c.data_generation.generate_data);
}

#[test]
fn from_arguments_no_arguments_gives_defaults() {
    let c = Config::from_arguments(&Vec::new(), "S").ok().unwrap();
    assert_eq!(c.comparison_options.output_file_name, "comparison_output_S.csv");
}

#[test]
fn from_arguments_returns_settings_with_flags_applied() {
    // the command line cannot fill in the connection settings; what it gives
    // is returned as it stands
    let c = Config::from_arguments(
        &args(&["prog", "-t1=a", "-t2=b", "-output=o.csv", "-config=c.toml", "-c", "-auto-yes"]),
        "S",
    )
    .ok()
    .unwrap();
    assert_eq!(c.database_1_config.table_name, "a");
    assert_eq!(c.database_2_config.table_name, "b");
    assert_eq!(c.comparison_options.output_file_name, "o.csv");
    assert_eq!(c.globals.config_file_path, "c.toml");
    assert!(c.comparison_options.clean);
    assert!(c.log_config.auto_yes);
    assert!(!c.globals.tui);
    assert!(!c.log_config.help);
    assert!(!c.data_generation.generate_data);
    assert_eq!(c.database_1_config.db_port, 3306);
}

#[test]
fn from_arguments_program_name_alone_gives_defaults() {
    let c = Config::from_arguments(&args(&["prog"]), "S").ok().unwrap();
    assert_eq!(c.globals.config_file_path, "src/comparison_default.toml");
    assert_eq!(c.comparison_options.output_file_name, "comparison_output_S.csv");
    assert_eq!(c.database_1_config.db_name, "");
    assert_eq!(c.database_2_config.db_port, 3306);
}

#[test]
fn from_arguments_reads_both_queries() {
    let c = Config::from_arguments(&args(&["prog", "-q1=select 1", "-q2=select 2"]), "S").ok().unwrap();
    assert_eq!(c.database_1_config.query, "select 1");
    assert_eq!(c.database_2_config.query, "select 2");
    assert!(!c.globals.tui);
}

#[test]
fn from_arguments_ignores_everything_after_a_stop_flag() {
    let short = Config::from_arguments(&args(&["prog", "-t1=a", "-gen"]), "S").ok().unwrap();
    let long = Config::from_arguments(&args(&["prog", "-t1=a", "-gen", "-t1=b", "-gen=oops", "-c"]), "S").ok().unwrap();
    assert!(long.data_generation.generate_data);
    assert_eq!(long.database_1_config.table_name, "a");
    assert_eq!(short.database_1_config.table_name, long.database_1_config.table_name);
    assert_eq!(short.comparison_options.clean, long.comparison_options.clean);
    assert_eq!(short.data_generation.number_of_rows_to_generate, long.data_generation.number_of_rows_to_generate);
}

#[test]
fn merge_arguments_overrides_file_settings() {
    let mut file = Config::default_at("S");
    complete(&mut file);
    let merged = Config::merge_arguments(file, &args(&["prog", "-t1=x", "-q2=select 2"])).ok().unwrap();
    assert_eq!(merged.database_1_config.table_name, "x");
    assert_eq!(merged.database_2_config.table_name, "t");
    assert_eq!(merged.database_2_config.query, "select 2");
    assert_eq!(merged.database_1_config.db_host, "localhost");

    let mut file = Config::default_at("S");
    complete(&mut file);
    assert!(matches!(Config::merge_arguments(file, &args(&["prog", "-t1="])), Err(ConfigError::InvalidConfiguration)));
    let mut file = Config::default_at("S");
    complete(&mut file);
    assert!(matches!(Config::merge_arguments(file, &args(&["prog", "-gen=x"])), Err(ConfigError::InvalidRowCount)));
}

#[test]
fn new_points_to_default_file() {
    match Config::new(&args(&["prog"])) {
        Ok(ConfigSource::File(path)) => assert_eq!(path, "src/comparison_default.toml"),
        _ => panic!("the defaults name a configuration file"),
    }
    match Config::new(&args(&["prog", "-config=", "-t1=x"])) {
        Ok(ConfigSource::Arguments(c)) => {
            assert_eq!(c.globals.config_file_path, "");
            assert_eq!(c.database_1_config.table_name, "x");
        },
        _ => panic!("an empty -config uses the command line"),
    }
    assert!(matches!(Config::new(&args(&["prog", "-config=", "-gen=x"])), Err(ConfigError::InvalidRowCount)));
    match Config::new(&args(&["prog", "-config=other.toml", "-t1=x"])) {
        Ok(ConfigSource::File(path)) => assert_eq!(path, "other.toml"),
        _ => panic!("-config names the file to read"),
    }
}

#[test]
fn validate_db_config_lists_missing_fields() {
    let c = Config::default_at("S");
    assert_eq!(
        Config::validate_db_config(&c.database_1_config),
        vec![
            "empty database name".to_string(),
            "empty database user".to_string(),
            "empty database password".to_string(),
            "empty database host".to_string(),
            "empty table name".to_string(),
        ]
    );
    assert_eq!(Config::validate_config(&c).len(), 10);
}

#[test]
fn from_config_file_accepts_complete_settings() {
    let mut c = Config::default_at("S");
    assert!(matches!(Config::from_config_file(Config::default_at("S")), Err(ConfigError::InvalidConfiguration)));
    complete(&mut c);
    assert!(Config::validate_config(&c).is_empty());
    let ok = Config::from_config_file(c).ok().unwrap();
    assert_eq!(ok.database_2_config.db_host, "localhost");
}

#[test]
fn new_from_file_refuses_empty_path() {
    let mut c = Config::default_at("S");
    complete(&mut c);
    assert!(matches!(Config::new_from_file("", c), Err(ConfigError::EmptyConfigPath)));
    let mut c = Config::default_at("S");
    complete(&mut c);
    assert!(Config::new_from_file("comp.toml", c).is_ok());
}

#[test]
fn print_help_and_config() {
    let c = Config::default_at("S");
    let help = c.print_help();
    assert_eq!(help.len(), 17);
    assert_eq!(help[0], "Help requested! This is a tool to help compare large data sets between mysql and sqlite");
    assert_eq!(help[16], "\t-output=<output_file> : specify the name of the output csv file");
    let lines = c.print_config();
    assert_eq!(lines.len(), 13);
    assert_eq!(lines[7], "output file name: comparison_output_S.csv");
    assert_eq!(lines[8], "create sqlite comparison files: true");
    assert_eq!(lines[11], "data generation: false");
    assert_eq!(lines[12], "number of rows to generate: 0");
}

#[test]
fn unknown_arguments_change_nothing() {
    let plain = Config::from_arguments(&args(&["prog", "-h"]), "S").ok().unwrap();
    let noisy = Config::from_arguments(&args(&["prog", "-zzz", "-q3=x", "--t1=y", "-h"]), "S").ok().unwrap();
    assert_eq!(plain.database_1_config.table_name, noisy.database_1_config.table_name);
    assert_eq!(plain.comparison_options.output_file_name, noisy.comparison_options.output_file_name);
    assert_eq!(plain.globals.config_file_path, noisy.globals.config_file_path);
    assert_eq!(plain.log_config.help, noisy.log_config.help);
}
