use data_comparison_tool::argument_parser::{parse_arguments, print_help, ArgumentError};

fn args(list: &[&str]) -> Vec<String> {
    list.iter().map(|s| s.to_string()).collect()
}

#[test]
fn parse_arguments_reads_flags() {
    let parsed = parse_arguments(
        &args(&["prog", "-q=select 1", "-t1=abc", "-gen=5", "-verbose", "-bogus", "-x=1"]),
        "STAMP",
        "0.1.0",
    )
    .ok()
    .unwrap();
    let a = &parsed.arguments;
    assert_eq!(a.mysql_query_1, "select 1");
    assert_eq!(a.table_name_1, "abcSTAMP");
    assert_eq!(a.table_name_2, "table_2STAMP");
    assert!(a.generate_data);
    assert_eq!(a.number_of_rows_to_generate, 5);
    assert!(a.verbose);
    assert!(a.clean);
    assert_eq!(
        parsed.messages,
        args(&["query: select 1", "table name 1: abcSTAMP", "verbose output enabled", "Unknown argument:-bogus",
            "Unknown argument:-x=1"])
    );
}

#[test]
fn parse_arguments_skips_program_name_and_prints_help() {
    let parsed = parse_arguments(&args(&["-verbose", "-h", "-version"]), "S", "0.1.0").ok().unwrap();
    assert!(!parsed.arguments.verbose);
    assert!(parsed.arguments.help);
    assert!(parsed.arguments.version);
    assert_eq!(parsed.messages.len(), print_help().len() + 1);
    assert_eq!(parsed.messages.last().unwrap(), "version: 0.1.0");
}

#[test]
fn parse_arguments_rejects_bad_row_count() {
    let r = parse_arguments(&args(&["prog", "-gen=many"]), "S", "v");
    assert!(matches!(r, Err(ArgumentError::InvalidRowCount)));
}

#[test]
fn parse_arguments_defaults() {
    let parsed = parse_arguments(&Vec::new(), "S", "v").ok().unwrap();
    assert_eq!(parsed.arguments.table_name_1, "table_1S");
    assert!(parsed.arguments.create_sqlite_comparison_files);
    assert!(!parsed.arguments.in_memory_sqlite);
    assert!(parsed.messages.is_empty());
}

#[test]
fn parse_arguments_reads_both_queries() {
    let parsed = parse_arguments(&args(&["prog", "-q1=select 1", "-q2=select 2"]), "S", "v").ok().unwrap();
    assert_eq!(parsed.arguments.mysql_query_1, "select 1");
    assert_eq!(parsed.arguments.mysql_query_2, "select 2");
    assert_eq!(parsed.messages, args(&["query 1: select 1", "query 2: select 2"]));
}
