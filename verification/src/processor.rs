//! The decisions of a comparison run: which steps it takes, what it asks of
//! each table, and how it reports the result.
use vstd::prelude::*;
use vstd::string::*;
use crate::interface::config::{Config, ConfigView, DatabaseConfig, DatabaseConfigView, OutputFileType};
use crate::models::comparison_data::ComparisonData;
use crate::text::{decimal, push_count, push_string, strings_view};

verus! {

/// What to do with the comparison once it is made.
pub enum ExportPlan {
    /// No output file is named: nothing is written.
    NoExport,
    /// The comparison is written as CSV, under this name.
    Csv(String),
    /// JSON output is asked for, which is not implemented: the run fails
    /// after the comparison ("JSON export not implemented yet").
    JsonNotImplemented,
}

/// The steps of a run, in order: generate data, clean the SQLite files,
/// compare, export.
pub struct RunPlan {
    pub generate_data: bool,
    pub clean: bool,
    pub export: ExportPlan,
}

/// The export that the settings ask for.
pub open spec fn export_matches(e: &ExportPlan, c: ConfigView) -> bool {
    if c.comparison_options.output_file_name.len() == 0 {
        e is NoExport
    } else {
        match c.comparison_options.output_file_type {
            OutputFileType::Csv => e matches ExportPlan::Csv(name) && name@ == c.comparison_options.output_file_name,
            OutputFileType::Json => e is JsonNotImplemented,
        }
    }
}

/// The steps that `run` takes for the settings: data is generated when
/// asked for, the SQLite files are cleaned when asked for, and the
/// comparison is exported when an output file is named.
pub fn run_plan(config: &Config) -> (plan: RunPlan)
    ensures
        plan.generate_data == config.data_generation.generate_data,
        plan.clean == config.comparison_options.clean,
        export_matches(&plan.export, config@),
{
    let export = if config.comparison_options.output_file_name.as_str().is_empty() {
        ExportPlan::NoExport
    } else {
        match config.comparison_options.output_file_type {
            OutputFileType::Csv => ExportPlan::Csv(config.comparison_options.output_file_name.clone()),
            OutputFileType::Json => ExportPlan::JsonNotImplemented,
        }
    };
    RunPlan {
        generate_data: config.data_generation.generate_data,
        clean: config.comparison_options.clean,
        export,
    }
}

/// The statement that fetches a table's rows: the configured query, or every
/// row of the table when no query is configured.
pub open spec fn compare_query_spec(d: DatabaseConfigView) -> Seq<char> {
    if d.query.len() == 0 {
        "select * from "@ + d.table_name
    } else {
        d.query
    }
}

/// The statement that fetches a table's rows for the comparison.
pub fn compare_query(db_config: &DatabaseConfig) -> (q: String)
    ensures
        q@ == compare_query_spec(db_config@),
{
    if db_config.query.as_str().is_empty() {
        let mut q = String::from_str("select * from ");
        q.append(db_config.table_name.as_str());
        q
    } else {
        db_config.query.clone()
    }
}

/// The lines that report the size of a comparison.
pub open spec fn summary_spec(unique_1: nat, unique_2: nat, changed: nat) -> Seq<Seq<char>> {
    seq![
        "rows in table 1 that are not in table 2: "@ + decimal(unique_1),
        "rows in table 2 that are not in table 1: "@ + decimal(unique_2),
        "rows that are different between the two tables: "@ + decimal(changed),
    ]
}

fn count_line(label: &str, n: usize) -> (s: String)
    ensures
        s@ == label@ + decimal(n as nat),
{
    let mut s = String::from_str(label);
    push_count(&mut s, n);
    s
}

/// The lines that report how many rows are unique to each table and how many
/// changed.
pub fn comparison_summary(result: &ComparisonData) -> (lines: Vec<String>)
    ensures
        strings_view(lines@) == summary_spec(
            result.unique_table_1_rows@.len(),
            result.unique_table_2_rows@.len(),
            result.changed_rows@.len(),
        ),
{
    let mut lines: Vec<String> = Vec::new();
    push_string(&mut lines, count_line("rows in table 1 that are not in table 2: ", result.unique_table_1_rows.len()));
    push_string(&mut lines, count_line("rows in table 2 that are not in table 1: ", result.unique_table_2_rows.len()));
    push_string(
        &mut lines,
        count_line("rows that are different between the two tables: ", result.changed_rows.len()),
    );
    assert(strings_view(lines@) =~= summary_spec(
        result.unique_table_1_rows@.len(),
        result.unique_table_2_rows@.len(),
        result.changed_rows@.len(),
    ));
    lines
}

} // verus!
