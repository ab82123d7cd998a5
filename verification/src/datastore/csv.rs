//! Writing a comparison out as CSV records.
use vstd::prelude::*;
use vstd::string::*;
use crate::models::comparison_data::{ComparisonData, ComparisonDataView};
use crate::models::table_data::{Cell, CellValue, CellValueView, CellView, row_view};
use crate::text::{int_text, push_int, push_string, str_eq, strings_view};

verus! {

/// Whether values of a SQLite column type are written to CSV.
pub open spec fn is_csv_type(t: Seq<char>) -> bool {
    t == "TEXT"@ || t == "INTEGER"@ || t == "REAL"@ || t == "BLOB"@
}

/// The CSV field of a value: text as it is, integers in decimal.
pub open spec fn field_spec(v: CellValueView) -> Seq<char> {
    match v {
        CellValueView::Int(i) => int_text(i),
        CellValueView::Text(s) => s,
    }
}

/// The CSV fields of a row: one per value whose column type is known.
pub open spec fn csv_fields_spec(row: Seq<CellView>) -> Seq<Seq<char>>
    decreases row.len(),
{
    if row.len() == 0 {
        Seq::empty()
    } else if is_csv_type(row.last().column.sql_type) {
        csv_fields_spec(row.drop_last()).push(field_spec(row.last().value))
    } else {
        csv_fields_spec(row.drop_last())
    }
}

/// The column types of a row that are not known, in order.
pub open spec fn unknown_types_spec(row: Seq<CellView>) -> Seq<Seq<char>>
    decreases row.len(),
{
    if row.len() == 0 {
        Seq::empty()
    } else if is_csv_type(row.last().column.sql_type) {
        unknown_types_spec(row.drop_last())
    } else {
        unknown_types_spec(row.drop_last()).push(row.last().column.sql_type)
    }
}

/// A row made ready for CSV: its fields, and the column types that were
/// skipped because they are not known.
pub struct CsvRow {
    pub fields: Vec<String>,
    pub unknown_types: Vec<String>,
}

/// The CSV fields of a SQLite row. Columns of type `TEXT`, `INTEGER`, `REAL`
/// and `BLOB` give a field each; the types of the other columns are listed
/// so that they can be reported.
pub fn sqlite_row_to_string_vec(row: &Vec<Cell>) -> (r: CsvRow)
    ensures
        strings_view(r.fields@) == csv_fields_spec(row_view(row@)),
        strings_view(r.unknown_types@) == unknown_types_spec(row_view(row@)),
{
    let ghost rv = row_view(row@);
    let mut fields: Vec<String> = Vec::new();
    let mut unknown_types: Vec<String> = Vec::new();
    let mut i: usize = 0;
    while i < row.len()
        invariant
            i <= row@.len(),
            rv == row_view(row@),
            strings_view(fields@) == csv_fields_spec(rv.take(i as int)),
            strings_view(unknown_types@) == unknown_types_spec(rv.take(i as int)),
        decreases row@.len() - i,
    {
        let cell = &row[i];
        let t = cell.column.sql_type.as_str();
        assert(rv.take(i + 1).drop_last() =~= rv.take(i as int));
        assert(rv.take(i + 1).last() == rv[i as int]);
        if str_eq(t, "TEXT") || str_eq(t, "INTEGER") || str_eq(t, "REAL") || str_eq(t, "BLOB") {
            let field = match &cell.value {
                CellValue::Int(v) => {
                    let mut s = String::new();
                    push_int(&mut s, *v);
                    assert(s@ =~= int_text(*v as int));
                    s
                },
                CellValue::Text(s) => s.clone(),
            };
            push_string(&mut fields, field);
        } else {
            push_string(&mut unknown_types, cell.column.sql_type.clone());
        }
        i = i + 1;
    }
    assert(rv.take(i as int) =~= rv);
    CsvRow { fields, unknown_types }
}

/// What exporting one list of rows does.
pub enum ExportStep {
    /// The list is empty: this warning is logged and no file is written.
    Skip { warning: String },
    /// These records are written to this file.
    Write { file_name: String, records: Vec<Vec<String>> },
}

/// Model of [`ExportStep`].
pub enum ExportStepView {
    Skip { warning: Seq<char> },
    Write { file_name: Seq<char>, records: Seq<Seq<Seq<char>>> },
}

impl View for ExportStep {
    type V = ExportStepView;

    open spec fn view(&self) -> ExportStepView {
        match self {
            ExportStep::Skip { warning } => ExportStepView::Skip { warning: warning@ },
            ExportStep::Write { file_name, records } => ExportStepView::Write {
                file_name: file_name@,
                records: records@.map_values(|r: Vec<String>| strings_view(r@)),
            },
        }
    }
}

/// The export of one list of records: a warning when it is empty, otherwise
/// the records written to the file `<prefix><output file name>`.
pub open spec fn export_step_spec(records: Seq<Seq<Seq<char>>>, prefix: Seq<char>, output_file_name: Seq<char>) -> ExportStepView {
    if records.len() == 0 {
        ExportStepView::Skip {
            warning: "Sqlite rows passed in are empty, no need to log to "@ + output_file_name,
        }
    } else {
        ExportStepView::Write { file_name: prefix + output_file_name, records }
    }
}

/// The records of the changed rows: the first table's values followed by the
/// second's, as the changed-rows statement returns them.
pub open spec fn changed_records(data: ComparisonDataView) -> Seq<Seq<Seq<char>>> {
    data.changed_rows.map_values(|p: (Seq<Seq<char>>, Seq<Seq<char>>)| p.0 + p.1)
}

/// The model of the steps of an export.
pub open spec fn steps_view(steps: Seq<ExportStep>) -> Seq<ExportStepView> {
    steps.map_values(|s: ExportStep| s@)
}

fn copy_strings(v: &Vec<String>) -> (r: Vec<String>)
    ensures
        strings_view(r@) == strings_view(v@),
{
    let mut r: Vec<String> = Vec::new();
    let mut i: usize = 0;
    while i < v.len()
        invariant
            i <= v@.len(),
            strings_view(r@) == strings_view(v@).take(i as int),
        decreases v@.len() - i,
    {
        push_string(&mut r, v[i].clone());
        assert(strings_view(v@).take(i + 1) =~= strings_view(v@).take(i as int).push(v@[i as int]@));
        i = i + 1;
    }
    assert(strings_view(v@).take(i as int) =~= strings_view(v@));
    r
}

fn export_step(records: Vec<Vec<String>>, prefix: &str, output_file_name: &str) -> (s: ExportStep)
    ensures
        s@ == export_step_spec(records@.map_values(|r: Vec<String>| strings_view(r@)), prefix@, output_file_name@),
{
    if records.len() == 0 {
        let mut warning = String::from_str("Sqlite rows passed in are empty, no need to log to ");
        warning.append(output_file_name);
        ExportStep::Skip { warning }
    } else {
        let mut file_name = String::from_str(prefix);
        file_name.append(output_file_name);
        ExportStep::Write { file_name, records }
    }
}

/// The steps of exporting a comparison to CSV files, one for each of the
/// rows unique to the first table, the rows unique to the second, and the
/// changed rows, in that order. Each non-empty list has a file of its own:
/// `unique_table_1_rows_<output file name>`,
/// `unique_table_2_rows_<output file name>` and
/// `changed_rows_<output file name>`.
pub fn export(result: &ComparisonData, output_file_name: &str) -> (steps: Vec<ExportStep>)
    ensures
        steps_view(steps@) == seq![
            export_step_spec(result@.unique_table_1_rows, "unique_table_1_rows_"@, output_file_name@),
            export_step_spec(result@.unique_table_2_rows, "unique_table_2_rows_"@, output_file_name@),
            export_step_spec(changed_records(result@), "changed_rows_"@, output_file_name@),
        ],
{
    let mut unique_1: Vec<Vec<String>> = Vec::new();
    let mut i: usize = 0;
    while i < result.unique_table_1_rows.len()
        invariant
            i <= result.unique_table_1_rows@.len(),
            unique_1@.map_values(|r: Vec<String>| strings_view(r@)) == result@.unique_table_1_rows.take(i as int),
        decreases result.unique_table_1_rows@.len() - i,
    {
        let ghost before = unique_1@;
        let r = copy_strings(&result.unique_table_1_rows[i].row);
        unique_1.push(r);
        assert(unique_1@.map_values(|r: Vec<String>| strings_view(r@)) =~= before.map_values(
            |r: Vec<String>| strings_view(r@),
        ).push(strings_view(r@)));
        assert(result@.unique_table_1_rows.take(i + 1) =~= result@.unique_table_1_rows.take(i as int).push(
            result@.unique_table_1_rows[i as int],
        ));
        i = i + 1;
    }
    assert(result@.unique_table_1_rows.take(i as int) =~= result@.unique_table_1_rows);
    let mut unique_2: Vec<Vec<String>> = Vec::new();
    let mut i: usize = 0;
    while i < result.unique_table_2_rows.len()
        invariant
            i <= result.unique_table_2_rows@.len(),
            unique_2@.map_values(|r: Vec<String>| strings_view(r@)) == result@.unique_table_2_rows.take(i as int),
        decreases result.unique_table_2_rows@.len() - i,
    {
        let ghost before = unique_2@;
        let r = copy_strings(&result.unique_table_2_rows[i].row);
        unique_2.push(r);
        assert(unique_2@.map_values(|r: Vec<String>| strings_view(r@)) =~= before.map_values(
            |r: Vec<String>| strings_view(r@),
        ).push(strings_view(r@)));
        assert(result@.unique_table_2_rows.take(i + 1) =~= result@.unique_table_2_rows.take(i as int).push(
            result@.unique_table_2_rows[i as int],
        ));
        i = i + 1;
    }
    assert(result@.unique_table_2_rows.take(i as int) =~= result@.unique_table_2_rows);
    let mut changed: Vec<Vec<String>> = Vec::new();
    let ghost target = changed_records(result@);
    let mut i: usize = 0;
    while i < result.changed_rows.len()
        invariant
            i <= result.changed_rows@.len(),
            target == changed_records(result@),
            changed@.map_values(|r: Vec<String>| strings_view(r@)) == target.take(i as int),
        decreases result.changed_rows@.len() - i,
    {
        let ghost before = changed@;
        let mut r = copy_strings(&result.changed_rows[i].table_1_row);
        let mut second = copy_strings(&result.changed_rows[i].table_2_row);
        crate::text::append_strings(&mut r, &mut second);
        changed.push(r);
        assert(changed@.map_values(|r: Vec<String>| strings_view(r@)) =~= before.map_values(
            |r: Vec<String>| strings_view(r@),
        ).push(strings_view(r@)));
        assert(target.take(i + 1) =~= target.take(i as int).push(target[i as int]));
        i = i + 1;
    }
    assert(target.take(i as int) =~= target);
    let mut steps: Vec<ExportStep> = Vec::new();
    steps.push(export_step(unique_1, "unique_table_1_rows_", output_file_name));
    steps.push(export_step(unique_2, "unique_table_2_rows_", output_file_name));
    steps.push(export_step(changed, "changed_rows_", output_file_name));
    assert(steps_view(steps@) =~= seq![
        export_step_spec(result@.unique_table_1_rows, "unique_table_1_rows_"@, output_file_name@),
        export_step_spec(result@.unique_table_2_rows, "unique_table_2_rows_"@, output_file_name@),
        export_step_spec(changed_records(result@), "changed_rows_"@, output_file_name@),
    ]);
    steps
}

} // verus!

verus! {

/// Every value of a row is accounted for: it gives a field, or its column
/// type is reported as unknown.
pub proof fn lemma_every_value_accounted(row: Seq<CellView>)
    ensures
        csv_fields_spec(row).len() + unknown_types_spec(row).len() == row.len(),
    decreases row.len(),
{
    if row.len() > 0 {
        lemma_every_value_accounted(row.drop_last());
    }
}

/// A row whose column types are all known gives one field per value, in
/// order, and reports nothing.
pub proof fn lemma_known_types_give_all_fields(row: Seq<CellView>)
    requires
        forall|i: int| 0 <= i < row.len() ==> is_csv_type(#[trigger] row[i].column.sql_type),
    ensures
        csv_fields_spec(row) == row.map_values(|c: CellView| field_spec(c.value)),
        unknown_types_spec(row).len() == 0,
    decreases row.len(),
{
    if row.len() > 0 {
        let r = row.drop_last();
        assert forall|i: int| 0 <= i < r.len() implies is_csv_type(#[trigger] r[i].column.sql_type) by {
            assert(r[i] == row[i]);
        }
        lemma_known_types_give_all_fields(r);
        assert(is_csv_type(row[row.len() - 1].column.sql_type));
        assert(row.map_values(|c: CellView| field_spec(c.value)) =~= r.map_values(|c: CellView| field_spec(c.value)).push(
            field_spec(row.last().value),
        ));
    } else {
        assert(row.map_values(|c: CellView| field_spec(c.value)) =~= Seq::<Seq<char>>::empty());
    }
}

/// Changed rows read from the joined rows of the changed-rows statement
/// (`changed_pairs_from_rows`) are exported as those joined rows cut to the
/// values of the two tables: splitting a joined row in two halves loses and
/// adds nothing.
pub proof fn lemma_changed_rows_export_joined_rows(data: ComparisonDataView, rows: Seq<Seq<Seq<char>>>, n: int)
    requires
        0 <= n,
        forall|i: int| 0 <= i < rows.len() ==> #[trigger] rows[i].len() >= 2 * n,
        data.changed_rows == rows.map_values(|r: Seq<Seq<char>>| crate::datastore::sqlite::split_pair(r, n)),
    ensures
        changed_records(data) == rows.map_values(|r: Seq<Seq<char>>| r.subrange(0, 2 * n)),
{
    let a = changed_records(data);
    let b = rows.map_values(|r: Seq<Seq<char>>| r.subrange(0, 2 * n));
    assert forall|i: int| 0 <= i < rows.len() implies a[i] == b[i] by {
        let r = rows[i];
        assert(r.subrange(0, n) + r.subrange(n, 2 * n) =~= r.subrange(0, 2 * n));
    }
    assert(a =~= b);
}

} // verus!

verus! {

/// The three lists of an export go to three different files, so no list
/// overwrites another.
pub proof fn lemma_export_files_distinct(output_file_name: Seq<char>)
    ensures
        "unique_table_1_rows_"@ + output_file_name != "unique_table_2_rows_"@ + output_file_name,
        "unique_table_1_rows_"@ + output_file_name != "changed_rows_"@ + output_file_name,
        "unique_table_2_rows_"@ + output_file_name != "changed_rows_"@ + output_file_name,
{
    reveal_strlit("unique_table_1_rows_");
    reveal_strlit("unique_table_2_rows_");
    reveal_strlit("changed_rows_");
    let a = "unique_table_1_rows_"@ + output_file_name;
    let b = "unique_table_2_rows_"@ + output_file_name;
    let c = "changed_rows_"@ + output_file_name;
    assert(a[13] != b[13]);
    assert(a[0] != c[0]);
    assert(b[0] != c[0]);
}

} // verus!

verus! {

/// A list of records is written exactly when it is not empty, whole and
/// under `<prefix><output file name>`; an empty list gives the warning that
/// names the output file.
pub proof fn lemma_export_step_writes_non_empty(records: Seq<Seq<Seq<char>>>, prefix: Seq<char>, name: Seq<char>)
    ensures
        records.len() > 0 ==> export_step_spec(records, prefix, name) == (ExportStepView::Write {
            file_name: prefix + name,
            records,
        }),
        records.len() == 0 ==> export_step_spec(records, prefix, name) == (ExportStepView::Skip {
            warning: "Sqlite rows passed in are empty, no need to log to "@ + name,
        }),
{
}

/// The column types that give a CSV field are exactly `TEXT`, `INTEGER`,
/// `REAL` and `BLOB`.
pub proof fn lemma_csv_types(t: Seq<char>)
    ensures
        is_csv_type(t) <==> (t == "TEXT"@ || t == "INTEGER"@ || t == "REAL"@ || t == "BLOB"@),
{
}

} // verus!
