//! Random data for a single table of larger rows.
use vstd::prelude::*;
use vstd::string::*;
use crate::datastore::generator::{
    GeneratedTable, generate_rows_with, generated_create_query, generated_create_query_spec, generated_insert_query,
    generated_insert_query_spec, generated_view, row_count, row_in_ranges,
};

verus! {

/// Random data for the table `table_name`: `num_rows_to_generate` rows of
/// two numbers from 1 to 499 and two words of 25 letters, with the
/// statements that create the table and insert them.
pub fn create_new_data(num_rows_to_generate: i32, table_name: &str) -> (t: GeneratedTable)
    ensures
        t.table_name@ == table_name@,
        t.create_query@ == generated_create_query_spec(table_name@),
        t.rows@.len() == row_count(num_rows_to_generate),
        forall|i: int| 0 <= i < t.rows@.len() ==> row_in_ranges(#[trigger] t.rows@[i]@, 500, 500, 25),
        t.insert_query@ == generated_insert_query_spec(table_name@, generated_view(t.rows@)),
{
    let rows = generate_rows_with(num_rows_to_generate, 500, 500, 25);
    GeneratedTable {
        table_name: String::from_str(table_name),
        create_query: generated_create_query(table_name),
        insert_query: generated_insert_query(table_name, &rows),
        rows,
    }
}

} // verus!
