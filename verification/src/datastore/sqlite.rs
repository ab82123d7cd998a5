//! The SQLite side of a comparison: the statements that find the rows unique
//! to each table and the rows that changed, and the reading of their results.
use vstd::prelude::*;
use vstd::string::*;
use crate::models::comparison_data::{ComparisonRow, pairs_view, rows_view};
use crate::models::table_data::{TableData, TableDataView, column_names};
use crate::layout::{
    join_offset, lemma_concat_is_join, lemma_join_offsets_increase, lemma_join_piece, lemma_occurs_adjacent,
    lemma_occurs_in_prefix, lemma_occurs_in_suffix, occurs_at,
};
use crate::text::{
    chars_of, concat_all, drop_last_char, int_text, join, pop_char, push_int, push_string,
    strings_view,
};

verus! {

/// The statement that counts the tables named `table_name`.
pub open spec fn table_exists_query_spec(table_name: Seq<char>) -> Seq<char> {
    "select count(*) from sqlite_master where type='table' and name='"@ + table_name + "'"@
}

/// The statement that counts the tables named `table_name` (one when the
/// table exists, none otherwise).
pub fn table_exists_query(table_name: &str) -> (q: String)
    ensures
        q@ == table_exists_query_spec(table_name@),
{
    let mut q = String::from_str("select count(*) from sqlite_master where type='table' and name='");
    q.append(table_name);
    q.append("'");
    q
}

/// Whether the count that `table_exists_query` returned means the table exists.
pub fn table_exists_from_count(count: i32) -> (exists: bool)
    ensures
        exists == (count > 0),
{
    count > 0
}

/// The statement that drops the table `table_name`.
pub fn drop_table_query(table_name: &str) -> (q: String)
    ensures
        q@ == "drop table "@ + table_name@,
{
    let mut q = String::from_str("drop table ");
    q.append(table_name);
    q
}

/// The name of the table that keeps the changed rows of `table_name`.
pub fn changed_table_name(table_name: &str) -> (name: String)
    ensures
        name@ == "changedRows_"@ + table_name@,
{
    let mut name = String::from_str("changedRows_");
    name.append(table_name);
    name
}

/// The name of the table that keeps the rows unique to `table_name`.
pub fn unique_table_name(table_name: &str) -> (name: String)
    ensures
        name@ == "unique_"@ + table_name@,
{
    let mut name = String::from_str("unique_");
    name.append(table_name);
    name
}

/// The condition that a column holds the same value in both tables.
pub open spec fn column_equal_spec(column: Seq<char>) -> Seq<char> {
    "t1."@ + column + " = t2."@ + column
}

/// The statement that joins the two tables on their primary keys and keeps
/// the joined rows in which some column differs.
pub open spec fn changed_rows_query_spec(t1: TableDataView, t2: TableDataView) -> Seq<char> {
    "\n            select t1.*, t2.*\n            from "@ + t1.table_name + " t1\n            join "@
        + t2.table_name + " t2 on t1."@ + t1.primary_key + " = t2."@ + t2.primary_key
        + "\n            where not ("@
        + join(column_names(t1.columns).map_values(|c: Seq<char>| column_equal_spec(c)), " and "@)
        + ")"@
}

/// The statement that finds the changed rows: the rows of both tables that
/// share a primary key but differ in some column of the first table.
pub fn changed_rows_query(sqlite_table_1: &TableData, sqlite_table_2: &TableData) -> (q: String)
    ensures
        q@ == changed_rows_query_spec(sqlite_table_1@, sqlite_table_2@),
{
    let mut q = String::from_str("\n            select t1.*, t2.*\n            from ");
    q.append(sqlite_table_1.table_name.as_str());
    q.append(" t1\n            join ");
    q.append(sqlite_table_2.table_name.as_str());
    q.append(" t2 on t1.");
    q.append(sqlite_table_1.primary_key.as_str());
    q.append(" = t2.");
    q.append(sqlite_table_2.primary_key.as_str());
    q.append("\n            where not (");
    let ghost pieces = column_names(sqlite_table_1@.columns).map_values(|c: Seq<char>| column_equal_spec(c));
    let ghost head = q@;
    let columns = &sqlite_table_1.columns;
    let mut i: usize = 0;
    while i < columns.len()
        invariant
            i <= columns@.len(),
            columns@ == sqlite_table_1.columns@,
            pieces.len() == columns@.len(),
            forall|k: int| 0 <= k < columns@.len() ==> #[trigger] pieces[k] == column_equal_spec(columns@[k].name@),
            q@ == head + join(pieces.take(i as int), " and "@),
        decreases columns@.len() - i,
    {
        let ghost before = q@;
        if i > 0 {
            q.append(" and ");
        }
        q.append("t1.");
        q.append(columns[i].name.as_str());
        q.append(" = t2.");
        q.append(columns[i].name.as_str());
        assert(pieces.take(i + 1).drop_last() =~= pieces.take(i as int));
        assert(pieces[i as int] == column_equal_spec(columns@[i as int].name@));
        if i == 0 {
            assert(q@ =~= head + join(pieces.take(i + 1), " and "@));
        } else {
            assert(q@ =~= head + join(pieces.take(i + 1), " and "@));
        }
        i = i + 1;
    }
    assert(pieces.take(i as int) =~= pieces);
    q.append(")");
    q
}

} // verus!

verus! {

/// The condition that a row of the second table has the key of the current
/// row of the first: both keys qualified by their table.
pub open spec fn key_match_spec(t1: TableDataView, t2: TableDataView) -> Seq<char> {
    t2.table_name + "."@ + t2.primary_key + " = "@ + t1.table_name + "."@ + t1.primary_key
}

/// The statement that stores the rows of the first table whose primary key
/// is not in the second in `unique_<table 1>`, then selects them.
pub open spec fn unique_rows_create_query_spec(t1: TableDataView, t2: TableDataView) -> Seq<char> {
    "create table unique_"@ + t1.table_name + "\n            as\n            select *\n            from "@
        + t1.table_name + "\n            where not exists (\n                select * from "@ + t2.table_name
        + " where "@ + key_match_spec(t1, t2) + "\n            );\n            select * from unique_"@
        + t1.table_name
}

/// The statement that selects the rows of the first table whose primary key
/// is not in the second, without storing them.
pub open spec fn unique_rows_select_query_spec(t1: TableDataView, t2: TableDataView) -> Seq<char> {
    "select *\n            from "@ + t1.table_name + "\n            where not exists (\n                select * from "@
        + t2.table_name + " where "@ + key_match_spec(t1, t2) + "\n            );"@
}

/// What finding the unique rows takes: when the rows are stored, the table
/// whose existence is checked and the result table then dropped; then the
/// statement to run.
pub struct UniqueRowsPlan {
    /// `Some((checked, dropped))` when a stale result table is to be dropped:
    /// if `checked` exists, a warning names it and `dropped` is dropped.
    pub stale_table: Option<(String, String)>,
    /// The statement that selects the unique rows.
    pub query: String,
}

fn push_key_match(q: &mut String, t1: &str, pk1: &str, t2: &str, pk2: &str)
    ensures
        final(q)@ == old(q)@ + t2@ + "."@ + pk2@ + " = "@ + t1@ + "."@ + pk1@,
{
    q.append(t2);
    q.append(".");
    q.append(pk2);
    q.append(" = ");
    q.append(t1);
    q.append(".");
    q.append(pk1);
}

/// The plan for the rows unique to the first table: those whose primary key
/// no row of the second table has. When the comparison files are kept, the
/// result is stored in `unique_<table 1>`; that table is dropped first when
/// the first table exists (so on every run that gets this far); otherwise the
/// rows are only selected.
pub fn get_unique_rows(
    sqlite_table_1: &TableData,
    sqlite_table_2: &TableData,
    create_sqlite_comparison_files: bool,
) -> (plan: UniqueRowsPlan)
    ensures
        create_sqlite_comparison_files ==> {
            &&& plan.stale_table matches Some((checked, dropped))
            &&& checked@ == sqlite_table_1@.table_name
            &&& dropped@ == "unique_"@ + sqlite_table_1@.table_name
            &&& plan.query@ == unique_rows_create_query_spec(sqlite_table_1@, sqlite_table_2@)
        },
        !create_sqlite_comparison_files ==> {
            &&& plan.stale_table is None
            &&& plan.query@ == unique_rows_select_query_spec(sqlite_table_1@, sqlite_table_2@)
        },
{
    let t1 = sqlite_table_1.table_name.as_str();
    let t2 = sqlite_table_2.table_name.as_str();
    let pk1 = sqlite_table_1.primary_key.as_str();
    let pk2 = sqlite_table_2.primary_key.as_str();
    if create_sqlite_comparison_files {
        let mut q = String::from_str("create table unique_");
        q.append(t1);
        q.append("\n            as\n            select *\n            from ");
        q.append(t1);
        q.append("\n            where not exists (\n                select * from ");
        q.append(t2);
        q.append(" where ");
        push_key_match(&mut q, t1, pk1, t2, pk2);
        q.append("\n            );\n            select * from unique_");
        q.append(t1);
        assert(q@ =~= unique_rows_create_query_spec(sqlite_table_1@, sqlite_table_2@));
        UniqueRowsPlan { stale_table: Some((String::from_str(t1), unique_table_name(t1))), query: q }
    } else {
        let mut q = String::from_str("select *\n            from ");
        q.append(t1);
        q.append("\n            where not exists (\n                select * from ");
        q.append(t2);
        q.append(" where ");
        push_key_match(&mut q, t1, pk1, t2, pk2);
        q.append("\n            );");
        assert(q@ =~= unique_rows_select_query_spec(sqlite_table_1@, sqlite_table_2@));
        UniqueRowsPlan { stale_table: None, query: q }
    }
}

/// The table whose existence is checked, and which is then dropped, before
/// the changed rows are looked for: `Some` only when the comparison files are
/// kept.
pub fn get_changed_rows_stale_table(sqlite_table_1: &TableData, create_sqlite_comparison_files: bool) -> (t: Option<String>)
    ensures
        create_sqlite_comparison_files ==> (t matches Some(name) && name@ == "changedRows_"@ + sqlite_table_1@.table_name),
        !create_sqlite_comparison_files ==> t is None,
{
    if create_sqlite_comparison_files {
        Some(changed_table_name(sqlite_table_1.table_name.as_str()))
    } else {
        None
    }
}

/// Each fetched row as a comparison row.
pub fn rows_to_comparison_rows(rows: Vec<Vec<String>>) -> (r: Vec<ComparisonRow>)
    ensures
        rows_view(r@) == rows@.map_values(|row: Vec<String>| strings_view(row@)),
{
    let ghost target = rows@.map_values(|row: Vec<String>| strings_view(row@));
    let ghost orig = rows@;
    let total = rows.len();
    let mut rows = rows;
    let mut out: Vec<ComparisonRow> = Vec::new();
    let mut taken: usize = 0;
    while rows.len() > 0
        invariant
            rows@.len() + taken == total,
            orig.len() == total,
            target == orig.map_values(|row: Vec<String>| strings_view(row@)),
            rows@ == orig.skip(taken as int),
            rows_view(out@) == target.take(taken as int),
        decreases rows@.len(),
    {
        let row = rows.remove(0);
        assert(row == orig[taken as int]);
        assert(rows@ =~= orig.skip(taken + 1));
        let cr = ComparisonRow { row };
        let ghost before = out@;
        out.push(cr);
        assert(rows_view(out@) =~= rows_view(before).push(cr@));
        assert(target.take(taken + 1) =~= target.take(taken as int).push(target[taken as int]));
        taken = taken + 1;
    }
    assert(target.take(taken as int) =~= target);
    out
}

/// The two halves of a joined row: the first `n` values and the `n` after them.
pub open spec fn split_pair(row: Seq<Seq<char>>, n: int) -> (Seq<Seq<char>>, Seq<Seq<char>>) {
    (row.subrange(0, n), row.subrange(n, 2 * n))
}

fn copy_range(row: &Vec<String>, from: usize, to: usize) -> (r: Vec<String>)
    requires
        from <= to <= row@.len(),
    ensures
        strings_view(r@) == strings_view(row@).subrange(from as int, to as int),
{
    let mut r: Vec<String> = Vec::new();
    let mut i = from;
    while i < to
        invariant
            from <= i <= to <= row@.len(),
            strings_view(r@) == strings_view(row@).subrange(from as int, i as int),
        decreases to - i,
    {
        push_string(&mut r, row[i].clone());
        assert(strings_view(row@).subrange(from as int, i + 1) =~= strings_view(row@).subrange(from as int, i as int).push(
            row@[i as int]@,
        ));
        i = i + 1;
    }
    r
}

/// Each joined row of the changed-rows statement as a pair: the values of the
/// first table's `col_count` columns, then the values that follow them.
pub fn changed_pairs_from_rows(rows: &Vec<Vec<String>>, col_count: usize) -> (pairs: Vec<(ComparisonRow, ComparisonRow)>)
    requires
        col_count <= usize::MAX / 2,
        forall|i: int| 0 <= i < rows@.len() ==> #[trigger] rows@[i]@.len() >= 2 * col_count,
    ensures
        pairs_view(pairs@) == rows@.map_values(|row: Vec<String>| split_pair(strings_view(row@), col_count as int)),
{
    let ghost target = rows@.map_values(|row: Vec<String>| split_pair(strings_view(row@), col_count as int));
    let mut pairs: Vec<(ComparisonRow, ComparisonRow)> = Vec::new();
    let mut i: usize = 0;
    while i < rows.len()
        invariant
            i <= rows@.len(),
            col_count <= usize::MAX / 2,
            forall|k: int| 0 <= k < rows@.len() ==> #[trigger] rows@[k]@.len() >= 2 * col_count,
            target == rows@.map_values(|row: Vec<String>| split_pair(strings_view(row@), col_count as int)),
            pairs_view(pairs@) == target.take(i as int),
        decreases rows@.len() - i,
    {
        let row = &rows[i];
        assert(row@.len() >= 2 * col_count);
        let first = copy_range(row, 0, col_count);
        let second = copy_range(row, col_count, 2 * col_count);
        let p = (ComparisonRow { row: first }, ComparisonRow { row: second });
        let ghost before = pairs@;
        pairs.push(p);
        assert(pairs_view(pairs@) =~= pairs_view(before).push((p.0@, p.1@)));
        assert(target.take(i + 1) =~= target.take(i as int).push(target[i as int]));
        i = i + 1;
    }
    assert(target.take(i as int) =~= target);
    pairs
}

/// One column of the main comparison: the first table's value when both
/// agree, `old()` or `()new` when only one table has a value, `old(new)` when
/// they differ.
pub open spec fn case_piece_spec(c: Seq<char>) -> Seq<char> {
    "case\n                when t1."@ + c + " is null and t2."@ + c + " is not null then '()'||t2."@ + c
        + "\n                when t1."@ + c + " is not null and t2."@ + c + " is null then t1."@ + c
        + "||'()'\n                when t1."@ + c + " != t2."@ + c + " then t1."@ + c + "||'('||t2."@ + c
        + "||')'\n                else t1."@ + c + "\n            end as "@ + c + ","@
}

/// The joins that the main comparison reads from.
pub open spec fn main_join_spec(t1: TableDataView, t2: TableDataView) -> Seq<char> {
    "\n        from "@ + t1.table_name + " t1\n        left join "@ + t2.table_name + " t2 on t1."@ + t1.primary_key
        + " = t2."@ + t2.primary_key + "\n        left join unique_"@ + t1.table_name + " new on t1."@
        + t1.primary_key + " = new."@ + t1.primary_key + "\n        "@
}

/// The statement that stores the main comparison in `main_out_<timestamp>`.
pub open spec fn main_comparison_query_spec(t1: TableDataView, t2: TableDataView, timestamp: int) -> Seq<char> {
    drop_last_char(
        "create table main_out_"@ + int_text(timestamp) + " as select "@ + concat_all(
            column_names(t1.columns).map_values(|c: Seq<char>| case_piece_spec(c)),
        ),
    ) + main_join_spec(t1, t2)
}

fn push_case_piece(q: &mut String, c: &str)
    ensures
        final(q)@ == old(q)@ + case_piece_spec(c@),
{
    let mut p = String::from_str("case\n                when t1.");
    p.append(c);
    p.append(" is null and t2.");
    p.append(c);
    p.append(" is not null then '()'||t2.");
    p.append(c);
    p.append("\n                when t1.");
    p.append(c);
    p.append(" is not null and t2.");
    p.append(c);
    p.append(" is null then t1.");
    p.append(c);
    p.append("||'()'\n                when t1.");
    p.append(c);
    p.append(" != t2.");
    p.append(c);
    p.append(" then t1.");
    p.append(c);
    p.append("||'('||t2.");
    p.append(c);
    p.append("||')'\n                else t1.");
    p.append(c);
    p.append("\n            end as ");
    p.append(c);
    p.append(",");
    q.append(p.as_str());
}

/// The statement that writes the main comparison of the two tables, one
/// `case` column per column of the first table, into `main_out_<timestamp>`.
pub fn main_comparison_query(sqlite_table_1: &TableData, sqlite_table_2: &TableData, timestamp: i64) -> (q: String)
    ensures
        q@ == main_comparison_query_spec(sqlite_table_1@, sqlite_table_2@, timestamp as int),
{
    let mut q = String::from_str("create table main_out_");
    push_int(&mut q, timestamp);
    q.append(" as select ");
    let ghost head = q@;
    let ghost pieces = column_names(sqlite_table_1@.columns).map_values(|c: Seq<char>| case_piece_spec(c));
    let columns = &sqlite_table_1.columns;
    let mut i: usize = 0;
    while i < columns.len()
        invariant
            i <= columns@.len(),
            columns@ == sqlite_table_1.columns@,
            pieces.len() == columns@.len(),
            forall|k: int| 0 <= k < columns@.len() ==> #[trigger] pieces[k] == case_piece_spec(columns@[k].name@),
            q@ == head + concat_all(pieces.take(i as int)),
        decreases columns@.len() - i,
    {
        push_case_piece(&mut q, columns[i].name.as_str());
        assert(pieces.take(i + 1).drop_last() =~= pieces.take(i as int));
        assert(q@ =~= head + concat_all(pieces.take(i + 1)));
        i = i + 1;
    }
    assert(pieces.take(i as int) =~= pieces);
    pop_char(&mut q);
    let t1 = sqlite_table_1.table_name.as_str();
    let pk1 = sqlite_table_1.primary_key.as_str();
    q.append("\n        from ");
    q.append(t1);
    q.append(" t1\n        left join ");
    q.append(sqlite_table_2.table_name.as_str());
    q.append(" t2 on t1.");
    q.append(pk1);
    q.append(" = t2.");
    q.append(sqlite_table_2.primary_key.as_str());
    q.append("\n        left join unique_");
    q.append(t1);
    q.append(" new on t1.");
    q.append(pk1);
    q.append(" = new.");
    q.append(pk1);
    q.append("\n        ");
    q
}

/// The main comparison statement, stamped with the current time.
pub fn generate_main_comparison_file(sqlite_table_1: &TableData, sqlite_table_2: &TableData) -> (q: String)
    ensures
        exists|ts: i64| q@ == main_comparison_query_spec(sqlite_table_1@, sqlite_table_2@, ts as int),
{
    let ts = crate::clock::local_timestamp();
    main_comparison_query(sqlite_table_1, sqlite_table_2, ts)
}

/// Whether `name` ends with `suffix`.
pub open spec fn ends_with_spec(name: Seq<char>, suffix: Seq<char>) -> bool {
    name.len() >= suffix.len() && name.subrange(name.len() - suffix.len(), name.len() as int) == suffix
}

/// Whether a file name is that of a SQLite database: it ends in `.sqlite` or
/// in `.sqlite3` (the tool's own database is `db.sqlite3`).
pub open spec fn is_sqlite_file_spec(name: Seq<char>) -> bool {
    ends_with_spec(name, ".sqlite"@) || ends_with_spec(name, ".sqlite3"@)
}

fn ends_with(cs: &Vec<char>, suffix: &str) -> (r: bool)
    ensures
        r == ends_with_spec(cs@, suffix@),
{
    let n = chars_of(suffix).len();
    if cs.len() < n {
        return false;
    }
    crate::text::chars_range_eq(cs, cs.len() - n, cs.len(), suffix)
}

/// Whether a file in the working directory is a SQLite file that cleaning removes.
pub fn is_sqlite_file(file_name: &str) -> (r: bool)
    ensures
        r == is_sqlite_file_spec(file_name@),
{
    let cs = chars_of(file_name);
    ends_with(&cs, ".sqlite") || ends_with(&cs, ".sqlite3")
}

} // verus!

verus! {

/// How the comparison of column `c` reads in the changed-rows statement,
/// with what follows it: `" and "` before the next column, the closing
/// bracket after the last.
pub open spec fn column_compared(c: Seq<char>, last: bool) -> Seq<char> {
    "t1."@ + c + " = t2."@ + c + if last { ")"@ } else { " and "@ }
}

/// How the comparison of the `i`-th column of `t1` reads in the
/// changed-rows statement, with what follows it.
pub open spec fn nth_column_compared(t1: TableDataView, i: int) -> Seq<char> {
    column_compared(t1.columns[i].name, i + 1 == t1.columns.len())
}

/// The changed-rows statement compares every column of the first table, in
/// the order of the columns: for columns `j <= k`, the comparison
/// `t1.<c> = t2.<c>` of each stands in the statement, followed by `" and "`
/// or, for the last column, by the closing bracket; and `k`'s stands after
/// `j`'s when `j < k`.
pub proof fn lemma_changed_rows_compare_every_column(t1: TableDataView, t2: TableDataView, j: int, k: int)
    requires
        0 <= j <= k < t1.columns.len(),
    ensures
        exists|pj: int, pk: int|
            #![trigger occurs_at(changed_rows_query_spec(t1, t2), nth_column_compared(t1, j), pj), occurs_at(changed_rows_query_spec(t1, t2), nth_column_compared(t1, k), pk)]
            {
                &&& pj <= pk
                &&& j < k ==> pj < pk
                &&& occurs_at(changed_rows_query_spec(t1, t2), nth_column_compared(t1, j), pj)
                &&& occurs_at(changed_rows_query_spec(t1, t2), nth_column_compared(t1, k), pk)
            },
{
    let n = t1.columns.len() as int;
    let pieces = column_names(t1.columns).map_values(|c: Seq<char>| column_equal_spec(c));
    let sep = " and "@;
    let head = "\n            select t1.*, t2.*\n            from "@ + t1.table_name + " t1\n            join "@
        + t2.table_name + " t2 on t1."@ + t1.primary_key + " = t2."@ + t2.primary_key
        + "\n            where not ("@;
    let body = join(pieces, sep);
    let q = changed_rows_query_spec(t1, t2);
    assert(q == head + body + ")"@);
    assert forall|i: int| 0 <= i < n implies occurs_at(
        q,
        column_compared(t1.columns[i].name, i + 1 == n),
        head.len() + join_offset(pieces, sep, i),
    ) by {
        let c = t1.columns[i].name;
        let off = join_offset(pieces, sep, i);
        assert(pieces[i] == "t1."@ + c + " = t2."@ + c);
        lemma_join_piece(pieces, sep, i);
        lemma_occurs_in_suffix(head, body, pieces[i], off);
        lemma_occurs_in_prefix(head + body, ")"@, pieces[i], head.len() + off);
        if i + 1 < n {
            lemma_occurs_in_suffix(head, body, sep, off + pieces[i].len());
            lemma_occurs_in_prefix(head + body, ")"@, sep, head.len() + off + pieces[i].len());
            lemma_occurs_adjacent(q, pieces[i], sep, head.len() + off);
        } else {
            assert(occurs_at(q, ")"@, (head + body).len() as int)) by {
                assert(q.subrange((head + body).len() as int, q.len() as int) =~= ")"@);
            }
            lemma_occurs_adjacent(q, pieces[i], ")"@, head.len() + off);
        }
        assert(pieces[i] + (if i + 1 == n { ")"@ } else { " and "@ }) =~= column_compared(c, i + 1 == n));
    }
    let pj = head.len() + join_offset(pieces, sep, j);
    let pk = head.len() + join_offset(pieces, sep, k);
    if j < k {
        reveal_strlit(" and ");
        lemma_join_offsets_increase(pieces, sep, j, k);
        assert(pj < pk);
    }
    assert(occurs_at(q, nth_column_compared(t1, j), pj));
    assert(occurs_at(q, nth_column_compared(t1, k), pk));
}

} // verus!

verus! {

/// The comparison column that the main comparison computes from column `c`:
/// `()new` when only the second table has a value, `old()` when only the
/// first has one, `old(new)` when they differ, the value itself otherwise;
/// named after `c`.
pub open spec fn column_case_text(c: Seq<char>) -> Seq<char> {
    "case\n                when t1."@ + c + " is null and t2."@ + c + " is not null then '()'||t2."@ + c
        + "\n                when t1."@ + c + " is not null and t2."@ + c + " is null then t1."@ + c
        + "||'()'\n                when t1."@ + c + " != t2."@ + c + " then t1."@ + c + "||'('||t2."@ + c
        + "||')'\n                else t1."@ + c + "\n            end as "@ + c
}

/// How the comparison column of the `i`-th column of `t1` reads in the main
/// comparison statement, with what follows it: a comma before the next
/// column, the `from` clause after the last.
pub open spec fn nth_column_case(t1: TableDataView, i: int) -> Seq<char> {
    column_case_text(t1.columns[i].name) + if i + 1 == t1.columns.len() {
        "\n        from "@
    } else {
        ","@
    }
}

proof fn lemma_occurs_before_last(x: Seq<char>, t: Seq<char>, p: int)
    requires
        occurs_at(x, t, p),
        p + t.len() < x.len(),
    ensures
        occurs_at(x.drop_last(), t, p),
{
    assert(x.drop_last().subrange(p, p + t.len()) =~= x.subrange(p, p + t.len()));
}

proof fn lemma_case_piece_ends_with_comma(c: Seq<char>)
    ensures
        case_piece_spec(c) == column_case_text(c) + ","@,
{
    assert(case_piece_spec(c) =~= column_case_text(c) + ","@);
}

proof fn lemma_main_join_starts_with_from(t1: TableDataView, t2: TableDataView)
    ensures
        occurs_at(main_join_spec(t1, t2), "\n        from "@, 0),
{
    let from = "\n        from "@;
    let tail = main_join_spec(t1, t2);
    let rest = t1.table_name + " t1\n        left join "@ + t2.table_name + " t2 on t1."@ + t1.primary_key
        + " = t2."@ + t2.primary_key + "\n        left join unique_"@ + t1.table_name + " new on t1."@
        + t1.primary_key + " = new."@ + t1.primary_key + "\n        "@;
    assert(tail =~= from + rest);
    assert(tail.subrange(0, from.len() as int) =~= from);
}

/// The pieces of the select list of the main comparison.
spec fn main_pieces(t1: TableDataView) -> Seq<Seq<char>> {
    column_names(t1.columns).map_values(|c: Seq<char>| case_piece_spec(c))
}

/// The text before the select list of the main comparison.
spec fn main_head(ts: int) -> Seq<char> {
    "create table main_out_"@ + int_text(ts) + " as select "@
}

#[verifier::rlimit(40)]
proof fn lemma_main_column_at(t1: TableDataView, t2: TableDataView, ts: int, i: int)
    requires
        0 <= i < t1.columns.len(),
    ensures
        occurs_at(
            main_comparison_query_spec(t1, t2, ts),
            nth_column_case(t1, i),
            main_head(ts).len() + join_offset(main_pieces(t1), Seq::<char>::empty(), i),
        ),
{
    reveal_strlit(",");
    let n = t1.columns.len() as int;
    let pieces = main_pieces(t1);
    let e = Seq::<char>::empty();
    let head = main_head(ts);
    let body = concat_all(pieces);
    lemma_concat_is_join(pieces);
    let x = head + body;
    let tail = main_join_spec(t1, t2);
    let from = "\n        from "@;
    let q = main_comparison_query_spec(t1, t2, ts);
    assert(q == drop_last_char(x) + tail);
    let c = t1.columns[i].name;
    let t = column_case_text(c);
    let off = join_offset(pieces, e, i);
    let p = head.len() + off;
    lemma_case_piece_ends_with_comma(c);
    assert(pieces[i] == t + ","@);
    lemma_join_piece(pieces, e, i);
    lemma_occurs_in_suffix(head, body, pieces[i], off);
    assert(x.len() > 0);
    assert(drop_last_char(x) == x.drop_last());
    if i + 1 < n {
        lemma_case_piece_ends_with_comma(t1.columns[n - 1].name);
        assert(pieces.last() == pieces[n - 1]);
        lemma_occurs_before_last(x, pieces[i], p);
        lemma_occurs_in_prefix(x.drop_last(), tail, pieces[i], p);
    } else {
        assert(occurs_at(x, t, p)) by {
            assert(x.subrange(p, p + pieces[i].len()) == t + ","@);
            assert((t + ","@).subrange(0, t.len() as int) =~= t);
            assert(x.subrange(p, p + t.len()) =~= x.subrange(p, p + pieces[i].len()).subrange(0, t.len() as int));
        }
        lemma_occurs_before_last(x, t, p);
        lemma_occurs_in_prefix(x.drop_last(), tail, t, p);
        lemma_main_join_starts_with_from(t1, t2);
        lemma_occurs_in_suffix(x.drop_last(), tail, from, 0);
        lemma_occurs_adjacent(q, t, from, p);
    }
}

/// The main comparison statement holds one comparison column for every
/// column of the first table, in the order of the columns: for columns
/// `j <= k`, each one's `case ... end as <c>` stands in the statement,
/// followed by a comma or, for the last column, by the `from` clause; and
/// `k`'s stands after `j`'s when `j < k`.
pub proof fn lemma_main_comparison_covers_every_column(t1: TableDataView, t2: TableDataView, ts: int, j: int, k: int)
    requires
        0 <= j <= k < t1.columns.len(),
    ensures
        exists|pj: int, pk: int|
            #![trigger occurs_at(main_comparison_query_spec(t1, t2, ts), nth_column_case(t1, j), pj), occurs_at(main_comparison_query_spec(t1, t2, ts), nth_column_case(t1, k), pk)]
            {
                &&& pj <= pk
                &&& j < k ==> pj < pk
                &&& occurs_at(main_comparison_query_spec(t1, t2, ts), nth_column_case(t1, j), pj)
                &&& occurs_at(main_comparison_query_spec(t1, t2, ts), nth_column_case(t1, k), pk)
            },
{
    reveal_strlit(",");
    let pieces = main_pieces(t1);
    let e = Seq::<char>::empty();
    let pj = main_head(ts).len() + join_offset(pieces, e, j);
    let pk = main_head(ts).len() + join_offset(pieces, e, k);
    lemma_main_column_at(t1, t2, ts, j);
    lemma_main_column_at(t1, t2, ts, k);
    if j < k {
        lemma_join_offsets_increase(pieces, e, j, k);
        lemma_case_piece_ends_with_comma(t1.columns[j].name);
        assert(pieces[j].len() > 0);
        assert(pj < pk);
    }
}

} // verus!

verus! {

/// A joined row of the changed-rows statement splits into the first table's
/// `n` values and the second table's next `n`, which together are the row's
/// first `2n` values.
pub proof fn lemma_split_pair_halves(row: Seq<Seq<char>>, n: int)
    requires
        0 <= n,
        2 * n <= row.len(),
    ensures
        split_pair(row, n).0.len() == n,
        split_pair(row, n).1.len() == n,
        split_pair(row, n).0 + split_pair(row, n).1 == row.take(2 * n),
        forall|i: int| 0 <= i < n ==> #[trigger] split_pair(row, n).0[i] == row[i] && split_pair(row, n).1[i] == row[n
            + i],
{
    assert(split_pair(row, n).0 + split_pair(row, n).1 =~= row.take(2 * n));
}

} // verus!

verus! {

/// The rows unique to the first table are read from the first table, and a
/// row is dropped when the second table has a row whose key equals its key
/// (both keys qualified by their table); when the rows are kept, they are
/// stored in and then read from `unique_<table 1>`.
pub proof fn lemma_unique_rows_read_first_table(t1: TableDataView, t2: TableDataView)
    ensures
        ({
            let reads = "from "@ + t1.table_name + "\n"@;
            let excludes = "where not exists (\n                select * from "@ + t2.table_name + " where "@
                + t2.table_name + "."@ + t2.primary_key + " = "@ + t1.table_name + "."@ + t1.primary_key + "\n"@;
            &&& exists|p: int, r: int|
                p < r && occurs_at(unique_rows_select_query_spec(t1, t2), reads, p) && occurs_at(
                    unique_rows_select_query_spec(t1, t2),
                    excludes,
                    r,
                )
            &&& exists|p: int, r: int|
                p < r && occurs_at(unique_rows_create_query_spec(t1, t2), reads, p) && occurs_at(
                    unique_rows_create_query_spec(t1, t2),
                    excludes,
                    r,
                )
            &&& unique_rows_create_query_spec(t1, t2).take(("create table unique_"@ + t1.table_name).len() as int)
                == "create table unique_"@ + t1.table_name
        }),
{
    let reads = "from "@ + t1.table_name + "\n"@;
    let excludes = "where not exists (\n                select * from "@ + t2.table_name + " where "@
        + t2.table_name + "."@ + t2.primary_key + " = "@ + t1.table_name + "."@ + t1.primary_key + "\n"@;
    reveal_strlit("select *\n            from ");
    reveal_strlit("select *\n            ");
    reveal_strlit("from ");
    reveal_strlit("\n            where not exists (\n                select * from ");
    reveal_strlit("\n");
    reveal_strlit("            ");
    reveal_strlit("where not exists (\n                select * from ");
    reveal_strlit(" where ");
    reveal_strlit("\n            );");
    reveal_strlit("            );");
    let a = "select *\n            "@;
    let m = "            "@;
    let z = "            );"@;
    let q = unique_rows_select_query_spec(t1, t2);
    assert(q =~= a + reads + m + excludes + z);
    assert(q.subrange(a.len() as int, (a + reads).len() as int) =~= reads);
    assert(q.subrange((a + reads + m).len() as int, ((a + reads + m).len() + excludes.len()) as int) =~= excludes);
    assert(occurs_at(q, reads, a.len() as int));
    assert(occurs_at(q, excludes, (a + reads + m).len() as int));

    reveal_strlit("create table unique_");
    reveal_strlit("\n            as\n            select *\n            from ");
    reveal_strlit("\n            as\n            select *\n            ");
    reveal_strlit("\n            );\n            select * from unique_");
    reveal_strlit("            );\n            select * from unique_");
    let c = unique_rows_create_query_spec(t1, t2);
    let h = "create table unique_"@ + t1.table_name;
    let b = h + "\n            as\n            select *\n            "@;
    let w = "            );\n            select * from unique_"@ + t1.table_name;
    assert(c =~= b + reads + m + excludes + w);
    assert(c.subrange(b.len() as int, (b + reads).len() as int) =~= reads);
    assert(c.subrange((b + reads + m).len() as int, ((b + reads + m).len() + excludes.len()) as int) =~= excludes);
    assert(occurs_at(c, reads, b.len() as int));
    assert(occurs_at(c, excludes, (b + reads + m).len() as int));
    assert(c.take(h.len() as int) =~= h);
}

} // verus!
