//! Copying fetched MySQL rows into SQLite: the table to create and the rows
//! to insert.
use vstd::prelude::*;
use vstd::string::*;
use crate::models::table_data::{Cell, CellValue, CellValueView, CellView, ColumnInfo, ColumnView, columns_view, row_view};
use crate::layout::{join_offset, lemma_join_offsets_increase, lemma_piece_in_trimmed_list, occurs_at};
use crate::text::{concat_all, drop_last_char, int_text, pop_char, push_int, str_eq};

verus! {

/// The SQLite type that stands for a MySQL type.
pub open spec fn sqlite_type_spec(mysql_type: Seq<char>) -> Seq<char> {
    if mysql_type == "INT"@ {
        "INTEGER"@
    } else if mysql_type == "VARCHAR"@ {
        "TEXT"@
    } else {
        "BLOB"@
    }
}

/// The SQLite type that stands for a MySQL type: `INT` becomes `INTEGER`,
/// `VARCHAR` becomes `TEXT`, anything else `BLOB`.
pub fn mysql_type_to_sqlite_type(mysql_type: &str) -> (t: String)
    ensures
        t@ == sqlite_type_spec(mysql_type@),
{
    if str_eq(mysql_type, "INT") {
        String::from_str("INTEGER")
    } else if str_eq(mysql_type, "VARCHAR") {
        String::from_str("TEXT")
    } else {
        String::from_str("BLOB")
    }
}

/// The definition of one column in the created table, with its comma.
pub open spec fn column_def_spec(c: ColumnView) -> Seq<char> {
    c.name + " "@ + sqlite_type_spec(c.sql_type) + ","@
}

/// The statement that creates a SQLite table with the given columns, each
/// with the SQLite type of its MySQL type.
pub open spec fn create_table_query_spec(table_name: Seq<char>, columns: Seq<ColumnView>) -> Seq<char> {
    drop_last_char(
        "create table if not exists "@ + table_name + " ("@ + concat_all(
            columns.map_values(|c: ColumnView| column_def_spec(c)),
        ),
    ) + ")"@
}

/// The statement that creates a SQLite table with the given columns.
pub fn create_table_query(table_name: &str, columns: &Vec<ColumnInfo>) -> (q: String)
    ensures
        q@ == create_table_query_spec(table_name@, columns_view(columns@)),
{
    let mut q = String::from_str("create table if not exists ");
    q.append(table_name);
    q.append(" (");
    let ghost head = q@;
    let ghost pieces = columns_view(columns@).map_values(|c: ColumnView| column_def_spec(c));
    let mut i: usize = 0;
    while i < columns.len()
        invariant
            i <= columns@.len(),
            pieces.len() == columns@.len(),
            forall|k: int| 0 <= k < columns@.len() ==> #[trigger] pieces[k] == column_def_spec(columns@[k]@),
            q@ == head + concat_all(pieces.take(i as int)),
        decreases columns@.len() - i,
    {
        let column = &columns[i];
        q.append(column.name.as_str());
        q.append(" ");
        let t = mysql_type_to_sqlite_type(column.sql_type.as_str());
        q.append(t.as_str());
        q.append(",");
        assert(pieces.take(i + 1).drop_last() =~= pieces.take(i as int));
        assert(q@ =~= head + concat_all(pieces.take(i + 1)));
        i = i + 1;
    }
    assert(pieces.take(i as int) =~= pieces);
    pop_char(&mut q);
    q.append(")");
    q
}

/// The statement that creates the SQLite table for fetched MySQL rows, from
/// the columns of the first row.
pub fn create_new_sqlite_table(mysql_rows: &Vec<Vec<Cell>>, table_name: &str) -> (q: String)
    requires
        mysql_rows@.len() > 0,
    ensures
        q@ == create_table_query_spec(table_name@, row_view(mysql_rows@[0]@).map_values(|c: CellView| c.column)),
{
    let columns = row_columns(&mysql_rows[0]);
    create_table_query(table_name, &columns)
}

/// The columns of a fetched row.
pub fn row_columns(row: &Vec<Cell>) -> (columns: Vec<ColumnInfo>)
    ensures
        columns_view(columns@) == row_view(row@).map_values(|c: CellView| c.column),
{
    let ghost target = row_view(row@).map_values(|c: CellView| c.column);
    let mut columns: Vec<ColumnInfo> = Vec::new();
    let mut i: usize = 0;
    while i < row.len()
        invariant
            i <= row@.len(),
            target == row_view(row@).map_values(|c: CellView| c.column),
            columns_view(columns@) == target.take(i as int),
        decreases row@.len() - i,
    {
        let c = ColumnInfo { name: row[i].column.name.clone(), sql_type: row[i].column.sql_type.clone() };
        let ghost before = columns@;
        columns.push(c);
        assert(columns_view(columns@) =~= columns_view(before).push(c@));
        assert(target.take(i + 1) =~= target.take(i as int).push(target[i as int]));
        i = i + 1;
    }
    assert(target.take(i as int) =~= target);
    columns
}

/// How a value is written in the inserted row, with its comma: an integer as
/// it is, text between single quotes.
pub open spec fn value_sql_spec(c: CellView) -> Seq<char> {
    match c.value {
        CellValueView::Int(i) => int_text(i) + ","@,
        CellValueView::Text(s) => "'"@ + s + "',"@,
    }
}

/// One inserted row: its values between parentheses, with a trailing comma.
pub open spec fn row_sql_spec(row: Seq<CellView>) -> Seq<char> {
    drop_last_char("("@ + concat_all(row.map_values(|c: CellView| value_sql_spec(c)))) + "),"@
}

/// The statement that inserts fetched rows into the SQLite table: the column
/// names come from the first row, the values from each row in turn.
pub open spec fn insert_query_spec(rows: Seq<Seq<CellView>>, table_name: Seq<char>) -> Seq<char> {
    drop_last_char(
        drop_last_char(
            "insert into "@ + table_name + " ("@ + concat_all(rows[0].map_values(|c: CellView| c.column.name + ","@)),
        ) + ") VALUES "@ + concat_all(rows.map_values(|row: Seq<CellView>| row_sql_spec(row))),
    )
}

fn push_row_sql(q: &mut String, row: &Vec<Cell>)
    ensures
        final(q)@ == old(q)@ + row_sql_spec(row_view(row@)),
{
    let mut r = String::from_str("(");
    let ghost rv = row_view(row@);
    let ghost pieces = rv.map_values(|c: CellView| value_sql_spec(c));
    let mut i: usize = 0;
    while i < row.len()
        invariant
            i <= row@.len(),
            rv == row_view(row@),
            pieces == rv.map_values(|c: CellView| value_sql_spec(c)),
            r@ == "("@ + concat_all(pieces.take(i as int)),
        decreases row@.len() - i,
    {
        match &row[i].value {
            CellValue::Int(v) => {
                push_int(&mut r, *v);
                r.append(",");
            },
            CellValue::Text(s) => {
                r.append("'");
                r.append(s.as_str());
                r.append("',");
            },
        }
        assert(pieces[i as int] == value_sql_spec(rv[i as int]));
        assert(pieces.take(i + 1).drop_last() =~= pieces.take(i as int));
        assert(r@ =~= "("@ + concat_all(pieces.take(i + 1)));
        i = i + 1;
    }
    assert(pieces.take(i as int) =~= pieces);
    pop_char(&mut r);
    r.append("),");
    q.append(r.as_str());
}

/// The statement that inserts fetched MySQL rows into the SQLite table
/// `table_name`.
pub fn create_sqlite_insert_query_from_mysql_row(mysql_rows: &Vec<Vec<Cell>>, table_name: &str) -> (q: String)
    requires
        mysql_rows@.len() > 0,
    ensures
        q@ == insert_query_spec(mysql_rows@.map_values(|row: Vec<Cell>| row_view(row@)), table_name@),
{
    let ghost rows = mysql_rows@.map_values(|row: Vec<Cell>| row_view(row@));
    let mut q = String::from_str("insert into ");
    q.append(table_name);
    q.append(" (");
    let ghost head = q@;
    let first = &mysql_rows[0];
    let ghost names = rows[0].map_values(|c: CellView| c.column.name + ","@);
    let mut i: usize = 0;
    while i < first.len()
        invariant
            i <= first@.len(),
            rows == mysql_rows@.map_values(|row: Vec<Cell>| row_view(row@)),
            mysql_rows@.len() > 0,
            *first == mysql_rows@[0],
            names == rows[0].map_values(|c: CellView| c.column.name + ","@),
            q@ == head + concat_all(names.take(i as int)),
        decreases first@.len() - i,
    {
        q.append(first[i].column.name.as_str());
        q.append(",");
        assert(names[i as int] == first@[i as int].column.name@ + ","@);
        assert(names.take(i + 1).drop_last() =~= names.take(i as int));
        assert(q@ =~= head + concat_all(names.take(i + 1)));
        i = i + 1;
    }
    assert(names.take(i as int) =~= names);
    pop_char(&mut q);
    q.append(") VALUES ");
    let ghost head2 = q@;
    let ghost row_pieces = rows.map_values(|row: Seq<CellView>| row_sql_spec(row));
    let mut j: usize = 0;
    while j < mysql_rows.len()
        invariant
            j <= mysql_rows@.len(),
            rows == mysql_rows@.map_values(|row: Vec<Cell>| row_view(row@)),
            row_pieces == rows.map_values(|row: Seq<CellView>| row_sql_spec(row)),
            q@ == head2 + concat_all(row_pieces.take(j as int)),
        decreases mysql_rows@.len() - j,
    {
        push_row_sql(&mut q, &mysql_rows[j]);
        assert(row_pieces[j as int] == row_sql_spec(row_view(mysql_rows@[j as int]@)));
        assert(row_pieces.take(j + 1).drop_last() =~= row_pieces.take(j as int));
        assert(q@ =~= head2 + concat_all(row_pieces.take(j + 1)));
        j = j + 1;
    }
    assert(row_pieces.take(j as int) =~= row_pieces);
    pop_char(&mut q);
    q
}

} // verus!

verus! {

/// How the `i`-th column reads in the created table's definition, with
/// what follows it: its name, a space and its SQLite type, then a comma
/// before the next column or the closing bracket after the last.
pub open spec fn nth_column_def(columns: Seq<ColumnView>, i: int) -> Seq<char> {
    columns[i].name + " "@ + sqlite_type_spec(columns[i].sql_type) + if i + 1 == columns.len() {
        ")"@
    } else {
        ","@
    }
}

/// MySQL integers become SQLite integers, MySQL text becomes SQLite text,
/// and every other type is stored as a blob.
pub proof fn lemma_sqlite_types(t: Seq<char>)
    ensures
        t == "INT"@ ==> sqlite_type_spec(t) == "INTEGER"@,
        t == "VARCHAR"@ ==> sqlite_type_spec(t) == "TEXT"@,
        t != "INT"@ && t != "VARCHAR"@ ==> sqlite_type_spec(t) == "BLOB"@,
{
    reveal_strlit("INT");
    reveal_strlit("VARCHAR");
    assert("VARCHAR"@.len() != "INT"@.len());
}

/// The created table has every column, in order: for columns `j <= k`, each
/// one's definition stands in the statement, and `k`'s after `j`'s when
/// `j < k`.
pub proof fn lemma_create_table_defines_every_column(table_name: Seq<char>, columns: Seq<ColumnView>, j: int, k: int)
    requires
        0 <= j <= k < columns.len(),
    ensures
        exists|pj: int, pk: int|
            #![trigger occurs_at(create_table_query_spec(table_name, columns), nth_column_def(columns, j), pj), occurs_at(create_table_query_spec(table_name, columns), nth_column_def(columns, k), pk)]
            {
                &&& pj <= pk
                &&& j < k ==> pj < pk
                &&& occurs_at(create_table_query_spec(table_name, columns), nth_column_def(columns, j), pj)
                &&& occurs_at(create_table_query_spec(table_name, columns), nth_column_def(columns, k), pk)
            },
{
    reveal_strlit(",");
    reveal_strlit(")");
    let n = columns.len() as int;
    let pieces = columns.map_values(|c: ColumnView| column_def_spec(c));
    let head = "create table if not exists "@ + table_name + " ("@;
    let e = Seq::<char>::empty();
    assert forall|i: int| 0 <= i < n implies occurs_at(
        create_table_query_spec(table_name, columns),
        nth_column_def(columns, i),
        head.len() + join_offset(pieces, e, i),
    ) by {
        let t = columns[i].name + " "@ + sqlite_type_spec(columns[i].sql_type);
        assert(pieces[i] == t + ","@);
        assert(pieces.last() == pieces[n - 1]);
        assert(pieces.last().len() > 0);
        lemma_piece_in_trimmed_list(head, pieces, ")"@, i);
        assert((t + ","@).drop_last() =~= t);
        if i + 1 == n {
            assert(nth_column_def(columns, i) == t + ")"@);
        }
    }
    let pj = head.len() + join_offset(pieces, e, j);
    let pk = head.len() + join_offset(pieces, e, k);
    if j < k {
        lemma_join_offsets_increase(pieces, e, j, k);
        assert(pieces[j].len() > 0);
    }
    assert(occurs_at(create_table_query_spec(table_name, columns), nth_column_def(columns, j), pj));
    assert(occurs_at(create_table_query_spec(table_name, columns), nth_column_def(columns, k), pk));
}

} // verus!

verus! {

/// How a value is written in an inserted row: an integer in decimal, text
/// between single quotes.
pub open spec fn value_literal(c: CellView) -> Seq<char> {
    match c.value {
        CellValueView::Int(i) => int_text(i),
        CellValueView::Text(s) => "'"@ + s + "'"@,
    }
}

/// How the `j`-th value of a row reads in its inserted row, with what
/// follows it: a comma before the next value, the closing bracket and the
/// row's comma after the last.
pub open spec fn nth_value_sql(row: Seq<CellView>, j: int) -> Seq<char> {
    value_literal(row[j]) + if j + 1 == row.len() { "),"@ } else { ","@ }
}

proof fn lemma_value_at(row: Seq<CellView>, j: int)
    requires
        0 <= j < row.len(),
    ensures
        occurs_at(
            row_sql_spec(row),
            nth_value_sql(row, j),
            1 + join_offset(row.map_values(|c: CellView| value_sql_spec(c)), Seq::<char>::empty(), j),
        ),
        row.map_values(|c: CellView| value_sql_spec(c))[j].len() > 0,
{
    reveal_strlit(",");
    reveal_strlit("(");
    reveal_strlit("'");
    reveal_strlit("',");
    let pieces = row.map_values(|c: CellView| value_sql_spec(c));
    let n = row.len() as int;
    assert forall|i: int| 0 <= i < n implies #[trigger] pieces[i] == value_literal(row[i]) + ","@ by {
        match row[i].value {
            CellValueView::Int(v) => {},
            CellValueView::Text(s) => {
                assert("'"@ + s + "',"@ =~= "'"@ + s + "'"@ + ","@);
            },
        }
    }
    assert(pieces.last() == pieces[n - 1]);
    lemma_piece_in_trimmed_list("("@, pieces, "),"@, j);
    assert((value_literal(row[j]) + ","@).drop_last() =~= value_literal(row[j]));
}

/// An inserted row holds every value of the row, in order: for values
/// `j <= k`, each one's literal stands in the row's text followed by a comma
/// (the last by the closing bracket), and `k`'s after `j`'s when `j < k`.
pub proof fn lemma_row_sql_holds_every_value(row: Seq<CellView>, j: int, k: int)
    requires
        0 <= j <= k < row.len(),
    ensures
        exists|pj: int, pk: int|
            #![trigger occurs_at(row_sql_spec(row), nth_value_sql(row, j), pj), occurs_at(row_sql_spec(row), nth_value_sql(row, k), pk)]
            {
                &&& pj <= pk
                &&& j < k ==> pj < pk
                &&& occurs_at(row_sql_spec(row), nth_value_sql(row, j), pj)
                &&& occurs_at(row_sql_spec(row), nth_value_sql(row, k), pk)
            },
{
    let pieces = row.map_values(|c: CellView| value_sql_spec(c));
    let e = Seq::<char>::empty();
    lemma_value_at(row, j);
    lemma_value_at(row, k);
    let pj = 1 + join_offset(pieces, e, j);
    let pk = 1 + join_offset(pieces, e, k);
    if j < k {
        lemma_join_offsets_increase(pieces, e, j, k);
    }
}

/// How the `k`-th row reads in the insert statement: its text, the last
/// without its trailing comma.
pub open spec fn nth_row_sql(rows: Seq<Seq<CellView>>, k: int) -> Seq<char> {
    if k + 1 == rows.len() { row_sql_spec(rows[k]).drop_last() } else { row_sql_spec(rows[k]) }
}

proof fn lemma_insert_head(rows: Seq<Seq<CellView>>, table_name: Seq<char>)
    requires
        rows.len() > 0,
    ensures
        ({
            let names = rows[0].map_values(|c: CellView| c.column.name + ","@);
            let head = drop_last_char("insert into "@ + table_name + " ("@ + concat_all(names)) + ") VALUES "@;
            let pieces = rows.map_values(|row: Seq<CellView>| row_sql_spec(row));
            insert_query_spec(rows, table_name) == drop_last_char(head + concat_all(pieces)) + Seq::<char>::empty()
        }),
{
    let names = rows[0].map_values(|c: CellView| c.column.name + ","@);
    let head = drop_last_char("insert into "@ + table_name + " ("@ + concat_all(names)) + ") VALUES "@;
    let pieces = rows.map_values(|row: Seq<CellView>| row_sql_spec(row));
    assert(drop_last_char(head + concat_all(pieces)) + Seq::<char>::empty() =~= drop_last_char(
        head + concat_all(pieces),
    ));
}

proof fn lemma_row_at(rows: Seq<Seq<CellView>>, table_name: Seq<char>, k: int)
    requires
        0 <= k < rows.len(),
    ensures
        ({
            let names = rows[0].map_values(|c: CellView| c.column.name + ","@);
            let head = drop_last_char("insert into "@ + table_name + " ("@ + concat_all(names)) + ") VALUES "@;
            let pieces = rows.map_values(|row: Seq<CellView>| row_sql_spec(row));
            &&& occurs_at(insert_query_spec(rows, table_name), nth_row_sql(rows, k), head.len() + join_offset(pieces, Seq::<char>::empty(), k))
            &&& pieces[k].len() > 0
        }),
{
    reveal_strlit("),");
    let names = rows[0].map_values(|c: CellView| c.column.name + ","@);
    let head = drop_last_char("insert into "@ + table_name + " ("@ + concat_all(names)) + ") VALUES "@;
    let pieces = rows.map_values(|row: Seq<CellView>| row_sql_spec(row));
    let n = rows.len() as int;
    assert(pieces.last() == pieces[n - 1]);
    assert(pieces[n - 1].len() > 0);
    assert(pieces[k].len() > 0);
    lemma_insert_head(rows, table_name);
    lemma_piece_in_trimmed_list(head, pieces, Seq::<char>::empty(), k);
    if k + 1 == n {
        assert(pieces[k].drop_last() + Seq::<char>::empty() =~= pieces[k].drop_last());
    }
}

/// The insert statement holds every row, in order: for rows `j <= k`, each
/// one's text stands in the statement, and `k`'s after `j`'s when `j < k`.
pub proof fn lemma_insert_holds_every_row(rows: Seq<Seq<CellView>>, table_name: Seq<char>, j: int, k: int)
    requires
        0 <= j <= k < rows.len(),
    ensures
        exists|pj: int, pk: int|
            #![trigger occurs_at(insert_query_spec(rows, table_name), nth_row_sql(rows, j), pj), occurs_at(insert_query_spec(rows, table_name), nth_row_sql(rows, k), pk)]
            {
                &&& pj <= pk
                &&& j < k ==> pj < pk
                &&& occurs_at(insert_query_spec(rows, table_name), nth_row_sql(rows, j), pj)
                &&& occurs_at(insert_query_spec(rows, table_name), nth_row_sql(rows, k), pk)
            },
{
    let names = rows[0].map_values(|c: CellView| c.column.name + ","@);
    let head = drop_last_char("insert into "@ + table_name + " ("@ + concat_all(names)) + ") VALUES "@;
    let pieces = rows.map_values(|row: Seq<CellView>| row_sql_spec(row));
    let e = Seq::<char>::empty();
    lemma_row_at(rows, table_name, j);
    lemma_row_at(rows, table_name, k);
    let pj = head.len() + join_offset(pieces, e, j);
    let pk = head.len() + join_offset(pieces, e, k);
    if j < k {
        lemma_join_offsets_increase(pieces, e, j, k);
    }
}

} // verus!

verus! {

/// How the `i`-th column name reads in the insert statement's column list,
/// with what follows it: a comma before the next name, the start of the
/// values after the last.
pub open spec fn nth_insert_column(row: Seq<CellView>, i: int) -> Seq<char> {
    row[i].column.name + if i + 1 == row.len() { ") VALUES "@ } else { ","@ }
}

proof fn lemma_insert_column_at(rows: Seq<Seq<CellView>>, table_name: Seq<char>, i: int)
    requires
        rows.len() > 0,
        0 <= i < rows[0].len(),
    ensures
        occurs_at(
            insert_query_spec(rows, table_name),
            nth_insert_column(rows[0], i),
            ("insert into "@ + table_name + " ("@).len() + join_offset(
                rows[0].map_values(|c: CellView| c.column.name + ","@),
                Seq::<char>::empty(),
                i,
            ),
        ),
        (rows[0].map_values(|c: CellView| c.column.name + ","@))[i].len() > 0,
{
    reveal_strlit(",");
    let row = rows[0];
    let n = row.len() as int;
    let start = "insert into "@ + table_name + " ("@;
    let names = row.map_values(|c: CellView| c.column.name + ","@);
    let values = ") VALUES "@;
    let head = drop_last_char(start + concat_all(names)) + values;
    let pieces = rows.map_values(|row: Seq<CellView>| row_sql_spec(row));
    assert(names.last() == names[n - 1]);
    lemma_piece_in_trimmed_list(start, names, values, i);
    assert((row[i].column.name + ","@).drop_last() =~= row[i].column.name);
    let q = insert_query_spec(rows, table_name);
    lemma_insert_head(rows, table_name);
    reveal_strlit("),");
    assert(pieces.last() == pieces[rows.len() - 1]);
    assert(pieces.last().len() > 0);
    crate::layout::lemma_concat_is_join(pieces);
    crate::layout::lemma_join_piece(pieces, Seq::<char>::empty(), rows.len() - 1);
    let c = concat_all(pieces);
    assert(c.len() > 0);
    assert(q =~= head + c.drop_last());
    crate::layout::lemma_occurs_in_prefix(
        head,
        c.drop_last(),
        nth_insert_column(row, i),
        start.len() + join_offset(names, Seq::<char>::empty(), i),
    );
}

/// The insert statement names every column of the first row, in order:
/// for columns `j <= k`, each one's name stands in the column list followed
/// by a comma (the last by the start of the values), and `k`'s after `j`'s
/// when `j < k`.
pub proof fn lemma_insert_names_every_column(rows: Seq<Seq<CellView>>, table_name: Seq<char>, j: int, k: int)
    requires
        rows.len() > 0,
        0 <= j <= k < rows[0].len(),
    ensures
        exists|pj: int, pk: int|
            #![trigger occurs_at(insert_query_spec(rows, table_name), nth_insert_column(rows[0], j), pj), occurs_at(insert_query_spec(rows, table_name), nth_insert_column(rows[0], k), pk)]
            {
                &&& pj <= pk
                &&& j < k ==> pj < pk
                &&& occurs_at(insert_query_spec(rows, table_name), nth_insert_column(rows[0], j), pj)
                &&& occurs_at(insert_query_spec(rows, table_name), nth_insert_column(rows[0], k), pk)
            },
{
    let start = "insert into "@ + table_name + " ("@;
    let names = rows[0].map_values(|c: CellView| c.column.name + ","@);
    let e = Seq::<char>::empty();
    lemma_insert_column_at(rows, table_name, j);
    lemma_insert_column_at(rows, table_name, k);
    let pj = start.len() + join_offset(names, e, j);
    let pk = start.len() + join_offset(names, e, k);
    if j < k {
        lemma_join_offsets_increase(names, e, j, k);
    }
}

} // verus!
