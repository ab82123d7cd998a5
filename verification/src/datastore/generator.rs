//! Random test data: the MySQL table it goes into and the rows it holds.
use vstd::prelude::*;
use vstd::string::*;
use crate::datastore::transformer::{create_new_sqlite_table, create_table_query_spec};
use crate::interface::config::{Config, DatabaseConfig};
use crate::models::table_data::{Cell, CellView, row_view};
use crate::layout::{join_offset, lemma_join_offsets_increase, lemma_piece_in_trimmed_list, occurs_at};
use crate::text::{chars_of, concat_all, drop_last_char, int_text, pop_char, push_char, push_int};

verus! {

/// `rand::thread_rng().gen_range(low..high)`: a random integer at least `low`
/// and below `high`. `gen_range` panics on an empty range, which `requires`
/// rules out.
#[verifier::external_body]
fn random_in_range(low: i64, high: i64) -> (r: i64)
    requires
        low < high,
    ensures
        low <= r < high,
{
    rand::Rng::gen_range(&mut rand::thread_rng(), low..high)
}

/// A random number at least 1 and below `max`.
fn random_long(max: i32) -> (r: i32)
    requires
        1 < max,
    ensures
        1 <= r < max,
{
    let r = random_in_range(1, max as i64);
    r as i32
}

/// The letters that random strings are made of.
pub open spec fn alphabet() -> Seq<char> {
    "abcdefghijklmnopqrstuvwxyz"@
}

/// Whether a string is made of `len` letters of the alphabet.
pub open spec fn is_random_word(s: Seq<char>, len: nat) -> bool {
    s.len() == len && forall|i: int| 0 <= i < s.len() ==> alphabet().contains(#[trigger] s[i])
}

/// A string of `len` letters, each drawn at random from the alphabet.
fn random_string(len: usize) -> (r: String)
    ensures
        is_random_word(r@, len as nat),
{
    let characters = chars_of("abcdefghijklmnopqrstuvwxyz");
    proof {
        reveal_strlit("abcdefghijklmnopqrstuvwxyz");
    }
    assert(characters@.len() == 26);
    let mut result = String::new();
    let mut i: usize = 0;
    while i < len
        invariant
            i <= len,
            characters@ == alphabet(),
            characters@.len() == 26,
            is_random_word(result@, i as nat),
        decreases len - i,
    {
        let k = random_in_range(0, 26) as usize;
        let c = characters[k];
        assert(alphabet()[k as int] == c);
        let ghost before = result@;
        push_char(&mut result, c);
        assert forall|j: int| 0 <= j < result@.len() implies alphabet().contains(#[trigger] result@[j]) by {
            if j < before.len() {
                assert(result@[j] == before[j]);
            } else {
                assert(alphabet()[k as int] == result@[j]);
            }
        }
        i = i + 1;
    }
    result
}

/// One generated row.
pub struct GeneratedRow {
    pub random_number: i32,
    pub second_random_number: i32,
    pub random_string: String,
    pub second_random_string: String,
}

/// Model of [`GeneratedRow`].
pub struct GeneratedRowView {
    pub random_number: i32,
    pub second_random_number: i32,
    pub random_string: Seq<char>,
    pub second_random_string: Seq<char>,
}

impl View for GeneratedRow {
    type V = GeneratedRowView;

    open spec fn view(&self) -> GeneratedRowView {
        GeneratedRowView {
            random_number: self.random_number,
            second_random_number: self.second_random_number,
            random_string: self.random_string@,
            second_random_string: self.second_random_string@,
        }
    }
}

/// The model of a list of generated rows.
pub open spec fn generated_view(rows: Seq<GeneratedRow>) -> Seq<GeneratedRowView> {
    rows.map_values(|r: GeneratedRow| r@)
}

/// Whether a generated row has its first number in `1..max_1`, its second
/// in `1..max_2`, and two words of `word_len` letters.
pub open spec fn row_in_ranges(r: GeneratedRowView, max_1: i32, max_2: i32, word_len: nat) -> bool {
    &&& 1 <= r.random_number < max_1
    &&& 1 <= r.second_random_number < max_2
    &&& is_random_word(r.random_string, word_len)
    &&& is_random_word(r.second_random_string, word_len)
}

/// What generated rows look like: a number from 1 to 499, a number from 1 to
/// 99, and two words of four letters.
pub open spec fn is_generated_row(r: GeneratedRowView) -> bool {
    row_in_ranges(r, 500, 100, 4)
}

/// How many rows `for _ in 0..n` produces.
pub open spec fn row_count(n: i32) -> nat {
    if n > 0 { n as nat } else { 0 }
}

/// `n` rows of random data (none when `n` is not positive), with numbers
/// below `max_1` and `max_2` and words of `word_len` letters.
pub fn generate_rows_with(n: i32, max_1: i32, max_2: i32, word_len: usize) -> (rows: Vec<GeneratedRow>)
    requires
        1 < max_1,
        1 < max_2,
    ensures
        rows@.len() == row_count(n),
        forall|i: int| 0 <= i < rows@.len() ==> row_in_ranges(#[trigger] rows@[i]@, max_1, max_2, word_len as nat),
{
    let mut rows: Vec<GeneratedRow> = Vec::new();
    let mut i: i32 = 0;
    while i < n
        invariant
            0 <= i,
            n > 0 ==> i <= n,
            n <= 0 ==> i == 0,
            1 < max_1,
            1 < max_2,
            rows@.len() == i,
            forall|k: int| 0 <= k < rows@.len() ==> row_in_ranges(#[trigger] rows@[k]@, max_1, max_2, word_len as nat),
        decreases n - i,
    {
        let row = GeneratedRow {
            random_number: random_long(max_1),
            second_random_number: random_long(max_2),
            random_string: random_string(word_len),
            second_random_string: random_string(word_len),
        };
        rows.push(row);
        i = i + 1;
    }
    rows
}

/// `n` rows of random data (none when `n` is not positive).
pub fn generate_rows(n: i32) -> (rows: Vec<GeneratedRow>)
    ensures
        rows@.len() == row_count(n),
        forall|i: int| 0 <= i < rows@.len() ==> is_generated_row(#[trigger] rows@[i]@),
{
    generate_rows_with(n, 500, 100, 4)
}

/// The statement that creates the generated table.
pub open spec fn generated_create_query_spec(table_name: Seq<char>) -> Seq<char> {
    "CREATE TABLE IF NOT EXISTS "@ + table_name
        + "\n        (\n            id INT NOT NULL AUTO_INCREMENT,\n            randomNumber INT NOT NULL,\n            secondRandomNumber INT NOT NULL,\n            randomString VARCHAR(255) NOT NULL,\n            secondRandomString VARCHAR(255) NOT NULL,\n            PRIMARY KEY (id)\n        )"@
}

/// One generated row as inserted, with its trailing comma.
pub open spec fn generated_tuple_spec(r: GeneratedRowView) -> Seq<char> {
    "("@ + int_text(r.random_number as int) + ",'"@ + int_text(r.second_random_number as int) + "','"@
        + r.random_string + "','"@ + r.second_random_string + "'),"@
}

/// The statement that inserts the generated rows.
pub open spec fn generated_insert_query_spec(table_name: Seq<char>, rows: Seq<GeneratedRowView>) -> Seq<char> {
    drop_last_char(
        "INSERT INTO "@ + table_name
            + "\n            (randomNumber,secondRandomNumber,randomString,secondRandomString)\n            VALUES "@
            + concat_all(rows.map_values(|r: GeneratedRowView| generated_tuple_spec(r))),
    )
}

/// The statement that creates the generated table `table_name`.
pub fn generated_create_query(table_name: &str) -> (q: String)
    ensures
        q@ == generated_create_query_spec(table_name@),
{
    let mut q = String::from_str("CREATE TABLE IF NOT EXISTS ");
    q.append(table_name);
    q.append(
        "\n        (\n            id INT NOT NULL AUTO_INCREMENT,\n            randomNumber INT NOT NULL,\n            secondRandomNumber INT NOT NULL,\n            randomString VARCHAR(255) NOT NULL,\n            secondRandomString VARCHAR(255) NOT NULL,\n            PRIMARY KEY (id)\n        )",
    );
    q
}

fn push_generated_tuple(q: &mut String, r: &GeneratedRow)
    ensures
        final(q)@ == old(q)@ + generated_tuple_spec(r@),
{
    let mut t = String::from_str("(");
    push_int(&mut t, r.random_number as i64);
    t.append(",'");
    push_int(&mut t, r.second_random_number as i64);
    t.append("','");
    t.append(r.random_string.as_str());
    t.append("','");
    t.append(r.second_random_string.as_str());
    t.append("'),");
    q.append(t.as_str());
}

/// The statement that inserts `rows` into the generated table `table_name`.
pub fn generated_insert_query(table_name: &str, rows: &Vec<GeneratedRow>) -> (q: String)
    ensures
        q@ == generated_insert_query_spec(table_name@, generated_view(rows@)),
{
    let mut q = String::from_str("INSERT INTO ");
    q.append(table_name);
    q.append("\n            (randomNumber,secondRandomNumber,randomString,secondRandomString)\n            VALUES ");
    let ghost head = q@;
    let ghost pieces = generated_view(rows@).map_values(|r: GeneratedRowView| generated_tuple_spec(r));
    let mut i: usize = 0;
    while i < rows.len()
        invariant
            i <= rows@.len(),
            pieces == generated_view(rows@).map_values(|r: GeneratedRowView| generated_tuple_spec(r)),
            q@ == head + concat_all(pieces.take(i as int)),
        decreases rows@.len() - i,
    {
        push_generated_tuple(&mut q, &rows[i]);
        assert(pieces[i as int] == generated_tuple_spec(rows@[i as int]@));
        assert(pieces.take(i + 1).drop_last() =~= pieces.take(i as int));
        assert(q@ =~= head + concat_all(pieces.take(i + 1)));
        i = i + 1;
    }
    assert(pieces.take(i as int) =~= pieces);
    pop_char(&mut q);
    q
}

/// A generated table: its name, the statements that create and fill it, and
/// the rows they insert.
pub struct GeneratedTable {
    pub table_name: String,
    pub create_query: String,
    pub insert_query: String,
    pub rows: Vec<GeneratedRow>,
}

/// Whether `t` is a generation of `n` random rows for the table `table_name`.
pub open spec fn is_generated_table(t: &GeneratedTable, table_name: Seq<char>, n: i32) -> bool {
    &&& t.table_name@ == table_name
    &&& t.create_query@ == generated_create_query_spec(table_name)
    &&& t.rows@.len() == row_count(n)
    &&& forall|i: int| 0 <= i < t.rows@.len() ==> is_generated_row(#[trigger] t.rows@[i]@)
    &&& t.insert_query@ == generated_insert_query_spec(table_name, generated_view(t.rows@))
}

/// Random data for one table: as many rows as the settings ask for, and the
/// statements that create the table and insert them.
pub fn generate_table(config: &Config, db_config: &DatabaseConfig) -> (t: GeneratedTable)
    ensures
        is_generated_table(&t, db_config@.table_name, config.data_generation.number_of_rows_to_generate),
{
    let table_name = db_config.table_name.as_str();
    let rows = generate_rows(config.data_generation.number_of_rows_to_generate);
    GeneratedTable {
        table_name: db_config.table_name.clone(),
        create_query: generated_create_query(table_name),
        insert_query: generated_insert_query(table_name, &rows),
        rows,
    }
}

/// Random data for both tables when the settings ask for it, none otherwise.
pub fn generate_data(config: &Config) -> (tables: Vec<GeneratedTable>)
    ensures
        !config.data_generation.generate_data ==> tables@.len() == 0,
        config.data_generation.generate_data ==> {
            &&& tables@.len() == 2
            &&& is_generated_table(
                &tables@[0],
                config.database_1_config@.table_name,
                config.data_generation.number_of_rows_to_generate,
            )
            &&& is_generated_table(
                &tables@[1],
                config.database_2_config@.table_name,
                config.data_generation.number_of_rows_to_generate,
            )
        },
{
    let mut tables: Vec<GeneratedTable> = Vec::new();
    if !config.data_generation.generate_data {
        return tables;
    }
    tables.push(generate_table(config, &config.database_1_config));
    tables.push(generate_table(config, &config.database_2_config));
    tables
}

/// The statement that creates the SQLite table for fetched MySQL rows, from
/// the columns of the first row.
pub fn export_mysql_rows_to_sqlite_table(mysql_rows: &Vec<Vec<Cell>>, table_name: &str) -> (q: String)
    requires
        mysql_rows@.len() > 0,
    ensures
        q@ == create_table_query_spec(table_name@, row_view(mysql_rows@[0]@).map_values(|c: CellView| c.column)),
{
    create_new_sqlite_table(mysql_rows, table_name)
}

} // verus!

verus! {

/// How the `k`-th generated row reads in the insert statement: its two
/// numbers and two words between brackets (all but the first quoted),
/// followed by a comma unless it is the last.
pub open spec fn nth_generated_tuple(rows: Seq<GeneratedRowView>, k: int) -> Seq<char> {
    "("@ + int_text(rows[k].random_number as int) + ",'"@ + int_text(rows[k].second_random_number as int) + "','"@
        + rows[k].random_string + "','"@ + rows[k].second_random_string + "')"@ + if k + 1 == rows.len() {
        Seq::<char>::empty()
    } else {
        ","@
    }
}

proof fn lemma_generated_tuple_at(table_name: Seq<char>, rows: Seq<GeneratedRowView>, k: int)
    requires
        0 <= k < rows.len(),
    ensures
        occurs_at(
            generated_insert_query_spec(table_name, rows),
            nth_generated_tuple(rows, k),
            ("INSERT INTO "@ + table_name
                + "\n            (randomNumber,secondRandomNumber,randomString,secondRandomString)\n            VALUES "@).len()
                + join_offset(
                rows.map_values(|r: GeneratedRowView| generated_tuple_spec(r)),
                Seq::<char>::empty(),
                k,
            ),
        ),
        rows.map_values(|r: GeneratedRowView| generated_tuple_spec(r))[k].len() > 0,
{
    reveal_strlit("'),");
    reveal_strlit("')");
    reveal_strlit(",");
    let head = "INSERT INTO "@ + table_name
        + "\n            (randomNumber,secondRandomNumber,randomString,secondRandomString)\n            VALUES "@;
    let pieces = rows.map_values(|r: GeneratedRowView| generated_tuple_spec(r));
    let n = rows.len() as int;
    let r = rows[k];
    let t = "("@ + int_text(r.random_number as int) + ",'"@ + int_text(r.second_random_number as int) + "','"@
        + r.random_string + "','"@ + r.second_random_string + "')"@;
    assert(pieces[k] =~= t + ","@);
    assert(pieces.last() == pieces[n - 1]);
    assert(pieces[n - 1].len() > 0);
    assert(generated_insert_query_spec(table_name, rows) =~= drop_last_char(head + concat_all(pieces))
        + Seq::<char>::empty());
    lemma_piece_in_trimmed_list(head, pieces, Seq::<char>::empty(), k);
    assert((t + ","@).drop_last() + Seq::<char>::empty() =~= t);
    if k + 1 == n {
        assert(nth_generated_tuple(rows, k) =~= t);
    } else {
        assert(nth_generated_tuple(rows, k) =~= t + ","@);
    }
}

/// The insert statement of generated data holds every generated row, in
/// order: for rows `j <= k`, each one's values stand in the statement, and
/// `k`'s after `j`'s when `j < k`.
pub proof fn lemma_generated_insert_holds_every_row(table_name: Seq<char>, rows: Seq<GeneratedRowView>, j: int, k: int)
    requires
        0 <= j <= k < rows.len(),
    ensures
        exists|pj: int, pk: int|
            #![trigger occurs_at(generated_insert_query_spec(table_name, rows), nth_generated_tuple(rows, j), pj), occurs_at(generated_insert_query_spec(table_name, rows), nth_generated_tuple(rows, k), pk)]
            {
                &&& pj <= pk
                &&& j < k ==> pj < pk
                &&& occurs_at(generated_insert_query_spec(table_name, rows), nth_generated_tuple(rows, j), pj)
                &&& occurs_at(generated_insert_query_spec(table_name, rows), nth_generated_tuple(rows, k), pk)
            },
{
    let head = "INSERT INTO "@ + table_name
        + "\n            (randomNumber,secondRandomNumber,randomString,secondRandomString)\n            VALUES "@;
    let pieces = rows.map_values(|r: GeneratedRowView| generated_tuple_spec(r));
    let e = Seq::<char>::empty();
    lemma_generated_tuple_at(table_name, rows, j);
    lemma_generated_tuple_at(table_name, rows, k);
    let pj = head.len() + join_offset(pieces, e, j);
    let pk = head.len() + join_offset(pieces, e, k);
    if j < k {
        lemma_join_offsets_increase(pieces, e, j, k);
    }
}

} // verus!
