//! The result of comparing two tables.
use vstd::prelude::*;
use crate::models::table_data::{Cell, CellValue, CellValueView, CellView, row_view};
use crate::text::{push_string, strings_view};

verus! {

/// The values of one row, each as text.
#[derive(Clone)]
pub struct ComparisonRow {
    pub row: Vec<String>,
}

/// A row whose primary key is in both tables but whose other values differ:
/// the values from each table.
#[derive(Clone)]
pub struct ChangedRow {
    pub table_1_row: Vec<String>,
    pub table_2_row: Vec<String>,
}

/// The comparison of two tables.
#[derive(Clone)]
pub struct ComparisonData {
    /// Rows that are unique to the first table and do not exist in the second
    pub unique_table_1_rows: Vec<ComparisonRow>,
    /// Rows that are unique to the second table and do not exist in the first
    pub unique_table_2_rows: Vec<ComparisonRow>,
    /// Rows that have the same primary key but differ in other columns
    pub changed_rows: Vec<ChangedRow>,
}

impl View for ComparisonRow {
    type V = Seq<Seq<char>>;

    open spec fn view(&self) -> Seq<Seq<char>> {
        strings_view(self.row@)
    }
}

impl View for ChangedRow {
    type V = (Seq<Seq<char>>, Seq<Seq<char>>);

    open spec fn view(&self) -> (Seq<Seq<char>>, Seq<Seq<char>>) {
        (strings_view(self.table_1_row@), strings_view(self.table_2_row@))
    }
}

/// Model of [`ComparisonData`].
pub struct ComparisonDataView {
    pub unique_table_1_rows: Seq<Seq<Seq<char>>>,
    pub unique_table_2_rows: Seq<Seq<Seq<char>>>,
    pub changed_rows: Seq<(Seq<Seq<char>>, Seq<Seq<char>>)>,
}

/// The model of a list of rows.
pub open spec fn rows_view(rows: Seq<ComparisonRow>) -> Seq<Seq<Seq<char>>> {
    rows.map_values(|r: ComparisonRow| r@)
}

/// The model of a list of row pairs.
pub open spec fn pairs_view(pairs: Seq<(ComparisonRow, ComparisonRow)>) -> Seq<(Seq<Seq<char>>, Seq<Seq<char>>)> {
    pairs.map_values(|p: (ComparisonRow, ComparisonRow)| (p.0@, p.1@))
}

/// The model of a list of changed rows.
pub open spec fn changed_view(rows: Seq<ChangedRow>) -> Seq<(Seq<Seq<char>>, Seq<Seq<char>>)> {
    rows.map_values(|r: ChangedRow| r@)
}

impl View for ComparisonData {
    type V = ComparisonDataView;

    open spec fn view(&self) -> ComparisonDataView {
        ComparisonDataView {
            unique_table_1_rows: rows_view(self.unique_table_1_rows@),
            unique_table_2_rows: rows_view(self.unique_table_2_rows@),
            changed_rows: changed_view(self.changed_rows@),
        }
    }
}

/// The position of the first value of a row that is not text, or the length
/// of the row when all are.
pub open spec fn first_non_text(row: Seq<CellView>) -> nat
    decreases row.len(),
{
    if row.len() == 0 {
        0
    } else if row[0].value is Int {
        0
    } else {
        1 + first_non_text(row.drop_first())
    }
}

/// The text of a value that is text.
pub open spec fn cell_text(c: CellView) -> Seq<char> {
    match c.value {
        CellValueView::Text(s) => s,
        CellValueView::Int(_) => Seq::empty(),
    }
}

proof fn lemma_first_non_text(row: Seq<CellView>, k: int)
    requires
        0 <= k <= row.len(),
        k < row.len() ==> row[k].value is Int,
        forall|j: int| 0 <= j < k ==> row[j].value is Text,
    ensures
        first_non_text(row) == k,
    decreases row.len(),
{
    if row.len() > 0 && k > 0 {
        assert forall|j: int| 0 <= j < k - 1 implies row.drop_first()[j].value is Text by {
            assert(row.drop_first()[j] == row[j + 1]);
        }
        lemma_first_non_text(row.drop_first(), k - 1);
    }
}

impl ComparisonData {
    /// A comparison with no rows in it.
    pub fn new() -> (c: ComparisonData)
        ensures
            c@.unique_table_1_rows.len() == 0,
            c@.unique_table_2_rows.len() == 0,
            c@.changed_rows.len() == 0,
    {
        ComparisonData {
            unique_table_1_rows: Vec::new(),
            unique_table_2_rows: Vec::new(),
            changed_rows: Vec::new(),
        }
    }

    /// A comparison with no rows in it, for when no comparison is possible or
    /// the tables are the same.
    pub fn empty_data() -> (c: ComparisonData)
        ensures
            c@.unique_table_1_rows.len() == 0,
            c@.unique_table_2_rows.len() == 0,
            c@.changed_rows.len() == 0,
    {
        ComparisonData {
            unique_table_1_rows: Vec::new(),
            unique_table_2_rows: Vec::new(),
            changed_rows: Vec::new(),
        }
    }

    /// The values of a fetched row as text. A value that is not text cannot
    /// be read as one: its position is the error.
    pub fn from_row(row: &Vec<Cell>) -> (r: Result<ComparisonRow, usize>)
        ensures
            first_non_text(row_view(row@)) < row@.len() ==> r == Err::<ComparisonRow, usize>(
                first_non_text(row_view(row@)) as usize,
            ),
            first_non_text(row_view(row@)) == row@.len() ==> (r matches Ok(cr) && cr@ == row_view(row@).map_values(
                |c: CellView| cell_text(c),
            )),
    {
        let ghost rv = row_view(row@);
        let mut values: Vec<String> = Vec::new();
        let mut i: usize = 0;
        while i < row.len()
            invariant
                i <= row@.len(),
                rv == row_view(row@),
                forall|j: int| 0 <= j < i ==> rv[j].value is Text,
                strings_view(values@) == rv.take(i as int).map_values(|c: CellView| cell_text(c)),
            decreases row@.len() - i,
        {
            match &row[i].value {
                CellValue::Text(s) => {
                    push_string(&mut values, s.clone());
                    assert(rv.take(i + 1).map_values(|c: CellView| cell_text(c)) =~= rv.take(i as int).map_values(
                        |c: CellView| cell_text(c),
                    ).push(cell_text(rv[i as int])));
                },
                CellValue::Int(_) => {
                    proof {
                        lemma_first_non_text(rv, i as int);
                    }
                    return Err(i);
                },
            }
            i = i + 1;
        }
        proof {
            lemma_first_non_text(rv, i as int);
            assert(rv.take(i as int) =~= rv);
        }
        Ok(ComparisonRow { row: values })
    }

    /// Gathers the rows found unique to each table and the pairs of changed
    /// rows, each pair becoming a changed row.
    pub fn from_sqlite_comparison(
        unique_table_1: Vec<ComparisonRow>,
        unique_table_2: Vec<ComparisonRow>,
        changed: Vec<(ComparisonRow, ComparisonRow)>,
    ) -> (c: Self)
        ensures
            c@.unique_table_1_rows == rows_view(unique_table_1@),
            c@.unique_table_2_rows == rows_view(unique_table_2@),
            c@.changed_rows == pairs_view(changed@),
    {
        let ghost pv = pairs_view(changed@);
        let mut changed = changed;
        let mut rows: Vec<ChangedRow> = Vec::new();
        let total = changed.len();
        let ghost n = total as nat;
        let ghost orig = changed@;
        let mut taken: usize = 0;
        while changed.len() > 0
            invariant
                changed@.len() + taken == n,
                orig.len() == n,
                n <= usize::MAX,
                pv == pairs_view(orig),
                changed@ == orig.skip(taken as int),
                changed_view(rows@) == pv.take(taken as int),
            decreases changed@.len(),
        {
            let (r1, r2) = changed.remove(0);
            let ghost item = orig[taken as int];
            assert((r1, r2) == item);
            assert(pv[taken as int] == (r1@, r2@));
            assert(changed@ =~= orig.skip(taken + 1));
            let row = ChangedRow { table_1_row: r1.row, table_2_row: r2.row };
            assert(row@ == pv[taken as int]);
            let ghost before = rows@;
            rows.push(row);
            assert(rows@ == before.push(row));
            assert(changed_view(rows@) =~= changed_view(before).push(row@));
            assert(pv.take(taken + 1) =~= pv.take(taken as int).push(pv[taken as int]));
            taken = taken + 1;
        }
        assert(pv.take(taken as int) =~= pv);
        ComparisonData {
            unique_table_1_rows: unique_table_1,
            unique_table_2_rows: unique_table_2,
            changed_rows: rows,
        }
    }
}

} // verus!
