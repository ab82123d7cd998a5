//! What the comparison knows of a table and of the rows fetched from it.
use vstd::prelude::*;

verus! {

/// A column of a fetched table: its name and the name of its SQL type.
pub struct ColumnInfo {
    pub name: String,
    pub sql_type: String,
}

/// Model of [`ColumnInfo`].
pub struct ColumnView {
    pub name: Seq<char>,
    pub sql_type: Seq<char>,
}

impl View for ColumnInfo {
    type V = ColumnView;

    open spec fn view(&self) -> ColumnView {
        ColumnView { name: self.name@, sql_type: self.sql_type@ }
    }
}

/// A value of a fetched row: an integer, or text (for a floating-point column,
/// the text that its value displays as).
pub enum CellValue {
    Int(i64),
    Text(String),
}

/// Model of [`CellValue`].
pub enum CellValueView {
    Int(int),
    Text(Seq<char>),
}

impl View for CellValue {
    type V = CellValueView;

    open spec fn view(&self) -> CellValueView {
        match self {
            CellValue::Int(i) => CellValueView::Int(*i as int),
            CellValue::Text(s) => CellValueView::Text(s@),
        }
    }
}

/// One value of a fetched row together with its column.
pub struct Cell {
    pub column: ColumnInfo,
    pub value: CellValue,
}

/// Model of [`Cell`].
pub struct CellView {
    pub column: ColumnView,
    pub value: CellValueView,
}

impl View for Cell {
    type V = CellView;

    open spec fn view(&self) -> CellView {
        CellView { column: self.column@, value: self.value@ }
    }
}

/// The model of a fetched row.
pub open spec fn row_view(row: Seq<Cell>) -> Seq<CellView> {
    row.map_values(|c: Cell| c@)
}

/// The model of a list of columns.
pub open spec fn columns_view(columns: Seq<ColumnInfo>) -> Seq<ColumnView> {
    columns.map_values(|c: ColumnInfo| c@)
}

/// The table properties that the comparison works from.
pub struct TableData {
    /// name of the table you're querying
    pub table_name: String,
    /// list of columns in the table
    pub columns: Vec<ColumnInfo>,
    /// primary key of the table we're joining on
    pub primary_key: String,
}

/// Model of [`TableData`].
pub struct TableDataView {
    pub table_name: Seq<char>,
    pub columns: Seq<ColumnView>,
    pub primary_key: Seq<char>,
}

impl View for TableData {
    type V = TableDataView;

    open spec fn view(&self) -> TableDataView {
        TableDataView {
            table_name: self.table_name@,
            columns: columns_view(self.columns@),
            primary_key: self.primary_key@,
        }
    }
}

impl TableData {
    /// Gathers the properties of a table.
    pub fn new(table_name: String, columns: Vec<ColumnInfo>, primary_key: String) -> (t: TableData)
        ensures
            t.table_name@ == table_name@,
            t.columns@ == columns@,
            t.primary_key@ == primary_key@,
    {
        TableData { table_name, columns, primary_key }
    }
}

/// The names of a list of columns.
pub open spec fn column_names(columns: Seq<ColumnView>) -> Seq<Seq<char>> {
    columns.map_values(|c: ColumnView| c.name)
}

} // verus!
