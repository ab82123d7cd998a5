//! The MySQL side: how to reach a table and what to ask of it.
use vstd::prelude::*;
use vstd::string::*;
use crate::interface::config::{DatabaseConfig, DatabaseConfigView};
use crate::models::table_data::{ColumnInfo, TableData, columns_view};
use crate::text::{int_text, push_int};

verus! {

/// The URL of the `ComparisonData` database for a table's connection settings.
pub open spec fn connection_string_spec(d: DatabaseConfigView) -> Seq<char> {
    "mysql://"@ + d.db_user + ":"@ + d.db_password + "@"@ + d.db_host + ":"@ + int_text(d.db_port as int) + "/"@
        + "ComparisonData"@
}

/// The URL that `get_connection` connects to: the `ComparisonData` database
/// on the configured host and port, as the configured user.
pub fn connection_string(db_config: &DatabaseConfig) -> (url: String)
    ensures
        url@ == connection_string_spec(db_config@),
{
    let mut url = String::from_str("mysql://");
    url.append(db_config.db_user.as_str());
    url.append(":");
    url.append(db_config.db_password.as_str());
    url.append("@");
    url.append(db_config.db_host.as_str());
    url.append(":");
    push_int(&mut url, db_config.db_port as i64);
    url.append("/");
    url.append("ComparisonData");
    url
}

/// The statement that drops the configured table if it exists.
pub fn drop_table_query(db_config: &DatabaseConfig) -> (q: String)
    ensures
        q@ == "drop table if exists "@ + db_config@.table_name,
{
    let mut q = String::from_str("drop table if exists ");
    q.append(db_config.table_name.as_str());
    q
}

/// The statement that fetches one row of the configured table, whose columns
/// describe the table.
pub fn table_data_query(db_config: &DatabaseConfig) -> (q: String)
    ensures
        q@ == "select * from "@ + db_config@.table_name + " limit 1"@,
{
    let mut q = String::from_str("select * from ");
    q.append(db_config.table_name.as_str());
    q.append(" limit 1");
    q
}

/// The table properties of the configured table, given the columns of one of
/// its rows. The primary key is taken to be `id`.
pub fn get_table_data(db_config: &DatabaseConfig, columns: Vec<ColumnInfo>) -> (t: TableData)
    ensures
        t@.table_name == db_config@.table_name,
        t@.columns == columns_view(columns@),
        t@.primary_key == "id"@,
{
    TableData {
        table_name: db_config.table_name.clone(),
        columns,
        primary_key: String::from_str("id"),
    }
}

} // verus!
