//! The shape of the short TOML settings file: one database and the log.
#![allow(non_camel_case_types)]
use vstd::prelude::*;

verus! {

/// The settings that the short TOML file holds.
pub struct config {
    pub database_config: database_config,
    pub log_config: log_config,
}

/// The log section of the short TOML file.
pub struct log_config {
    pub log_level: String,
    pub log_file: String,
}

/// The database section of the short TOML file.
pub struct database_config {
    pub db_name: String,
    pub db_user: String,
    pub db_password: String,
    pub db_host: String,
    pub db_port: u16,
}

} // verus!
