pub mod csv;
pub mod generator;
pub mod mysql;
pub mod sqlite;
pub mod transformer;
