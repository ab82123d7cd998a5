pub mod argument_parser;
pub mod clock;
pub mod data_creator;
pub mod datastore;
pub mod interface;
pub mod models;
pub mod processor;
pub mod text;
pub mod layout;
pub mod ui;
