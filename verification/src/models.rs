pub mod comparison_data;
pub mod table_data;
