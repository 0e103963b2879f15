pub mod m0008_add_missing_columns;
