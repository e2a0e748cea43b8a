use semantic_core::data_source::parquet::parquet_table_name;
use semantic_core::{ParquetDataSource, ParquetDataSourceError};
use std::path::PathBuf;

#[test]
fn new_returns_error_for_nonexistent_path() {
    let path = PathBuf::from("/tmp/semantic_gateway_definitely_nonexistent_dir_xyzzy");
    assert_eq!(
        ParquetDataSource::new(path.clone()).unwrap_err(),
        ParquetDataSourceError::NotADirectory(path)
    );
}

#[test]
fn new_returns_error_when_path_is_a_file() {
    let file = tempfile::NamedTempFile::new().unwrap();
    let path = file.path().to_path_buf();
    assert_eq!(
        ParquetDataSource::new(path.clone()).unwrap_err(),
        ParquetDataSourceError::NotADirectory(path)
    );
}

#[test]
fn new_succeeds_for_valid_directory() {
    let dir = tempfile::tempdir().unwrap();
    assert!(ParquetDataSource::new(dir.path().to_path_buf()).is_ok());
}

#[test]
fn new_keeps_the_data_directory() {
    let dir = tempfile::tempdir().unwrap();
    let source = ParquetDataSource::new(dir.path().to_path_buf()).unwrap();
    assert_eq!(source.data_dir(), &dir.path().to_path_buf());
    let unchecked = ParquetDataSource::from_checked_dir(PathBuf::from("anywhere"), false);
    assert_eq!(
        unchecked.unwrap_err(),
        ParquetDataSourceError::NotADirectory(PathBuf::from("anywhere"))
    );
}

#[test]
fn parquet_files_become_tables_named_after_their_stem() {
    assert_eq!(parquet_table_name("orders.parquet", true), Some("orders".to_string()));
    assert_eq!(parquet_table_name("products.parquet", true), Some("products".to_string()));
    assert_eq!(parquet_table_name("sales.2024.parquet", true), Some("sales.2024".to_string()));
}

#[test]
fn other_entries_become_no_table() {
    assert_eq!(parquet_table_name("data.csv", true), None);
    assert_eq!(parquet_table_name("notes.txt", true), None);
    assert_eq!(parquet_table_name("subdir", false), None);
    assert_eq!(parquet_table_name("orders.parquet", false), None);
    assert_eq!(parquet_table_name(".parquet", true), None);
    assert_eq!(parquet_table_name("orders.PARQUET", true), None);
    assert_eq!(parquet_table_name("orders.parquet.bak", true), None);
}

#[test]
fn not_a_directory_message_names_the_path() {
    let error = ParquetDataSourceError::NotADirectory(PathBuf::from("/srv/data/orders.parquet"));
    assert_eq!(
        error.message(),
        "data source path is not a directory: /srv/data/orders.parquet"
    );
}
