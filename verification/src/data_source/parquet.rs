//! A data source made of the Parquet files of one directory.

use vstd::prelude::*;
use vstd::string::StringExecFns;
use crate::data_source::path::{path_display, path_is_dir, path_named};
use crate::text::{concat2, file_name_parts, file_name_parts_of, str_eq};
use std::path::PathBuf;

verus! {

/// Errors that can occur when constructing a [`ParquetDataSource`].
#[derive(Debug, PartialEq)]
pub enum ParquetDataSourceError {
    NotADirectory(PathBuf),
}

impl ParquetDataSourceError {
    /// The error's message, naming the path refused: for a path made from a string,
    /// that string.
    pub fn message(&self) -> (res: String)
        ensures
            match self {
                ParquetDataSourceError::NotADirectory(p) => forall|text: Seq<char>|
                    *p == #[trigger] path_named(text) ==> res@
                        == "data source path is not a directory: "@ + text,
            },
    {
        match self {
            ParquetDataSourceError::NotADirectory(p) => {
                let shown = path_display(p);
                concat2("data source path is not a directory: ", shown.as_str())
            },
        }
    }
}

/// Registers Parquet files from a directory as tables.
///
/// Each `*.parquet` file in the directory is registered as a table named after its file
/// stem (e.g. `orders.parquet` → table `orders`). Subdirectories and non-`.parquet`
/// files are skipped.
#[derive(Debug)]
pub struct ParquetDataSource {
    data_dir: PathBuf,
}

impl View for ParquetDataSource {
    type V = PathBuf;

    closed spec fn view(&self) -> PathBuf {
        self.data_dir
    }
}

impl ParquetDataSource {
    /// Creates a new `ParquetDataSource` rooted at `data_dir`; refused with
    /// [`ParquetDataSourceError::NotADirectory`] when `data_dir` does not exist or is not
    /// a directory.
    pub fn new(data_dir: PathBuf) -> (res: Result<Self, ParquetDataSourceError>)
        ensures
            match res {
                Ok(source) => source@ == data_dir,
                Err(ParquetDataSourceError::NotADirectory(path)) => path == data_dir,
            },
    {
        let is_dir = path_is_dir(&data_dir);
        Self::from_checked_dir(data_dir, is_dir)
    }

    /// The data source rooted at `data_dir`, given whether `data_dir` is a directory.
    pub fn from_checked_dir(data_dir: PathBuf, is_dir: bool) -> (res: Result<Self, ParquetDataSourceError>)
        ensures
            is_dir ==> (res matches Ok(source) && source@ == data_dir),
            !is_dir ==> res == Err::<Self, ParquetDataSourceError>(ParquetDataSourceError::NotADirectory(data_dir)),
    {
        if !is_dir {
            return Err(ParquetDataSourceError::NotADirectory(data_dir));
        }
        Ok(ParquetDataSource { data_dir })
    }

    /// The directory the tables are read from.
    pub fn data_dir(&self) -> (res: &PathBuf)
        ensures
            *res == self@,
    {
        &self.data_dir
    }
}

/// The table a directory entry becomes: a regular file with extension `parquet` becomes
/// the table named after its stem; anything else becomes no table.
pub open spec fn parquet_table_spec(file_name: Seq<char>, is_file: bool) -> Option<Seq<char>> {
    if is_file && file_name_parts(file_name).1 == Some("parquet"@) {
        Some(file_name_parts(file_name).0)
    } else {
        None
    }
}

/// A file named `<stem>.parquet` becomes the table `<stem>` when the stem is not empty;
/// a table's file name is its name followed by `.parquet`; and nothing but a regular
/// file becomes a table.
pub proof fn lemma_parquet_file_names(stem: Seq<char>, file_name: Seq<char>)
    ensures
        parquet_table_spec(stem + ".parquet"@, true) == (if stem.len() > 0 {
            Some(stem)
        } else {
            None::<Seq<char>>
        }),
        parquet_table_spec(file_name, true) matches Some(t) ==> file_name =~= t + ".parquet"@,
        parquet_table_spec(file_name, false) is None,
{
    reveal_strlit(".parquet");
    reveal_strlit("parquet");
    let name = stem + ".parquet"@;
    let i = stem.len() as int;
    assert(name[i] == '.');
    assert forall|j: int| i < j < name.len() implies name[j] != '.' by {
        assert(name[j] == ".parquet"@[j - i]);
    }
    assert(crate::text::is_last_index_of(name, '.', i));
    assert(name != seq!['.', '.']) by {
        assert(name.len() >= 8);
    }
    if stem.len() > 0 {
        let k = choose|k: int| crate::text::is_last_index_of(name, '.', k) && k > 0;
        crate::text::lemma_last_index_unique(name, '.', i, k);
        assert(name.subrange(0, i) =~= stem);
        assert(name.subrange(i + 1, name.len() as int) =~= "parquet"@);
    } else {
        if exists|k: int| crate::text::is_last_index_of(name, '.', k) && k > 0 {
            let k = choose|k: int| crate::text::is_last_index_of(name, '.', k) && k > 0;
            crate::text::lemma_last_index_unique(name, '.', i, k);
        }
    }
    if parquet_table_spec(file_name, true) is Some {
        let t = file_name_parts(file_name).0;
        let k = choose|k: int| crate::text::is_last_index_of(file_name, '.', k) && k > 0;
        assert(file_name.subrange(k + 1, file_name.len() as int) == "parquet"@);
        assert(file_name =~= file_name.subrange(0, k) + seq!['.'] + file_name.subrange(k + 1, file_name.len() as int));
        assert(".parquet"@ =~= seq!['.'] + "parquet"@);
    }
}

/// The name of the table that the directory entry `file_name` becomes, if any.
pub fn parquet_table_name(file_name: &str, is_file: bool) -> (res: Option<String>)
    ensures
        match res {
            Some(t) => parquet_table_spec(file_name@, is_file) == Some(t@),
            None => parquet_table_spec(file_name@, is_file) is None,
        },
{
    let (stem, extension) = file_name_parts_of(file_name);
    match extension {
        Some(ext) => {
            if is_file && str_eq(ext, "parquet") {
                Some(String::from_str(stem))
            } else {
                None
            }
        },
        None => None,
    }
}

} // verus!
