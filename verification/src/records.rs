//! The gateway's view of dataset and data-source metadata, as plain values.

use vstd::prelude::*;
use crate::errors::ErrorKind;
use crate::errors::GatewayError;
use crate::text::str_eq;

verus! {

/// One column of a dataset's schema: a name and a logical type.
#[derive(Debug)]
pub struct ColumnSpec {
    pub name: String,
    pub col_type: String,
}

/// Metadata describing one logical unit of data. Created by a write
/// operation after successful staging; immutable once created in this
/// gateway's view.
#[derive(Debug)]
pub struct DatasetRecord {
    /// The dataset identifier.
    pub id: String,
    /// The display name.
    pub name: String,
    /// The logical type, e.g. a table.
    pub data_type: String,
    /// The storage path relative to the owning data source's root.
    pub relative_uri: String,
    /// The owning data source's identifier.
    pub datasource_id: String,
    /// Free-form key/value attributes.
    pub attributes: Vec<(String, String)>,
    /// The optional column schema, in order.
    pub columns: Vec<ColumnSpec>,
    /// The vendor tag.
    pub vendor: String,
    /// The file format code, as [`FileFormat`] assigns it.
    pub file_format: i32,
}

/// The backend descriptors of a data source; only the local-filesystem
/// variant is consumed by this gateway.
#[derive(Debug)]
pub struct DataSourceInfo {
    /// The root path of the local-filesystem backend, if the data source
    /// has one.
    pub localfs_path: Option<String>,
}

/// A named storage backend definition, fetched on demand from the
/// metadata authority and never cached across requests.
#[derive(Debug)]
pub struct DataSourceRecord {
    pub id: String,
    pub info: Option<DataSourceInfo>,
}

/// The root path a data source offers for file storage.
pub open spec fn datasource_root_spec(source: DataSourceRecord) -> Result<Seq<char>, ErrorKind> {
    match source.info {
        None => Err(ErrorKind::MissingField),
        Some(info) => match info.localfs_path {
            None => Err(ErrorKind::MissingField),
            Some(p) => Ok(p@),
        },
    }
}

/// Requires the data source to carry a local-filesystem descriptor and
/// returns its root path; any other backend kind is a missing field.
pub fn datasource_root(source: &DataSourceRecord) -> (r: Result<String, GatewayError>)
    ensures
        datasource_root_spec(*source) matches Ok(root) ==> (r matches Ok(p) && p@ == root),
        datasource_root_spec(*source) matches Err(k) ==> (r matches Err(e) && e.kind == k),
        source.info is None ==> (r matches Err(e) && e.detail@ == "lack datasource info"@),
        (source.info matches Some(info) && info.localfs_path is None) ==> (r matches Err(e)
            && e.detail@ == "lack localfs config"@),
{
    match &source.info {
        None => Err(GatewayError::new(ErrorKind::MissingField, "lack datasource info")),
        Some(info) => match &info.localfs_path {
            None => Err(GatewayError::new(ErrorKind::MissingField, "lack localfs config")),
            Some(p) => Ok(p.clone()),
        },
    }
}

/// A dataset's file format.
#[derive(Debug)]
pub enum FileFormat {
    Unknown,
    Csv,
}

/// The wire code of each file format.
pub open spec fn spec_format_code(f: FileFormat) -> i32 {
    match f {
        FileFormat::Unknown => 0,
        FileFormat::Csv => 1,
    }
}

/// The file-format code a folded (lower-case) format name stands for.
pub open spec fn format_code_of(folded: Seq<char>) -> Option<i32> {
    if folded == "unknown"@ {
        Some(0)
    } else if folded == "csv"@ {
        Some(1)
    } else {
        None
    }
}

/// What `str::to_lowercase` returns.
pub uninterp spec fn lower_of(s: Seq<char>) -> Seq<char>;

/// Relies on str::to_lowercase: the folded form depends on the characters
/// alone.
#[verifier::external_body]
fn lowercase(s: &str) -> (r: String)
    ensures
        r@ == lower_of(s@),
{
    s.to_lowercase()
}

impl FileFormat {
    /// The wire code of this format.
    pub fn code(&self) -> (r: i32)
        ensures
            r == spec_format_code(*self),
    {
        match self {
            FileFormat::Unknown => 0,
            FileFormat::Csv => 1,
        }
    }

    /// The code named by an already-folded (lower-case) format name.
    pub fn code_of_folded(folded: &str) -> (r: Option<i32>)
        ensures
            r == format_code_of(folded@),
    {
        if str_eq(folded, "unknown") {
            Some(0)
        } else if str_eq(folded, "csv") {
            Some(1)
        } else {
            None
        }
    }

    /// The wire code named by a format name, compared without regard to
    /// case; `None` for an unrecognized name.
    pub fn from_str(s: &str) -> (r: Option<i32>)
        ensures
            r == format_code_of(lower_of(s@)),
    {
        let folded = lowercase(s);
        Self::code_of_folded(folded.as_str())
    }
}

} // verus!
