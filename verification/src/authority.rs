//! The verified half of the metadata-authority client: request
//! construction and response-envelope validation. The transport itself —
//! JSON over mutual-TLS — stays outside the library; it hands back the
//! envelope and payload as plain values.

use vstd::prelude::*;
use crate::errors::ErrorKind;
use crate::errors::GatewayError;
use crate::records::ColumnSpec;
use crate::records::DatasetRecord;

verus! {

/// The status envelope every authority response must carry: a code (zero
/// means success) and a remote message.
#[derive(Debug)]
pub struct StatusEnvelope {
    pub code: i32,
    pub message: String,
}

/// Validates an authority response: the envelope must be present, its code
/// zero, and the payload present; otherwise the response is an authority
/// error, with the remote message embedded when the code is non-zero.
pub fn accept_response<T>(status: Option<StatusEnvelope>, data: Option<T>) -> (r: Result<
    T,
    GatewayError,
>)
    ensures
        status is None ==> (r matches Err(e) && e.kind == ErrorKind::AuthorityError && e.detail@
            == "status is empty"@),
        status matches Some(st) ==> (st.code != 0 ==> (r matches Err(e) && e.kind
            == ErrorKind::AuthorityError && e.detail@ == st.message@)),
        status matches Some(st) ==> (st.code == 0 && data is None ==> (r matches Err(e) && e.kind
            == ErrorKind::AuthorityError && e.detail@ == "data is empty"@)),
        status matches Some(st) ==> (st.code == 0 ==> (data matches Some(d) ==> (r matches Ok(v)
            && v == d))),
{
    match status {
        None => Err(GatewayError::new(ErrorKind::AuthorityError, "status is empty")),
        Some(st) => {
            if st.code != 0 {
                Err(GatewayError { kind: ErrorKind::AuthorityError, detail: st.message })
            } else {
                match data {
                    None => Err(GatewayError::new(ErrorKind::AuthorityError, "data is empty")),
                    Some(d) => Ok(d),
                }
            }
        },
    }
}

/// A query for one dataset record by identifier.
#[derive(Debug)]
pub struct QueryDatasetRequest {
    pub dataset_id: String,
}

/// A query for one data-source record by identifier.
#[derive(Debug)]
pub struct QueryDataSourceRequest {
    pub datasource_id: String,
}

/// The create request a successful upload sends: the supplied record's
/// fields, with the identifier, relative path and data source resolved
/// from the write reference.
#[derive(Debug)]
pub struct CreateDatasetRequest {
    pub dataset_id: String,
    pub name: String,
    pub data_type: String,
    pub relative_uri: String,
    pub datasource_id: String,
    pub attributes: Vec<(String, String)>,
    pub columns: Vec<ColumnSpec>,
    pub vendor: String,
    pub file_format: i32,
}

/// Builds the dataset query for an identifier.
pub fn build_dataset_query(dataset_id: &str) -> (r: QueryDatasetRequest)
    ensures
        r.dataset_id@ == dataset_id@,
{
    QueryDatasetRequest { dataset_id: dataset_id.to_owned() }
}

/// Builds the data-source query for an identifier.
pub fn build_datasource_query(datasource_id: &str) -> (r: QueryDataSourceRequest)
    ensures
        r.datasource_id@ == datasource_id@,
{
    QueryDataSourceRequest { datasource_id: datasource_id.to_owned() }
}

/// Copies a vector of key/value attributes.
fn copy_pairs(v: &Vec<(String, String)>) -> (r: Vec<(String, String)>)
    ensures
        r@ == v@,
{
    let mut out: Vec<(String, String)> = Vec::new();
    let mut i: usize = 0;
    while i < v.len()
        invariant
            i <= v.len(),
            out@ == v@.subrange(0, i as int),
        decreases v.len() - i,
    {
        let (k, val) = &v[i];
        out.push((k.clone(), val.clone()));
        proof {
            assert(out@ =~= v@.subrange(0, i + 1));
        }
        i += 1;
    }
    proof {
        assert(v@.subrange(0, v@.len() as int) =~= v@);
    }
    out
}

/// Copies a column schema.
fn copy_columns(v: &Vec<ColumnSpec>) -> (r: Vec<ColumnSpec>)
    ensures
        r@ == v@,
{
    let mut out: Vec<ColumnSpec> = Vec::new();
    let mut i: usize = 0;
    while i < v.len()
        invariant
            i <= v.len(),
            out@ == v@.subrange(0, i as int),
        decreases v.len() - i,
    {
        let c = &v[i];
        out.push(ColumnSpec { name: c.name.clone(), col_type: c.col_type.clone() });
        proof {
            assert(out@ =~= v@.subrange(0, i + 1));
        }
        i += 1;
    }
    proof {
        assert(v@.subrange(0, v@.len() as int) =~= v@);
    }
    out
}

/// Constructs the create request for a registration: it mirrors the
/// supplied record's descriptive fields and carries the resolved
/// identifier, relative path and data-source identifier.
pub fn build_create_request(
    dataset_id: &str,
    relative_uri: &str,
    datasource_id: &str,
    record: &DatasetRecord,
) -> (r: CreateDatasetRequest)
    ensures
        r.dataset_id@ == dataset_id@,
        r.relative_uri@ == relative_uri@,
        r.datasource_id@ == datasource_id@,
        r.name == record.name,
        r.data_type == record.data_type,
        r.attributes@ == record.attributes@,
        r.columns@ == record.columns@,
        r.vendor == record.vendor,
        r.file_format == record.file_format,
{
    CreateDatasetRequest {
        dataset_id: dataset_id.to_owned(),
        name: record.name.clone(),
        data_type: record.data_type.clone(),
        relative_uri: relative_uri.to_owned(),
        datasource_id: datasource_id.to_owned(),
        attributes: copy_pairs(&record.attributes),
        columns: copy_columns(&record.columns),
        vendor: record.vendor.clone(),
        file_format: record.file_format,
    }
}

} // verus!
