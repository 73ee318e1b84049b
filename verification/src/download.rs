//! The download pipeline's decision logic: a resolved mesh read leads to
//! the dataset record, then to its data source, and finally to the
//! physical path under the source's local-filesystem root. The byte
//! streaming itself, and the not-found answer when the open fails, stay
//! outside the library.

use vstd::prelude::*;
use crate::errors::ErrorKind;
use crate::errors::GatewayError;
use crate::records::DataSourceRecord;
use crate::records::DatasetRecord;
use crate::records::datasource_root;
use crate::records::datasource_root_spec;
use crate::text::join_path;
use crate::text::joined_path;

verus! {

/// The physical path a mesh read resolves to: the record's data source
/// must carry a local-filesystem descriptor, and the path is the source's
/// root joined with the record's relative path.
pub open spec fn mesh_path_resolution(record: DatasetRecord, source: DataSourceRecord) -> Result<
    Seq<char>,
    ErrorKind,
> {
    match datasource_root_spec(source) {
        Err(k) => Err(k),
        Ok(root) => Ok(joined_path(root, record.relative_uri@)),
    }
}

/// Computes the physical path a fetched dataset record is read from.
pub fn mesh_download_path(record: &DatasetRecord, source: &DataSourceRecord) -> (r: Result<
    String,
    GatewayError,
>)
    ensures
        mesh_path_resolution(*record, *source) matches Ok(p) ==> (r matches Ok(s) && s@ == p),
        mesh_path_resolution(*record, *source) matches Err(k) ==> (r matches Err(e) && e.kind
            == k),
{
    let root = match datasource_root(source) {
        Err(e) => {
            return Err(e);
        },
        Ok(root) => root,
    };
    Ok(join_path(root.as_str(), record.relative_uri.as_str()))
}

/// Round trip: a mesh write commits its artifact to exactly the path a
/// later mesh read resolves to, provided the fetched record carries the
/// registered relative path and the same data source answers with the same
/// root. Over a faithful byte store — reading a path returns the bytes
/// last written there — the download returns the committed content.
pub proof fn lemma_upload_download_round_trip(
    source: DataSourceRecord,
    relative_uri: Seq<char>,
    record: DatasetRecord,
    store: Map<Seq<char>, Seq<u8>>,
    content: Seq<u8>,
)
    requires
        datasource_root_spec(source) is Ok,
        record.relative_uri@ == relative_uri,
    ensures
        mesh_path_resolution(record, source) == Ok::<Seq<char>, ErrorKind>(
            joined_path(datasource_root_spec(source).unwrap(), relative_uri),
        ),
        store.insert(joined_path(datasource_root_spec(source).unwrap(), relative_uri), content)[
            mesh_path_resolution(record, source).unwrap()
        ] == content,
{
}

} // verus!
