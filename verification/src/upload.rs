//! The upload pipeline's decision logic: single-pass field accumulation
//! over the multipart stream, validation of the three required fields,
//! and the commit plan — destination path plus registration request —
//! computed once the staged artifact is complete.
//!
//! Side effects run outside the library, in this order: scratch file
//! written, destination file written, metadata record created. There is
//! no transactional rollback across the three steps: a registration
//! failure leaves the copied file in final storage but not mesh-visible,
//! a known gap that is preserved here rather than hidden.

use vstd::prelude::*;
use crate::authority::CreateDatasetRequest;
use crate::authority::build_create_request;
use crate::errors::ErrorKind;
use crate::errors::GatewayError;
use crate::records::DataSourceRecord;
use crate::records::DatasetRecord;
use crate::records::datasource_root;
use crate::records::datasource_root_spec;
use crate::text::join_path;
use crate::text::joined_path;
use crate::text::str_eq;

verus! {

/// How the upload pipeline treats a multipart field, by its declared name.
#[derive(Clone, Copy, Debug, PartialEq, Eq, Structural)]
pub enum FieldKind {
    /// `store_path`: the logical write reference, read fully into memory.
    StorePath,
    /// `file`: the binary content, streamed into the scratch area.
    FileContent,
    /// `domain_data`: the JSON-encoded dataset record.
    DatasetMeta,
    /// Any other name: skipped without error.
    Other,
}

/// The kind a field name falls under.
pub open spec fn field_kind_of(name: Seq<char>) -> FieldKind {
    if name == "store_path"@ {
        FieldKind::StorePath
    } else if name == "file"@ {
        FieldKind::FileContent
    } else if name == "domain_data"@ {
        FieldKind::DatasetMeta
    } else {
        FieldKind::Other
    }
}

/// Classifies a multipart field by its declared name. Unrecognized names
/// are skipped without error.
pub fn classify_field(name: &str) -> (r: FieldKind)
    ensures
        r == field_kind_of(name@),
{
    if str_eq(name, "store_path") {
        FieldKind::StorePath
    } else if str_eq(name, "file") {
        FieldKind::FileContent
    } else if str_eq(name, "domain_data") {
        FieldKind::DatasetMeta
    } else {
        FieldKind::Other
    }
}

/// The fixed scratch directory under which uploads are staged.
pub open spec fn scratch_dir() -> Seq<char> {
    "/tmp/dm_gateway_scratch"@
}

/// Where the file field's content is staged, named after the field's
/// declared filename; the field must declare one.
///
/// The scratch area is shared and unscoped: two concurrent uploads that
/// declare the same filename choose the same scratch path and can clobber
/// one another. Callers that need isolation must serialize such uploads or
/// key the scratch area per request.
pub fn scratch_target(filename: Option<&String>) -> (r: Result<String, GatewayError>)
    ensures
        filename is None ==> (r matches Err(e) && e.kind == ErrorKind::MissingField && e.detail@
            == "lack filename"@),
        filename matches Some(f) ==> (r matches Ok(p) && p@ == joined_path(scratch_dir(), f@)),
{
    match filename {
        None => Err(GatewayError::new(ErrorKind::MissingField, "lack filename")),
        Some(f) => Ok(join_path("/tmp/dm_gateway_scratch", f.as_str())),
    }
}

/// The accumulator for one pass over the multipart stream: each required
/// field is optional until the stream ends, then validated in one step.
#[derive(Debug)]
pub struct UploadGather {
    /// The logical write reference, once the `store_path` field was seen.
    pub store_path: Option<String>,
    /// The scratch path holding the staged content, once the `file` field
    /// was seen and fully written.
    pub staged_path: Option<String>,
    /// The decoded dataset record, once the `domain_data` field was seen.
    pub record: Option<DatasetRecord>,
}

/// Whether every required field was seen.
pub open spec fn gather_complete(g: UploadGather) -> bool {
    g.store_path is Some && g.staged_path is Some && g.record is Some
}

/// The validated outcome of one upload stream: all three required fields.
#[derive(Debug)]
pub struct UploadParts {
    pub store_path: String,
    pub staged_path: String,
    pub record: DatasetRecord,
}

impl UploadGather {
    /// An accumulator that has seen no field yet.
    pub fn new() -> (r: UploadGather)
        ensures
            r.store_path is None,
            r.staged_path is None,
            r.record is None,
    {
        UploadGather { store_path: None, staged_path: None, record: None }
    }

    /// Notes the logical write reference carried by the `store_path` field.
    pub fn note_store_path(&mut self, v: String)
        ensures
            final(self).store_path == Some(v),
            final(self).staged_path == old(self).staged_path,
            final(self).record == old(self).record,
    {
        self.store_path = Some(v);
    }

    /// Notes the scratch path the `file` field's content was staged under.
    pub fn note_staged(&mut self, scratch: String)
        ensures
            final(self).staged_path == Some(scratch),
            final(self).store_path == old(self).store_path,
            final(self).record == old(self).record,
    {
        self.staged_path = Some(scratch);
    }

    /// Notes the decoded dataset record carried by the `domain_data` field.
    pub fn note_record(&mut self, record: DatasetRecord)
        ensures
            final(self).record == Some(record),
            final(self).store_path == old(self).store_path,
            final(self).staged_path == old(self).staged_path,
    {
        self.record = Some(record);
    }

    /// Validates the accumulator after the stream ends: an upload missing
    /// any of the three required fields fails with a missing field — and,
    /// since validation is pure, before any destination write or authority
    /// call — and a complete one yields exactly the gathered values.
    pub fn finish(self) -> (r: Result<UploadParts, GatewayError>)
        ensures
            self.store_path is None ==> (r matches Err(e) && e.kind == ErrorKind::MissingField
                && e.detail@ == "lack store_path"@),
            (self.store_path is Some && self.staged_path is None) ==> (r matches Err(e) && e.kind
                == ErrorKind::MissingField && e.detail@ == "lack file"@),
            (self.store_path is Some && self.staged_path is Some && self.record is None) ==> (
            r matches Err(e) && e.kind == ErrorKind::MissingField && e.detail@
                == "lack domain_data"@),
            gather_complete(self) ==> (r matches Ok(p) && Some(p.store_path) == self.store_path
                && Some(p.staged_path) == self.staged_path && Some(p.record) == self.record),
    {
        let UploadGather { store_path, staged_path, record } = self;
        let store_path = match store_path {
            None => {
                return Err(GatewayError::new(ErrorKind::MissingField, "lack store_path"));
            },
            Some(v) => v,
        };
        let staged_path = match staged_path {
            None => {
                return Err(GatewayError::new(ErrorKind::MissingField, "lack file"));
            },
            Some(v) => v,
        };
        let record = match record {
            None => {
                return Err(GatewayError::new(ErrorKind::MissingField, "lack domain_data"));
            },
            Some(v) => v,
        };
        Ok(UploadParts { store_path, staged_path, record })
    }
}

/// The plan a validated upload commits by: copy the staged bytes to the
/// destination, and only after the copy succeeds, send the registration
/// request.
#[derive(Debug)]
pub struct CommitPlan {
    /// The staged artifact to copy from.
    pub scratch_path: String,
    /// The destination under the data source's root.
    pub dest_path: String,
    /// The registration request to send after the copy succeeds.
    pub request: CreateDatasetRequest,
}

/// Computes the commit plan for a resolved mesh write: requires the target
/// data source to carry a local-filesystem descriptor, places the artifact
/// at the data source's root joined with the reference's relative path,
/// and mirrors the supplied record into the registration request.
pub fn plan_commit(
    dataset_id: &str,
    relative_uri: &str,
    datasource_id: &str,
    staged_path: &str,
    record: &DatasetRecord,
    source: &DataSourceRecord,
) -> (r: Result<CommitPlan, GatewayError>)
    ensures
        datasource_root_spec(*source) matches Err(k) ==> (r matches Err(e) && e.kind == k),
        datasource_root_spec(*source) matches Ok(root) ==> (r matches Ok(plan)
            && plan.scratch_path@ == staged_path@ && plan.dest_path@ == joined_path(
            root,
            relative_uri@,
        ) && plan.request.dataset_id@ == dataset_id@ && plan.request.relative_uri@
            == relative_uri@ && plan.request.datasource_id@ == datasource_id@ && plan.request.name
            == record.name && plan.request.data_type == record.data_type
            && plan.request.attributes@ == record.attributes@ && plan.request.columns@
            == record.columns@ && plan.request.vendor == record.vendor
            && plan.request.file_format == record.file_format),
{
    let root = match datasource_root(source) {
        Err(e) => {
            return Err(e);
        },
        Ok(root) => root,
    };
    let dest_path = join_path(root.as_str(), relative_uri);
    let request = build_create_request(dataset_id, relative_uri, datasource_id, record);
    Ok(CommitPlan { scratch_path: staged_path.to_owned(), dest_path, request })
}

} // verus!
