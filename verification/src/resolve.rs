//! The URI resolver: classifies a logical reference by scheme and extracts
//! the scheme-specific parameters. Pure parsing and validation; no side
//! effects, so a reference that fails to resolve never reaches the
//! filesystem or the metadata authority.

use vstd::prelude::*;
use crate::errors::ErrorKind;
use crate::errors::GatewayError;
use crate::text::str_eq;
use crate::urlparse::lookup;
use crate::urlparse::lookup_pairs;
use crate::urlparse::pairs_view;
use crate::urlparse::parse_query_pairs;
use crate::urlparse::parse_url_parts;
use crate::urlparse::query_pairs;
use crate::urlparse::url_parses;
use crate::urlparse::url_path;
use crate::urlparse::url_query;
use crate::urlparse::url_scheme;

verus! {

/// A resolved logical reference: the closed union of the gateway's
/// recognized addressing forms.
#[derive(Debug)]
pub enum LogicalReference {
    /// A mesh-managed dataset, read form: `dm://input?id=<dataset_id>`.
    MeshRead { id: String },
    /// A mesh-managed dataset, write form:
    /// `dm://output?datasource_id=<id>&id=<dataset_id>&uri=<relative_path>`.
    MeshWrite { datasource_id: String, id: String, relative_uri: String },
    /// A direct local path, read only: `file://<absolute_path>`.
    DirectFile { path: String },
}

/// The mathematical value of a resolved reference.
pub enum RefView {
    MeshRead { id: Seq<char> },
    MeshWrite { datasource_id: Seq<char>, id: Seq<char>, relative_uri: Seq<char> },
    DirectFile { path: Seq<char> },
}

impl View for LogicalReference {
    type V = RefView;

    open spec fn view(&self) -> RefView {
        match self {
            LogicalReference::MeshRead { id } => RefView::MeshRead { id: id@ },
            LogicalReference::MeshWrite { datasource_id, id, relative_uri } => RefView::MeshWrite {
                datasource_id: datasource_id@,
                id: id@,
                relative_uri: relative_uri@,
            },
            LogicalReference::DirectFile { path } => RefView::DirectFile { path: path@ },
        }
    }
}

/// The outcome of a resolution, kind-level.
pub open spec fn res_view(r: Result<LogicalReference, GatewayError>) -> Result<
    RefView,
    ErrorKind,
> {
    match r {
        Ok(t) => Ok(t@),
        Err(e) => Err(e.kind),
    }
}

/// The decoded query pairs of a reference, if it carries a query.
pub open spec fn ref_query_pairs(s: Seq<char>) -> Option<Seq<(Seq<char>, Seq<char>)>> {
    match url_query(s) {
        Some(q) => Some(query_pairs(q)),
        None => None,
    }
}

/// How a reference resolves for a read: `dm` requires the parameter set
/// `{id}`; `file` uses the path component directly; anything else is an
/// unsupported scheme.
pub open spec fn read_resolution(s: Seq<char>) -> Result<RefView, ErrorKind> {
    if !url_parses(s) {
        Err(ErrorKind::MalformedReference)
    } else if url_scheme(s) == "dm"@ {
        match ref_query_pairs(s) {
            None => Err(ErrorKind::MissingParameter),
            Some(ps) => match lookup_pairs(ps, "id"@) {
                Some(id) => Ok(RefView::MeshRead { id }),
                None => Err(ErrorKind::MissingParameter),
            },
        }
    } else if url_scheme(s) == "file"@ {
        Ok(RefView::DirectFile { path: url_path(s) })
    } else {
        Err(ErrorKind::UnsupportedScheme)
    }
}

/// How a reference resolves for a write: only `dm` with the parameter set
/// `{datasource_id, id, uri}` is accepted.
pub open spec fn write_resolution(s: Seq<char>) -> Result<RefView, ErrorKind> {
    if !url_parses(s) {
        Err(ErrorKind::MalformedReference)
    } else if url_scheme(s) == "dm"@ {
        match ref_query_pairs(s) {
            None => Err(ErrorKind::MissingParameter),
            Some(ps) => match (
                lookup_pairs(ps, "datasource_id"@),
                lookup_pairs(ps, "id"@),
                lookup_pairs(ps, "uri"@),
            ) {
                (Some(datasource_id), Some(id), Some(relative_uri)) => Ok(
                    RefView::MeshWrite { datasource_id, id, relative_uri },
                ),
                _ => Err(ErrorKind::MissingParameter),
            },
        }
    } else {
        Err(ErrorKind::UnsupportedScheme)
    }
}

/// How a reference resolves for a metadata lookup: only the `dm` read form
/// is accepted; even `file` is an unsupported scheme here.
pub open spec fn lookup_resolution(s: Seq<char>) -> Result<Seq<char>, ErrorKind> {
    if !url_parses(s) {
        Err(ErrorKind::MalformedReference)
    } else if url_scheme(s) == "dm"@ {
        match ref_query_pairs(s) {
            None => Err(ErrorKind::MissingParameter),
            Some(ps) => match lookup_pairs(ps, "id"@) {
                Some(id) => Ok(id),
                None => Err(ErrorKind::MissingParameter),
            },
        }
    } else {
        Err(ErrorKind::UnsupportedScheme)
    }
}

/// Resolves a reference for a read (the download pipeline).
pub fn resolve_read(s: &str) -> (r: Result<LogicalReference, GatewayError>)
    ensures
        res_view(r) == read_resolution(s@),
{
    let parts = match parse_url_parts(s) {
        None => {
            return Err(
                GatewayError::new(ErrorKind::MalformedReference, "reference is not a URI"),
            );
        },
        Some(p) => p,
    };
    if str_eq(parts.scheme.as_str(), "dm") {
        let q = match parts.query {
            None => {
                return Err(GatewayError::new(ErrorKind::MissingParameter, "lack query"));
            },
            Some(q) => q,
        };
        let pairs = parse_query_pairs(q.as_str());
        proof {
            assert(pairs_view(pairs@) =~= query_pairs(q@));
        }
        match lookup(&pairs, "id") {
            Some(id) => Ok(LogicalReference::MeshRead { id }),
            None => Err(GatewayError::new(ErrorKind::MissingParameter, "lack id")),
        }
    } else if str_eq(parts.scheme.as_str(), "file") {
        Ok(LogicalReference::DirectFile { path: parts.path })
    } else {
        Err(GatewayError::new(ErrorKind::UnsupportedScheme, "Unsupport scheme"))
    }
}

/// Resolves a reference for a write (the upload pipeline).
pub fn resolve_write(s: &str) -> (r: Result<LogicalReference, GatewayError>)
    ensures
        res_view(r) == write_resolution(s@),
{
    let parts = match parse_url_parts(s) {
        None => {
            return Err(
                GatewayError::new(ErrorKind::MalformedReference, "reference is not a URI"),
            );
        },
        Some(p) => p,
    };
    if str_eq(parts.scheme.as_str(), "dm") {
        let q = match parts.query {
            None => {
                return Err(GatewayError::new(ErrorKind::MissingParameter, "lack query"));
            },
            Some(q) => q,
        };
        let pairs = parse_query_pairs(q.as_str());
        proof {
            assert(pairs_view(pairs@) =~= query_pairs(q@));
        }
        let datasource_id = match lookup(&pairs, "datasource_id") {
            None => {
                return Err(
                    GatewayError::new(ErrorKind::MissingParameter, "lack datasource_id"),
                );
            },
            Some(v) => v,
        };
        let id = match lookup(&pairs, "id") {
            None => {
                return Err(GatewayError::new(ErrorKind::MissingParameter, "lack id"));
            },
            Some(v) => v,
        };
        let relative_uri = match lookup(&pairs, "uri") {
            None => {
                return Err(GatewayError::new(ErrorKind::MissingParameter, "lack uri"));
            },
            Some(v) => v,
        };
        Ok(LogicalReference::MeshWrite { datasource_id, id, relative_uri })
    } else {
        Err(GatewayError::new(ErrorKind::UnsupportedScheme, "Unsupport scheme"))
    }
}

/// Resolves a reference for a metadata lookup and returns the dataset
/// identifier it names.
pub fn resolve_lookup(s: &str) -> (r: Result<String, GatewayError>)
    ensures
        (r matches Ok(id) ==> lookup_resolution(s@) == Ok::<Seq<char>, ErrorKind>(id@)),
        (r matches Err(e) ==> lookup_resolution(s@) == Err::<Seq<char>, ErrorKind>(e.kind)),
{
    let parts = match parse_url_parts(s) {
        None => {
            return Err(
                GatewayError::new(ErrorKind::MalformedReference, "reference is not a URI"),
            );
        },
        Some(p) => p,
    };
    if str_eq(parts.scheme.as_str(), "dm") {
        let q = match parts.query {
            None => {
                return Err(GatewayError::new(ErrorKind::MissingParameter, "lack query"));
            },
            Some(q) => q,
        };
        let pairs = parse_query_pairs(q.as_str());
        proof {
            assert(pairs_view(pairs@) =~= query_pairs(q@));
        }
        match lookup(&pairs, "id") {
            Some(id) => Ok(id),
            None => Err(GatewayError::new(ErrorKind::MissingParameter, "lack id")),
        }
    } else {
        Err(GatewayError::new(ErrorKind::UnsupportedScheme, "Unsupport scheme"))
    }
}

/// A reference whose scheme is outside the recognized set fails every
/// pipeline with an unsupported-scheme error; since resolution is pure,
/// no such request reaches the filesystem or the metadata authority.
pub proof fn lemma_unrecognized_scheme_rejected_everywhere(s: Seq<char>)
    requires
        url_parses(s),
        url_scheme(s) != "dm"@,
        url_scheme(s) != "file"@,
    ensures
        read_resolution(s) == Err::<RefView, ErrorKind>(ErrorKind::UnsupportedScheme),
        write_resolution(s) == Err::<RefView, ErrorKind>(ErrorKind::UnsupportedScheme),
        lookup_resolution(s) == Err::<Seq<char>, ErrorKind>(ErrorKind::UnsupportedScheme),
{
}

/// A `dm` reference whose query carries no `id` parameter fails resolution
/// with a missing-parameter error in every pipeline; since resolution is
/// pure, no network call to the authority is made for it.
pub proof fn lemma_missing_parameter_rejected(s: Seq<char>)
    requires
        url_parses(s),
        url_scheme(s) == "dm"@,
        ref_query_pairs(s) matches Some(ps) ==> forall|i: int|
            0 <= i < ps.len() ==> (#[trigger] ps[i]).0 != "id"@,
    ensures
        read_resolution(s) == Err::<RefView, ErrorKind>(ErrorKind::MissingParameter),
        write_resolution(s) == Err::<RefView, ErrorKind>(ErrorKind::MissingParameter),
        lookup_resolution(s) == Err::<Seq<char>, ErrorKind>(ErrorKind::MissingParameter),
{
    if let Some(ps) = ref_query_pairs(s) {
        crate::urlparse::lemma_lookup_some_iff_key_present(ps, "id"@);
    }
}

} // verus!
