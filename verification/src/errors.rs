//! The gateway's closed error taxonomy: a machine-checkable kind together
//! with a human-readable detail string.

use vstd::prelude::*;

verus! {

/// The kind of a gateway failure. Every failure a pipeline can report is
/// one of these; handlers dispatch on the kind, not on the detail text.
#[derive(Clone, Copy, Debug, PartialEq, Eq, Structural)]
pub enum ErrorKind {
    /// The logical reference string is not a well-formed URI.
    MalformedReference,
    /// A required query parameter of a `dm` reference is absent.
    MissingParameter,
    /// A required multipart field or record component is absent.
    MissingField,
    /// The reference carries a scheme outside the recognized set.
    UnsupportedScheme,
    /// The metadata authority answered with a non-zero status or a
    /// malformed envelope.
    AuthorityError,
    /// The connection to the metadata authority failed.
    TransportError,
    /// Staging, copying or opening a file failed.
    FilesystemError,
    /// The one-shot shutdown signal was already consumed.
    AlreadyShuttingDown,
}

/// A gateway failure: a kind from the closed taxonomy plus a detail string.
#[derive(Debug)]
pub struct GatewayError {
    pub kind: ErrorKind,
    pub detail: String,
}

/// The fixed label under which a kind is reported.
pub open spec fn kind_label(kind: ErrorKind) -> Seq<char> {
    match kind {
        ErrorKind::MalformedReference => "malformed reference"@,
        ErrorKind::MissingParameter => "missing parameter"@,
        ErrorKind::MissingField => "missing field"@,
        ErrorKind::UnsupportedScheme => "unsupported scheme"@,
        ErrorKind::AuthorityError => "authority error"@,
        ErrorKind::TransportError => "transport error"@,
        ErrorKind::FilesystemError => "filesystem error"@,
        ErrorKind::AlreadyShuttingDown => "already shutting down"@,
    }
}

impl GatewayError {
    /// Builds a failure of the given kind carrying the given detail text.
    pub fn new(kind: ErrorKind, detail: &str) -> (r: GatewayError)
        ensures
            r.kind == kind,
            r.detail@ == detail@,
    {
        GatewayError { kind, detail: detail.to_owned() }
    }

    /// The label of this failure's kind.
    pub fn kind_name(&self) -> (r: &'static str)
        ensures
            r@ == kind_label(self.kind),
    {
        match self.kind {
            ErrorKind::MalformedReference => "malformed reference",
            ErrorKind::MissingParameter => "missing parameter",
            ErrorKind::MissingField => "missing field",
            ErrorKind::UnsupportedScheme => "unsupported scheme",
            ErrorKind::AuthorityError => "authority error",
            ErrorKind::TransportError => "transport error",
            ErrorKind::FilesystemError => "filesystem error",
            ErrorKind::AlreadyShuttingDown => "already shutting down",
        }
    }

    /// The textual description a handler reports to the caller:
    /// the kind's label, a separator, and the detail.
    pub fn message(&self) -> (r: String)
        ensures
            r@ == kind_label(self.kind) + ": "@ + self.detail@,
    {
        let mut out = self.kind_name().to_owned();
        out.append(": ");
        out.append(self.detail.as_str());
        out
    }
}

} // verus!
