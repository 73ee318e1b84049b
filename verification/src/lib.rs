//! A data-mesh I/O gateway library: the verified core of a single-node
//! service that lets a workload read and write governed datasets through
//! opaque logical URIs. The library holds the pure decision logic of the
//! gateway — reference resolution, upload field accumulation, destination
//! path computation, authority request/response handling, request routing
//! and the single-use shutdown slot — each with a contract. The
//! surrounding transport (HTTP server, mutual-TLS client, file streaming)
//! lives outside the library and hands it plain values.

pub mod errors;
pub mod text;
pub mod urlparse;
pub mod records;
pub mod resolve;
pub mod authority;
pub mod upload;
pub mod download;
pub mod router;
pub mod shutdown;
