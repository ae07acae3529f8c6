//! A scriptable HTTP request processor: the native side of an embedded
//! script engine that runs server-supplied code against request data.
//!
//! The crate models the two-way boundary between host memory and the
//! engine's managed heap. Native requests are exposed to script through
//! proxy objects backed by a checked per-invocation arena; script output
//! is read back into a native string-to-string record; and every engine
//! interaction runs through a typed session whose state machine the
//! handle enforces. The engine itself — like the source-to-source
//! transform pipeline that produces the script text — is an external
//! collaborator driven by the embedder; this library owns the decisions,
//! the marshaling and the lifecycle, and proves them.

pub mod accessor;
pub mod arena;
pub mod classify;
pub mod engine;
pub mod errors;
pub mod http_request;
pub mod resolver;
pub mod string_map;
pub mod strutil;
