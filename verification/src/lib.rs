//! Connection-level configuration of a Bolt driver: the URI scheme table,
//! TLS/TLCP settings, and the TLCP (GM/T 0024-2014) connector set-up over
//! Tongsuo.

mod errors;
mod text;
mod tls_backend;

pub mod auth;
pub mod report;
pub mod scheme;
pub mod tlcp;

pub use auth::{ClientCertificate, ConnectionTLSConfig, MutualTLS, TlcpConfig};
pub use errors::Error;
pub use scheme::{is_cluster, is_encrypted, is_tlcp, lookup, parse, schemes, SchemeInfo};
pub use text::str_equal;
pub use tls_backend::{FileFormat, HostCheck, VerifyMode};
pub use tlcp::{
    apply_context_step, apply_session_step, attach_stream, build_connector, call_outcome,
    context_plan, format_tongsuo_error, format_tongsuo_ssl_error, handshake_failure,
    session_steps, ContextStep, SessionStep, TlcpConnector, TlcpHost, CA_CERTIFICATE_REQUIRED,
    INCOMPLETE_CLIENT_IDENTITY, TLCP_CIPHER_LIST,
};
