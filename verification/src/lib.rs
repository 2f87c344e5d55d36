//! Core logic of an unofficial Wattpad API client: typed field selection,
//! pre-flight authentication gating, request construction, and classification
//! of raw HTTP outcomes into typed results.
//!
//! Everything here is pure: the HTTP transport and the JSON decoding of
//! response bodies are external collaborators, expected to hand these
//! functions plain values and take plain values back.

pub mod endpoints;
pub mod error;
pub mod field;
pub mod gate;
pub mod model;
pub mod request;
pub mod resolver;
pub mod session;
pub mod types;
pub mod wire;

pub use error::ApiErrorResponse;
pub use error::WattpadError;
pub use request::HttpMethod;
pub use request::WattpadRequestBuilder;
pub use resolver::DecodeOutcome;
pub use resolver::RawResponse;
pub use session::AuthState;
pub use wire::u64_to_dec;
