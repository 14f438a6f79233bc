//! A header-injection policy engine for HTTP message pipelines.
//!
//! A configuration-time chain of header rules is evaluated once per message,
//! yielding an ordered list of prepared mutations; an applier then carries
//! them out against the message's header container under a per-header
//! conflict policy: override, append, or insert-only-if-absent.

pub mod adapter;
pub mod chain;
pub mod headers;
pub mod laws;
pub mod mutation;

pub use adapter::{
    SetManyRequestHeaders, SetManyRequestHeadersLayer, SetMultipleResponseHeaders,
    SetMultipleResponseHeadersLayer, SetRequestHeader,
};
pub use chain::{And, MakeFullHeader, MakeHeaderValue, MakeHeaders, NoopMakeHeaders, ToMakeHeaders};
pub use mutation::{InsertHeaderMode, PreparedHeader};
