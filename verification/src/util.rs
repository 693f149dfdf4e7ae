//! The request execution core: headers, credentials, failures, requests, the
//! exchange that carries one request to its result, and the page iterator.

pub mod api_helper;
pub mod credentials;
pub mod errors;
pub mod headers;
pub mod paging;
pub mod request;
pub mod responses;
pub mod result_extensions;
pub mod text;

pub use errors::ApiError;
pub use errors::OxidError;
pub use errors::RobloxResult;
pub use result_extensions::ResultExtensions;
