//! Data models behind the fetch API: URLs, search parameters, headers, methods, forms and
//! bodies.

pub mod body;
pub mod client;
pub mod fetch;
pub mod form_data;
pub mod headers;
pub mod method;
pub mod request;
pub mod response;
pub mod url;
pub mod url_search_params;
