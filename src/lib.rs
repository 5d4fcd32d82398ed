//! Authentication and paginated transport for a REST messaging client:
//! API keys, token signing, credential resolution, and the page-stream
//! state machine, all with verified contracts.

pub mod error;
pub mod auth;
pub mod outside;
pub mod signing;
pub mod token;
pub mod credential;
pub mod http;
pub mod link;
pub mod paginate;
