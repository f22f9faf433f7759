//! Verified core of a small media CDN: naming and addressing of stored media,
//! the bookkeeping of an upload as its chunks arrive, the headers a download is
//! served with, the mapping of failures to client-facing answers, and the
//! command-line client's URL handling.

pub mod text;
pub mod digest;
pub mod error;
pub mod model;
pub mod cdn_model;
pub mod controller;
pub mod routes;
pub mod cli;
pub mod endpoint;
