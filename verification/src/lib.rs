//! Verified decision logic of an actix-web adapter that serves an rspc router
//! over HTTP and websockets.

pub mod extractor;
pub mod procedure;
mod text;
pub mod reply;
pub mod routing;
pub mod query;
pub mod json;
pub mod body;
pub mod http;
pub mod ws;
