//! A client for the Yandex Dictionary web service, without the network.
//!
//! The crate builds the addresses to ask, reads the service's replies, tells
//! a failure from a success and projects a lookup's reply into words and
//! their translations. Sending a request and receiving its reply is left to
//! the caller: an [`Api`] gives the address, the caller fetches it and hands
//! back a [`Reply`].

pub mod api;
pub mod error;
pub mod json;
pub mod laws;
pub mod limits;
pub mod parser;
pub mod reply;
pub mod text;
pub mod url;
pub mod words;

pub use api::Api;
pub use error::ApiError;
pub use error::ErrorKind;
pub use error::RequestError;
pub use error::VarError;
pub use json::JsonValue;
pub use reply::Reply;
pub use url::API_URL;
pub use words::Def;
pub use words::Word;
