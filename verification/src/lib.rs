//! The resolution engine of a service that stands in front of a remote,
//! hierarchical store of experiment data and shows it to its clients as a
//! graph: sessions, their runs, the datasets of each run and the assets
//! behind them.
//!
//! The engine neither sends nor receives anything. For every call to the
//! remote service it says what is to be asked ([`clients::Request`]), and it
//! reads what came back ([`clients::interpret`]): the caller does the
//! talking. Resolving the data of a run takes several calls, one after the
//! other; [`model::Resolution`] decides after each what follows.
//!
//! - [`json`] and [`address`] state what this crate takes on trust from
//!   `serde_json` and `url`.
//! - [`decode`] reads typed values out of JSON documents.
//! - [`model::node`] is the schema of the remote service.
//! - [`clients`] is the client of the remote service.
//! - [`model`] is what clients of this service see.
//! - [`handlers`] carries the credential of a request.
//! - [`text`] builds the texts that the others need.

pub mod address;
pub mod clients;
pub mod decode;
pub mod handlers;
pub mod json;
pub mod model;
pub mod text;

pub use crate::address::RootAddress;
pub use crate::model::TiledQuery;
