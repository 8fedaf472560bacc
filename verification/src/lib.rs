//! Safe, verified core of a client library for a SCADA automation API.
//!
//! The vendor's native library is reached over a foreign-function boundary
//! that carries text in a legacy double-byte code page and reports the
//! progress of overlapped (asynchronous) calls through numeric status codes.
//! This crate holds the part of that client that can be reasoned about as
//! pure logic on plain values:
//!
//! - transcoding between host strings and the legacy code page, and the
//!   extraction of terminator-delimited text from response buffers
//!   ([`codec`]);
//! - the life cycle of one overlapped operation: creation, polling, waiting,
//!   cancellation and reuse, with the vendor's sentinel codes special-cased
//!   exactly where the protocol demands it ([`async_ops`]);
//! - the decisions of the connection, search and tag-list components, each
//!   written as a function from the native layer's report to the caller's
//!   typed outcome ([`client`], [`find`], [`list`]).
//!
//! The native calls themselves live outside this crate; callers perform them
//! and feed their reported results into the decision functions here.

pub mod async_ops;
pub mod client;
pub mod codec;
pub mod constants;
pub mod error;
pub mod find;
pub mod list;
pub mod tag_value;

pub use crate::async_ops::AsyncOperation;
pub use crate::client::CtClient;
pub use crate::error::CtApiError;
pub use crate::error::UserError;
pub use crate::find::CtFind;
pub use crate::find::FindObject;
pub use crate::list::CtList;
pub use crate::tag_value::CtTagValueItems;
pub use crate::tag_value::DBTYPEENUM;
