//! What the operations are for.
//!
//! Each law relates what goes into an operation and what comes out of it, or the results of
//! several calls. `call_ensures(operation, arguments, result)` says that `result` is one that
//! `operation` may return for `arguments`, so a law that starts from it speaks of the operation
//! itself, whatever way its result is described elsewhere.

pub mod branches;
pub mod clusters;
pub mod contracts;
pub mod counting;
pub mod defaults;
pub mod fixtures;
pub mod hub;
pub mod leadership;
pub mod memories;
pub mod moments;
pub mod recording;
pub mod rendering;
pub mod requests;
pub mod scaling;
pub mod topics;
pub mod upgrading;
pub mod users;
pub mod validation;
pub mod wording;
