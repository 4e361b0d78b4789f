//! Account-management core of a banking backend: the request-authorization
//! and error-mapping pipeline around an abstract account repository, together
//! with the account domain model.  Storage engines and the HTTP transport are
//! collaborators behind narrow ports and are not part of this crate.

pub mod account;
pub mod account_number;
pub mod decimal;
pub mod error;
pub mod handlers;
pub mod repository;
