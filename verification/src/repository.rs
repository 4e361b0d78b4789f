//! The repository port: the abstract storage capability the handlers depend
//! on.  Implementations live outside this crate (a storage driver in the
//! application, a scripted double in tests); nothing is assumed of what they
//! return, and the handlers state what holds of every outcome.

use vstd::prelude::*;
use crate::account::{Account, FindAccountQuery, NewAccount};
use crate::error::RepoError;

verus! {

/// The storage capability consumed by the handlers.  All four operations may
/// block on an external resource and must be safe to invoke from multiple
/// concurrent callers; the handlers hold no shared mutable state of their own.
pub trait AccountsRepository: 'static + Send + Sync {
    /// Persist a creation command; on success the stored account comes back,
    /// its identifier assigned by storage.
    fn create_account(&self, new_account: NewAccount) -> Result<Account, RepoError>;

    /// Fetch one account by its identifier; absence is reported as
    /// `RepoError::NotFound`.
    fn get_account(&self, account_id: i32) -> Result<Account, RepoError>;

    /// List the accounts matching a filter; no match is an empty list, not
    /// an error.
    fn find_accounts(&self, query: FindAccountQuery) -> Result<Vec<Account>, RepoError>;

    /// Remove one account by its identifier.
    fn delete_account(&self, account_id: i32) -> Result<(), RepoError>;
}

} // verus!
