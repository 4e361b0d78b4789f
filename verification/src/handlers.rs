//! The request handlers: one short pipeline per operation, each enforcing
//! per-request ownership before or after its repository call and mapping
//! storage failures into protocol errors.  The repository's answer is shaped
//! by a pure mapping function with an exact contract, so every decision the
//! pipeline takes is pinned down whatever storage returned.

use vstd::prelude::*;
use crate::account::{Account, FindAccountQuery, NewAccount};
use crate::account_number::get_random_account_number;
use crate::error::{ApiError, RepoError};
use crate::repository::AccountsRepository;

verus! {

/// What a handler hands back to the transport on success: an HTTP status and
/// the body to serialize.
#[derive(Clone, PartialEq, Eq, Debug)]
pub struct Response {
    pub status: u16,
    pub body: ResponseBody,
}

/// The body of a successful reply.
#[derive(Clone, PartialEq, Eq, Debug)]
pub enum ResponseBody {
    /// A single account, for creation and get-by-id.
    Account(Account),
    /// A list of accounts, possibly empty, for listing.
    Accounts(Vec<Account>),
    /// No body, for deletion.
    Empty,
}

/// The creation command with the generated account number written in and
/// every other field kept.
pub open spec fn numbered_command(new_account: NewAccount, account_number: String) -> NewAccount {
    NewAccount { account_number, ..new_account }
}

/// Write the generated account number into a creation command, overriding
/// whatever the caller supplied.
pub fn assign_account_number(new_account: NewAccount, account_number: String) -> (r: NewAccount)
    ensures
        r == numbered_command(new_account, account_number),
{
    NewAccount { account_number, ..new_account }
}

/// How a creation result from storage is shaped outward: a stored account
/// becomes a 201 reply carrying it; any storage failure is a server fault.
pub open spec fn create_outcome(res: Result<Account, RepoError>) -> Result<Response, ApiError> {
    match res {
        Ok(account) => Ok(Response { status: 201, body: ResponseBody::Account(account) }),
        Err(_) => Err(ApiError::InternalError),
    }
}

pub fn shape_create_outcome(res: Result<Account, RepoError>) -> (r: Result<Response, ApiError>)
    ensures
        r == create_outcome(res),
{
    match res {
        Ok(account) => Ok(Response { status: 201, body: ResponseBody::Account(account) }),
        Err(_) => Err(ApiError::InternalError),
    }
}

/// Create an account for the path's customer.  The body must name that same
/// customer — and no other: `Unauthorized` comes exactly on that mismatch,
/// before any repository call.  A command breaking the balance invariant is
/// likewise rejected before it is dispatched.  On the authorized path the
/// command reaching storage is the body with a freshly generated account
/// number, so the stored owner is the path customer.
pub fn create_account<AR: AccountsRepository>(
    repo: &AR,
    customer_id: i32,
    new_account: NewAccount,
) -> (r: Result<Response, ApiError>)
    ensures
        new_account.customer_id != customer_id <==> (r matches Err(e) && e is Unauthorized),
        new_account.customer_id == customer_id && !new_account.wf() ==> (r matches Err(e)
            && e is BadRequest),
        r matches Err(e) && e is BadRequest ==> !new_account.wf(),
        r matches Ok(resp) ==> resp.status == 201 && resp.body is Account,
        r matches Err(e) ==> (e is Unauthorized || e is BadRequest || e is InternalError),
{
    if new_account.customer_id != customer_id {
        return Err(ApiError::Unauthorized);
    }
    if !new_account.is_well_formed() {
        // The balance invariant is enforced here, so an overdrawn command
        // never reaches storage.
        return Err(ApiError::BadRequest);
    }
    let account_number = get_random_account_number();
    let command = assign_account_number(new_account, account_number);
    let res = repo.create_account(command);
    shape_create_outcome(res)
}

/// Every account of the sequence is owned by the given customer.
pub open spec fn all_owned_by(accounts: Seq<Account>, customer_id: i32) -> bool {
    forall|i: int| 0 <= i < accounts.len() ==> accounts[i].customer_id == customer_id
}

/// The defensive post-check of listing: does every returned row's owner
/// equal the requested customer?
pub fn owners_all_match(customer_id: i32, accounts: &Vec<Account>) -> (r: bool)
    ensures
        r == all_owned_by(accounts@, customer_id),
{
    let mut i: usize = 0;
    while i < accounts.len()
        invariant
            i <= accounts@.len(),
            forall|j: int| 0 <= j < i ==> accounts@[j].customer_id == customer_id,
        decreases accounts@.len() - i,
    {
        if accounts[i].customer_id != customer_id {
            assert(accounts@[i as int].customer_id != customer_id);
            return false;
        }
        i += 1;
    }
    true
}

/// The read filter with its customer identifier forced to the path value,
/// closing the query-string injection vector; the other filters are kept.
pub fn force_customer_query(customer_id: i32, query: FindAccountQuery) -> (r: FindAccountQuery)
    ensures
        r.customer_id == customer_id,
        r.account_id == query.account_id,
        r.account_number == query.account_number,
{
    FindAccountQuery { customer_id, ..query }
}

/// How a listing result from storage is shaped outward: rows that all belong
/// to the requested customer become a 200 reply; a row with a foreign owner
/// is a defensive invariant violation; any storage failure is a server
/// fault.
pub open spec fn find_outcome(customer_id: i32, res: Result<Vec<Account>, RepoError>) -> Result<
    Response,
    ApiError,
> {
    match res {
        Ok(accounts) => if all_owned_by(accounts@, customer_id) {
            Ok(Response { status: 200, body: ResponseBody::Accounts(accounts) })
        } else {
            Err(ApiError::BadRequest)
        },
        Err(_) => Err(ApiError::InternalError),
    }
}

pub fn shape_find_outcome(customer_id: i32, res: Result<Vec<Account>, RepoError>) -> (r: Result<
    Response,
    ApiError,
>)
    ensures
        r == find_outcome(customer_id, res),
{
    match res {
        Ok(accounts) => {
            if owners_all_match(customer_id, &accounts) {
                Ok(Response { status: 200, body: ResponseBody::Accounts(accounts) })
            } else {
                Err(ApiError::BadRequest)
            }
        },
        Err(_) => Err(ApiError::InternalError),
    }
}

/// List the path customer's accounts.  The filter's customer identifier is
/// forced to the path value before the repository is consulted, and every
/// returned row is re-checked to belong to that customer.
pub fn find_accounts<AR: AccountsRepository>(
    repo: &AR,
    customer_id: i32,
    query: FindAccountQuery,
) -> (r: Result<Response, ApiError>)
    ensures
        r matches Ok(resp) ==> resp.status == 200 && (resp.body matches ResponseBody::Accounts(
            accounts,
        ) && all_owned_by(accounts@, customer_id)),
        r matches Err(e) ==> (e is BadRequest || e is InternalError),
{
    let forced = force_customer_query(customer_id, query);
    if forced.customer_id != customer_id {
        // Defensive and unreachable: the filter was just forced to the path
        // value.  Kept so the pipeline rejects rather than leaks if the
        // forcing step is ever weakened.
        return Err(ApiError::Unauthorized);
    }
    let res = repo.find_accounts(forced);
    shape_find_outcome(customer_id, res)
}

/// How a get-by-id result from storage is shaped outward: absence is the
/// protocol's not-found; any other failure is a server fault; a fetched
/// account is released only to its owner, anyone else is unauthorized.
pub open spec fn get_outcome(customer_id: i32, res: Result<Account, RepoError>) -> Result<
    Response,
    ApiError,
> {
    match res {
        Ok(account) => if account.customer_id == customer_id {
            Ok(Response { status: 200, body: ResponseBody::Account(account) })
        } else {
            Err(ApiError::Unauthorized)
        },
        Err(RepoError::NotFound) => Err(ApiError::NotFound),
        Err(_) => Err(ApiError::InternalError),
    }
}

pub fn shape_get_outcome(customer_id: i32, res: Result<Account, RepoError>) -> (r: Result<
    Response,
    ApiError,
>)
    ensures
        r == get_outcome(customer_id, res),
{
    match res {
        Ok(account) => {
            if account.customer_id == customer_id {
                Ok(Response { status: 200, body: ResponseBody::Account(account) })
            } else {
                Err(ApiError::Unauthorized)
            }
        },
        Err(RepoError::NotFound) => Err(ApiError::NotFound),
        Err(_) => Err(ApiError::InternalError),
    }
}

/// Fetch one account by identifier.  Ownership is checked after the fetch,
/// since the identifier alone does not reveal the owner: a fetched account
/// whose owner is not the path customer is never released.
pub fn get_account<AR: AccountsRepository>(repo: &AR, customer_id: i32, account_id: i32) -> (r:
    Result<Response, ApiError>)
    ensures
        r matches Ok(resp) ==> resp.status == 200 && (resp.body matches ResponseBody::Account(
            account,
        ) && account.customer_id == customer_id),
        r matches Err(e) ==> (e is Unauthorized || e is NotFound || e is InternalError),
{
    let res = repo.get_account(account_id);
    shape_get_outcome(customer_id, res)
}

/// Whether a delete may proceed, judged from the preparatory fetch: a found
/// account must belong to the path customer; an absent account is authorized
/// by default, favouring idempotence; any other fetch failure aborts as a
/// server fault.
pub open spec fn delete_authorization(customer_id: i32, fetched: Result<Account, RepoError>) -> Result<
    (),
    ApiError,
> {
    match fetched {
        Ok(account) => if account.customer_id == customer_id {
            Ok(())
        } else {
            Err(ApiError::Unauthorized)
        },
        Err(RepoError::NotFound) => Ok(()),
        Err(_) => Err(ApiError::InternalError),
    }
}

pub fn authorize_delete(customer_id: i32, fetched: Result<Account, RepoError>) -> (r: Result<
    (),
    ApiError,
>)
    ensures
        r == delete_authorization(customer_id, fetched),
{
    match fetched {
        Ok(account) => {
            if account.customer_id == customer_id {
                Ok(())
            } else {
                Err(ApiError::Unauthorized)
            }
        },
        Err(RepoError::NotFound) => Ok(()),
        Err(_) => Err(ApiError::InternalError),
    }
}

/// How the delete call's own result is shaped outward: success — and
/// absence, the no-op delete — answer 204 with an empty body; any other
/// failure is a server fault.
pub open spec fn delete_outcome(res: Result<(), RepoError>) -> Result<Response, ApiError> {
    match res {
        Ok(_) => Ok(Response { status: 204, body: ResponseBody::Empty }),
        Err(RepoError::NotFound) => Ok(Response { status: 204, body: ResponseBody::Empty }),
        Err(_) => Err(ApiError::InternalError),
    }
}

pub fn shape_delete_outcome(res: Result<(), RepoError>) -> (r: Result<Response, ApiError>)
    ensures
        r == delete_outcome(res),
{
    match res {
        Ok(_) => Ok(Response { status: 204, body: ResponseBody::Empty }),
        Err(RepoError::NotFound) => Ok(Response { status: 204, body: ResponseBody::Empty }),
        Err(_) => Err(ApiError::InternalError),
    }
}

/// Delete one account by identifier.  A preparatory fetch authorizes the
/// delete — the delete call itself is only reached once authorization
/// passes — and an account that was already absent still answers 204.
pub fn delete_account<AR: AccountsRepository>(repo: &AR, customer_id: i32, account_id: i32) -> (r:
    Result<Response, ApiError>)
    ensures
        r matches Ok(resp) ==> resp.status == 204 && resp.body is Empty,
        r matches Err(e) ==> (e is Unauthorized || e is InternalError),
{
    let fetched = repo.get_account(account_id);
    match authorize_delete(customer_id, fetched) {
        Err(e) => Err(e),
        Ok(_) => {
            let res = repo.delete_account(account_id);
            shape_delete_outcome(res)
        },
    }
}

/// A creation command whose body names the path's customer keeps that owner
/// through account-number assignment — the command storage receives is owned
/// by the path customer — and whatever account storage then reports stored
/// comes back as a 201 reply carrying exactly that account.
pub proof fn lemma_create_authorized_owner(
    customer_id: i32,
    new_account: NewAccount,
    account_number: String,
    stored: Account,
)
    requires
        new_account.customer_id == customer_id,
    ensures
        numbered_command(new_account, account_number).customer_id == customer_id,
        numbered_command(new_account, account_number).account_number == account_number,
        create_outcome(Ok(stored)) matches Ok(resp) && resp.status == 201 && resp.body
            == ResponseBody::Account(stored),
{
}

/// A fetched account owned by another customer is never released: the
/// get-by-id pipeline answers Unauthorized even though storage succeeded.
pub proof fn lemma_get_foreign_owner_unauthorized(customer_id: i32, account: Account)
    requires
        account.customer_id != customer_id,
    ensures
        get_outcome(customer_id, Ok(account)) matches Err(e) && e is Unauthorized,
{
}

/// When storage reports absence on a direct get-by-id lookup, the pipeline
/// answers the protocol's not-found.
pub proof fn lemma_get_absent_not_found(customer_id: i32)
    ensures
        get_outcome(customer_id, Err(RepoError::NotFound)) matches Err(e) && e is NotFound,
{
}

/// Every row a successful listing reply carries is owned by the requested
/// customer, whatever sequence the repository returned.
pub proof fn lemma_find_rows_owned(customer_id: i32, res: Result<Vec<Account>, RepoError>)
    ensures
        find_outcome(customer_id, res) matches Ok(resp) ==> (resp.body
            matches ResponseBody::Accounts(accounts) && all_owned_by(accounts@, customer_id)),
{
}

/// Deleting an account that the preparatory fetch reports absent is
/// authorized by default, and once the delete call itself succeeds the reply
/// is 204 with an empty body — absence is no error.
pub proof fn lemma_delete_absent_succeeds(customer_id: i32)
    ensures
        delete_authorization(customer_id, Err(RepoError::NotFound)) is Ok,
        delete_outcome(Ok(())) matches Ok(resp) && resp.status == 204 && resp.body is Empty,
{
}

/// A preparatory fetch that finds an account owned by another customer
/// blocks the delete: authorization alone answers Unauthorized, so the
/// delete operation is never consulted.
pub proof fn lemma_delete_foreign_owner_unauthorized(customer_id: i32, account: Account)
    requires
        account.customer_id != customer_id,
    ensures
        delete_authorization(customer_id, Ok(account)) matches Err(e) && e is Unauthorized,
{
}

} // verus!
