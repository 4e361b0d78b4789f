use std::sync::Mutex;

use accounts_api::account::{
    Account, AccountStatus, AccountType, DateTime, FindAccountQuery, NewAccount,
};
use accounts_api::error::{ApiError, RepoError};
use accounts_api::handlers::{
    create_account, delete_account, find_accounts, get_account, ResponseBody,
};
use accounts_api::repository::AccountsRepository;

/// A scripted double for the repository port: each operation pops the next
/// scripted result, and every call is recorded so tests can check call
/// counts and call order.
struct ScriptedRepo {
    create_results: Mutex<Vec<Result<Account, RepoError>>>,
    get_results: Mutex<Vec<Result<Account, RepoError>>>,
    find_results: Mutex<Vec<Result<Vec<Account>, RepoError>>>,
    delete_results: Mutex<Vec<Result<(), RepoError>>>,
    calls: Mutex<Vec<&'static str>>,
    received_creates: Mutex<Vec<NewAccount>>,
    received_get_ids: Mutex<Vec<i32>>,
    received_finds: Mutex<Vec<FindAccountQuery>>,
    received_delete_ids: Mutex<Vec<i32>>,
}

impl ScriptedRepo {
    fn new() -> ScriptedRepo {
        ScriptedRepo {
            create_results: Mutex::new(Vec::new()),
            get_results: Mutex::new(Vec::new()),
            find_results: Mutex::new(Vec::new()),
            delete_results: Mutex::new(Vec::new()),
            calls: Mutex::new(Vec::new()),
            received_creates: Mutex::new(Vec::new()),
            received_get_ids: Mutex::new(Vec::new()),
            received_finds: Mutex::new(Vec::new()),
            received_delete_ids: Mutex::new(Vec::new()),
        }
    }

    fn script_create(&self, r: Result<Account, RepoError>) {
        self.create_results.lock().unwrap().push(r);
    }

    fn script_get(&self, r: Result<Account, RepoError>) {
        self.get_results.lock().unwrap().push(r);
    }

    fn script_find(&self, r: Result<Vec<Account>, RepoError>) {
        self.find_results.lock().unwrap().push(r);
    }

    fn script_delete(&self, r: Result<(), RepoError>) {
        self.delete_results.lock().unwrap().push(r);
    }

    fn calls(&self) -> Vec<&'static str> {
        self.calls.lock().unwrap().clone()
    }
}

impl AccountsRepository for ScriptedRepo {
    fn create_account(&self, new_account: NewAccount) -> Result<Account, RepoError> {
        self.calls.lock().unwrap().push("create");
        self.received_creates.lock().unwrap().push(new_account);
        self.create_results.lock().unwrap().remove(0)
    }

    fn get_account(&self, account_id: i32) -> Result<Account, RepoError> {
        self.calls.lock().unwrap().push("get");
        self.received_get_ids.lock().unwrap().push(account_id);
        self.get_results.lock().unwrap().remove(0)
    }

    fn find_accounts(&self, query: FindAccountQuery) -> Result<Vec<Account>, RepoError> {
        self.calls.lock().unwrap().push("find");
        self.received_finds.lock().unwrap().push(query);
        self.find_results.lock().unwrap().remove(0)
    }

    fn delete_account(&self, account_id: i32) -> Result<(), RepoError> {
        self.calls.lock().unwrap().push("delete");
        self.received_delete_ids.lock().unwrap().push(account_id);
        self.delete_results.lock().unwrap().remove(0)
    }
}

fn sample_datetime() -> DateTime {
    DateTime { year: 2016, month: 7, day: 8, hour: 9, minute: 10, second: 11 }
}

fn stored_account(id: i32, customer_id: i32, available_balance_cents: i64) -> Account {
    Account {
        id,
        customer_id,
        balance_cents: 13424234234,
        account_type: AccountType::Savings,
        date_opened: sample_datetime(),
        account_status: AccountStatus::Active,
        account_name: Some("abc".to_string()),
        account_number: "012345678".to_string(),
        available_balance_cents,
        bsb: "123456".to_string(),
    }
}

#[test]
fn test_create_account_success() {
    let customer_id = 1;
    let account_id = 2;

    let repo = ScriptedRepo::new();
    repo.script_create(Ok(stored_account(account_id, customer_id, 3444)));

    let payload = NewAccount {
        customer_id,
        balance_cents: 34343,
        available_balance_cents: 3444,
        account_type: AccountType::Savings,
        account_name: Some("abc".to_string()),
        account_number: String::new(),
    };

    let res = create_account(&repo, customer_id, payload).unwrap();

    assert_eq!(repo.calls(), vec!["create"]);
    let received = repo.received_creates.lock().unwrap().remove(0);
    assert!(
        received.customer_id == customer_id
            && received.balance_cents == 34343
            && received.account_type == AccountType::Savings
            && received.account_name == Some("abc".to_string())
            && received.available_balance_cents == 3444
    );

    assert_eq!(201, res.status);
    // The creation reply echoes the stored account, not the requested values.
    let expected_account = stored_account(account_id, customer_id, 3444);
    assert_eq!(ResponseBody::Account(expected_account), res.body);
}

#[test]
fn test_create_account_internal_error() {
    let customer_id = 5;

    let repo = ScriptedRepo::new();
    repo.script_create(Err(RepoError::Other));

    let payload = NewAccount {
        customer_id,
        balance_cents: 13424234234,
        available_balance_cents: 3444,
        account_type: AccountType::Savings,
        account_name: Some("abc".to_string()),
        account_number: String::new(),
    };

    let res = create_account(&repo, customer_id, payload);

    assert!(res == Err(ApiError::InternalError));
}

#[test]
fn test_find_accounts_by_customer_id_success() {
    let customer_id = 1;

    let repo = ScriptedRepo::new();
    repo.script_find(Ok(vec![
        stored_account(1, 1, 34343),
        stored_account(2, 1, 34343),
    ]));

    let query = FindAccountQuery {
        account_id: None,
        customer_id,
        account_number: None,
    };

    let res = find_accounts(&repo, customer_id, query).unwrap();

    let expected_query = FindAccountQuery {
        account_id: None,
        customer_id,
        account_number: None,
    };
    assert_eq!(expected_query, repo.received_finds.lock().unwrap().remove(0));

    assert_eq!(200, res.status);
    let accounts = match res.body {
        ResponseBody::Accounts(accounts) => accounts,
        other => panic!("expected a list body, got {:?}", other),
    };
    assert_eq!(stored_account(1, 1, 34343), accounts[0]);
    assert_eq!(stored_account(2, 1, 34343), accounts[1]);
    assert_eq!("2016-07-08 09:10:11", accounts[0].date_opened.to_text());
}

#[test]
fn test_find_accounts_internal_error() {
    let customer_id = 2;

    let repo = ScriptedRepo::new();
    repo.script_find(Err(RepoError::Other));

    let query = FindAccountQuery {
        account_id: None,
        customer_id,
        account_number: None,
    };

    let res = find_accounts(&repo, customer_id, query);

    assert!(res == Err(ApiError::InternalError));
    assert_eq!(500, ApiError::InternalError.status_code());
}

#[test]
fn test_get_account_success() {
    let customer_id = 1;
    let account_id = 2;

    let repo = ScriptedRepo::new();
    repo.script_get(Ok(stored_account(account_id, customer_id, 34343)));

    let res = get_account(&repo, customer_id, account_id).unwrap();

    assert_eq!(vec![account_id], *repo.received_get_ids.lock().unwrap());
    assert_eq!(200, res.status);
    let account = match res.body {
        ResponseBody::Account(account) => account,
        other => panic!("expected an account body, got {:?}", other),
    };
    assert_eq!(stored_account(account_id, customer_id, 34343), account);
    assert_eq!("2016-07-08 09:10:11", account.date_opened.to_text());
}

#[test]
fn test_get_account_internal_error() {
    let customer_id = 1;
    let account_id = 4;

    let repo = ScriptedRepo::new();
    repo.script_get(Err(RepoError::Other));

    let res = get_account(&repo, customer_id, account_id);

    assert!(res == Err(ApiError::InternalError));
}

#[test]
fn test_get_account_not_found_error() {
    let customer_id = 1;
    let account_id = 4;

    let repo = ScriptedRepo::new();
    repo.script_get(Err(RepoError::NotFound));

    let res = get_account(&repo, customer_id, account_id);

    assert!(res == Err(ApiError::NotFound));
}

#[test]
fn test_get_account_unauthorized_error() {
    let customer_id = 1;
    let wrong_customer_id = 5;
    let account_id = 4;

    let repo = ScriptedRepo::new();
    repo.script_get(Ok(stored_account(account_id, customer_id, 34343)));

    let res = get_account(&repo, wrong_customer_id, account_id);

    assert!(res == Err(ApiError::Unauthorized));
}

#[test]
fn test_delete_account_success() {
    let customer_id = 1;
    let account_id = 2;

    let repo = ScriptedRepo::new();
    repo.script_get(Ok(stored_account(account_id, customer_id, 34343)));
    repo.script_delete(Ok(()));

    let res = delete_account(&repo, customer_id, account_id).unwrap();

    assert_eq!(repo.calls(), vec!["get", "delete"]);
    assert_eq!(vec![account_id], *repo.received_delete_ids.lock().unwrap());
    assert_eq!(204, res.status);
    assert_eq!(ResponseBody::Empty, res.body);
}

#[test]
fn test_delete_account_not_found_success() {
    let customer_id = 5;
    let account_id = 2;

    let repo = ScriptedRepo::new();
    repo.script_get(Err(RepoError::NotFound));
    repo.script_delete(Ok(()));

    let res = delete_account(&repo, customer_id, account_id).unwrap();

    // The preparatory fetch reported absence, yet the delete is still issued
    // and the reply is 204: absence is no error.
    assert_eq!(repo.calls(), vec!["get", "delete"]);
    assert_eq!(204, res.status);
    assert_eq!(ResponseBody::Empty, res.body);
}

#[test]
fn test_delete_account_unauthorized_error() {
    let customer_id = 5;
    let account_id = 2;
    let wrong_customer_id = 2;

    let repo = ScriptedRepo::new();
    repo.script_get(Ok(stored_account(account_id, customer_id, 34343)));

    let res = delete_account(&repo, wrong_customer_id, account_id);

    assert!(res == Err(ApiError::Unauthorized));
    // The delete operation is never consulted for a foreign owner.
    assert_eq!(repo.calls(), vec!["get"]);
}

#[test]
fn test_delete_account_internal_error() {
    let customer_id = 5;
    let account_id = 2;

    let repo = ScriptedRepo::new();
    repo.script_get(Err(RepoError::Other));

    let res = delete_account(&repo, customer_id, account_id);

    assert!(res == Err(ApiError::InternalError));
    assert_eq!(repo.calls(), vec!["get"]);
}

#[test]
fn test_create_account_unauthorized_no_repo_call() {
    let repo = ScriptedRepo::new();

    let payload = NewAccount {
        customer_id: 7,
        balance_cents: 100,
        available_balance_cents: 50,
        account_type: AccountType::Checking,
        account_name: None,
        account_number: String::new(),
    };

    let res = create_account(&repo, 1, payload);

    assert!(res == Err(ApiError::Unauthorized));
    assert!(repo.calls().is_empty());
}

#[test]
fn test_create_account_overrides_account_number() {
    let customer_id = 3;

    let repo = ScriptedRepo::new();
    repo.script_create(Ok(stored_account(9, customer_id, 3444)));

    let payload = NewAccount {
        customer_id,
        balance_cents: 500,
        available_balance_cents: 200,
        account_type: AccountType::Checking,
        account_name: None,
        account_number: "caller-supplied".to_string(),
    };

    create_account(&repo, customer_id, payload).unwrap();

    let received = repo.received_creates.lock().unwrap().remove(0);
    assert_ne!("caller-supplied", received.account_number);
    assert_eq!(9, received.account_number.len());
    assert!(received.account_number.chars().all(|c| c.is_ascii_digit()));
}

#[test]
fn test_find_accounts_owner_leak_bad_request() {
    let customer_id = 1;

    let repo = ScriptedRepo::new();
    repo.script_find(Ok(vec![
        stored_account(1, customer_id, 34343),
        stored_account(2, 9, 34343),
    ]));

    let query = FindAccountQuery {
        account_id: None,
        customer_id,
        account_number: None,
    };

    let res = find_accounts(&repo, customer_id, query);

    assert!(res == Err(ApiError::BadRequest));
}

#[test]
fn test_find_accounts_empty_list_is_ok() {
    let customer_id = 4;

    let repo = ScriptedRepo::new();
    repo.script_find(Ok(Vec::new()));

    let query = FindAccountQuery {
        account_id: Some(11),
        customer_id: 99,
        account_number: Some("012345678".to_string()),
    };

    let res = find_accounts(&repo, customer_id, query).unwrap();

    // The filter's customer id is forced to the path value; the other
    // filters are kept.
    let received = repo.received_finds.lock().unwrap().remove(0);
    assert_eq!(customer_id, received.customer_id);
    assert_eq!(Some(11), received.account_id);
    assert_eq!(Some("012345678".to_string()), received.account_number);

    assert_eq!(200, res.status);
    assert_eq!(ResponseBody::Accounts(Vec::new()), res.body);
}

#[test]
fn test_delete_account_absent_on_delete_call_is_no_op() {
    let customer_id = 1;
    let account_id = 2;

    let repo = ScriptedRepo::new();
    repo.script_get(Ok(stored_account(account_id, customer_id, 34343)));
    repo.script_delete(Err(RepoError::NotFound));

    let res = delete_account(&repo, customer_id, account_id).unwrap();

    assert_eq!(204, res.status);
    assert_eq!(ResponseBody::Empty, res.body);
}

#[test]
fn test_delete_account_delete_call_connection_error() {
    let customer_id = 1;
    let account_id = 2;

    let repo = ScriptedRepo::new();
    repo.script_get(Ok(stored_account(account_id, customer_id, 34343)));
    repo.script_delete(Err(RepoError::ConnectionError));

    let res = delete_account(&repo, customer_id, account_id);

    assert!(res == Err(ApiError::InternalError));
}

#[test]
fn test_create_account_overdrawn_bad_request() {
    let customer_id = 1;

    let repo = ScriptedRepo::new();

    let payload = NewAccount {
        customer_id,
        balance_cents: 100,
        available_balance_cents: 101,
        account_type: AccountType::Savings,
        account_name: None,
        account_number: String::new(),
    };

    let res = create_account(&repo, customer_id, payload);

    // The balance invariant is enforced before dispatch: the command never
    // reaches storage.
    assert!(res == Err(ApiError::BadRequest));
    assert!(repo.calls().is_empty());
}
