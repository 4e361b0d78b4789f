//! The account domain model: the persisted entity, the creation command,
//! the read filter, and their invariants.  Monetary amounts are integer
//! minor units; the opening timestamp is held as plain calendar fields.

use vstd::prelude::*;
use vstd::string::StringExecFns;
use crate::decimal::{padded_decimal, push_padded_decimal};

verus! {

/// The kind of account a customer holds.
#[derive(Clone, Copy, PartialEq, Eq, Structural, Debug)]
pub enum AccountType {
    Savings,
    Checking,
}

/// Whether the account is open for use.
#[derive(Clone, Copy, PartialEq, Eq, Structural, Debug)]
pub enum AccountStatus {
    Active,
    Closed,
}

/// A calendar timestamp held as plain fields, second precision.
#[derive(Clone, Copy, PartialEq, Eq, Structural, Debug)]
pub struct DateTime {
    pub year: u32,
    pub month: u32,
    pub day: u32,
    pub hour: u32,
    pub minute: u32,
    pub second: u32,
}

/// The text a timestamp renders to: `YYYY-MM-DD HH:MM:SS`, zero-padded.
pub open spec fn datetime_text(dt: DateTime) -> Seq<char> {
    padded_decimal(dt.year as int, 4) + seq!['-'] + padded_decimal(dt.month as int, 2)
        + seq!['-'] + padded_decimal(dt.day as int, 2) + seq![' '] + padded_decimal(
        dt.hour as int,
        2,
    ) + seq![':'] + padded_decimal(dt.minute as int, 2) + seq![':'] + padded_decimal(
        dt.second as int,
        2,
    )
}

impl DateTime {
    /// The fields name a plausible calendar instant and fit their widths.
    pub open spec fn wf(&self) -> bool {
        &&& self.year <= 9999
        &&& 1 <= self.month <= 12
        &&& 1 <= self.day <= 31
        &&& self.hour <= 23
        &&& self.minute <= 59
        &&& self.second <= 59
    }

    pub fn is_well_formed(&self) -> (r: bool)
        ensures
            r == self.wf(),
    {
        self.year <= 9999 && 1 <= self.month && self.month <= 12 && 1 <= self.day && self.day
            <= 31 && self.hour <= 23 && self.minute <= 59 && self.second <= 59
    }

    /// Render the timestamp as `YYYY-MM-DD HH:MM:SS`.
    pub fn to_text(&self) -> (r: String)
        requires
            self.wf(),
        ensures
            r@ == datetime_text(*self),
    {
        let mut s = String::new();
        push_padded_decimal(&mut s, self.year as u64, 4);
        s.append("-");
        push_padded_decimal(&mut s, self.month as u64, 2);
        s.append("-");
        push_padded_decimal(&mut s, self.day as u64, 2);
        s.append(" ");
        push_padded_decimal(&mut s, self.hour as u64, 2);
        s.append(":");
        push_padded_decimal(&mut s, self.minute as u64, 2);
        s.append(":");
        push_padded_decimal(&mut s, self.second as u64, 2);
        proof {
            reveal_strlit("-");
            reveal_strlit(" ");
            reveal_strlit(":");
            assert("-"@ =~= seq!['-']);
            assert(" "@ =~= seq![' ']);
            assert(":"@ =~= seq![':']);
            assert(s@ =~= datetime_text(*self));
        }
        s
    }
}

/// A persisted account.  The identifier is assigned by storage; the account
/// number is the externally visible identifier assigned at creation.
#[derive(Clone, PartialEq, Eq, Debug)]
pub struct Account {
    pub id: i32,
    pub customer_id: i32,
    pub balance_cents: i64,
    pub account_type: AccountType,
    pub date_opened: DateTime,
    pub account_status: AccountStatus,
    pub account_name: Option<String>,
    pub account_number: String,
    pub available_balance_cents: i64,
    pub bsb: String,
}

impl Account {
    /// The balance invariant: no more is available than is held.
    pub open spec fn wf(&self) -> bool {
        self.available_balance_cents <= self.balance_cents
    }

    pub fn is_well_formed(&self) -> (r: bool)
        ensures
            r == self.wf(),
    {
        self.available_balance_cents <= self.balance_cents
    }
}

/// A creation command, not yet persisted.  The account number is written in
/// by the generator before the command reaches storage, overriding any
/// caller-supplied value.
#[derive(Clone, PartialEq, Eq, Debug)]
pub struct NewAccount {
    pub customer_id: i32,
    pub balance_cents: i64,
    pub account_type: AccountType,
    pub account_name: Option<String>,
    pub available_balance_cents: i64,
    pub account_number: String,
}

impl NewAccount {
    /// The balance invariant: no more is available than is held.  A command
    /// breaking it is rejected before it is dispatched to storage.
    pub open spec fn wf(&self) -> bool {
        self.available_balance_cents <= self.balance_cents
    }

    pub fn is_well_formed(&self) -> (r: bool)
        ensures
            r == self.wf(),
    {
        self.available_balance_cents <= self.balance_cents
    }
}

/// A read filter for listing accounts.  The customer identifier is mandatory
/// and is always forced to the authenticated path value before use.
#[derive(Clone, PartialEq, Eq, Debug)]
pub struct FindAccountQuery {
    pub account_id: Option<i32>,
    pub customer_id: i32,
    pub account_number: Option<String>,
}

} // verus!
