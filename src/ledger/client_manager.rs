use vstd::prelude::*;

use std::collections::BTreeMap;

use crate::model::{in_balance_range, Amount, ClientId};

verus! {

#[derive(Debug, Clone, Copy, PartialEq, Eq, Structural)]
pub enum ClientAccountStatus {
    Active,
    Locked,
}

impl Default for ClientAccountStatus {
    fn default() -> (r: ClientAccountStatus)
        ensures
            r == ClientAccountStatus::Active,
    {
        ClientAccountStatus::Active
    }
}

/// Balances of one client, in ten-thousandths.
#[derive(Debug, Clone, Copy, PartialEq, Eq, Structural)]
pub struct ClientAccount {
    pub available: Amount,
    pub held: Amount,
    pub status: ClientAccountStatus,
}

impl ClientAccount {
    /// Both balances lie in the range the ledger can hold.
    pub open spec fn wf(&self) -> bool {
        &&& in_balance_range(self.available.units as int)
        &&& in_balance_range(self.held.units as int)
    }

    /// The account a client has on first reference.
    pub open spec fn fresh() -> ClientAccount {
        ClientAccount {
            available: Amount { units: 0 },
            held: Amount { units: 0 },
            status: ClientAccountStatus::Active,
        }
    }

    pub open spec fn spec_total(&self) -> int {
        self.available.units + self.held.units
    }

    /// Available plus held funds.
    pub fn total(&self) -> (r: Amount)
        requires
            self.wf(),
        ensures
            r.units == self.spec_total(),
    {
        Amount { units: self.available.units + self.held.units }
    }

    pub fn is_locked(&self) -> (r: bool)
        ensures
            r == (self.status == ClientAccountStatus::Locked),
    {
        match self.status {
            ClientAccountStatus::Locked => true,
            ClientAccountStatus::Active => false,
        }
    }
}

impl Default for ClientAccount {
    fn default() -> (r: ClientAccount)
        ensures
            r == ClientAccount::fresh(),
    {
        ClientAccount {
            available: Amount::zero(),
            held: Amount::zero(),
            status: ClientAccountStatus::default(),
        }
    }
}

/// The account `client` has in `accounts`, or a fresh one where it has none.
pub open spec fn account_or_fresh(accounts: Map<u16, ClientAccount>, client: u16) -> ClientAccount {
    if accounts.contains_key(client) {
        accounts[client]
    } else {
        ClientAccount::fresh()
    }
}

/// Every account's balances lie in range.
pub open spec fn accounts_wf(accounts: Map<u16, ClientAccount>) -> bool {
    forall|c: u16| #[trigger] accounts.contains_key(c) ==> accounts[c].wf()
}

/// Client accounts keyed by client id, created on first reference.
pub struct ClientAccountManager {
    pub accounts: BTreeMap<u16, ClientAccount>,
}

impl ClientAccountManager {
    pub open spec fn wf(&self) -> bool {
        accounts_wf(self.accounts@)
    }

    pub fn new() -> (r: ClientAccountManager)
        ensures
            r.accounts@ == Map::<u16, ClientAccount>::empty(),
    {
        ClientAccountManager { accounts: BTreeMap::new() }
    }

    /// The account of `client`, which is stored fresh first if it was absent.
    pub fn get_or_initialise(&mut self, client: ClientId) -> (r: ClientAccount)
        ensures
            r == account_or_fresh(old(self).accounts@, client.0),
            final(self).accounts@ == old(self).accounts@.insert(client.0, r),
    {
        match self.accounts.get(&client.0) {
            Some(a) => {
                let a = *a;
                self.accounts.insert(client.0, a);
                proof {
                    assert(old(self).accounts@.insert(client.0, a) =~= old(self).accounts@);
                }
                a
            },
            None => {
                let a = ClientAccount::default();
                self.accounts.insert(client.0, a);
                a
            },
        }
    }

    /// The stored account of `client`, without creating one.
    pub fn get(&self, client: ClientId) -> (r: Option<ClientAccount>)
        ensures
            r == if self.accounts@.contains_key(client.0) {
                Some(self.accounts@[client.0])
            } else {
                None::<ClientAccount>
            },
    {
        match self.accounts.get(&client.0) {
            Some(a) => Some(*a),
            None => None,
        }
    }

    /// Stores `account` as the account of `client`.
    pub(crate) fn put(&mut self, client: ClientId, account: ClientAccount)
        ensures
            final(self).accounts@ == old(self).accounts@.insert(client.0, account),
    {
        self.accounts.insert(client.0, account);
    }

    pub fn client_count(&self) -> (r: usize)
        ensures
            r == self.accounts@.len(),
    {
        self.accounts.len()
    }
}

impl Default for ClientAccountManager {
    fn default() -> (r: ClientAccountManager)
        ensures
            r.accounts@ == Map::<u16, ClientAccount>::empty(),
    {
        ClientAccountManager::new()
    }
}

} // verus!
