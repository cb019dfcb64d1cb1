//! The account store: the fixed population of accounts, looked up by id,
//! with the per-account atomic read-modify-write and the consistent
//! statement read built on top of it.

use vstd::prelude::*;

use crate::account::{Account, Client, Receipt};
use crate::domain::Tx;
use crate::engine::{apply_decision, parse_kind_spec};
use crate::error::Error;

verus! {

/// A consistent statement snapshot: balance and limit as of the same
/// instant as the listed transactions, plus the wall-clock reading the
/// caller took when asking.
#[derive(Debug)]
pub struct Statement {
    pub balance: i32,
    pub credit_limit: i32,
    pub queried_at: i64,
    pub last_transactions: Vec<Tx>,
}

/// The population of accounts. Ids are unique; every account upholds its
/// own invariant.
pub struct Store {
    pub accounts: Vec<Account>,
}

impl Store {
    /// The store invariant: well-formed accounts with pairwise distinct ids.
    pub open spec fn wf(self) -> bool {
        &&& forall|i: int| 0 <= i < self.accounts@.len() ==> (#[trigger] self.accounts@[i]).wf()
        &&& forall|i: int, j: int|
            0 <= i < j < self.accounts@.len() ==> #[trigger] self.accounts@[i].id
                != #[trigger] self.accounts@[j].id
    }

    /// Whether an account with this id exists.
    pub open spec fn has_account(self, id: i32) -> bool {
        exists|i: int| 0 <= i < self.accounts@.len() && (#[trigger] self.accounts@[i]).id == id
    }

    /// The position of the account with this id (meaningful only when
    /// `has_account(id)` holds; unique because ids are).
    pub open spec fn index_of(self, id: i32) -> int {
        choose|i: int| 0 <= i < self.accounts@.len() && (#[trigger] self.accounts@[i]).id == id
    }

    /// The account with this id (meaningful only when `has_account(id)`
    /// holds).
    pub open spec fn account_of(self, id: i32) -> Account {
        self.accounts@[self.index_of(id)]
    }

    /// An empty store, to be filled by provisioning.
    pub fn new() -> (s: Store)
        ensures
            s.wf(),
            s.accounts@.len() == 0,
            forall|id: i32| !s.has_account(id),
    {
        Store { accounts: Vec::new() }
    }

    /// Adds a pre-provisioned account. Succeeds exactly when the id is
    /// positive and fresh, the limit non-negative, and the opening balance
    /// within the limit; otherwise rejects the row as invalid input and
    /// changes nothing.
    pub fn provision(&mut self, id: i32, name: &str, credit_limit: i32, initial_balance: i32) -> (r:
        Result<(), Error>)
        requires
            old(self).wf(),
        ensures
            final(self).wf(),
            if id >= 1 && credit_limit >= 0 && -credit_limit <= initial_balance
                && !old(self).has_account(id) {
                &&& r == Ok::<(), Error>(())
                &&& final(self).accounts@.len() == old(self).accounts@.len() + 1
                &&& forall|j: int|
                    0 <= j < old(self).accounts@.len() ==> final(self).accounts@[j]
                        == old(self).accounts@[j]
                &&& final(self).accounts@.last().id == id
                &&& final(self).accounts@.last().name@ == name@
                &&& final(self).accounts@.last().credit_limit == credit_limit
                &&& final(self).accounts@.last().initial_balance == initial_balance
                &&& final(self).accounts@.last().balance == initial_balance
                &&& final(self).accounts@.last().transactions@.len() == 0
                &&& final(self).has_account(id)
                &&& forall|x: i32|
                    x != id ==> final(self).has_account(x) == old(self).has_account(x)
            } else {
                r == Err::<(), Error>(Error::InvalidInput) && *final(self) == *old(self)
            },
    {
        if !(id >= 1 && credit_limit >= 0 && -credit_limit <= initial_balance) {
            return Err(Error::InvalidInput);
        }
        if self.lookup(id).is_some() {
            return Err(Error::InvalidInput);
        }
        let account = Account::new(id, name, credit_limit, initial_balance);
        let ghost prev = self.accounts@;
        self.accounts.push(account);
        proof {
            let n = prev.len() as int;
            assert(self.accounts@[n].id == id);
            assert forall|x: i32| x != id implies final(self).has_account(x)
                == old(self).has_account(x) by {
                if old(self).has_account(x) {
                    let w = choose|i: int|
                        0 <= i < prev.len() && (#[trigger] prev[i]).id == x;
                    assert(self.accounts@[w].id == x);
                }
                if final(self).has_account(x) {
                    let w = choose|i: int|
                        0 <= i < self.accounts@.len() && (#[trigger] self.accounts@[i]).id == x;
                    assert(w < n);
                    assert(prev[w].id == x);
                }
            }
        }
        Ok(())
    }

    /// Finds the position of the account with this id.
    fn lookup(&self, id: i32) -> (r: Option<usize>)
        requires
            self.wf(),
        ensures
            match r {
                Some(i) => {
                    &&& self.has_account(id)
                    &&& i < self.accounts@.len()
                    &&& self.accounts@[i as int].id == id
                    &&& i as int == self.index_of(id)
                },
                None => !self.has_account(id),
            },
    {
        let n = self.accounts.len();
        let mut i: usize = 0;
        while i < n
            invariant
                self.wf(),
                i <= n,
                n == self.accounts@.len(),
                forall|j: int| 0 <= j < i ==> (#[trigger] self.accounts@[j]).id != id,
            decreases n - i,
        {
            if self.accounts[i].id == id {
                proof {
                    lemma_index_of_unique(*self, id, i as int);
                }
                return Some(i);
            }
            i = i + 1;
        }
        None
    }

    /// Whether an account with this id exists.
    pub fn exists_account(&self, id: i32) -> (b: bool)
        requires
            self.wf(),
        ensures
            b == self.has_account(id),
    {
        self.lookup(id).is_some()
    }

    /// The balance mutation engine's entry point: validate and apply one
    /// proposed transaction against one account, as a single atomic unit.
    /// An unknown id fails with `NotFound`; any decision failure leaves the
    /// store exactly as it was; a success moves that account's balance and
    /// appends the matching record together, touching no other account.
    pub fn apply(&mut self, id: i32, kind: &str, amount: i32, description: &str, now: i64) -> (r:
        Result<Receipt, Error>)
        requires
            old(self).wf(),
        ensures
            final(self).wf(),
            !old(self).has_account(id) ==> r == Err::<Receipt, Error>(Error::NotFound)
                && *final(self) == *old(self),
            old(self).has_account(id) ==> {
                let a = old(self).account_of(id);
                match apply_decision(
                    a.balance as int,
                    a.credit_limit as int,
                    kind@,
                    amount as int,
                    description@,
                ) {
                    Err(e) => r == Err::<Receipt, Error>(e)
                        && final(self).accounts@ == old(self).accounts@,
                    Ok(new_balance) => {
                        &&& r == Ok::<Receipt, Error>(
                            Receipt { credit_limit: a.credit_limit, balance: new_balance as i32 },
                        )
                        &&& final(self).accounts@.len() == old(self).accounts@.len()
                        &&& forall|j: int|
                            0 <= j < old(self).accounts@.len() && j != old(self).index_of(id)
                                ==> final(self).accounts@[j] == old(self).accounts@[j]
                        &&& final(self).index_of(id) == old(self).index_of(id)
                        &&& final(self).has_account(id)
                        &&& final(self).account_of(id).id == a.id
                        &&& final(self).account_of(id).name == a.name
                        &&& final(self).account_of(id).credit_limit == a.credit_limit
                        &&& final(self).account_of(id).initial_balance == a.initial_balance
                        &&& final(self).account_of(id).balance == new_balance
                        &&& final(self).account_of(id).transactions@.len() == a.transactions@.len()
                            + 1
                        &&& forall|k: int|
                            0 <= k < a.transactions@.len()
                                ==> final(self).account_of(id).transactions@[k]
                                == a.transactions@[k]
                        &&& final(self).account_of(id).transactions@.last().amount == amount
                        &&& final(self).account_of(id).transactions@.last().kind
                            == parse_kind_spec(kind@).unwrap()
                        &&& final(self).account_of(id).transactions@.last().description@
                            == description@
                        &&& final(self).account_of(id).transactions@.last().created_at
                            == a.next_created_at(now)
                    },
                }
            },
    {
        match self.lookup(id) {
            None => Err(Error::NotFound),
            Some(i) => {
                let ghost prev = *self;
                let account = &mut self.accounts[i];
                let r = account.apply_tx(kind, amount, description, now);
                proof {
                    assert(self.accounts@[i as int].id == id);
                    assert(forall|j: int|
                        0 <= j < self.accounts@.len() && j != i ==> self.accounts@[j]
                            == prev.accounts@[j]);
                    assert forall|x: int, y: int|
                        0 <= x < y < self.accounts@.len() implies self.accounts@[x].id
                        != self.accounts@[y].id by {
                        assert(prev.accounts@[x].id == self.accounts@[x].id);
                        assert(prev.accounts@[y].id == self.accounts@[y].id);
                    }
                    lemma_index_of_unique(*self, id, i as int);
                    if r is Err {
                        assert(self.accounts@ =~= prev.accounts@);
                    }
                }
                r
            },
        }
    }

    /// The statement reader: one consistent snapshot of an account's
    /// balance, limit, and its ten most recent transactions, newest first.
    /// An unknown id fails with `NotFound`; nothing is mutated either way.
    pub fn statement(&self, id: i32, queried_at: i64) -> (r: Result<Statement, Error>)
        requires
            self.wf(),
        ensures
            match r {
                Err(e) => e == Error::NotFound && !self.has_account(id),
                Ok(st) => {
                    let a = self.account_of(id);
                    &&& self.has_account(id)
                    &&& st.balance == a.balance
                    &&& st.credit_limit == a.credit_limit
                    &&& st.queried_at == queried_at
                    &&& st.last_transactions@.len() == if a.transactions@.len() < 10 {
                        a.transactions@.len()
                    } else {
                        10
                    }
                    &&& forall|k: int|
                        0 <= k < st.last_transactions@.len() ==> st.last_transactions@[k]
                            == a.transactions@[a.transactions@.len() - 1 - k]
                },
            },
    {
        match self.lookup(id) {
            None => Err(Error::NotFound),
            Some(i) => {
                let account = &self.accounts[i];
                Ok(
                    Statement {
                        balance: account.balance,
                        credit_limit: account.credit_limit,
                        queried_at,
                        last_transactions: account.recent_transactions(),
                    },
                )
            },
        }
    }

    /// The current row snapshot of one account, read atomically.
    pub fn snapshot(&self, id: i32) -> (r: Option<Client>)
        requires
            self.wf(),
        ensures
            match r {
                Some(c) => {
                    let a = self.account_of(id);
                    &&& self.has_account(id)
                    &&& c.id == a.id
                    &&& c.name == a.name
                    &&& c.credit_limit == a.credit_limit
                    &&& c.balance == a.balance
                },
                None => !self.has_account(id),
            },
    {
        match self.lookup(id) {
            None => None,
            Some(i) => Some(self.accounts[i].snapshot()),
        }
    }

    /// How many transactions an account has recorded in all.
    pub fn transaction_count(&self, id: i32) -> (r: Option<usize>)
        requires
            self.wf(),
        ensures
            match r {
                Some(n) => self.has_account(id) && n == self.account_of(id).transactions@.len(),
                None => !self.has_account(id),
            },
    {
        match self.lookup(id) {
            None => None,
            Some(i) => Some(self.accounts[i].transactions.len()),
        }
    }
}

/// With distinct ids, any position holding `id` is the one `index_of`
/// picks.
proof fn lemma_index_of_unique(s: Store, id: i32, i: int)
    requires
        s.wf(),
        0 <= i < s.accounts@.len(),
        s.accounts@[i].id == id,
    ensures
        s.has_account(id),
        s.index_of(id) == i,
        s.account_of(id) == s.accounts@[i],
{
    assert(s.has_account(id));
    let j = s.index_of(id);
    assert(0 <= j < s.accounts@.len() && s.accounts@[j].id == id);
    if i < j {
        assert(s.accounts@[i].id != s.accounts@[j].id);
    } else if j < i {
        assert(s.accounts@[j].id != s.accounts@[i].id);
    }
}

} // verus!
