//! Accounts, transfer records and the ledger that owns them.
use vstd::prelude::*;

use crate::account_map::{balances_of, AccountMap};

verus! {

broadcast use vstd::string::to_string_from_display_ensures_for_str;

/// Why a transfer did not go through.
#[derive(Debug, Clone, Copy, PartialEq, Eq, Structural)]
pub enum LedgerError {
    /// The account to take the money from is not in the ledger.
    SourceAccountNotFound,
    /// The account to put the money into is not in the ledger.
    TargetAccountNotFound,
    /// The amount to move is negative.
    InvalidAmount,
    /// The source balance is smaller than the amount.
    InsufficientFunds,
}

impl LedgerError {
    /// The human-readable text of the error.
    pub open spec fn text(self) -> Seq<char> {
        match self {
            LedgerError::SourceAccountNotFound => "The origin account does not exist"@,
            LedgerError::TargetAccountNotFound => "The to account does not exist"@,
            LedgerError::InvalidAmount => "The amount is negative"@,
            LedgerError::InsufficientFunds => "Insufficient funds"@,
        }
    }

    pub fn msg(&self) -> (r: String)
        ensures
            r@ == self.text(),
    {
        match self {
            LedgerError::SourceAccountNotFound => "The origin account does not exist".to_string(),
            LedgerError::TargetAccountNotFound => "The to account does not exist".to_string(),
            LedgerError::InvalidAmount => "The amount is negative".to_string(),
            LedgerError::InsufficientFunds => "Insufficient funds".to_string(),
        }
    }
}

/// The annotation of a transfer, kept as the description of its record.
#[derive(Debug, Clone, PartialEq)]
pub enum Reason {
    /// The standard success message.
    Basic,
    /// A text given by the caller.
    Detailed(String),
}

impl Reason {
    /// The description that a record of a transfer with this reason carries.
    pub open spec fn message(&self) -> Seq<char> {
        match self {
            Reason::Basic => "Payment succeeded"@,
            Reason::Detailed(text) => text@,
        }
    }

    pub fn msg(&self) -> (r: String)
        ensures
            r@ == self.message(),
    {
        match self {
            Reason::Basic => "Payment succeeded".to_string(),
            Reason::Detailed(text) => text.clone(),
        }
    }
}

/// A request to the ledger.
pub enum Command {
    /// Move money: source name, target name, amount, reason.
    Money(String, String, i64, Reason),
    /// A request that changes nothing.
    KeyLog,
}

/// A named balance holder.
#[derive(Debug, Clone, PartialEq)]
pub struct Account {
    pub account: String,
    pub amount: i64,
}

impl Account {
    pub fn new(account: String, amount: i64) -> (r: Account)
        ensures
            r.account == account,
            r.amount == amount,
    {
        Account { account, amount }
    }

    /// Adds a non-negative amount to the balance.
    pub fn deposit(&mut self, amount: i64)
        requires
            amount >= 0,
            old(self).amount + amount <= i64::MAX,
        ensures
            final(self).amount == old(self).amount + amount,
            final(self).account == old(self).account,
    {
        self.amount = self.amount + amount;
    }

    /// Takes a non-negative amount from the balance, unless the balance is
    /// smaller than the amount; then nothing changes.
    pub fn withdraw(&mut self, amount: i64) -> (r: Result<(), LedgerError>)
        requires
            amount >= 0,
        ensures
            old(self).amount >= amount ==> r is Ok && final(self).amount == old(self).amount - amount,
            old(self).amount < amount ==> r == Err::<(), LedgerError>(LedgerError::InsufficientFunds)
                && final(self).amount == old(self).amount,
            final(self).account == old(self).account,
    {
        if self.amount < amount {
            return Err(LedgerError::InsufficientFunds);
        }
        self.amount = self.amount - amount;
        Ok(())
    }
}

/// One name and amount of a grouped record.
#[derive(Debug, Clone, PartialEq)]
pub struct TransactionList {
    pub account: String,
    pub amount: i64,
}

/// The record of one attempted transfer and its outcome.
#[derive(Debug, Clone, PartialEq)]
pub struct Transaction {
    /// The position of the record in the log.
    pub step: i64,
    /// The target account.
    pub account: Option<String>,
    /// Whether the transfer went through.
    pub status: bool,
    pub amount: Option<i64>,
    pub description: String,
    /// The source account.
    pub from_account: Option<String>,
    pub transactions: Option<Vec<TransactionList>>,
}

/// The text of an optional name.
pub open spec fn name_of(name: Option<String>) -> Option<Seq<char>> {
    match name {
        Some(s) => Some(s@),
        None => None,
    }
}

/// The record `t` describes a transfer of `amount` from `from` to `to`, made
/// at position `step`, with description `desc` and outcome `status`.
pub open spec fn describes(
    t: Transaction,
    step: i64,
    from: Seq<char>,
    to: Seq<char>,
    amount: i64,
    desc: Seq<char>,
    status: bool,
) -> bool {
    &&& t.step == step
    &&& name_of(t.from_account) == Some(from)
    &&& name_of(t.account) == Some(to)
    &&& t.amount == Some(amount)
    &&& t.description@ == desc
    &&& t.status == status
    &&& t.transactions is None
}

impl Transaction {
    /// A record of a transfer, marked as successful.
    pub fn new(step: i64, from: String, to: String, amount: i64, reason: Reason) -> (r: Transaction)
        ensures
            describes(r, step, from@, to@, amount, reason.message(), true),
    {
        Transaction {
            step,
            account: Some(to),
            status: true,
            amount: Some(amount),
            description: reason.msg(),
            from_account: Some(from),
            transactions: None,
        }
    }
}

/// How records may be grouped over time.
#[derive(Debug, PartialEq, Eq, Structural)]
pub enum Group {
    Monthly,
    Yearly,
    Daily,
    Ungrouped,
}

/// The outcome of a transfer of `amount` from `from` to `to` on balances `b`.
pub open spec fn transfer_outcome(
    b: Map<Seq<char>, i64>,
    from: Seq<char>,
    to: Seq<char>,
    amount: i64,
) -> Result<(), LedgerError> {
    if !b.contains_key(from) {
        Err(LedgerError::SourceAccountNotFound)
    } else if !b.contains_key(to) {
        Err(LedgerError::TargetAccountNotFound)
    } else if amount < 0 {
        Err(LedgerError::InvalidAmount)
    } else if b[from] < amount {
        Err(LedgerError::InsufficientFunds)
    } else {
        Ok(())
    }
}

/// The balances after `amount` has left `from` and then arrived at `to`.
pub open spec fn after_transfer(
    b: Map<Seq<char>, i64>,
    from: Seq<char>,
    to: Seq<char>,
    amount: i64,
) -> Map<Seq<char>, i64> {
    let taken = b.insert(from, (b[from] - amount) as i64);
    taken.insert(to, (taken[to] + amount) as i64)
}

/// A successful transfer would not push the target balance past `i64::MAX`.
pub open spec fn transfer_fits(
    b: Map<Seq<char>, i64>,
    from: Seq<char>,
    to: Seq<char>,
    amount: i64,
) -> bool {
    transfer_outcome(b, from, to, amount) is Ok && from != to ==> b[to] + amount <= i64::MAX
}

/// The balances after each account of `s` has been added in order, a later
/// account replacing an earlier one of the same name.
pub open spec fn with_accounts(b: Map<Seq<char>, i64>, s: Seq<Account>) -> Map<Seq<char>, i64>
    decreases s.len(),
{
    if s.len() == 0 {
        b
    } else {
        with_accounts(b, s.drop_last()).insert(s.last().account@, s.last().amount)
    }
}

/// The root structure: accounts by name and the log of transfer records.
pub struct Ledger {
    currency: String,
    accounts: AccountMap,
    transactions: Vec<Transaction>,
}

/// `after` is `before` after a transfer of `amount` from `from` to `to`, annotated
/// with `desc`, that returned `r`: the balances move only on success, and
/// exactly one record of the attempt is appended to the log.
pub open spec fn transfer_step(
    before: Ledger,
    after: Ledger,
    from: Seq<char>,
    to: Seq<char>,
    amount: i64,
    desc: Seq<char>,
    r: Result<(), LedgerError>,
) -> bool {
    &&& r == transfer_outcome(before.balances(), from, to, amount)
    &&& after.balances() == if r is Ok {
        after_transfer(before.balances(), from, to, amount)
    } else {
        before.balances()
    }
    &&& after.log() == before.log().push(after.log().last())
    &&& describes(after.log().last(), before.log().len() as i64, from, to, amount, desc, r is Ok)
    &&& after.spec_currency() == before.spec_currency()
    &&& after.wf()
}

impl Ledger {
    /// Balance by account name.
    pub closed spec fn balances(&self) -> Map<Seq<char>, i64> {
        balances_of(self.accounts)
    }

    /// The records, oldest first.
    pub closed spec fn log(&self) -> Seq<Transaction> {
        self.transactions@
    }

    pub closed spec fn spec_currency(&self) -> Seq<char> {
        self.currency@
    }

    /// The ledger holds finitely many accounts.
    pub open spec fn wf(&self) -> bool {
        self.balances().dom().finite()
    }

    pub fn new(currency: String) -> (r: Ledger)
        ensures
            r.wf(),
            r.balances().dom().is_empty(),
            r.log().len() == 0,
            r.spec_currency() == currency@,
    {
        Ledger { currency, accounts: AccountMap::new(), transactions: Vec::new() }
    }

    /// Adds the account, replacing any account of the same name.
    pub fn add_account(&mut self, account: Account)
        requires
            old(self).wf(),
        ensures
            final(self).wf(),
            final(self).balances() == old(self).balances().insert(account.account@, account.amount),
            final(self).log() == old(self).log(),
            final(self).spec_currency() == old(self).spec_currency(),
    {
        self.accounts.insert(account.account, account.amount);
    }

    /// Adds the accounts in order; of two with the same name the later wins.
    pub fn add_accounts(&mut self, accounts: Vec<Account>)
        requires
            old(self).wf(),
        ensures
            final(self).wf(),
            final(self).balances() == with_accounts(old(self).balances(), accounts@),
            final(self).log() == old(self).log(),
            final(self).spec_currency() == old(self).spec_currency(),
    {
        let ghost start = self.balances();
        let mut i: usize = 0;
        while i < accounts.len()
            invariant
                i <= accounts.len(),
                self.wf(),
                self.balances() == with_accounts(start, accounts@.take(i as int)),
                self.log() == old(self).log(),
                self.spec_currency() == old(self).spec_currency(),
            decreases accounts.len() - i,
        {
            let next = Account::new(accounts[i].account.clone(), accounts[i].amount);
            self.add_account(next);
            assert(accounts@.take(i + 1).drop_last() == accounts@.take(i as int));
            i = i + 1;
        }
        assert(accounts@.take(i as int) == accounts@);
    }

    /// Carries out a command; only a transfer changes the ledger.
    pub fn command(&mut self, command: Command) -> (r: Result<(), LedgerError>)
        requires
            old(self).wf(),
            command matches Command::Money(from, to, amount, _) ==> transfer_fits(
                old(self).balances(),
                from@,
                to@,
                amount,
            ),
        ensures
            match command {
                Command::Money(from, to, amount, reason) => transfer_step(
                    *old(self),
                    *final(self),
                    from@,
                    to@,
                    amount,
                    reason.message(),
                    r,
                ),
                Command::KeyLog => r is Ok && *final(self) == *old(self),
            },
    {
        match command {
            Command::Money(from, to, amount, reason) => self.transfer_money(&from, &to, amount, reason),
            Command::KeyLog => Ok(()),
        }
    }

    /// Moves `amount` from `from` to `to` and logs the attempt.
    ///
    /// The source must exist, then the target, the amount must not be
    /// negative and the source balance must cover it; the first that fails
    /// is the error. Either the whole amount moves and the new record says
    /// so, or no balance changes and the record says the transfer failed.
    pub fn transfer_money(&mut self, from: &str, to: &str, amount: i64, reason: Reason) -> (r: Result<(), LedgerError>)
        requires
            old(self).wf(),
            transfer_fits(old(self).balances(), from@, to@, amount),
        ensures
            transfer_step(*old(self), *final(self), from@, to@, amount, reason.message(), r),
            r is Ok ==> final(self).log().last().status,
            r is Ok && from@ != to@ ==> final(self).balances()[from@] == old(self).balances()[from@] - amount
                && final(self).balances()[to@] == old(self).balances()[to@] + amount,
            r is Err ==> !final(self).log().last().status && final(self).balances() == old(self).balances(),
    {
        let step = self.transactions.len() as i64;
        let mut transaction = Transaction::new(step, from.to_string(), to.to_string(), amount, reason);
        let source_balance = match self.accounts.get(from) {
            Some(balance) => balance,
            None => {
                transaction.status = false;
                self.transactions.push(transaction);
                return Err(LedgerError::SourceAccountNotFound);
            },
        };
        if self.accounts.get(to).is_none() {
            transaction.status = false;
            self.transactions.push(transaction);
            return Err(LedgerError::TargetAccountNotFound);
        }
        if amount < 0 {
            transaction.status = false;
            self.transactions.push(transaction);
            return Err(LedgerError::InvalidAmount);
        }
        let mut source = Account::new(from.to_string(), source_balance);
        if let Err(e) = source.withdraw(amount) {
            transaction.status = false;
            self.transactions.push(transaction);
            return Err(e);
        }
        self.accounts.insert(source.account, source.amount);
        if let Some(target_balance) = self.accounts.get(to) {
            let mut target = Account::new(to.to_string(), target_balance);
            target.deposit(amount);
            self.accounts.insert(target.account, target.amount);
        }
        transaction.status = true;
        self.transactions.push(transaction);
        Ok(())
    }

    /// The number of accounts.
    pub fn sizeof(&self) -> (r: usize)
        ensures
            r == self.balances().len(),
    {
        self.accounts.len()
    }
    /// The balance of the named account, if there is one.
    pub fn balance(&self, name: &str) -> (r: Option<i64>)
        ensures
            r == (if self.balances().contains_key(name@) {
                Some(self.balances()[name@])
            } else {
                None::<i64>
            }),
    {
        self.accounts.get(name)
    }

    /// The records, oldest first.
    pub fn transactions(&self) -> (r: &Vec<Transaction>)
        ensures
            r@ == self.log(),
    {
        &self.transactions
    }

    pub fn currency(&self) -> (r: &str)
        ensures
            r@ == self.spec_currency(),
    {
        self.currency.as_str()
    }
}

} // verus!
