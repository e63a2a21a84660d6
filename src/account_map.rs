//! The name-to-balance table of a ledger, kept in a `hashbrown` hash map.
use vstd::prelude::*;

verus! {

/// A table from account name to balance.
///
/// What the table holds is seen only through `balances_of`; each operation
/// below states its effect on that map.
#[verifier::external_body]
pub struct AccountMap {
    table: hashbrown::HashMap<String, i64>,
}

/// The name-to-balance entries that a table holds.
pub uninterp spec fn balances_of(m: AccountMap) -> Map<Seq<char>, i64>;

impl AccountMap {
    /// Relies on `hashbrown::HashMap::new`: the map starts with no entries.
    #[verifier::external_body]
    pub(crate) fn new() -> (r: AccountMap)
        ensures
            balances_of(r).dom() == Set::<Seq<char>>::empty(),
    {
        AccountMap { table: hashbrown::HashMap::new() }
    }

    /// Relies on `hashbrown::HashMap::insert`: the key now maps to the value,
    /// whether or not it was present; every other entry stays.
    #[verifier::external_body]
    pub(crate) fn insert(&mut self, name: String, balance: i64)
        ensures
            balances_of(*final(self)) == balances_of(*old(self)).insert(name@, balance),
    {
        self.table.insert(name, balance);
    }

    /// Relies on `hashbrown::HashMap::get`: the value under the key, if any.
    #[verifier::external_body]
    pub(crate) fn get(&self, name: &str) -> (r: Option<i64>)
        ensures
            r == (if balances_of(*self).contains_key(name@) {
                Some(balances_of(*self)[name@])
            } else {
                None::<i64>
            }),
    {
        self.table.get(name).copied()
    }

    /// Relies on `hashbrown::HashMap::len`: the number of entries.
    #[verifier::external_body]
    pub(crate) fn len(&self) -> (r: usize)
        ensures
            r == balances_of(*self).len(),
    {
        self.table.len()
    }
}

} // verus!
