//! The currencies the backfill converts to: the app's base currency and each
//! account's currency, with their defaults, and a per-run memo of account
//! currencies.
use vstd::prelude::*;

verus! {

/// The base currency read from `app_settings`: the first row's value, or
/// `USD` when the setting is absent.
pub fn base_currency_or_default(first_row: Option<String>) -> (r: String)
    ensures
        first_row matches Some(v) ==> r == v,
        first_row is None ==> r@ == "USD"@,
{
    match first_row {
        Some(v) => v,
        None => "USD".to_owned(),
    }
}

/// An account's currency read from `accounts`: the first row's value, or the
/// empty string when the account is unknown.
pub fn account_currency_or_default(first_row: Option<String>) -> (r: String)
    ensures
        first_row matches Some(v) ==> r == v,
        first_row is None ==> r@ == Seq::<char>::empty(),
{
    match first_row {
        Some(v) => v,
        None => String::new(),
    }
}

/// Account currencies already read during one migration run, so that each
/// account's currency is read once.
pub struct AccountCurrencyCache {
    entries: Vec<(String, String)>,
}

impl AccountCurrencyCache {
    #[verifier::type_invariant]
    spec fn distinct_keys(self) -> bool {
        forall|i: int, j: int|
            0 <= i < self.entries@.len() && 0 <= j < self.entries@.len() && i != j
                ==> self.entries@[i].0@ != self.entries@[j].0@
    }

    spec fn has_key(self, k: Seq<char>) -> bool {
        exists|j: int| 0 <= j < self.entries@.len() && #[trigger] self.entries@[j].0@ == k
    }

    spec fn key_index(self, k: Seq<char>) -> int {
        choose|j: int| 0 <= j < self.entries@.len() && #[trigger] self.entries@[j].0@ == k
    }

    /// The memo as a map from account id to currency.
    pub closed spec fn view(self) -> Map<Seq<char>, Seq<char>> {
        Map::new(|k: Seq<char>| self.has_key(k), |k: Seq<char>| self.entries@[self.key_index(k)].1@)
    }

    pub fn new() -> (r: AccountCurrencyCache)
        ensures
            r.view() == Map::<Seq<char>, Seq<char>>::empty(),
    {
        let r = AccountCurrencyCache { entries: Vec::new() };
        assert(r.view() =~= Map::<Seq<char>, Seq<char>>::empty());
        r
    }

    /// The memoised currency of `account_id`, if it was read before.
    pub fn get(&self, account_id: &String) -> (r: Option<String>)
        ensures
            r is Some <==> self.view().contains_key(account_id@),
            r matches Some(v) ==> v@ == self.view()[account_id@],
    {
        proof {
            use_type_invariant(self);
        }
        let n = self.entries.len();
        let mut i: usize = 0;
        while i < n
            invariant
                n == self.entries@.len(),
                0 <= i <= n,
                forall|j: int| 0 <= j < i ==> self.entries@[j].0@ != account_id@,
            decreases n - i,
        {
            if self.entries[i].0 == *account_id {
                proof {
                    use_type_invariant(self);
                }
                let ghost k = self.key_index(account_id@);
                assert(self.entries@[i as int].0@ == account_id@);
                assert(self.has_key(account_id@));
                assert(self.entries@[k].0@ == account_id@);
                assert(k == i as int);
                return Some(self.entries[i].1.clone());
            }
            i = i + 1;
        }
        None
    }

    /// Memoises `currency` as the currency of `account_id`, which was not
    /// memoised yet.
    pub fn insert(&mut self, account_id: String, currency: String)
        requires
            !old(self).view().contains_key(account_id@),
        ensures
            final(self).view() == old(self).view().insert(account_id@, currency@),
    {
        proof {
            use_type_invariant(&*self);
        }
        let ghost before = *self;
        let ghost key = account_id@;
        let ghost value = currency@;
        let mut entries: Vec<(String, String)> = Vec::new();
        std::mem::swap(&mut entries, &mut self.entries);
        entries.push((account_id, currency));
        self.entries = entries;
        let ghost after = *self;
        assert forall|k: Seq<char>| #![auto]
            after.has_key(k) implies after.entries@[after.key_index(k)].1@ == (if k == key { value } else { before.view()[k] }) by {
            let j = after.key_index(k);
            if k == key {
                assert(after.entries@[after.entries@.len() - 1].0@ == key);
            } else {
                assert(before.has_key(k));
                let jb = before.key_index(k);
                assert(after.entries@[jb].0@ == k);
            }
        }
        assert forall|k: Seq<char>| after.has_key(k) <==> (before.has_key(k) || k == key) by {
            if before.has_key(k) {
                let jb = before.key_index(k);
                assert(after.entries@[jb].0@ == k);
            }
            if k == key {
                assert(after.entries@[after.entries@.len() - 1].0@ == key);
            }
        }
        assert(after.view() =~= before.view().insert(key, value));
    }
}

} // verus!
