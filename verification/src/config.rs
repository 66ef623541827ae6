//! The persisted settings of one installation and its ledger of linked
//! accounts.

use crate::text::{first_index, lemma_first_index, lemma_first_index_is};
use vstd::prelude::*;
use vstd::string::*;

verus! {

/// A linked account: the credential profile that reaches it and its number.
#[derive(Debug, PartialEq)]
pub struct Account {
    profile: String,
    account_no: String,
}

/// What an [`Account`] holds.
pub struct AccountModel {
    pub profile: Seq<char>,
    pub account_no: Seq<char>,
}

impl View for Account {
    type V = AccountModel;

    closed spec fn view(&self) -> AccountModel {
        AccountModel { profile: self.profile@, account_no: self.account_no@ }
    }
}

impl DeepView for Account {
    type V = AccountModel;

    open spec fn deep_view(&self) -> AccountModel {
        self@
    }
}

/// The address of the build host, the profile it was provisioned with, and
/// the linked accounts in the order in which they were last added.
#[derive(Debug, PartialEq)]
pub struct Config {
    instance_ip: String,
    base_profile: String,
    sub_accounts: Vec<Account>,
}

/// What a [`Config`] holds.
pub struct ConfigModel {
    pub instance_ip: Seq<char>,
    pub base_profile: Seq<char>,
    pub sub_accounts: Seq<AccountModel>,
}

/// The account numbers of a ledger, in ledger order.
pub open spec fn numbers(accounts: Seq<AccountModel>) -> Seq<Seq<char>> {
    accounts.map_values(|account: AccountModel| account.account_no)
}

/// The ledger after `account_no` has been added under `profile`: an entry
/// with that number leaves first, then the new entry goes to the end.
pub open spec fn register(
    accounts: Seq<AccountModel>,
    profile: Seq<char>,
    account_no: Seq<char>,
) -> Seq<AccountModel> {
    let entry = AccountModel { profile, account_no };
    let at = first_index(numbers(accounts), account_no);
    if 0 <= at < accounts.len() {
        accounts.remove(at).push(entry)
    } else {
        accounts.push(entry)
    }
}

/// The profile under which `account_no` stands in the ledger, if it does.
pub open spec fn profile_of(accounts: Seq<AccountModel>, account_no: Seq<char>) -> Option<
    Seq<char>,
> {
    let at = first_index(numbers(accounts), account_no);
    if 0 <= at < accounts.len() {
        Some(accounts[at].profile)
    } else {
        None
    }
}

/// The profiles of a ledger, in ledger order.
pub open spec fn profiles(accounts: Seq<AccountModel>) -> Seq<Seq<char>> {
    accounts.map_values(|account: AccountModel| account.profile)
}

/// The ledger that results from adding `(profile, account_no)` pairs in turn,
/// starting from an empty one.
pub open spec fn registered(added: Seq<(Seq<char>, Seq<char>)>) -> Seq<AccountModel>
    decreases added.len(),
{
    if added.len() == 0 {
        Seq::empty()
    } else {
        register(registered(added.drop_last()), added.last().0, added.last().1)
    }
}

/// The account numbers of a list of additions.
pub open spec fn added_numbers(added: Seq<(Seq<char>, Seq<char>)>) -> Seq<Seq<char>> {
    added.map_values(|pair: (Seq<char>, Seq<char>)| pair.1)
}

impl View for Config {
    type V = ConfigModel;

    closed spec fn view(&self) -> ConfigModel {
        ConfigModel {
            instance_ip: self.instance_ip@,
            base_profile: self.base_profile@,
            sub_accounts: self.sub_accounts.deep_view(),
        }
    }
}

impl Config {
    /// No account number stands twice in the ledger.
    #[verifier::type_invariant]
    spec fn distinct(self) -> bool {
        numbers(self.sub_accounts.deep_view()).no_duplicates()
    }

    /// Settings with an empty ledger.
    pub fn new(instance_ip: String, base_profile: String) -> (config: Config)
        ensures
            config@ == (ConfigModel {
                instance_ip: instance_ip@,
                base_profile: base_profile@,
                sub_accounts: Seq::empty(),
            }),
    {
        let sub_accounts: Vec<Account> = Vec::new();
        assert(sub_accounts.deep_view() == Seq::<AccountModel>::empty());
        Config { instance_ip, base_profile, sub_accounts }
    }

    pub fn get_instance_ip(&self) -> (ip: String)
        ensures
            ip@ == self@.instance_ip,
    {
        self.instance_ip.clone()
    }

    pub fn get_base_profile(&self) -> (profile: String)
        ensures
            profile@ == self@.base_profile,
    {
        self.base_profile.clone()
    }

    /// The account numbers of the ledger, in ledger order; none occurs twice.
    pub fn get_account_numbers(&self) -> (found: Vec<String>)
        ensures
            found.deep_view() == numbers(self@.sub_accounts),
            found.deep_view().no_duplicates(),
    {
        proof {
            use_type_invariant(self);
        }
        let mut found: Vec<String> = Vec::new();
        let mut i: usize = 0;
        while i < self.sub_accounts.len()
            invariant
                0 <= i <= self.sub_accounts@.len(),
                found@.len() == i,
                forall|j: int| 0 <= j < i ==> found@[j]@ == self.sub_accounts@[j].account_no@,
            decreases self.sub_accounts@.len() - i,
        {
            found.push(self.sub_accounts[i].account_no.clone());
            i = i + 1;
        }
        assert(found.deep_view() == numbers(self@.sub_accounts));
        found
    }

    /// Where `account_no` stands in the ledger, or the ledger's length.
    fn position(&self, account_no: &String) -> (at: usize)
        ensures
            at == first_index(numbers(self@.sub_accounts), account_no@),
            at <= self.sub_accounts@.len(),
    {
        let ghost all = numbers(self@.sub_accounts);
        let mut i: usize = 0;
        while i < self.sub_accounts.len()
            invariant
                0 <= i <= self.sub_accounts@.len(),
                all == numbers(self@.sub_accounts),
                forall|j: int| 0 <= j < i ==> all[j] != account_no@,
            decreases self.sub_accounts@.len() - i,
        {
            assert(all[i as int] == self.sub_accounts@[i as int].account_no@);
            if self.sub_accounts[i].account_no == *account_no {
                proof {
                    lemma_first_index_is(all, account_no@, i as int);
                }
                return i;
            }
            i = i + 1;
        }
        proof {
            lemma_first_index_is(all, account_no@, i as int);
        }
        i
    }

    /// Adds an account. One already in the ledger under that number gives
    /// way: the new entry takes its place at the end.
    pub fn add_account(&mut self, profile: String, account_no: String)
        ensures
            final(self)@ == (ConfigModel {
                sub_accounts: register(old(self)@.sub_accounts, profile@, account_no@),
                ..old(self)@
            }),
    {
        proof {
            use_type_invariant(&*self);
        }
        let at = self.position(&account_no);
        let ghost before = self.sub_accounts.deep_view();
        proof {
            lemma_register_distinct(before, profile@, account_no@);
        }
        let mut accounts: Vec<Account> = Vec::new();
        assert(accounts.deep_view() == Seq::<AccountModel>::empty());
        core::mem::swap(&mut self.sub_accounts, &mut accounts);
        if at < accounts.len() {
            accounts.remove(at);
            assert(accounts.deep_view() == before.remove(at as int));
        }
        let ghost middle = accounts.deep_view();
        let entry = Account { profile, account_no };
        accounts.push(entry);
        assert(accounts.deep_view() == middle.push(entry@));
        core::mem::swap(&mut self.sub_accounts, &mut accounts);
    }

    /// The profile under which `account_no` was last added, if it was.
    pub fn get_account_profile(&self, account_no: String) -> (profile: Option<String>)
        ensures
            profile.deep_view() == profile_of(self@.sub_accounts, account_no@),
    {
        let at = self.position(&account_no);
        if at < self.sub_accounts.len() {
            Some(self.sub_accounts[at].profile.clone())
        } else {
            None
        }
    }

    /// A copy with the same address, profile and ledger.
    pub fn duplicate(&self) -> (copy: Config)
        ensures
            copy@ == self@,
    {
        proof {
            use_type_invariant(self);
        }
        let mut accounts: Vec<Account> = Vec::new();
        let mut i: usize = 0;
        while i < self.sub_accounts.len()
            invariant
                0 <= i <= self.sub_accounts@.len(),
                accounts@.len() == i,
                forall|j: int| 0 <= j < i ==> accounts@[j]@ == self.sub_accounts@[j]@,
            decreases self.sub_accounts@.len() - i,
        {
            let account = &self.sub_accounts[i];
            accounts.push(
                Account { profile: account.profile.clone(), account_no: account.account_no.clone() },
            );
            i = i + 1;
        }
        assert(accounts.deep_view() == self.sub_accounts.deep_view());
        Config {
            instance_ip: self.instance_ip.clone(),
            base_profile: self.base_profile.clone(),
            sub_accounts: accounts,
        }
    }

    pub fn set_instance_ip(&mut self, instance_ip: String)
        ensures
            final(self)@ == (ConfigModel { instance_ip: instance_ip@, ..old(self)@ }),
    {
        proof {
            use_type_invariant(&*self);
        }
        self.instance_ip = instance_ip;
    }
}

/// Adding an account to a ledger without repeated numbers leaves it without
/// repeated numbers.
pub proof fn lemma_register_distinct(
    accounts: Seq<AccountModel>,
    profile: Seq<char>,
    account_no: Seq<char>,
)
    requires
        numbers(accounts).no_duplicates(),
    ensures
        numbers(register(accounts, profile, account_no)).no_duplicates(),
        numbers(register(accounts, profile, account_no)).to_set() == numbers(accounts).to_set().insert(
            account_no,
        ),
{
    let all = numbers(accounts);
    let at = first_index(all, account_no);
    lemma_first_index(all, account_no);
    let after = register(accounts, profile, account_no);
    let kept = if at < accounts.len() {
        accounts.remove(at)
    } else {
        accounts
    };
    assert(after == kept.push(AccountModel { profile, account_no }));
    assert forall|j: int| 0 <= j < kept.len() implies numbers(kept)[j] != account_no && all.contains(
        numbers(kept)[j],
    ) by {
        if at < accounts.len() && j >= at {
            assert(kept[j] == accounts[j + 1]);
            assert(all[j + 1] == numbers(kept)[j]);
            assert(all[at] == account_no);
        } else {
            assert(kept[j] == accounts[j]);
            assert(all[j] == numbers(kept)[j]);
        }
    }
    assert forall|i: int, j: int| 0 <= i < kept.len() && 0 <= j < kept.len() && i != j implies numbers(
        kept,
    )[i] != numbers(kept)[j] by {
        let ii = if at < accounts.len() && i >= at { i + 1 } else { i };
        let jj = if at < accounts.len() && j >= at { j + 1 } else { j };
        assert(numbers(kept)[i] == all[ii]);
        assert(numbers(kept)[j] == all[jj]);
    }
    assert(numbers(after) == numbers(kept).push(account_no));
    assert(numbers(after).no_duplicates());
    assert forall|n: Seq<char>| numbers(after).to_set().contains(n) <==> all.to_set().insert(
        account_no,
    ).contains(n) by {
        if numbers(after).to_set().contains(n) {
            let k = choose|k: int| 0 <= k < numbers(after).len() && numbers(after)[k] == n;
            if k < kept.len() {
                assert(numbers(kept)[k] == n);
            }
        }
        if all.to_set().contains(n) && n != account_no {
            let k = choose|k: int| 0 <= k < all.len() && all[k] == n;
            let kk = if at < accounts.len() && k > at { k - 1 } else { k };
            assert(numbers(kept)[kk] == n);
            assert(numbers(after)[kk] == n);
        }
        if n == account_no {
            assert(numbers(after)[kept.len() as int] == n);
        }
    }
    assert(numbers(after).to_set() =~= all.to_set().insert(account_no));
}

/// Adding an account number that the ledger already holds replaces its
/// profile and moves it to the end: the ledger keeps its length, the other
/// entries keep their order, the new entry is last, and a lookup of the
/// number gives the new profile.
pub proof fn lemma_add_present_moves_to_end(
    accounts: Seq<AccountModel>,
    profile: Seq<char>,
    account_no: Seq<char>,
)
    requires
        numbers(accounts).no_duplicates(),
        numbers(accounts).contains(account_no),
    ensures
        register(accounts, profile, account_no).len() == accounts.len(),
        register(accounts, profile, account_no).last() == (AccountModel { profile, account_no }),
        register(accounts, profile, account_no).drop_last() == accounts.remove(
            first_index(numbers(accounts), account_no),
        ),
        profile_of(register(accounts, profile, account_no), account_no) == Some(profile),
        numbers(register(accounts, profile, account_no)).to_set() == numbers(accounts).to_set(),
{
    let all = numbers(accounts);
    let at = first_index(all, account_no);
    lemma_first_index(all, account_no);
    let k = choose|k: int| 0 <= k < all.len() && all[k] == account_no;
    assert(at < all.len()) by {
        if at >= all.len() {
            assert(all[k] != account_no);
        }
    }
    let after = register(accounts, profile, account_no);
    assert(after.drop_last() == accounts.remove(at));
    lemma_register_distinct(accounts, profile, account_no);
    lemma_last_write_wins(accounts, profile, account_no);
    assert(all.to_set().contains(account_no));
    assert(all.to_set().insert(account_no) =~= all.to_set());
}

/// After an account has been added, a lookup of its number gives the profile
/// it was added under.
pub proof fn lemma_last_write_wins(
    accounts: Seq<AccountModel>,
    profile: Seq<char>,
    account_no: Seq<char>,
)
    requires
        numbers(accounts).no_duplicates(),
    ensures
        profile_of(register(accounts, profile, account_no), account_no) == Some(profile),
{
    let after = register(accounts, profile, account_no);
    lemma_register_distinct(accounts, profile, account_no);
    let last = after.len() - 1;
    assert(numbers(after)[last] == account_no);
    assert forall|j: int| 0 <= j < last implies numbers(after)[j] != account_no by {}
    lemma_first_index_is(numbers(after), account_no, last);
}

/// A ledger built by additions alone never repeats a number, and holds
/// exactly the numbers that were added.
pub proof fn lemma_registered_distinct(added: Seq<(Seq<char>, Seq<char>)>)
    ensures
        numbers(registered(added)).no_duplicates(),
        numbers(registered(added)).to_set() == added_numbers(added).to_set(),
    decreases added.len(),
{
    if added.len() == 0 {
        assert(numbers(registered(added)).to_set() =~= added_numbers(added).to_set());
    } else {
        let earlier = added.drop_last();
        lemma_registered_distinct(earlier);
        lemma_register_distinct(registered(earlier), added.last().0, added.last().1);
        assert(added_numbers(added) == added_numbers(earlier).push(added.last().1));
        added_numbers(earlier).lemma_push_to_set_commute(added.last().1);
    }
}

/// The ledger is never longer than the number of distinct account numbers
/// that were ever added: it has exactly that length.
pub proof fn lemma_ledger_length(added: Seq<(Seq<char>, Seq<char>)>)
    ensures
        registered(added).len() == added_numbers(added).to_set().len(),
        registered(added).len() <= added.len(),
{
    lemma_registered_distinct(added);
    numbers(registered(added)).unique_seq_to_set();
    added_numbers(added).lemma_cardinality_of_set();
}

/// The additions that rebuild a ledger: each entry's profile and number.
pub open spec fn additions(accounts: Seq<AccountModel>) -> Seq<(Seq<char>, Seq<char>)> {
    accounts.map_values(|account: AccountModel| (account.profile, account.account_no))
}

/// A ledger without repeated numbers is rebuilt, entry for entry and in the
/// same order, by adding its entries in turn to an empty one.
pub proof fn lemma_rebuild(accounts: Seq<AccountModel>)
    requires
        numbers(accounts).no_duplicates(),
    ensures
        registered(additions(accounts)) == accounts,
    decreases accounts.len(),
{
    if accounts.len() == 0 {
        assert(registered(additions(accounts)) =~= accounts);
    } else {
        let earlier = accounts.drop_last();
        let entry = accounts.last();
        assert(numbers(earlier) == numbers(accounts).drop_last());
        lemma_rebuild(earlier);
        assert(additions(accounts).drop_last() == additions(earlier));
        assert(additions(accounts).last() == (entry.profile, entry.account_no));
        assert forall|j: int| 0 <= j < earlier.len() implies numbers(earlier)[j]
            != entry.account_no by {
            assert(numbers(accounts)[j] == numbers(earlier)[j]);
            assert(numbers(accounts)[accounts.len() - 1] == entry.account_no);
        }
        lemma_first_index_is(numbers(earlier), entry.account_no, earlier.len() as int);
        assert(earlier.push(entry) == accounts);
    }
}

/// In a ledger without repeated numbers, a lookup of the number of an entry
/// gives the profile of that entry.
pub proof fn lemma_profile_of_entry(accounts: Seq<AccountModel>, at: int)
    requires
        numbers(accounts).no_duplicates(),
        0 <= at < accounts.len(),
    ensures
        profile_of(accounts, accounts[at].account_no) == Some(accounts[at].profile),
{
    let all = numbers(accounts);
    assert(all[at] == accounts[at].account_no);
    assert forall|j: int| 0 <= j < at implies all[j] != accounts[at].account_no by {}
    lemma_first_index_is(all, accounts[at].account_no, at);
}

} // verus!
