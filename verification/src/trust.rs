//! The roles that may push to the build host's registries: one role per
//! trusted account, named after the account's number.

use crate::text::{join, join_strings};
use vstd::prelude::*;
use vstd::string::*;

verus! {

/// The name of the role that account `account_no` pushes under.
pub open spec fn trust_role_arn(account_no: Seq<char>) -> Seq<char> {
    "arn:aws:iam::"@ + account_no + ":role/ContainerBuilderPushRole"@
}

/// The role names of a list of account numbers, one for each, in the same
/// order.
pub open spec fn trust_role_arns(account_numbers: Seq<Seq<char>>) -> Seq<Seq<char>> {
    account_numbers.map_values(|account_no: Seq<char>| trust_role_arn(account_no))
}

/// `numbers` with `account_no` at the end, unless it is among them already.
pub open spec fn with_account(numbers: Seq<Seq<char>>, account_no: Seq<char>) -> Seq<Seq<char>> {
    if numbers.contains(account_no) {
        numbers
    } else {
        numbers.push(account_no)
    }
}

/// The accounts to trust once `new_account` joins: the accounts of the
/// ledger, the new account and the base account, each of them once, the
/// ledger's first and in its order.
pub open spec fn trusted_numbers(
    ledger: Seq<Seq<char>>,
    new_account: Seq<char>,
    base_account: Seq<char>,
) -> Seq<Seq<char>> {
    with_account(with_account(ledger, new_account), base_account)
}

/// The value of the stack parameter that lists the trusted roles: the role
/// names with commas between them.
pub open spec fn account_roles(account_numbers: Seq<Seq<char>>) -> Seq<char> {
    join(trust_role_arns(account_numbers), ","@)
}

/// The name of the role that the account pushes under.
pub fn role_arn(account_no: &str) -> (arn: String)
    ensures
        arn@ == trust_role_arn(account_no@),
{
    String::from_str("arn:aws:iam::").concat(account_no).concat(":role/ContainerBuilderPushRole")
}

/// The role names of the accounts, one for each, in the same order.
pub fn derive_trust_arns(account_numbers: &Vec<String>) -> (arns: Vec<String>)
    ensures
        arns.deep_view() == trust_role_arns(account_numbers.deep_view()),
{
    let mut arns: Vec<String> = Vec::new();
    let mut i: usize = 0;
    while i < account_numbers.len()
        invariant
            0 <= i <= account_numbers@.len(),
            arns@.len() == i,
            forall|j: int| 0 <= j < i ==> arns@[j]@ == trust_role_arn(account_numbers@[j]@),
        decreases account_numbers@.len() - i,
    {
        arns.push(role_arn(account_numbers[i].as_str()));
        i = i + 1;
    }
    assert(arns.deep_view() == trust_role_arns(account_numbers.deep_view()));
    arns
}

fn holds_number(numbers: &Vec<String>, account_no: &String) -> (found: bool)
    ensures
        found == numbers.deep_view().contains(account_no@),
{
    let mut i: usize = 0;
    while i < numbers.len()
        invariant
            0 <= i <= numbers@.len(),
            forall|j: int| 0 <= j < i ==> numbers.deep_view()[j] != account_no@,
        decreases numbers@.len() - i,
    {
        if numbers[i] == *account_no {
            assert(numbers.deep_view()[i as int] == account_no@);
            return true;
        }
        i = i + 1;
    }
    false
}

fn add_number(numbers: &mut Vec<String>, account_no: String)
    ensures
        final(numbers).deep_view() == with_account(old(numbers).deep_view(), account_no@),
{
    let ghost before = numbers.deep_view();
    if !holds_number(numbers, &account_no) {
        numbers.push(account_no);
        assert(numbers.deep_view() == before.push(account_no@));
    }
}

/// The accounts to trust once `new_account` joins the ledger.
pub fn trusted_accounts(ledger: Vec<String>, new_account: String, base_account: String) -> (numbers:
    Vec<String>)
    ensures
        numbers.deep_view() == trusted_numbers(ledger.deep_view(), new_account@, base_account@),
{
    let mut numbers = ledger;
    add_number(&mut numbers, new_account);
    add_number(&mut numbers, base_account);
    numbers
}

/// The value of the stack parameter that lists the trusted roles.
pub fn account_roles_value(account_numbers: &Vec<String>) -> (value: String)
    ensures
        value@ == account_roles(account_numbers.deep_view()),
{
    let arns = derive_trust_arns(account_numbers);
    join_strings(&arns, ",")
}

/// The union holds every account of the ledger, the new account and the
/// base account, and nothing else; and where the ledger repeats no number,
/// neither does the union.
pub proof fn lemma_trusted_numbers(
    ledger: Seq<Seq<char>>,
    new_account: Seq<char>,
    base_account: Seq<char>,
)
    ensures
        trusted_numbers(ledger, new_account, base_account).to_set() == ledger.to_set().insert(
            new_account,
        ).insert(base_account),
        ledger.no_duplicates() ==> trusted_numbers(ledger, new_account, base_account).no_duplicates(),
{
    let first = with_account(ledger, new_account);
    lemma_with_account(ledger, new_account);
    lemma_with_account(first, base_account);
}

/// [`lemma_trusted_numbers`] for one account.
pub proof fn lemma_with_account(numbers: Seq<Seq<char>>, account_no: Seq<char>)
    ensures
        with_account(numbers, account_no).to_set() == numbers.to_set().insert(account_no),
        numbers.no_duplicates() ==> with_account(numbers, account_no).no_duplicates(),
{
    if numbers.contains(account_no) {
        assert(numbers.to_set().contains(account_no));
        assert(numbers.to_set().insert(account_no) =~= numbers.to_set());
    } else {
        numbers.lemma_push_to_set_commute(account_no);
        if numbers.no_duplicates() {
            let after = numbers.push(account_no);
            assert forall|i: int, j: int|
                0 <= i < after.len() && 0 <= j < after.len() && i != j implies after[i]
                != after[j] by {
                if i < numbers.len() && j < numbers.len() {
                } else if i < numbers.len() {
                    assert(numbers.contains(numbers[i]));
                } else {
                    assert(numbers.contains(numbers[j]));
                }
            }
        }
    }
}

} // verus!
