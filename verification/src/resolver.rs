//! The address resolver: the account list against which the instructions of
//! a transaction are read.
//!
//! The list is the static accounts of the message, then the writable
//! addresses that its table lookups select, then the read-only ones, each in
//! the order of the lookups and of their indexes.

use crate::base58::{base58_text, encode};
use crate::block::{Message, MessageAddressTableLookupView, MessageView};
use crate::error::Error;
use crate::repository::LookupRepository;
use crate::roles::{account_args, prepare_account_args};
use crate::views::{lemma_deep_view_add, lemma_deep_view_empty, lemma_deep_view_push};
use vstd::prelude::*;
use vstd::string::*;

verus! {

/// The key under which the repository holds the table at `address`.
pub open spec fn table_key_text(address: Seq<u8>) -> Seq<char> {
    "table:"@ + base58_text(address)
}

/// The static accounts of a message, in display form.
pub open spec fn static_accounts(keys: Seq<Seq<u8>>) -> Seq<Seq<char>> {
    Seq::new(keys.len(), |i: int| base58_text(keys[i]))
}

/// A lookup is in range when the repository does not know its table, or
/// every index of the lookup is inside the table's content.
pub open spec fn lookup_in_range(
    lookup: MessageAddressTableLookupView,
    repository: Map<Seq<char>, Seq<Seq<char>>>,
) -> bool {
    let key = table_key_text(lookup.account_key);
    repository.contains_key(key) ==> account_args(lookup.writable_indexes, repository[key]) is Some
        && account_args(lookup.readonly_indexes, repository[key]) is Some
}

/// Whether every lookup is in range.
pub open spec fn lookups_in_range(
    lookups: Seq<MessageAddressTableLookupView>,
    repository: Map<Seq<char>, Seq<Seq<char>>>,
) -> bool {
    forall|k: int| 0 <= k < lookups.len() ==> lookup_in_range(#[trigger] lookups[k], repository)
}

/// The addresses that `indexes` select from the table of a lookup: none
/// where the repository does not know the table.
pub open spec fn lookup_selection(
    account_key: Seq<u8>,
    indexes: Seq<u8>,
    repository: Map<Seq<char>, Seq<Seq<char>>>,
) -> Seq<Seq<char>> {
    let key = table_key_text(account_key);
    if repository.contains_key(key) {
        match account_args(indexes, repository[key]) {
            Some(names) => names,
            None => Seq::empty(),
        }
    } else {
        Seq::empty()
    }
}

/// The writable addresses that the lookups select, lookup after lookup.
pub open spec fn resolved_writable(
    lookups: Seq<MessageAddressTableLookupView>,
    repository: Map<Seq<char>, Seq<Seq<char>>>,
) -> Seq<Seq<char>>
    decreases lookups.len(),
{
    if lookups.len() == 0 {
        Seq::empty()
    } else {
        resolved_writable(lookups.drop_last(), repository) + lookup_selection(
            lookups.last().account_key,
            lookups.last().writable_indexes,
            repository,
        )
    }
}

/// The read-only addresses that the lookups select, lookup after lookup.
pub open spec fn resolved_readonly(
    lookups: Seq<MessageAddressTableLookupView>,
    repository: Map<Seq<char>, Seq<Seq<char>>>,
) -> Seq<Seq<char>>
    decreases lookups.len(),
{
    if lookups.len() == 0 {
        Seq::empty()
    } else {
        resolved_readonly(lookups.drop_last(), repository) + lookup_selection(
            lookups.last().account_key,
            lookups.last().readonly_indexes,
            repository,
        )
    }
}

/// The resolved account list of a message, or the failure of its resolution:
/// `LookupIndexOutOfRange` where a lookup is not in range.
pub open spec fn resolve_spec(
    message: MessageView,
    repository: Map<Seq<char>, Seq<Seq<char>>>,
) -> Result<Seq<Seq<char>>, Error> {
    if lookups_in_range(message.address_table_lookups, repository) {
        Ok(
            static_accounts(message.account_keys) + resolved_writable(
                message.address_table_lookups,
                repository,
            ) + resolved_readonly(message.address_table_lookups, repository),
        )
    } else {
        Err(Error::LookupIndexOutOfRange)
    }
}

/// The resolved account list is as long as its three parts together.
pub proof fn lemma_resolved_len(message: MessageView, repository: Map<Seq<char>, Seq<Seq<char>>>)
    requires
        resolve_spec(message, repository) is Ok,
    ensures
        resolve_spec(message, repository)->Ok_0.len() == message.account_keys.len()
            + resolved_writable(message.address_table_lookups, repository).len()
            + resolved_readonly(message.address_table_lookups, repository).len(),
{
}

/// A table that the repository does not know adds no address.
pub proof fn lemma_unknown_table_adds_nothing(
    lookups: Seq<MessageAddressTableLookupView>,
    repository: Map<Seq<char>, Seq<Seq<char>>>,
)
    requires
        lookups.len() > 0,
        !repository.contains_key(table_key_text(lookups.last().account_key)),
    ensures
        lookup_in_range(lookups.last(), repository),
        resolved_writable(lookups, repository) == resolved_writable(
            lookups.drop_last(),
            repository,
        ),
        resolved_readonly(lookups, repository) == resolved_readonly(
            lookups.drop_last(),
            repository,
        ),
{
}

/// The key under which the repository holds the table at `address`.
pub fn table_key(address: &Vec<u8>) -> (key: String)
    ensures
        key@ == table_key_text(address@),
{
    let acc = encode(address.as_slice());
    String::from_str("table:").concat(acc.as_str())
}

/// Builds the account list against which the instructions of `message` are
/// read.
///
/// A lookup whose table the repository does not know adds nothing. The
/// resolution fails, with `LookupIndexOutOfRange`, exactly when a lookup
/// selects a position past the end of a table that the repository knows.
pub fn resolve(message: &Message, repository: &LookupRepository) -> (result: Result<
    Vec<String>,
    Error,
>)
    ensures
        match resolve_spec(message@, repository@) {
            Ok(accounts) => result matches Ok(found) && found.deep_view() == accounts,
            Err(e) => result == Err::<Vec<String>, Error>(e),
        },
        result matches Ok(found) ==> found.len() == message@.account_keys.len() + resolved_writable(
            message@.address_table_lookups,
            repository@,
        ).len() + resolved_readonly(message@.address_table_lookups, repository@).len(),
{
    let mut accounts: Vec<String> = Vec::new();
    let mut writable_accounts: Vec<String> = Vec::new();
    let mut readable_accounts: Vec<String> = Vec::new();
    let ghost lookups = message@.address_table_lookups;
    proof {
        lemma_deep_view_empty(accounts);
        lemma_deep_view_empty(writable_accounts);
        lemma_deep_view_empty(readable_accounts);
    }

    let mut i: usize = 0;
    while i < message.account_keys.len()
        invariant
            i <= message.account_keys.len(),
            accounts.deep_view() == static_accounts(message@.account_keys).take(i as int),
        decreases message.account_keys.len() - i,
    {
        let ghost before = accounts;
        let text = encode(message.account_keys[i].as_slice());
        accounts.push(text);
        proof {
            lemma_deep_view_push(before, accounts, text);
        }
        i += 1;
    }

    let mut k: usize = 0;
    while k < message.address_table_lookups.len()
        invariant
            k <= message.address_table_lookups.len(),
            lookups == message@.address_table_lookups,
            forall|j: int| 0 <= j < k ==> lookup_in_range(#[trigger] lookups[j], repository@),
            writable_accounts.deep_view() == resolved_writable(lookups.take(k as int), repository@),
            readable_accounts.deep_view() == resolved_readonly(lookups.take(k as int), repository@),
        decreases message.address_table_lookups.len() - k,
    {
        let lookup = &message.address_table_lookups[k];
        assert(lookups.take(k + 1).drop_last() =~= lookups.take(k as int));
        assert(lookups.take(k + 1).last() == lookups[k as int]);
        let key = table_key(&lookup.account_key);
        match repository.get_resolved(&key) {
            None => {
                proof {
                    lemma_unknown_table_adds_nothing(lookups.take(k + 1), repository@);
                }
            },
            Some(accs) => {
                let mut writable = match prepare_account_args(&lookup.writable_indexes, accs) {
                    Ok(names) => names,
                    Err(_) => {
                        return Err(Error::LookupIndexOutOfRange);
                    },
                };
                let mut readable = match prepare_account_args(&lookup.readonly_indexes, accs) {
                    Ok(names) => names,
                    Err(_) => {
                        return Err(Error::LookupIndexOutOfRange);
                    },
                };
                let ghost writable_before = writable_accounts;
                let ghost readable_before = readable_accounts;
                let ghost writable_added = writable;
                let ghost readable_added = readable;
                writable_accounts.append(&mut writable);
                readable_accounts.append(&mut readable);
                proof {
                    lemma_deep_view_add(writable_before, writable_added, writable_accounts);
                    lemma_deep_view_add(readable_before, readable_added, readable_accounts);
                }
            },
        }
        k += 1;
    }
    assert(lookups.take(k as int) =~= lookups);

    let ghost static_part = accounts;
    let ghost writable_part = writable_accounts;
    let ghost readable_part = readable_accounts;
    accounts.append(&mut writable_accounts);
    let ghost middle = accounts;
    accounts.append(&mut readable_accounts);
    proof {
        lemma_deep_view_add(static_part, writable_part, middle);
        lemma_deep_view_add(middle, readable_part, accounts);
    }
    Ok(accounts)
}

} // verus!
