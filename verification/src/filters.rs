//! Subscriber filters: which messages a subscriber wants.

use vstd::prelude::*;
use crate::address::{Address, lemma_address_equal_by_view};
use crate::address_set::AddressSet;
use crate::message::Message;
use crate::types::account::Account;

verus! {

/// A predicate on messages, attached to a subscriber.
#[derive(Debug, Clone, PartialEq, Eq)]
pub enum Filter {
    /// Selects account updates by owner or by address.
    Account(AccountFilter),
}

/// Selects account updates. An update passes if its owner matches `owner` or
/// its address is one of `accounts`; a field that is absent matches nothing.
/// The all-zero `owner` matches every owner.
#[derive(Debug, Clone, PartialEq, Eq)]
pub struct AccountFilter {
    pub owner: Option<Address>,
    pub accounts: Option<AddressSet>,
}

impl AccountFilter {
    /// Whether the owner rule is present and accepts `owner`.
    pub open spec fn owner_matches(self, owner: Address) -> bool {
        self.owner matches Some(wanted) && (wanted.is_wildcard() || wanted == owner)
    }

    /// Whether the address rule is present and lists `address`.
    pub open spec fn lists(self, address: Address) -> bool {
        self.accounts matches Some(set) && set@.contains(address)
    }

    /// Whether the update of `account` passes.
    pub open spec fn allows_account(self, account: Account) -> bool {
        self.owner_matches(account.owner) || self.lists(account.pubkey)
    }

    /// Whether `message` passes.
    pub open spec fn spec_allows(self, message: Message) -> bool {
        match message {
            Message::AccountMsg(account) => self.allows_account(account),
        }
    }

    /// Decides whether `message` passes this filter.
    pub fn allows(&self, message: &Message) -> (r: bool)
        ensures
            r == self.spec_allows(*message),
            r ==> *message is AccountMsg,
    {
        match message {
            Message::AccountMsg(account) => {
                if let Some(owner) = self.owner {
                    let wildcard = Address::wildcard();
                    proof {
                        lemma_address_equal_by_view(owner, wildcard);
                    }
                    if owner == wildcard || owner == account.owner {
                        return true;
                    }
                }
                if let Some(accounts) = &self.accounts {
                    return accounts.contains(&account.pubkey);
                }
                false
            },
        }
    }
}

impl Filter {
    /// Whether `message` passes.
    pub open spec fn spec_allows(self, message: Message) -> bool {
        match self {
            Filter::Account(account) => account.spec_allows(message),
        }
    }

    /// Decides whether `message` passes this filter.
    pub fn allows(&self, message: &Message) -> (r: bool)
        ensures
            r == self.spec_allows(*message),
            r ==> *message is AccountMsg,
    {
        match &self {
            Filter::Account(account) => account.allows(message),
        }
    }
}

/// A filter whose owner is the all-zero address passes every account update.
pub proof fn lemma_wildcard_owner_allows_all(filter: AccountFilter, account: Account)
    requires
        filter.owner matches Some(wanted) && wanted.is_wildcard(),
    ensures
        filter.spec_allows(Message::AccountMsg(account)),
{
}

/// A filter with an owner and no address list passes the updates of that
/// owner's accounts, and, unless the owner is the all-zero address, no others.
pub proof fn lemma_exact_owner_match(filter: AccountFilter, wanted: Address, account: Account)
    requires
        filter.owner == Some(wanted),
        filter.accounts is None,
    ensures
        account.owner == wanted ==> filter.spec_allows(Message::AccountMsg(account)),
        account.owner != wanted && !wanted.is_wildcard() ==> !filter.spec_allows(
            Message::AccountMsg(account),
        ),
{
}

/// A filter with an address list and no owner passes exactly the updates of
/// the listed accounts.
pub proof fn lemma_account_set_match(filter: AccountFilter, account: Account)
    requires
        filter.owner is None,
        filter.accounts is Some,
    ensures
        filter.spec_allows(Message::AccountMsg(account)) <==> filter.accounts->Some_0@.contains(
            account.pubkey,
        ),
{
}

/// With the one address `listed` in the list and no owner, an update passes
/// exactly when it is for `listed`.
pub proof fn lemma_single_account_match(filter: AccountFilter, listed: Address, account: Account)
    requires
        filter.owner is None,
        filter.accounts matches Some(set) && set@ == set![listed],
    ensures
        filter.spec_allows(Message::AccountMsg(account)) <==> account.pubkey == listed,
{
}

/// The two rules are alternatives: a listed account passes whatever the owner
/// rule says, and a matching owner passes whatever the list says.
pub proof fn lemma_rules_are_alternatives(filter: AccountFilter, account: Account)
    ensures
        filter.lists(account.pubkey) ==> filter.spec_allows(Message::AccountMsg(account)),
        filter.owner_matches(account.owner) ==> filter.spec_allows(Message::AccountMsg(account)),
        filter.spec_allows(Message::AccountMsg(account)) ==> filter.lists(account.pubkey)
            || filter.owner_matches(account.owner),
{
}

/// A filter with neither rule passes nothing.
pub proof fn lemma_empty_filter_rejects_all(filter: AccountFilter, message: Message)
    requires
        filter.owner is None,
        filter.accounts is None,
    ensures
        !filter.spec_allows(message),
{
}

/// Whatever a filter passes is an account update: a message of any other
/// kind is rejected.
pub proof fn lemma_only_account_updates_pass(filter: Filter, message: Message)
    requires
        filter.spec_allows(message),
    ensures
        message is AccountMsg,
{
}

} // verus!
