//! The envelope around the events that are streamed.

use vstd::prelude::*;
use crate::types::account::Account;

verus! {

/// One streamed event.
#[derive(Debug, PartialEq, Eq)]
pub enum Message {
    /// An account changed; the record holds its new state.
    AccountMsg(Account),
}

impl Clone for Message {
    fn clone(&self) -> (r: Self)
        ensures
            match (*self, r) {
                (Message::AccountMsg(a), Message::AccountMsg(b)) => b.agrees_with(a),
            },
    {
        match self {
            Message::AccountMsg(account) => Message::AccountMsg(account.clone()),
        }
    }
}

} // verus!
