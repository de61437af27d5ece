//! The state of one account and its canonical byte encoding.

use vstd::prelude::*;
use vstd::bytes::{
    spec_u64_from_le_bytes,
    spec_u64_to_le_bytes,
    lemma_auto_spec_u64_to_from_le_bytes,
};
use solana_sdk::account::Account as SolanaAccount;
use solana_sdk::pubkey::Pubkey;
use crate::address::{Address, address_of_bytes, lemma_address_of_bytes};
use crate::error::RecordError;

verus! {

/// `bincode::ErrorKind`, in which `bincode` reports a failure. Only carried.
#[verifier::external_type_specification]
#[verifier::external_body]
pub struct ExBincodeErrorKind(bincode::ErrorKind);

/// The state of an account at one point of the ledger's history.
#[derive(Debug, PartialEq, Eq)]
pub struct AccountState {
    /// Balance of the account.
    pub lamports: u64,
    /// The data the account holds.
    pub data: Vec<u8>,
    /// The program that owns the account.
    pub owner: Address,
    /// Whether the data is a loaded program.
    pub executable: bool,
    /// The epoch at which the account next owes rent.
    pub rent_epoch: u64,
}

/// An account state as a mathematical value.
#[verifier::ext_equal]
pub ghost struct AccountStateView {
    pub lamports: u64,
    pub data: Seq<u8>,
    pub owner: Address,
    pub executable: bool,
    pub rent_epoch: u64,
}

impl View for AccountState {
    type V = AccountStateView;

    open spec fn view(&self) -> AccountStateView {
        AccountStateView {
            lamports: self.lamports,
            data: self.data@,
            owner: self.owner,
            executable: self.executable,
            rent_epoch: self.rent_epoch,
        }
    }
}

impl Clone for AccountState {
    fn clone(&self) -> (r: Self)
        ensures
            r@ == self@,
    {
        let data = self.data.clone();
        assert(data@ =~= self.data@);
        AccountState {
            lamports: self.lamports,
            data,
            owner: self.owner,
            executable: self.executable,
            rent_epoch: self.rent_epoch,
        }
    }
}

/// The byte that stands for a flag.
pub open spec fn flag_byte(flag: bool) -> u8 {
    if flag {
        1u8
    } else {
        0u8
    }
}

/// The canonical encoding of an account state: the balance, the length of
/// the data and the data, the owner's 32 bytes, one byte for the flag, the
/// rent epoch; every integer as eight little-endian bytes.
pub open spec fn account_layout(s: AccountStateView) -> Seq<u8> {
    spec_u64_to_le_bytes(s.lamports) + spec_u64_to_le_bytes(s.data.len() as u64) + s.data
        + s.owner@ + seq![flag_byte(s.executable)] + spec_u64_to_le_bytes(s.rent_epoch)
}

/// Whether `raw` starts with the encoding of `s`. What follows the encoding
/// is not looked at.
pub open spec fn holds_state(raw: Seq<u8>, s: AccountStateView) -> bool {
    s.data.len() <= u64::MAX && account_layout(s).is_prefix_of(raw)
}

/// Length of the encoding of a state whose data is empty.
pub const LAYOUT_FIXED_LEN: usize = 57;

/// The length of the data that the front of `raw` announces.
pub open spec fn announced_data_len(raw: Seq<u8>) -> int {
    spec_u64_from_le_bytes(raw.subrange(8, 16)) as int
}

/// Whether `raw` starts with a whole encoding: the announced data and the
/// fixed fields are all there, and the flag's byte is 0 or 1.
pub open spec fn starts_with_encoding(raw: Seq<u8>) -> bool {
    &&& raw.len() >= 16
    &&& raw.len() >= LAYOUT_FIXED_LEN + announced_data_len(raw)
    &&& raw[48 + announced_data_len(raw)] <= 1
}

/// The fields read one after the other from the front of `raw`.
pub open spec fn state_at_front(raw: Seq<u8>) -> AccountStateView {
    let n = announced_data_len(raw);
    AccountStateView {
        lamports: spec_u64_from_le_bytes(raw.subrange(0, 8)),
        data: raw.subrange(16, 16 + n),
        owner: address_of_bytes(raw.subrange(16 + n, 48 + n)),
        executable: raw[48 + n] == 1,
        rent_epoch: spec_u64_from_le_bytes(raw.subrange(49 + n, 57 + n)),
    }
}

/// The account state that `raw` holds, if it holds one.
pub open spec fn parsed_state(raw: Seq<u8>) -> Option<AccountStateView> {
    if starts_with_encoding(raw) {
        Some(state_at_front(raw))
    } else {
        None
    }
}

/// Where each field lies in the encoding.
pub proof fn lemma_layout_fields(s: AccountStateView)
    ensures
        ({
            let n = s.data.len() as int;
            let l = account_layout(s);
            &&& l.len() == LAYOUT_FIXED_LEN + n
            &&& l.subrange(0, 8) == spec_u64_to_le_bytes(s.lamports)
            &&& l.subrange(8, 16) == spec_u64_to_le_bytes(s.data.len() as u64)
            &&& l.subrange(16, 16 + n) == s.data
            &&& l.subrange(16 + n, 48 + n) == s.owner@
            &&& l[48 + n] == flag_byte(s.executable)
            &&& l.subrange(49 + n, 57 + n) == spec_u64_to_le_bytes(s.rent_epoch)
        }),
{
    lemma_auto_spec_u64_to_from_le_bytes();
    let n = s.data.len() as int;
    let l = account_layout(s);
    assert(s.owner@.len() == 32);
    assert(l.len() == 57 + n);
    assert(l.subrange(0, 8) =~= spec_u64_to_le_bytes(s.lamports));
    assert(l.subrange(8, 16) =~= spec_u64_to_le_bytes(s.data.len() as u64));
    assert(l.subrange(16, 16 + n) =~= s.data);
    assert(l.subrange(16 + n, 48 + n) =~= s.owner@);
    assert(l.subrange(49 + n, 57 + n) =~= spec_u64_to_le_bytes(s.rent_epoch));
}

/// Eight little-endian bytes stand for one integer only.
pub proof fn lemma_le_bytes_injective(x: u64, y: u64)
    requires
        spec_u64_to_le_bytes(x) == spec_u64_to_le_bytes(y),
    ensures
        x == y,
{
    lemma_auto_spec_u64_to_from_le_bytes();
}

/// No byte sequence starts with the encodings of two different states.
pub proof fn lemma_held_state_unique(raw: Seq<u8>, a: AccountStateView, b: AccountStateView)
    requires
        holds_state(raw, a),
        holds_state(raw, b),
    ensures
        a == b,
{
    lemma_layout_fields(a);
    lemma_layout_fields(b);
    let la = account_layout(a);
    let lb = account_layout(b);
    let na = a.data.len() as int;
    let nb = b.data.len() as int;
    assert(la.subrange(0, 8) =~= raw.subrange(0, 8));
    assert(lb.subrange(0, 8) =~= raw.subrange(0, 8));
    lemma_le_bytes_injective(a.lamports, b.lamports);
    assert(la.subrange(8, 16) =~= raw.subrange(8, 16));
    assert(lb.subrange(8, 16) =~= raw.subrange(8, 16));
    lemma_le_bytes_injective(a.data.len() as u64, b.data.len() as u64);
    assert(na == nb);
    assert(la.subrange(16, 16 + na) =~= raw.subrange(16, 16 + na));
    assert(lb.subrange(16, 16 + na) =~= raw.subrange(16, 16 + na));
    assert(a.data =~= b.data);
    assert(la.subrange(16 + na, 48 + na) =~= raw.subrange(16 + na, 48 + na));
    assert(lb.subrange(16 + na, 48 + na) =~= raw.subrange(16 + na, 48 + na));
    assert(a.owner.bytes =~= b.owner.bytes);
    assert(la[48 + na] == raw[48 + na]);
    assert(lb[48 + na] == raw[48 + na]);
    assert(a.executable == b.executable);
    assert(la.subrange(49 + na, 57 + na) =~= raw.subrange(49 + na, 57 + na));
    assert(lb.subrange(49 + na, 57 + na) =~= raw.subrange(49 + na, 57 + na));
    lemma_le_bytes_injective(a.rent_epoch, b.rent_epoch);
    assert(a =~= b);
}

/// A byte sequence starts with the encoding of `s` exactly when reading it
/// from the front gives `s`.
pub proof fn lemma_parse_agrees_with_layout(raw: Seq<u8>, s: AccountStateView)
    ensures
        holds_state(raw, s) <==> parsed_state(raw) == Some(s),
{
    lemma_auto_spec_u64_to_from_le_bytes();
    if holds_state(raw, s) {
        lemma_layout_fields(s);
        let l = account_layout(s);
        let n = s.data.len() as int;
        assert(raw.subrange(8, 16) =~= l.subrange(8, 16));
        assert(announced_data_len(raw) == n);
        assert(raw[48 + n] == l[48 + n]);
        assert(starts_with_encoding(raw));
        lemma_front_holds_itself(raw);
        lemma_held_state_unique(raw, s, state_at_front(raw));
    }
    if parsed_state(raw) == Some(s) {
        lemma_front_holds_itself(raw);
    }
}

/// Where `raw` starts with a whole encoding, it is the encoding of the
/// fields read from its front.
pub proof fn lemma_front_holds_itself(raw: Seq<u8>)
    requires
        starts_with_encoding(raw),
    ensures
        holds_state(raw, state_at_front(raw)),
{
    lemma_auto_spec_u64_to_from_le_bytes();
    let n = announced_data_len(raw);
    let s = state_at_front(raw);
    lemma_address_of_bytes(raw.subrange(16 + n, 48 + n));
    assert(s.data.len() == n);
    assert(s.data.len() as u64 == spec_u64_from_le_bytes(raw.subrange(8, 16)));
    assert(spec_u64_to_le_bytes(s.lamports) == raw.subrange(0, 8));
    assert(spec_u64_to_le_bytes(s.data.len() as u64) == raw.subrange(8, 16));
    assert(spec_u64_to_le_bytes(s.rent_epoch) == raw.subrange(49 + n, 57 + n));
    assert(flag_byte(s.executable) == raw[48 + n]);
    assert(account_layout(s) =~= raw.subrange(0, 57 + n));
}

/// The encoding of a state holds that state and no other.
pub proof fn lemma_layout_parses_back(s: AccountStateView)
    requires
        s.data.len() <= u64::MAX,
    ensures
        holds_state(account_layout(s), s),
        parsed_state(account_layout(s)) == Some(s),
{
    let l = account_layout(s);
    assert(l.subrange(0, l.len() as int) =~= l);
    lemma_parse_agrees_with_layout(l, s);
}

/// What follows an encoding does not change the state that is read.
pub proof fn lemma_trailing_bytes_ignored(s: AccountStateView, rest: Seq<u8>)
    requires
        s.data.len() <= u64::MAX,
    ensures
        parsed_state(account_layout(s) + rest) == Some(s),
{
    let l = account_layout(s);
    let raw = l + rest;
    assert(raw.subrange(0, l.len() as int) =~= l);
    lemma_parse_agrees_with_layout(raw, s);
}

/// Bytes too short for the fixed fields hold no state.
pub proof fn lemma_short_bytes_hold_no_state(raw: Seq<u8>)
    requires
        raw.len() < LAYOUT_FIXED_LEN,
    ensures
        parsed_state(raw) is None,
{
}

/// `bincode::serialize` on the `solana_sdk` account with the fields of
/// `state`. It works without a size limit and writes into a vector, so it
/// returns bytes for every account. They are the fields in order: each
/// integer as eight little-endian bytes, the data behind its length, the
/// owner's 32 bytes, the flag as one byte 0 or 1.
#[verifier::external_body]
pub(crate) fn bincode_serialize(state: &AccountState) -> (r: Result<Vec<u8>, bincode::Error>)
    ensures
        r is Ok,
        r matches Ok(bytes) ==> bytes@ == account_layout(state@),
{
    let account = SolanaAccount {
        lamports: state.lamports,
        data: state.data.clone(),
        owner: Pubkey::new_from_array(state.owner.bytes),
        executable: state.executable,
        rent_epoch: state.rent_epoch,
    };
    bincode::serialize(&account)
}

/// `bincode::deserialize` to a `solana_sdk` account, whose fields are handed
/// back. It reads the fields in order from the front of `bytes` and ignores
/// what follows; it reports an error where the bytes run out or the flag's
/// byte is neither 0 nor 1.
#[verifier::external_body]
pub(crate) fn bincode_deserialize(bytes: &[u8]) -> (r: Result<AccountState, bincode::Error>)
    ensures
        match r {
            Ok(state) => holds_state(bytes@, state@),
            Err(_) => forall|s: AccountStateView| !holds_state(bytes@, s),
        },
{
    let account: SolanaAccount = bincode::deserialize(bytes)?;
    Ok(
        AccountState {
            lamports: account.lamports,
            data: account.data,
            owner: Address { bytes: account.owner.to_bytes() },
            executable: account.executable,
            rent_epoch: account.rent_epoch,
        },
    )
}

/// The serializer's verdict as this library reports it.
pub fn serialization_outcome(outcome: Result<Vec<u8>, bincode::Error>) -> (r: Result<
    Vec<u8>,
    RecordError,
>)
    ensures
        match outcome {
            Ok(bytes) => r == Ok::<Vec<u8>, RecordError>(bytes),
            Err(_) => r == Err::<Vec<u8>, RecordError>(RecordError::SerializationFailure),
        },
{
    match outcome {
        Ok(bytes) => Ok(bytes),
        Err(_) => Err(RecordError::SerializationFailure),
    }
}

/// The deserializer's verdict as this library reports it.
pub fn parse_outcome(outcome: Result<AccountState, bincode::Error>) -> (r: Result<
    AccountState,
    RecordError,
>)
    ensures
        match outcome {
            Ok(state) => r == Ok::<AccountState, RecordError>(state),
            Err(_) => r == Err::<AccountState, RecordError>(RecordError::SchemaMismatch),
        },
{
    match outcome {
        Ok(state) => Ok(state),
        Err(_) => Err(RecordError::SchemaMismatch),
    }
}

impl AccountState {
    /// The canonical encoding of this state. Every state has one.
    pub fn to_bytes(&self) -> (r: Result<Vec<u8>, RecordError>)
        ensures
            r matches Ok(bytes) && bytes@ == account_layout(self@) && parsed_state(bytes@) == Some(
                self@,
            ),
    {
        proof {
            assert(self.data.len() <= usize::MAX);
            lemma_layout_parses_back(self@);
        }
        serialization_outcome(bincode_serialize(self))
    }

    /// Reads a state from the front of `bytes`. Fails with `SchemaMismatch`
    /// exactly when `bytes` does not start with the encoding of a state.
    pub fn from_bytes(bytes: &[u8]) -> (r: Result<AccountState, RecordError>)
        ensures
            match r {
                Ok(state) => parsed_state(bytes@) == Some(state@),
                Err(e) => e == RecordError::SchemaMismatch && parsed_state(bytes@) is None,
            },
    {
        let outcome = bincode_deserialize(bytes);
        proof {
            if outcome is Ok {
                lemma_parse_agrees_with_layout(bytes@, outcome->Ok_0@);
            } else if starts_with_encoding(bytes@) {
                lemma_front_holds_itself(bytes@);
            }
        }
        parse_outcome(outcome)
    }
}

} // verus!
