//! The account record: one account's state at one ledger position, encoded
//! and ready to be sent.

use vstd::prelude::*;
use vstd::bytes::{spec_u64_to_le_bytes, u64_to_le_bytes, lemma_auto_spec_u64_to_from_le_bytes};
use crate::address::{Address, lemma_address_equal_by_view, wildcard_bytes};
use crate::compression::{CompressionType, FRAME_PREFIX_LEN, LZ4_MAX_INPUT_SIZE};
use crate::error::RecordError;
use crate::types::account_state::{
    AccountState,
    AccountStateView,
    account_layout,
    parsed_state,
    lemma_layout_parses_back,
};
use crate::types::slot_identifier::SlotIdentifier;

verus! {

/// The byte that fills the payload of a synthetic record.
pub const TEST_FILL_BYTE: u8 = 178;

/// The mark of a synthetic record's own address.
pub const SYNTHETIC_ACCOUNT_MARK: u8 = 1;

/// The mark of a synthetic record's owner.
pub const SYNTHETIC_OWNER_MARK: u8 = 2;

/// The bytes of a synthetic address: the slot and the data size, each as
/// eight little-endian bytes, then the mark, then zeros.
pub open spec fn synthetic_address_bytes(slot: u64, data_size: u64, mark: u8) -> Seq<u8> {
    spec_u64_to_le_bytes(slot) + spec_u64_to_le_bytes(data_size) + seq![mark] + Seq::new(
        15,
        |i: int| 0u8,
    )
}

/// Makes the synthetic address of the given slot, data size and mark.
pub fn synthetic_address(slot: u64, data_size: u64, mark: u8) -> (r: Address)
    ensures
        r@ == synthetic_address_bytes(slot, data_size, mark),
{
    let slot_bytes = u64_to_le_bytes(slot);
    let size_bytes = u64_to_le_bytes(data_size);
    let mut bytes = [0u8; 32];
    let mut i: usize = 0;
    while i < 8
        invariant
            i <= 8,
            slot_bytes@ == spec_u64_to_le_bytes(slot),
            size_bytes@ == spec_u64_to_le_bytes(data_size),
            slot_bytes@.len() == 8,
            size_bytes@.len() == 8,
            forall|j: int| 0 <= j < i ==> bytes@[j] == slot_bytes@[j],
            forall|j: int| 0 <= j < i ==> bytes@[8 + j] == size_bytes@[j],
            forall|j: int| 16 <= j < 32 ==> bytes@[j] == 0,
        decreases 8 - i,
    {
        bytes[i] = slot_bytes[i];
        bytes[8 + i] = size_bytes[i];
        i = i + 1;
    }
    bytes[16] = mark;
    let r = Address { bytes };
    assert(r@ =~= synthetic_address_bytes(slot, data_size, mark));
    r
}

/// Synthetic addresses tell their slot, data size and mark apart, and one
/// with a mark other than zero is not the all-zero address.
pub proof fn lemma_synthetic_addresses_differ(
    slot: u64,
    data_size: u64,
    mark: u8,
    other_slot: u64,
    other_size: u64,
    other_mark: u8,
)
    ensures
        synthetic_address_bytes(slot, data_size, mark) == synthetic_address_bytes(
            other_slot,
            other_size,
            other_mark,
        ) ==> slot == other_slot && data_size == other_size && mark == other_mark,
        mark != 0 ==> synthetic_address_bytes(slot, data_size, mark) != wildcard_bytes(),
{
    lemma_auto_spec_u64_to_from_le_bytes();
    let a = synthetic_address_bytes(slot, data_size, mark);
    let b = synthetic_address_bytes(other_slot, other_size, other_mark);
    assert(a.subrange(0, 8) =~= spec_u64_to_le_bytes(slot));
    assert(b.subrange(0, 8) =~= spec_u64_to_le_bytes(other_slot));
    assert(a.subrange(8, 16) =~= spec_u64_to_le_bytes(data_size));
    assert(b.subrange(8, 16) =~= spec_u64_to_le_bytes(other_size));
    assert(a[16] == mark);
    assert(b[16] == other_mark);
    assert(wildcard_bytes()[16] == 0);
}

/// An account's state at one ledger position, as it travels to subscribers.
#[derive(Debug, PartialEq, Eq, PartialOrd, Ord)]
pub struct Account {
    /// The ledger position the state was observed at.
    pub slot_identifier: SlotIdentifier,
    /// The account's address.
    pub pubkey: Address,
    /// The program that owns the account.
    pub owner: Address,
    /// Revision counter of the account; a higher one supersedes a lower one.
    pub write_version: u64,
    /// The encoded payload.
    pub data: Vec<u8>,
    /// How `data` is encoded.
    pub compression_type: CompressionType,
    /// Length of the account's data before serialization and compression.
    pub data_length: u64,
}

impl Clone for Account {
    fn clone(&self) -> (r: Self)
        ensures
            r.agrees_with(*self),
    {
        let data = self.data.clone();
        assert(data@ =~= self.data@);
        Account {
            slot_identifier: self.slot_identifier,
            pubkey: self.pubkey,
            owner: self.owner,
            write_version: self.write_version,
            data,
            compression_type: self.compression_type,
            data_length: self.data_length,
        }
    }
}

impl Account {
    /// Whether the two records have the same fields and the same payload.
    pub open spec fn agrees_with(self, other: Account) -> bool {
        &&& self.slot_identifier == other.slot_identifier
        &&& self.pubkey == other.pubkey
        &&& self.owner == other.owner
        &&& self.write_version == other.write_version
        &&& self.data@ == other.data@
        &&& self.compression_type == other.compression_type
        &&& self.data_length == other.data_length
    }

    /// What reading this record gives: the state it carries, or the failure.
    /// The payload is first decoded under the record's own compression type,
    /// then read as an account state.
    pub open spec fn resolution(self) -> Result<AccountStateView, RecordError> {
        match self.compression_type.decoded(self.data@) {
            None => Err(RecordError::DecodeFailure),
            Some(raw) => match parsed_state(raw) {
                Some(state) => Ok(state),
                None => Err(RecordError::SchemaMismatch),
            },
        }
    }

    /// Whether this record was built from `state` with the given identity.
    pub open spec fn carries(
        self,
        pubkey: Address,
        state: AccountStateView,
        compression_type: CompressionType,
        slot_identifier: SlotIdentifier,
        write_version: u64,
    ) -> bool {
        &&& self.slot_identifier == slot_identifier
        &&& self.pubkey == pubkey
        &&& self.owner == state.owner
        &&& self.write_version == write_version
        &&& self.compression_type == compression_type
        &&& self.data_length == state.data.len()
        &&& compression_type.is_frame_of(self.data@, account_layout(state))
    }

    /// The synthetic record of `slot` and `data_size`, as a value.
    pub open spec fn is_synthetic(self, slot: u64, data_size: usize) -> bool {
        &&& self.slot_identifier == SlotIdentifier { slot }
        &&& self.pubkey@ == synthetic_address_bytes(slot, data_size as u64, SYNTHETIC_ACCOUNT_MARK)
        &&& self.owner@ == synthetic_address_bytes(slot, data_size as u64, SYNTHETIC_OWNER_MARK)
        &&& self.write_version == 0
        &&& self.data@ == Seq::new(data_size as nat, |i: int| TEST_FILL_BYTE)
        &&& self.compression_type == CompressionType::Uncompressed
        &&& self.data_length == data_size
    }

    /// A synthetic record for load tests: `data_size` bytes of filler, never
    /// compressed. Its address and its owner are made from the arguments, so
    /// that equal arguments give equal records, records of different slots or
    /// sizes differ in both, and no record is its own owner.
    pub fn get_account_for_test(slot: u64, data_size: usize) -> (r: Self)
        ensures
            r.is_synthetic(slot, data_size),
    {
        let data: Vec<u8> = vec![TEST_FILL_BYTE; data_size];
        assert(data@ =~= Seq::new(data_size as nat, |i: int| TEST_FILL_BYTE));
        Account {
            slot_identifier: SlotIdentifier { slot },
            pubkey: synthetic_address(slot, data_size as u64, SYNTHETIC_ACCOUNT_MARK),
            owner: synthetic_address(slot, data_size as u64, SYNTHETIC_OWNER_MARK),
            write_version: 0,
            data,
            compression_type: CompressionType::Uncompressed,
            data_length: data_size as u64,
        }
    }

    /// Puts serialized state into a record: encodes `binary` under
    /// `compression_type` and stores the rest as given. Without compression
    /// this cannot fail and the payload is `binary` itself. With the
    /// speed-tuned compressor it cannot fail on at most `LZ4_MAX_INPUT_SIZE`
    /// bytes.
    pub fn from_serialized(
        pubkey: Address,
        owner: Address,
        data_length: u64,
        binary: Vec<u8>,
        compression_type: CompressionType,
        slot_identifier: SlotIdentifier,
        write_version: u64,
    ) -> (r: Result<Self, RecordError>)
        ensures
            compression_type == CompressionType::Uncompressed ==> r is Ok && r->Ok_0.data == binary,
            compression_type is Lz4Fast && binary@.len() <= LZ4_MAX_INPUT_SIZE ==> r is Ok,
            match r {
                Ok(record) => {
                    &&& record.slot_identifier == slot_identifier
                    &&& record.pubkey == pubkey
                    &&& record.owner == owner
                    &&& record.write_version == write_version
                    &&& record.compression_type == compression_type
                    &&& record.data_length == data_length
                    &&& compression_type.is_frame_of(record.data@, binary@)
                },
                Err(e) => e == RecordError::CompressionFailure && compression_type
                    != CompressionType::Uncompressed,
            },
    {
        match compression_type.encode(binary) {
            Ok(data) => Ok(
                Account {
                    slot_identifier,
                    pubkey,
                    owner,
                    write_version,
                    data,
                    compression_type,
                    data_length,
                },
            ),
            Err(e) => Err(e),
        }
    }

    /// Builds the record of `state`: serializes it, notes the length of its
    /// data, encodes the bytes under `compression_type`, and stores the
    /// address, the owner, the position and the write version as given.
    /// The record that comes back resolves to `state`. Serializing cannot
    /// fail, so the only failure is the compressor's: never without
    /// compression, and with the speed-tuned compressor only where the
    /// serialized state is longer than `LZ4_MAX_INPUT_SIZE`.
    pub fn new(
        pubkey: Address,
        state: AccountState,
        compression_type: CompressionType,
        slot_identifier: SlotIdentifier,
        write_version: u64,
    ) -> (r: Result<Self, RecordError>)
        ensures
            compression_type == CompressionType::Uncompressed ==> r is Ok,
            compression_type is Lz4Fast && account_layout(state@).len() <= LZ4_MAX_INPUT_SIZE
                ==> r is Ok,
            match r {
                Ok(record) => {
                    &&& record.carries(
                        pubkey,
                        state@,
                        compression_type,
                        slot_identifier,
                        write_version,
                    )
                    &&& record.resolution() == Ok::<AccountStateView, RecordError>(state@)
                },
                Err(e) => e == RecordError::CompressionFailure && compression_type
                    != CompressionType::Uncompressed,
            },
    {
        let owner = state.owner;
        let data_length = state.data.len() as u64;
        match state.to_bytes() {
            Ok(binary) => Account::from_serialized(
                pubkey,
                owner,
                data_length,
                binary,
                compression_type,
                slot_identifier,
                write_version,
            ),
            Err(e) => Err(e),
        }
    }

    /// Reads the account state back out of the record. Fails with
    /// `DecodeFailure` where the payload is not a valid frame of the record's
    /// compression type, as a compressed payload of fewer than four bytes
    /// never is, and with `SchemaMismatch` where the decoded bytes do not
    /// hold an account state.
    pub fn solana_account(&self) -> (r: Result<AccountState, RecordError>)
        ensures
            match r {
                Ok(state) => self.resolution() == Ok::<AccountStateView, RecordError>(state@),
                Err(e) => self.resolution() == Err::<AccountStateView, RecordError>(e),
            },
            self.compression_type != CompressionType::Uncompressed && self.data@.len()
                < FRAME_PREFIX_LEN ==> r == Err::<AccountState, RecordError>(
                RecordError::DecodeFailure,
            ),
    {
        match self.compression_type {
            CompressionType::Uncompressed => AccountState::from_bytes(self.data.as_slice()),
            CompressionType::Lz4Fast(_) | CompressionType::Lz4(_) => {
                match self.compression_type.decode(self.data.as_slice()) {
                    Ok(raw) => AccountState::from_bytes(raw.as_slice()),
                    Err(e) => Err(e),
                }
            },
        }
    }
}

/// The synthetic record is a function of its arguments: two records of the
/// same slot and data size agree in every field.
pub proof fn lemma_synthetic_record_determined(
    a: Account,
    b: Account,
    slot: u64,
    data_size: usize,
)
    requires
        a.is_synthetic(slot, data_size),
        b.is_synthetic(slot, data_size),
    ensures
        a.agrees_with(b),
{
    lemma_address_equal_by_view(a.pubkey, b.pubkey);
    lemma_address_equal_by_view(a.owner, b.owner);
}

/// A record built from a state resolves to that state, whatever the
/// compression type.
pub proof fn lemma_record_round_trip(
    record: Account,
    pubkey: Address,
    state: AccountStateView,
    compression_type: CompressionType,
    slot_identifier: SlotIdentifier,
    write_version: u64,
)
    requires
        state.data.len() <= u64::MAX,
        record.carries(pubkey, state, compression_type, slot_identifier, write_version),
    ensures
        record.resolution() == Ok::<AccountStateView, RecordError>(state),
{
    lemma_layout_parses_back(state);
}

/// An uncompressed record whose payload is the encoding of a state resolves
/// to that state.
pub proof fn lemma_uncompressed_record_resolves(record: Account, state: AccountStateView)
    requires
        state.data.len() <= u64::MAX,
        record.compression_type == CompressionType::Uncompressed,
        record.data@ == account_layout(state),
    ensures
        record.resolution() == Ok::<AccountStateView, RecordError>(state),
{
    lemma_layout_parses_back(state);
}

} // verus!
