//! Account addresses: 32-byte public identifiers.

use vstd::prelude::*;
use vstd::array::{spec_array_fill_for_copy_type, spec_array_update};
use vstd::std_specs::cmp::PartialEqSpecImpl;
use solana_sdk::pubkey::Pubkey;

verus! {

/// Number of bytes in an address.
pub const ADDRESS_LEN: usize = 32;

/// The public identifier of an account or of the program that owns one.
#[derive(Clone, Copy, Debug, Hash, PartialOrd, Ord)]
pub struct Address {
    pub bytes: [u8; 32],
}

/// The 32 zero bytes that stand for "any owner" in a filter.
pub open spec fn wildcard_bytes() -> Seq<u8> {
    Seq::new(ADDRESS_LEN as nat, |i: int| 0u8)
}

impl View for Address {
    type V = Seq<u8>;

    open spec fn view(&self) -> Seq<u8> {
        self.bytes@
    }
}

impl PartialEq for Address {
    fn eq(&self, other: &Self) -> (r: bool) {
        let mut i: usize = 0;
        while i < ADDRESS_LEN
            invariant
                i <= ADDRESS_LEN,
                forall|j: int| 0 <= j < i ==> self.bytes[j] == other.bytes[j],
            decreases ADDRESS_LEN - i,
        {
            if self.bytes[i] != other.bytes[i] {
                return false;
            }
            i = i + 1;
        }
        assert(self.bytes =~= other.bytes);
        true
    }
}

impl Eq for Address {

}

impl PartialEqSpecImpl for Address {
    open spec fn obeys_eq_spec() -> bool {
        true
    }

    open spec fn eq_spec(&self, other: &Self) -> bool {
        *self == *other
    }
}

impl Address {
    pub fn new(bytes: [u8; 32]) -> (r: Self)
        ensures
            r.bytes == bytes,
            r@ == bytes@,
    {
        Address { bytes }
    }

    /// Whether this is the all-zero address.
    pub open spec fn is_wildcard(self) -> bool {
        self@ == wildcard_bytes()
    }

    /// The all-zero address, which a filter reads as "any owner".
    pub fn wildcard() -> (r: Self)
        ensures
            r.is_wildcard(),
    {
        default_pubkey()
    }

    pub fn to_bytes(&self) -> (r: [u8; 32])
        ensures
            r == self.bytes,
    {
        self.bytes
    }
}

/// Two addresses are the same value exactly when their bytes agree.
pub proof fn lemma_address_equal_by_view(a: Address, b: Address)
    ensures
        (a == b) <==> (a@ == b@),
{
    if a@ == b@ {
        assert(a.bytes =~= b.bytes);
    }
}

/// An array that agrees with `bytes` on its first `k` places.
pub open spec fn array_agreeing_on(bytes: Seq<u8>, k: nat) -> [u8; 32]
    decreases k,
{
    if k == 0 {
        spec_array_fill_for_copy_type::<u8, 32>(0u8)
    } else {
        spec_array_update(array_agreeing_on(bytes, (k - 1) as nat), k - 1, bytes[k - 1])
    }
}

/// The address made of the 32 bytes `bytes`.
pub open spec fn address_of_bytes(bytes: Seq<u8>) -> Address {
    Address { bytes: array_agreeing_on(bytes, ADDRESS_LEN as nat) }
}

proof fn lemma_array_agrees(bytes: Seq<u8>, k: nat)
    requires
        k <= ADDRESS_LEN,
    ensures
        forall|i: int| 0 <= i < k ==> array_agreeing_on(bytes, k)@[i] == bytes[i],
    decreases k,
{
    if k > 0 {
        lemma_array_agrees(bytes, (k - 1) as nat);
    }
}

/// Every 32 bytes are the bytes of an address.
pub proof fn lemma_address_of_bytes(bytes: Seq<u8>)
    requires
        bytes.len() == ADDRESS_LEN,
    ensures
        address_of_bytes(bytes)@ == bytes,
{
    lemma_array_agrees(bytes, ADDRESS_LEN as nat);
    assert(address_of_bytes(bytes)@ =~= bytes);
}

/// `Pubkey::default()` of solana_sdk, as an address: the key whose 32 bytes
/// are all zero.
#[verifier::external_body]
pub(crate) fn default_pubkey() -> (r: Address)
    ensures
        r@ == wildcard_bytes(),
{
    Address { bytes: Pubkey::default().to_bytes() }
}

} // verus!
