//! Addresses, and the derivation of the one address at which a review lives.
//!
//! The address of a review is a function of who wrote it, of its title and of
//! the program that stores it. The derivation itself is the host's: this
//! module names its result, guards its one stated limit, and compares
//! addresses byte for byte.

use crate::error::ReviewError;
use solana_program::pubkey::Pubkey;
use vstd::prelude::*;
use vstd::utf8::encode_utf8;

verus! {

/// The number of bytes of an address.
pub const ADDRESS_BYTES: usize = 32;

/// The longest title, in bytes, for which an address can be derived.
pub const MAX_SEED_BYTES: usize = 32;

/// The identity of a caller, of a program or of a storage slot.
#[derive(Debug, Clone, Copy, PartialEq, Eq)]
pub struct Address {
    pub bytes: [u8; ADDRESS_BYTES],
}

impl View for Address {
    type V = Seq<u8>;

    open spec fn view(&self) -> Seq<u8> {
        self.bytes@
    }
}

impl Address {
    /// The address made of the given bytes.
    pub fn new(bytes: [u8; ADDRESS_BYTES]) -> (address: Address)
        ensures
            address.bytes == bytes,
    {
        Address { bytes }
    }

    /// Whether two addresses agree in every byte.
    pub fn same_as(&self, other: &Address) -> (same: bool)
        ensures
            same == (self@ == other@),
            same == (*self == *other),
    {
        let mut i: usize = 0;
        while i < ADDRESS_BYTES
            invariant
                i <= ADDRESS_BYTES,
                forall|k: int| 0 <= k < i ==> self.bytes@[k] == other.bytes@[k],
            decreases ADDRESS_BYTES - i,
        {
            if self.bytes[i] != other.bytes[i] {
                return false;
            }
            i += 1;
        }
        assert(self.bytes@ =~= other.bytes@);
        assert(self.bytes =~= other.bytes);
        true
    }
}

/// What the host's derivation yields for a caller, a title of at most
/// `MAX_SEED_BYTES` bytes and a program: an address off the curve of
/// spendable addresses together with the bump that led there, or nothing
/// where no bump does.
pub uninterp spec fn program_address(caller: Seq<u8>, title: Seq<char>, program_id: Seq<u8>) -> Option<(Seq<u8>, u8)>;

/// The address at which the review that `caller` wrote under `title` is kept
/// by the program `program_id`, with its bump. A title too long to serve as a
/// seed has no address.
pub open spec fn derived_address(caller: Seq<u8>, title: Seq<char>, program_id: Seq<u8>) -> Option<(Seq<u8>, u8)> {
    if encode_utf8(title).len() > MAX_SEED_BYTES {
        None
    } else {
        program_address(caller, title, program_id)
    }
}

/// Whether `found` is what the derivation yields for the given inputs.
pub open spec fn is_derivation(
    found: Option<(Address, u8)>,
    derivation: Option<(Seq<u8>, u8)>,
) -> bool {
    match found {
        Some((address, bump)) => derivation == Some((address@, bump)),
        None => derivation is None,
    }
}

/// Calls `Pubkey::try_find_program_address` of `solana_program` with the two
/// seeds `caller` and `title`. Believed of it: the result depends on the three
/// arguments alone, so that it can be named `program_address`. Seeds longer
/// than the limit are kept away from it.
#[verifier::external_body]
fn find_program_address(caller: &Address, title: &str, program_id: &Address) -> (found: Option<(Address, u8)>)
    requires
        encode_utf8(title@).len() <= MAX_SEED_BYTES,
    ensures
        is_derivation(found, program_address(caller@, title@, program_id@)),
{
    let program = Pubkey::new_from_array(program_id.bytes);
    match Pubkey::try_find_program_address(&[&caller.bytes, title.as_bytes()], &program) {
        Some((key, bump)) => Some((Address { bytes: key.to_bytes() }, bump)),
        None => None,
    }
}

/// Derives the address, and its bump, at which the review that `caller` wrote
/// under `title` is kept by the program `program_id`.
pub fn derive(caller: &Address, title: &str, program_id: &Address) -> (found: Option<(Address, u8)>)
    ensures
        is_derivation(found, derived_address(caller@, title@, program_id@)),
{
    if title.as_bytes().len() > MAX_SEED_BYTES {
        None
    } else {
        find_program_address(caller, title, program_id)
    }
}

/// Accepts `actual` where it equals `expected` byte for byte.
pub fn validate(expected: &Address, actual: &Address) -> (verdict: Result<(), ReviewError>)
    ensures
        verdict == if expected@ == actual@ {
            Ok::<(), ReviewError>(())
        } else {
            Err(ReviewError::InvalidAddress)
        },
{
    if expected.same_as(actual) {
        Ok(())
    } else {
        Err(ReviewError::InvalidAddress)
    }
}

/// Deriving twice from the same caller, title and program yields the same
/// address and the same bump.
pub proof fn derivation_is_deterministic(
    first: Option<(Address, u8)>,
    second: Option<(Address, u8)>,
    caller: Address,
    title: Seq<char>,
    program_id: Address,
)
    requires
        is_derivation(first, derived_address(caller@, title, program_id@)),
        is_derivation(second, derived_address(caller@, title, program_id@)),
    ensures
        first == second,
{
    if first is Some {
        let a = first->Some_0.0;
        let b = second->Some_0.0;
        assert(a@ == b@);
        assert(a.bytes =~= b.bytes);
    }
}

} // verus!
