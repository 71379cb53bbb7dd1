//! What holds of creation and update, whatever the request.

use crate::address::Address;
use crate::error::ReviewError;
use crate::address::MAX_SEED_BYTES;
use crate::processor::{
    address_verdict, create_authorization, creation, placing, storing, update_authorization,
    updating, Account, SlotRequest, MAX_RATING, MIN_RATING,
};
use crate::state::{
    decoding_inverts_encoding, encoded_len, record_decoding, ReviewView, MAX_RECORD_BYTES,
};
use crate::wire::text_decoding;
use vstd::prelude::*;
use vstd::utf8::{decode_utf8, encode_utf8, valid_utf8};

verus! {

/// Whether `allocated` is the slot that the host hands back for `request`:
/// at the requested address, owned by the requested program, of the requested
/// size, and blank.
pub open spec fn is_allocated(allocated: Account, request: SlotRequest) -> bool {
    &&& allocated.key == request.address
    &&& allocated.owner == request.owner
    &&& allocated.data@.len() == request.space
    &&& forall|i: int| 0 <= i < allocated.data@.len() ==> allocated.data@[i] == 0
}

/// A blank slot holds the shape of a review: one that was never created,
/// without rating, title or description.
pub proof fn blank_slot_is_uninitialized(data: Seq<u8>)
    requires
        data.len() >= 10,
        forall|i: int| 0 <= i < data.len() ==> data[i] == 0,
    ensures
        record_decoding(data) == Some(
            ReviewView {
                is_initialized: false,
                rating: 0,
                title: Seq::<char>::empty(),
                description: Seq::<char>::empty(),
            },
        ),
{
    let empty = Seq::<u8>::empty();
    assert(data.skip(2).subrange(4, 4) =~= empty);
    assert(data.skip(6).subrange(4, 4) =~= empty);
    assert(valid_utf8(empty));
    assert(decode_utf8(empty) =~= Seq::<char>::empty());
    assert(text_decoding(data.skip(2)) == Some((Seq::<char>::empty(), 4int)));
    assert(text_decoding(data.skip(6)) == Some((Seq::<char>::empty(), 4int)));
}

/// A review that has been written to a slot is read back from it as it was
/// submitted, and marked as created.
pub proof fn placed_review_is_read_back(review: ReviewView, data: Seq<u8>)
    requires
        placing(review, data) is Ok,
    ensures
        record_decoding(placing(review, data)->Ok_0) == Some(review),
        placing(review, data)->Ok_0.len() == data.len(),
{
    decoding_inverts_encoding(review, data.skip(review.encoded_size() as int));
}

/// Round trip of creation. Where a request to create a review is accepted and
/// the host has allocated the slot asked for, the review is stored, and the
/// slot then decodes to a created review with exactly the submitted title,
/// rating and description.
pub proof fn created_review_is_read_back(
    program_id: Address,
    initializer: Account,
    pda_account: Account,
    allocated: Account,
    title: Seq<char>,
    rating: u8,
    description: Seq<char>,
)
    requires
        creation(program_id, initializer, pda_account, title, rating, description) is Ok,
        is_allocated(
            allocated,
            creation(program_id, initializer, pda_account, title, rating, description)->Ok_0,
        ),
    ensures
        storing(program_id, allocated, title, rating, description) is Ok,
        record_decoding(storing(program_id, allocated, title, rating, description)->Ok_0) == Some(
            ReviewView { is_initialized: true, rating, title, description },
        ),
{
    let review = ReviewView { is_initialized: true, rating, title, description };
    blank_slot_is_uninitialized(allocated.data@);
    placed_review_is_read_back(review, allocated.data@);
}

/// An update of a slot whose review was never created fails with
/// `UninitializedAccount`, provided the slot belongs to the program and the
/// caller has signed: those two are looked at first.
pub proof fn update_of_uninitialized_slot_fails(
    program_id: Address,
    initializer: Account,
    pda_account: Account,
    rating: u8,
    description: Seq<char>,
)
    requires
        pda_account.owner@ == program_id@,
        initializer.is_signer,
        record_decoding(pda_account.data@) matches Some(stored) && !stored.is_initialized,
    ensures
        updating(program_id, initializer, pda_account, rating, description) == Err::<
            Seq<u8>,
            ReviewError,
        >(ReviewError::UninitializedAccount),
{
}

/// A rating outside `MIN_RATING..=MAX_RATING` is refused with `InvalidRating`
/// by creation and by update, provided the caller is authorized:
/// authorization is looked at first.
pub proof fn rating_out_of_range_is_refused(
    program_id: Address,
    initializer: Account,
    pda_account: Account,
    title: Seq<char>,
    rating: u8,
    description: Seq<char>,
)
    requires
        rating < MIN_RATING || rating > MAX_RATING,
    ensures
        create_authorization(program_id, initializer, pda_account, title) is Ok ==> creation(
            program_id,
            initializer,
            pda_account,
            title,
            rating,
            description,
        ) == Err::<SlotRequest, ReviewError>(ReviewError::InvalidRating),
        update_authorization(program_id, initializer, pda_account) is Ok ==> updating(
            program_id,
            initializer,
            pda_account,
            rating,
            description,
        ) == Err::<Seq<u8>, ReviewError>(ReviewError::InvalidRating),
{
}

/// For an authorized caller and a rating in range, the lowest and the highest
/// included, the size of the encoded review alone decides between success
/// and `InvalidDataLength`: a creation is accepted up to `MAX_RECORD_BYTES`
/// and refused from one byte more, and so is an update of a slot of that
/// capacity.
pub proof fn size_decides(
    program_id: Address,
    initializer: Account,
    pda_account: Account,
    title: Seq<char>,
    rating: u8,
    description: Seq<char>,
)
    requires
        MIN_RATING <= rating <= MAX_RATING,
    ensures
        create_authorization(program_id, initializer, pda_account, title) is Ok ==> (if encoded_len(
            title,
            description,
        ) <= MAX_RECORD_BYTES {
            creation(program_id, initializer, pda_account, title, rating, description) is Ok
        } else {
            creation(program_id, initializer, pda_account, title, rating, description) == Err::<
                SlotRequest,
                ReviewError,
            >(ReviewError::InvalidDataLength)
        }),
        update_authorization(program_id, initializer, pda_account) is Ok
            && pda_account.data@.len() >= MAX_RECORD_BYTES ==> (if encoded_len(
            update_authorization(program_id, initializer, pda_account)->Ok_0.title,
            description,
        ) <= MAX_RECORD_BYTES {
            updating(program_id, initializer, pda_account, rating, description) is Ok
        } else {
            updating(program_id, initializer, pda_account, rating, description) == Err::<
                Seq<u8>,
                ReviewError,
            >(ReviewError::InvalidDataLength)
        }),
{
}

/// No review is created under a title of more than `MAX_SEED_BYTES` bytes:
/// such a title has no address.
pub proof fn long_title_is_refused(
    program_id: Address,
    initializer: Account,
    pda_account: Account,
    title: Seq<char>,
    rating: u8,
    description: Seq<char>,
)
    requires
        encode_utf8(title).len() > MAX_SEED_BYTES,
    ensures
        creation(program_id, initializer, pda_account, title, rating, description) is Err,
        initializer.is_signer ==> creation(
            program_id,
            initializer,
            pda_account,
            title,
            rating,
            description,
        ) == Err::<SlotRequest, ReviewError>(ReviewError::InvalidAddress),
{
}

/// An update changes rating and description and nothing else: the slot then
/// decodes to the stored title with the new rating and the new description,
/// and still sits at the address that belongs to that title. No submitted
/// title has a say in it.
pub proof fn update_keeps_title_and_address(
    program_id: Address,
    initializer: Account,
    pda_account: Account,
    rating: u8,
    description: Seq<char>,
)
    requires
        updating(program_id, initializer, pda_account, rating, description) is Ok,
    ensures
        record_decoding(pda_account.data@) is Some,
        record_decoding(updating(program_id, initializer, pda_account, rating, description)->Ok_0)
            == Some(
            ReviewView {
                is_initialized: true,
                rating,
                title: record_decoding(pda_account.data@)->Some_0.title,
                description,
            },
        ),
        address_verdict(
            program_id,
            initializer.key,
            pda_account.key,
            record_decoding(pda_account.data@)->Some_0.title,
        ) is Ok,
{
    let stored = record_decoding(pda_account.data@)->Some_0;
    let review = ReviewView { is_initialized: true, rating, title: stored.title, description };
    placed_review_is_read_back(review, pda_account.data@);
}

} // verus!
