//! The two operations on a review, creation and update, and the entry point
//! that decodes an instruction and carries it out.
//!
//! The host hands over the accounts that a request names. Creation needs the
//! host once more, to allocate the slot: `add_movie_review` decides whether
//! the request is in order and says what to allocate, and `write_review`
//! stores the review once the slot is there.

use crate::address::{derived_address, validate, Address};
use crate::error::ReviewError;
use crate::instruction::{instruction_decoding, InstructionView, MovieInstruction};
use crate::state::{
    encoded_len, exceeds_capacity, fits, record_decoding, slot_after, MovieAccountState,
    ReviewView, MAX_RECORD_BYTES,
};
use vstd::prelude::*;

verus! {

/// The lowest rating.
pub const MIN_RATING: u8 = 1;

/// The highest rating.
pub const MAX_RATING: u8 = 5;

/// An account as the host hands it over.
#[derive(Debug, Clone, PartialEq, Eq)]
pub struct Account {
    /// The address of the account.
    pub key: Address,
    /// The program that alone may change the bytes of the account.
    pub owner: Address,
    /// Whether the request carries the signature of this account.
    pub is_signer: bool,
    /// The bytes of the account.
    pub data: Vec<u8>,
}

/// What the host is asked to allocate for a new review.
#[derive(Debug, Clone, Copy, PartialEq, Eq)]
pub struct SlotRequest {
    /// The account that pays for the slot.
    pub payer: Address,
    /// The address of the slot.
    pub address: Address,
    /// The program that is to own the slot.
    pub owner: Address,
    /// The number of bytes of the slot.
    pub space: usize,
    /// The bump with which `address` was derived.
    pub bump: u8,
}

/// What is left to do once an instruction has been accepted.
#[derive(Debug, Clone, PartialEq, Eq)]
pub enum Outcome {
    /// The review in the slot has been updated. Nothing is left to do.
    Updated,
    /// The host is to allocate the slot that `request` describes. After that
    /// `write_review` stores the review.
    Allocate { request: SlotRequest, title: String, rating: u8, description: String },
}

/// The judgement on the content of a review: its rating lies in
/// `MIN_RATING..=MAX_RATING`, and its encoding fits into a slot.
pub open spec fn content_verdict(title: Seq<char>, rating: u8, description: Seq<char>) -> Result<
    (),
    ReviewError,
> {
    if rating < MIN_RATING || rating > MAX_RATING {
        Err(ReviewError::InvalidRating)
    } else if encoded_len(title, description) > MAX_RECORD_BYTES {
        Err(ReviewError::InvalidDataLength)
    } else {
        Ok(())
    }
}

/// Whether a slot sits at the address that belongs to the review which
/// `caller` wrote under `title`: the bump of that address, or
/// `InvalidAddress`.
pub open spec fn address_verdict(
    program_id: Address,
    caller: Address,
    slot: Address,
    title: Seq<char>,
) -> Result<u8, ReviewError> {
    match derived_address(caller@, title, program_id@) {
        Some((address, bump)) if address == slot@ => Ok(bump),
        _ => Err(ReviewError::InvalidAddress),
    }
}

/// Whether `initializer` may create the review with this title in the slot
/// `pda_account`: the bump of the slot's address, or the first of these that
/// applies: the caller has not signed, the slot does not sit at the address
/// derived from caller and title.
pub open spec fn create_authorization(
    program_id: Address,
    initializer: Account,
    pda_account: Account,
    title: Seq<char>,
) -> Result<u8, ReviewError> {
    if !initializer.is_signer {
        Err(ReviewError::MissingSignature)
    } else {
        address_verdict(program_id, initializer.key, pda_account.key, title)
    }
}

/// What becomes of a request to create a review: the slot to allocate, or the
/// first reason against it, authorization before content.
pub open spec fn creation(
    program_id: Address,
    initializer: Account,
    pda_account: Account,
    title: Seq<char>,
    rating: u8,
    description: Seq<char>,
) -> Result<SlotRequest, ReviewError> {
    match create_authorization(program_id, initializer, pda_account, title) {
        Err(error) => Err(error),
        Ok(bump) => match content_verdict(title, rating, description) {
            Err(error) => Err(error),
            Ok(_) => Ok(
                SlotRequest {
                    payer: initializer.key,
                    address: pda_account.key,
                    owner: program_id,
                    space: MAX_RECORD_BYTES,
                    bump,
                },
            ),
        },
    }
}

/// What becomes of the bytes of a slot when the review with this content is
/// written to it: the bytes it holds afterwards, or the first of these that
/// applies: the content is not in order, the review does not fit into the
/// slot.
pub open spec fn placing(review: ReviewView, data: Seq<u8>) -> Result<Seq<u8>, ReviewError> {
    match content_verdict(review.title, review.rating, review.description) {
        Err(error) => Err(error),
        Ok(_) => if fits(review, data.len()) {
            Ok(slot_after(review, data))
        } else {
            Err(ReviewError::InvalidDataLength)
        },
    }
}

/// What becomes of the bytes of a slot when a new review is stored in it: the
/// bytes it holds afterwards, or the first of these that applies: the slot
/// belongs to another program, it does not hold the shape of a review, the
/// content is not in order, the review does not fit into the slot.
pub open spec fn storing(
    program_id: Address,
    pda_account: Account,
    title: Seq<char>,
    rating: u8,
    description: Seq<char>,
) -> Result<Seq<u8>, ReviewError> {
    if pda_account.owner@ != program_id@ {
        Err(ReviewError::WrongOwner)
    } else if record_decoding(pda_account.data@) is None {
        Err(ReviewError::MalformedRecord)
    } else {
        placing(
            ReviewView { is_initialized: true, rating, title, description },
            pda_account.data@,
        )
    }
}

/// Whether `initializer` may update the review in the slot `pda_account`: the
/// stored review, or the first of these that applies: the slot belongs to
/// another program, the caller has not signed, the slot does not hold the
/// shape of a review, the review was never created, the slot does not sit at
/// the address derived from the caller and the stored title.
pub open spec fn update_authorization(
    program_id: Address,
    initializer: Account,
    pda_account: Account,
) -> Result<ReviewView, ReviewError> {
    if pda_account.owner@ != program_id@ {
        Err(ReviewError::WrongOwner)
    } else if !initializer.is_signer {
        Err(ReviewError::MissingSignature)
    } else {
        match record_decoding(pda_account.data@) {
            None => Err(ReviewError::MalformedRecord),
            Some(stored) => if !stored.is_initialized {
                Err(ReviewError::UninitializedAccount)
            } else {
                match address_verdict(
                    program_id,
                    initializer.key,
                    pda_account.key,
                    stored.title,
                ) {
                    Err(error) => Err(error),
                    Ok(_) => Ok(stored),
                }
            },
        }
    }
}

/// What becomes of the bytes of a slot when its review is updated: the bytes
/// it holds afterwards, or the first reason against the update,
/// authorization before content. The title stays the stored one.
pub open spec fn updating(
    program_id: Address,
    initializer: Account,
    pda_account: Account,
    rating: u8,
    description: Seq<char>,
) -> Result<Seq<u8>, ReviewError> {
    match update_authorization(program_id, initializer, pda_account) {
        Err(error) => Err(error),
        Ok(stored) => placing(
            ReviewView { is_initialized: true, rating, title: stored.title, description },
            pda_account.data@,
        ),
    }
}

/// Judges the content of a review.
pub fn check_content(title: &str, rating: u8, description: &str) -> (verdict: Result<
    (),
    ReviewError,
>)
    ensures
        verdict == content_verdict(title@, rating, description@),
{
    if rating > MAX_RATING || rating < MIN_RATING {
        Err(ReviewError::InvalidRating)
    } else if exceeds_capacity(title, description) {
        Err(ReviewError::InvalidDataLength)
    } else {
        Ok(())
    }
}

/// Checks that the slot sits at the address that belongs to the review which
/// `initializer` wrote under `title`, and finds the bump of that address.
fn check_address(program_id: &Address, initializer: &Account, pda_account: &Account, title: &str) -> (bump:
    Result<u8, ReviewError>)
    ensures
        bump == address_verdict(*program_id, initializer.key, pda_account.key, title@),
{
    match crate::address::derive(&initializer.key, title, program_id) {
        None => Err(ReviewError::InvalidAddress),
        Some((pda, bump_seed)) => match validate(&pda, &pda_account.key) {
            Ok(_) => Ok(bump_seed),
            Err(error) => Err(error),
        },
    }
}

/// Decides on a request to create a review. Nothing is written: where the
/// request is in order, the host is to allocate the slot that is returned,
/// and `write_review` then stores the review in it.
pub fn add_movie_review(
    program_id: &Address,
    initializer: &Account,
    pda_account: &Account,
    title: &str,
    rating: u8,
    description: &str,
) -> (decision: Result<SlotRequest, ReviewError>)
    ensures
        decision == creation(
            *program_id,
            *initializer,
            *pda_account,
            title@,
            rating,
            description@,
        ),
{
    if !initializer.is_signer {
        return Err(ReviewError::MissingSignature);
    }
    let bump_seed: u8 = match check_address(program_id, initializer, pda_account, title) {
        Ok(bump) => bump,
        Err(error) => { return Err(error); },
    };
    match check_content(title, rating, description) {
        Ok(_) => {},
        Err(error) => { return Err(error); },
    }
    Ok(
        SlotRequest {
            payer: initializer.key,
            address: pda_account.key,
            owner: *program_id,
            space: MAX_RECORD_BYTES,
            bump: bump_seed,
        },
    )
}

/// Stores a new review in the slot that the host has allocated for it. The
/// bytes behind the review stay as they are, and so does the whole slot
/// where the review is turned down.
pub fn write_review(
    program_id: &Address,
    pda_account: &mut Account,
    title: String,
    rating: u8,
    description: String,
) -> (written: Result<(), ReviewError>)
    ensures
        final(pda_account).key == old(pda_account).key,
        final(pda_account).owner == old(pda_account).owner,
        final(pda_account).is_signer == old(pda_account).is_signer,
        match storing(*program_id, *old(pda_account), title@, rating, description@) {
            Ok(data) => written == Ok::<(), ReviewError>(()) && final(pda_account).data@ == data,
            Err(error) => written == Err::<(), ReviewError>(error) && final(pda_account).data@
                == old(pda_account).data@,
        },
{
    if !pda_account.owner.same_as(program_id) {
        return Err(ReviewError::WrongOwner);
    }
    let mut account_data = match MovieAccountState::decode(pda_account.data.as_slice()) {
        Ok(state) => state,
        Err(error) => { return Err(error); },
    };
    match check_content(title.as_str(), rating, description.as_str()) {
        Ok(_) => {},
        Err(error) => { return Err(error); },
    }
    account_data.title = title;
    account_data.rating = rating;
    account_data.description = description;
    account_data.is_initialized = true;
    account_data.serialize(&mut pda_account.data)
}

/// Gives the review in the slot a new rating and a new description. The
/// title that the caller submits is not looked at: the stored title decides
/// where the review belongs, and stays. The whole slot stays as it is where
/// the update is turned down.
pub fn update_movie_review(
    program_id: &Address,
    initializer: &Account,
    pda_account: &mut Account,
    _title: String,
    rating: u8,
    description: String,
) -> (updated: Result<(), ReviewError>)
    ensures
        final(pda_account).key == old(pda_account).key,
        final(pda_account).owner == old(pda_account).owner,
        final(pda_account).is_signer == old(pda_account).is_signer,
        match updating(*program_id, *initializer, *old(pda_account), rating, description@) {
            Ok(data) => updated == Ok::<(), ReviewError>(()) && final(pda_account).data@ == data,
            Err(error) => updated == Err::<(), ReviewError>(error) && final(pda_account).data@
                == old(pda_account).data@,
        },
{
    if !pda_account.owner.same_as(program_id) {
        return Err(ReviewError::WrongOwner);
    }
    if !initializer.is_signer {
        return Err(ReviewError::MissingSignature);
    }
    let mut account_data = match MovieAccountState::decode(pda_account.data.as_slice()) {
        Ok(state) => state,
        Err(error) => { return Err(error); },
    };
    if !account_data.is_initialized() {
        return Err(ReviewError::UninitializedAccount);
    }
    match check_address(program_id, initializer, pda_account, account_data.title.as_str()) {
        Ok(_) => {},
        Err(error) => { return Err(error); },
    }
    match check_content(account_data.title.as_str(), rating, description.as_str()) {
        Ok(_) => {},
        Err(error) => { return Err(error); },
    }
    account_data.rating = rating;
    account_data.description = description;
    account_data.serialize(&mut pda_account.data)
}

/// Whether `outcome` asks for the allocation of `request` on behalf of the
/// review with this content.
pub open spec fn asks_to_allocate(
    outcome: Outcome,
    request: SlotRequest,
    title: Seq<char>,
    rating: u8,
    description: Seq<char>,
) -> bool {
    outcome matches Outcome::Allocate { request: r, title: t, rating: g, description: d } && r
        == request && t@ == title && g == rating && d@ == description
}

/// Decodes an instruction and carries it out. A creation is decided as by
/// `add_movie_review` and leaves the allocation and `write_review` to do; an
/// update is carried out as by `update_movie_review`. The slot stays as it is
/// wherever an error is returned.
pub fn process_instruction(
    program_id: &Address,
    initializer: &Account,
    pda_account: &mut Account,
    instruction_data: &[u8],
) -> (processed: Result<Outcome, ReviewError>)
    ensures
        final(pda_account).key == old(pda_account).key,
        final(pda_account).owner == old(pda_account).owner,
        final(pda_account).is_signer == old(pda_account).is_signer,
        match instruction_decoding(instruction_data@) {
            Err(error) => processed == Err::<Outcome, ReviewError>(error) && final(pda_account).data@ == old(pda_account).data@,
            Ok(InstructionView::AddMovieReview { payload }) => final(pda_account).data@ == old(pda_account).data@ && match creation(
                *program_id,
                *initializer,
                *old(pda_account),
                payload.title,
                payload.rating,
                payload.description,
            ) {
                Err(error) => processed == Err::<Outcome, ReviewError>(error),
                Ok(request) => processed matches Ok(outcome) && asks_to_allocate(
                    outcome,
                    request,
                    payload.title,
                    payload.rating,
                    payload.description,
                ),
            },
            Ok(InstructionView::UpdateMovieReview { payload }) => match updating(
                *program_id,
                *initializer,
                *old(pda_account),
                payload.rating,
                payload.description,
            ) {
                Err(error) => processed == Err::<Outcome, ReviewError>(error) && final(pda_account).data@ == old(pda_account).data@,
                Ok(data) => processed == Ok::<Outcome, ReviewError>(Outcome::Updated) && final(pda_account).data@ == data,
            },
        },
{
    let instruction = match MovieInstruction::unpack(instruction_data) {
        Ok(instruction) => instruction,
        Err(error) => { return Err(error); },
    };
    match instruction {
        MovieInstruction::AddMovieReview { title, rating, description } => {
            match add_movie_review(
                program_id,
                initializer,
                pda_account,
                title.as_str(),
                rating,
                description.as_str(),
            ) {
                Ok(request) => Ok(Outcome::Allocate { request, title, rating, description }),
                Err(error) => Err(error),
            }
        },
        MovieInstruction::UpdateMovieReview { title, rating, description } => {
            match update_movie_review(
                program_id,
                initializer,
                pda_account,
                title,
                rating,
                description,
            ) {
                Ok(_) => Ok(Outcome::Updated),
                Err(error) => Err(error),
            }
        },
    }
}

} // verus!
