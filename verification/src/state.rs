//! The stored review and its layout in a storage slot.
//!
//! A review takes up a flag of one byte, a rating of one byte, and two texts,
//! title and description. A slot is larger than the review it holds: what
//! follows the review is ignored when the slot is read and left alone when it
//! is written.

use crate::error::ReviewError;
use crate::wire::{
    byte_len, read_text, text_decoding, text_decoding_inverts_encoding, text_encoding,
    text_encoding_inverts_decoding, write_text,
};
use vstd::prelude::*;
use vstd::utf8::encode_utf8;

verus! {

/// The capacity of a storage slot, and so the largest encoded review.
pub const MAX_RECORD_BYTES: usize = 1000;

/// The bytes of an encoded review that are not text: flag, rating and the two
/// counts.
pub const FIXED_RECORD_BYTES: usize = 10;

/// A review as it is kept in a storage slot.
#[derive(Debug, Clone, PartialEq, Eq)]
pub struct MovieAccountState {
    /// Set once the review has been created.
    pub is_initialized: bool,
    /// The rating, `1..=5` in every review that this program wrote.
    pub rating: u8,
    /// The title, which also determines where the review is kept.
    pub title: String,
    /// The free text of the review.
    pub description: String,
}

/// What a stored review says.
pub struct ReviewView {
    pub is_initialized: bool,
    pub rating: u8,
    pub title: Seq<char>,
    pub description: Seq<char>,
}

/// The number of bytes of the encoded review with this title and description.
pub open spec fn encoded_len(title: Seq<char>, description: Seq<char>) -> nat {
    FIXED_RECORD_BYTES as nat + encode_utf8(title).len() + encode_utf8(description).len()
}

impl ReviewView {
    /// The number of bytes of the encoded review.
    pub open spec fn encoded_size(self) -> nat {
        encoded_len(self.title, self.description)
    }

    /// The bytes that stand for the review.
    pub open spec fn encoding(self) -> Seq<u8> {
        seq![if self.is_initialized { 1u8 } else { 0u8 }, self.rating] + text_encoding(self.title)
            + text_encoding(self.description)
    }
}

/// The review that stands at the front of `bytes`, or nothing where `bytes`
/// does not begin with a review: where the flag is neither 0 nor 1, or a text
/// is missing or cut short or not UTF-8. Bytes after the review are ignored.
pub open spec fn record_decoding(bytes: Seq<u8>) -> Option<ReviewView> {
    if bytes.len() < 2 || bytes[0] > 1 {
        None
    } else {
        match text_decoding(bytes.skip(2)) {
            None => None,
            Some((title, used)) => match text_decoding(bytes.skip(2 + used)) {
                None => None,
                Some((description, _)) => Some(
                    ReviewView { is_initialized: bytes[0] == 1, rating: bytes[1], title, description },
                ),
            },
        }
    }
}

/// The bytes of a slot that held `data` after `review` has been written to its
/// front: the encoding of the review, then what the slot held behind it.
pub open spec fn slot_after(review: ReviewView, data: Seq<u8>) -> Seq<u8> {
    review.encoding() + data.skip(review.encoded_size() as int)
}

/// Whether `review` can be written to a slot of `capacity` bytes.
pub open spec fn fits(review: ReviewView, capacity: nat) -> bool {
    review.encoded_size() <= MAX_RECORD_BYTES && review.encoded_size() <= capacity
}

/// An encoded review is read back unchanged, whatever follows it in the slot.
pub proof fn decoding_inverts_encoding(review: ReviewView, tail: Seq<u8>)
    requires
        encode_utf8(review.title).len() <= u32::MAX,
        encode_utf8(review.description).len() <= u32::MAX,
    ensures
        review.encoding().len() == review.encoded_size(),
        record_decoding(review.encoding() + tail) == Some(review),
{
    let bytes = review.encoding() + tail;
    let title = text_encoding(review.title);
    let description = text_encoding(review.description);
    text_decoding_inverts_encoding(review.title, description + tail);
    text_decoding_inverts_encoding(review.description, tail);
    assert(bytes.skip(2) =~= title + (description + tail));
    assert(bytes.skip(2 + title.len() as int) =~= description + tail);
}

/// Where a review is read from a slot, the slot begins with exactly its
/// encoding.
pub proof fn encoding_inverts_decoding(bytes: Seq<u8>)
    requires
        record_decoding(bytes) is Some,
    ensures
        record_decoding(bytes)->Some_0.encoded_size() <= bytes.len(),
        record_decoding(bytes)->Some_0.encoding() == bytes.subrange(
            0,
            record_decoding(bytes)->Some_0.encoded_size() as int,
        ),
{
    let review = record_decoding(bytes)->Some_0;
    let used = text_decoding(bytes.skip(2))->Some_0.1;
    text_encoding_inverts_decoding(bytes.skip(2));
    text_encoding_inverts_decoding(bytes.skip(2 + used));
    assert(review.encoding() =~= bytes.subrange(0, review.encoded_size() as int));
}

impl View for MovieAccountState {
    type V = ReviewView;

    open spec fn view(&self) -> ReviewView {
        ReviewView {
            is_initialized: self.is_initialized,
            rating: self.rating,
            title: self.title@,
            description: self.description@,
        }
    }
}

/// Whether the encoded review with this title and description is too large
/// for a slot.
pub fn exceeds_capacity(title: &str, description: &str) -> (too_large: bool)
    ensures
        too_large == (encoded_len(title@, description@) > MAX_RECORD_BYTES),
{
    let room: usize = MAX_RECORD_BYTES - FIXED_RECORD_BYTES;
    let title_len: usize = byte_len(title);
    let description_len: usize = byte_len(description);
    title_len > room || description_len > room - title_len
}

impl MovieAccountState {
    /// Whether the review has been created.
    pub fn is_initialized(&self) -> (initialized: bool)
        ensures
            initialized == self.is_initialized,
    {
        self.is_initialized
    }

    /// Encodes the review, unless it is too large for a slot.
    pub fn encode(&self) -> (encoded: Result<Vec<u8>, ReviewError>)
        ensures
            match encoded {
                Ok(bytes) => self@.encoded_size() <= MAX_RECORD_BYTES && bytes@
                    == self@.encoding(),
                Err(error) => self@.encoded_size() > MAX_RECORD_BYTES && error
                    == ReviewError::InvalidDataLength,
            },
    {
        if exceeds_capacity(self.title.as_str(), self.description.as_str()) {
            return Err(ReviewError::InvalidDataLength);
        }
        let mut bytes: Vec<u8> = Vec::new();
        bytes.push(if self.is_initialized { 1u8 } else { 0u8 });
        bytes.push(self.rating);
        write_text(&mut bytes, self.title.as_str());
        write_text(&mut bytes, self.description.as_str());
        assert(bytes@ =~= self@.encoding());
        Ok(bytes)
    }

    /// Writes the encoded review to the front of `data` and leaves the rest
    /// of `data` as it is, unless the review is too large for a slot or for
    /// `data`.
    pub fn serialize(&self, data: &mut Vec<u8>) -> (written: Result<(), ReviewError>)
        ensures
            final(data)@ == if fits(self@, old(data)@.len()) {
                slot_after(self@, old(data)@)
            } else {
                old(data)@
            },
            written == if fits(self@, old(data)@.len()) {
                Ok::<(), ReviewError>(())
            } else {
                Err(ReviewError::InvalidDataLength)
            },
    {
        let bytes = match self.encode() {
            Ok(bytes) => bytes,
            Err(error) => { return Err(error); },
        };
        let n: usize = bytes.len();
        if n > data.len() {
            return Err(ReviewError::InvalidDataLength);
        }
        let mut i: usize = 0;
        while i < n
            invariant
                i <= n,
                n == bytes@.len(),
                n <= data@.len(),
                data@.len() == old(data)@.len(),
                data@ == bytes@.take(i as int) + old(data)@.skip(i as int),
            decreases n - i,
        {
            data.set(i, bytes[i]);
            i += 1;
            assert(data@ =~= bytes@.take(i as int) + old(data)@.skip(i as int));
        }
        assert(bytes@.take(n as int) =~= bytes@);
        Ok(())
    }

    /// Reads the review that stands at the front of `bytes`. Neither the
    /// rating nor the size of the review is judged here.
    pub fn decode(bytes: &[u8]) -> (decoded: Result<MovieAccountState, ReviewError>)
        ensures
            match record_decoding(bytes@) {
                Some(review) => decoded matches Ok(state) && state@ == review,
                None => decoded == Err::<MovieAccountState, ReviewError>(
                    ReviewError::MalformedRecord,
                ),
            },
    {
        if bytes.len() < 2 || bytes[0] > 1 {
            return Err(ReviewError::MalformedRecord);
        }
        let (title, next) = match read_text(bytes, 2) {
            Some(found) => found,
            None => { return Err(ReviewError::MalformedRecord); },
        };
        let (description, _) = match read_text(bytes, next) {
            Some(found) => found,
            None => { return Err(ReviewError::MalformedRecord); },
        };
        Ok(
            MovieAccountState {
                is_initialized: bytes[0] == 1,
                rating: bytes[1],
                title: title.to_owned(),
                description: description.to_owned(),
            },
        )
    }
}

} // verus!
