//! The instructions that the program accepts, and their wire format: one
//! byte that names the operation, then title, rating and description.

use crate::error::ReviewError;
use crate::wire::{
    read_text, text_decoding, text_decoding_inverts_encoding, text_encoding,
    text_encoding_inverts_decoding,
};
use vstd::prelude::*;
use vstd::utf8::encode_utf8;

verus! {

/// The byte that names the creation of a review.
pub const ADD_MOVIE_REVIEW: u8 = 0;

/// The byte that names the update of a review.
pub const UPDATE_MOVIE_REVIEW: u8 = 1;

/// A decoded instruction.
#[derive(Debug, Clone, PartialEq, Eq)]
pub enum MovieInstruction {
    /// Create the review with this title.
    AddMovieReview { title: String, rating: u8, description: String },
    /// Give the review a new rating and a new description. The title is
    /// carried along, but the stored title is the one that counts.
    UpdateMovieReview { title: String, rating: u8, description: String },
}

/// What an instruction carries, whichever operation it names.
pub struct PayloadView {
    pub title: Seq<char>,
    pub rating: u8,
    pub description: Seq<char>,
}

/// What a decoded instruction says.
pub enum InstructionView {
    AddMovieReview { payload: PayloadView },
    UpdateMovieReview { payload: PayloadView },
}

impl PayloadView {
    /// The bytes that stand for the payload.
    pub open spec fn encoding(self) -> Seq<u8> {
        text_encoding(self.title) + seq![self.rating] + text_encoding(self.description)
    }

    /// Whether both texts are short enough for their counts to be written.
    pub open spec fn is_encodable(self) -> bool {
        encode_utf8(self.title).len() <= u32::MAX && encode_utf8(self.description).len()
            <= u32::MAX
    }
}

impl InstructionView {
    /// What the instruction carries.
    pub open spec fn payload(self) -> PayloadView {
        match self {
            InstructionView::AddMovieReview { payload } => payload,
            InstructionView::UpdateMovieReview { payload } => payload,
        }
    }

    /// The byte that names the operation.
    pub open spec fn discriminant(self) -> u8 {
        match self {
            InstructionView::AddMovieReview { .. } => ADD_MOVIE_REVIEW,
            InstructionView::UpdateMovieReview { .. } => UPDATE_MOVIE_REVIEW,
        }
    }

    /// The bytes that stand for the instruction.
    pub open spec fn encoding(self) -> Seq<u8> {
        seq![self.discriminant()] + self.payload().encoding()
    }
}

impl View for MovieInstruction {
    type V = InstructionView;

    open spec fn view(&self) -> InstructionView {
        match self {
            MovieInstruction::AddMovieReview { title, rating, description } => {
                InstructionView::AddMovieReview {
                    payload: PayloadView {
                        title: title@,
                        rating: *rating,
                        description: description@,
                    },
                }
            },
            MovieInstruction::UpdateMovieReview { title, rating, description } => {
                InstructionView::UpdateMovieReview {
                    payload: PayloadView {
                        title: title@,
                        rating: *rating,
                        description: description@,
                    },
                }
            },
        }
    }
}

/// The payload that `bytes` consists of, or nothing where `bytes` is not
/// exactly one payload: where a text or the rating is missing or cut short,
/// a text is not UTF-8, or bytes are left over.
pub open spec fn payload_decoding(bytes: Seq<u8>) -> Option<PayloadView> {
    match text_decoding(bytes) {
        None => None,
        Some((title, used)) => if bytes.len() <= used {
            None
        } else {
            match text_decoding(bytes.skip(used + 1)) {
                None => None,
                Some((description, rest)) => if used + 1 + rest != bytes.len() {
                    None
                } else {
                    Some(PayloadView { title, rating: bytes[used], description })
                },
            }
        },
    }
}

/// What `input` decodes to: an instruction, or the reason why it is none. An
/// empty input and an unknown operation are `InvalidInstructionData`, whatever
/// follows the first byte; a known operation without a well-formed payload is
/// `MalformedRecord`.
pub open spec fn instruction_decoding(input: Seq<u8>) -> Result<InstructionView, ReviewError> {
    if input.len() == 0 {
        Err(ReviewError::InvalidInstructionData)
    } else if input[0] != ADD_MOVIE_REVIEW && input[0] != UPDATE_MOVIE_REVIEW {
        Err(ReviewError::InvalidInstructionData)
    } else {
        match payload_decoding(input.skip(1)) {
            None => Err(ReviewError::MalformedRecord),
            Some(payload) => if input[0] == ADD_MOVIE_REVIEW {
                Ok(InstructionView::AddMovieReview { payload })
            } else {
                Ok(InstructionView::UpdateMovieReview { payload })
            },
        }
    }
}

/// The bytes of a payload decode to that payload.
pub proof fn payload_decoding_inverts_encoding(payload: PayloadView)
    requires
        payload.is_encodable(),
    ensures
        payload_decoding(payload.encoding()) == Some(payload),
{
    let bytes = payload.encoding();
    let title = text_encoding(payload.title);
    let description = text_encoding(payload.description);
    text_decoding_inverts_encoding(payload.title, seq![payload.rating] + description);
    text_decoding_inverts_encoding(payload.description, Seq::empty());
    assert(bytes =~= title + (seq![payload.rating] + description));
    assert(bytes.skip(title.len() as int + 1) =~= description + Seq::empty());
}

/// Bytes that decode to a payload are the bytes of that payload.
pub proof fn payload_encoding_inverts_decoding(bytes: Seq<u8>)
    requires
        payload_decoding(bytes) is Some,
    ensures
        payload_decoding(bytes)->Some_0.is_encodable(),
        payload_decoding(bytes)->Some_0.encoding() == bytes,
{
    let payload = payload_decoding(bytes)->Some_0;
    let used = text_decoding(bytes)->Some_0.1;
    text_encoding_inverts_decoding(bytes);
    text_encoding_inverts_decoding(bytes.skip(used + 1));
    assert(payload.encoding() =~= bytes);
}

/// Decoding is the inverse of the wire format: `input` decodes to an
/// instruction exactly where it is the encoding of that instruction.
pub proof fn decoding_is_inverse_of_encoding(input: Seq<u8>, instruction: InstructionView)
    ensures
        instruction_decoding(input) == Ok::<InstructionView, ReviewError>(instruction) <==> (
        instruction.payload().is_encodable() && input == instruction.encoding()),
{
    if instruction.payload().is_encodable() && input == instruction.encoding() {
        payload_decoding_inverts_encoding(instruction.payload());
        assert(input.skip(1) =~= instruction.payload().encoding());
    }
    if instruction_decoding(input) == Ok::<InstructionView, ReviewError>(instruction) {
        payload_encoding_inverts_decoding(input.skip(1));
        assert(input =~= seq![input[0]] + input.skip(1));
    }
}

/// Reads the payload that `input` holds after its first byte.
fn unpack_payload<'a>(input: &'a [u8]) -> (found: Option<(&'a str, u8, &'a str)>)
    requires
        input.len() >= 1,
    ensures
        match payload_decoding(input@.skip(1)) {
            Some(payload) => found matches Some((title, rating, description)) && title@
                == payload.title && rating == payload.rating && description@
                == payload.description,
            None => found is None,
        },
{
    let (title, at) = match read_text(input, 1) {
        Some(found) => found,
        None => { return None; },
    };
    if at >= input.len() {
        return None;
    }
    let rating: u8 = input[at];
    assert(input@.skip(1).skip(at - 1 + 1) =~= input@.skip(at + 1));
    let (description, end) = match read_text(input, at + 1) {
        Some(found) => found,
        None => { return None; },
    };
    if end != input.len() {
        return None;
    }
    Some((title, rating, description))
}

impl MovieInstruction {
    /// Decodes an instruction. Only its shape is judged here: neither the
    /// rating nor the size of the review.
    pub fn unpack(input: &[u8]) -> (unpacked: Result<MovieInstruction, ReviewError>)
        ensures
            match instruction_decoding(input@) {
                Ok(instruction) => unpacked matches Ok(i) && i@ == instruction,
                Err(error) => unpacked == Err::<MovieInstruction, ReviewError>(error),
            },
    {
        if input.len() == 0 {
            return Err(ReviewError::InvalidInstructionData);
        }
        let variant: u8 = input[0];
        if variant != ADD_MOVIE_REVIEW && variant != UPDATE_MOVIE_REVIEW {
            return Err(ReviewError::InvalidInstructionData);
        }
        match unpack_payload(input) {
            None => Err(ReviewError::MalformedRecord),
            Some((title, rating, description)) => if variant == ADD_MOVIE_REVIEW {
                Ok(
                    MovieInstruction::AddMovieReview {
                        title: title.to_owned(),
                        rating,
                        description: description.to_owned(),
                    },
                )
            } else {
                Ok(
                    MovieInstruction::UpdateMovieReview {
                        title: title.to_owned(),
                        rating,
                        description: description.to_owned(),
                    },
                )
            },
        }
    }
}

} // verus!
