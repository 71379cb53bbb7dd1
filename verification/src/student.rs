//! The instruction with which a student introduces themself: one byte that
//! names the operation, then name and message.

use crate::error::ReviewError;
use crate::wire::{
    read_text, text_decoding, text_decoding_inverts_encoding, text_encoding,
    text_encoding_inverts_decoding,
};
use vstd::prelude::*;
use vstd::utf8::encode_utf8;

verus! {

/// The byte that names the introduction of a student.
pub const ADD_STUDENT: u8 = 0;

/// A decoded instruction.
#[derive(Debug, Clone, PartialEq, Eq)]
pub enum StudentInstruction {
    /// Introduce the student with this name.
    AddStudent { name: String, message: String },
}

/// What a decoded introduction says.
pub struct IntroductionView {
    pub name: Seq<char>,
    pub message: Seq<char>,
}

impl IntroductionView {
    /// The bytes that stand for the introduction.
    pub open spec fn encoding(self) -> Seq<u8> {
        seq![ADD_STUDENT] + text_encoding(self.name) + text_encoding(self.message)
    }

    /// Whether both texts are short enough for their counts to be written.
    pub open spec fn is_encodable(self) -> bool {
        encode_utf8(self.name).len() <= u32::MAX && encode_utf8(self.message).len() <= u32::MAX
    }
}

impl View for StudentInstruction {
    type V = IntroductionView;

    open spec fn view(&self) -> IntroductionView {
        match self {
            StudentInstruction::AddStudent { name, message } => IntroductionView {
                name: name@,
                message: message@,
            },
        }
    }
}

/// What `input` decodes to: an introduction, or the reason why it is none. An
/// empty input and an unknown operation are `InvalidInstructionData`, whatever
/// follows the first byte; a known operation that is not followed by exactly
/// two texts is `MalformedRecord`.
pub open spec fn introduction_decoding(input: Seq<u8>) -> Result<IntroductionView, ReviewError> {
    if input.len() == 0 || input[0] != ADD_STUDENT {
        Err(ReviewError::InvalidInstructionData)
    } else {
        match text_decoding(input.skip(1)) {
            None => Err(ReviewError::MalformedRecord),
            Some((name, used)) => match text_decoding(input.skip(1 + used)) {
                Some((message, rest)) if 1 + used + rest == input.len() => Ok(
                    IntroductionView { name, message },
                ),
                _ => Err(ReviewError::MalformedRecord),
            },
        }
    }
}

/// Decoding is the inverse of the wire format: `input` decodes to an
/// introduction exactly where it is the encoding of that introduction.
pub proof fn introduction_decoding_is_inverse_of_encoding(
    input: Seq<u8>,
    introduction: IntroductionView,
)
    ensures
        introduction_decoding(input) == Ok::<IntroductionView, ReviewError>(introduction) <==> (
        introduction.is_encodable() && input == introduction.encoding()),
{
    let name = text_encoding(introduction.name);
    let message = text_encoding(introduction.message);
    if introduction.is_encodable() && input == introduction.encoding() {
        text_decoding_inverts_encoding(introduction.name, message);
        text_decoding_inverts_encoding(introduction.message, Seq::empty());
        assert(input.skip(1) =~= name + message);
        assert(input.skip(1 + name.len() as int) =~= message + Seq::empty());
    }
    if introduction_decoding(input) == Ok::<IntroductionView, ReviewError>(introduction) {
        let used = text_decoding(input.skip(1))->Some_0.1;
        text_encoding_inverts_decoding(input.skip(1));
        text_encoding_inverts_decoding(input.skip(1 + used));
        assert(input =~= introduction.encoding());
    }
}

impl StudentInstruction {
    /// Decodes an introduction.
    pub fn unpack(input: &[u8]) -> (unpacked: Result<StudentInstruction, ReviewError>)
        ensures
            match introduction_decoding(input@) {
                Ok(introduction) => unpacked matches Ok(i) && i@ == introduction,
                Err(error) => unpacked == Err::<StudentInstruction, ReviewError>(error),
            },
    {
        if input.len() == 0 || input[0] != ADD_STUDENT {
            return Err(ReviewError::InvalidInstructionData);
        }
        let (name, at) = match read_text(input, 1) {
            Some(found) => found,
            None => { return Err(ReviewError::MalformedRecord); },
        };
        let (message, end) = match read_text(input, at) {
            Some(found) => found,
            None => { return Err(ReviewError::MalformedRecord); },
        };
        if end != input.len() {
            return Err(ReviewError::MalformedRecord);
        }
        Ok(StudentInstruction::AddStudent { name: name.to_owned(), message: message.to_owned() })
    }
}

} // verus!
