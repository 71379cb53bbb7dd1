use movie_review::error::ReviewError;
use movie_review::state::{exceeds_capacity, MovieAccountState, MAX_RECORD_BYTES};
use movie_review::wire::{byte_len, read_text, write_length, write_text};

fn review(is_initialized: bool, rating: u8, title: &str, description: &str) -> MovieAccountState {
    MovieAccountState {
        is_initialized,
        rating,
        title: title.to_string(),
        description: description.to_string(),
    }
}

#[test]
fn length_prefix_is_little_endian() {
    let mut out: Vec<u8> = vec![9];
    write_length(&mut out, 300);
    assert_eq!(out, vec![9, 44, 1, 0, 0]);
    let mut top: Vec<u8> = Vec::new();
    write_length(&mut top, 0x0403_0201);
    assert_eq!(top, vec![1, 2, 3, 4]);
    let mut max: Vec<u8> = Vec::new();
    write_length(&mut max, u32::MAX);
    assert_eq!(max, vec![255, 255, 255, 255]);
}

#[test]
fn length_is_read_least_significant_byte_first() {
    let mut short: Vec<u8> = vec![7, 44, 1, 0, 0];
    short.extend(vec![b'x'; 300]);
    assert_eq!(read_text(&short, 1), Some(("x".repeat(300).as_str(), 305)));
    let mut long: Vec<u8> = vec![0, 0, 1, 0];
    long.extend(vec![b'y'; 65536]);
    long.push(b'z');
    assert_eq!(read_text(&long, 0), Some(("y".repeat(65536).as_str(), 65540)));
    let mut cut: Vec<u8> = vec![0, 0, 0, 1];
    cut.extend(vec![b'y'; 65536]);
    assert_eq!(read_text(&cut, 0), None);
}

#[test]
fn text_is_written_with_its_byte_count() {
    let mut out: Vec<u8> = Vec::new();
    write_text(&mut out, "Up");
    assert_eq!(out, vec![2, 0, 0, 0, b'U', b'p']);
    let mut accented: Vec<u8> = Vec::new();
    write_text(&mut accented, "é");
    assert_eq!(accented, vec![2, 0, 0, 0, 0xc3, 0xa9]);
    assert_eq!(byte_len("é"), 2);
    assert_eq!(byte_len(""), 0);
}

#[test]
fn text_is_read_with_the_place_behind_it() {
    let bytes: Vec<u8> = vec![0, 2, 0, 0, 0, b'U', b'p', 1, 2];
    assert_eq!(read_text(&bytes, 1), Some(("Up", 7)));
    assert_eq!(read_text(&[0, 0, 0, 0], 0), Some(("", 4)));
    assert_eq!(read_text(&[0, 0, 0, 0], 4), None);
    assert_eq!(read_text(&[3, 0, 0, 0, b'U', b'p'], 0), None);
    assert_eq!(read_text(&[2, 0, 0], 0), None);
    assert_eq!(read_text(&[1, 0, 0, 0, 0xff], 0), None);
    assert_eq!(read_text(&[255, 255, 255, 255, b'a'], 0), None);
}

#[test]
fn text_matches_borsh() {
    let text: String = "naïve — great".to_string();
    let mut out: Vec<u8> = Vec::new();
    write_text(&mut out, &text);
    assert_eq!(out, borsh::to_vec(&text).unwrap());
}

#[test]
fn review_is_encoded_field_by_field() {
    let encoded: Vec<u8> = review(true, 5, "Up", "great").encode().unwrap();
    assert_eq!(
        encoded,
        vec![1, 5, 2, 0, 0, 0, b'U', b'p', 5, 0, 0, 0, b'g', b'r', b'e', b'a', b't']
    );
    assert_eq!(encoded.len(), 2 + 4 + 2 + 4 + 5);
    let blank: Vec<u8> = review(false, 0, "", "").encode().unwrap();
    assert_eq!(blank, vec![0u8; 10]);
}

#[test]
fn review_encoding_matches_borsh() {
    let state = review(true, 4, "Amélie", "charming, odd");
    let mut expected: Vec<u8> = Vec::new();
    expected.extend(borsh::to_vec(&state.is_initialized).unwrap());
    expected.extend(borsh::to_vec(&state.rating).unwrap());
    expected.extend(borsh::to_vec(&state.title).unwrap());
    expected.extend(borsh::to_vec(&state.description).unwrap());
    assert_eq!(state.encode().unwrap(), expected);
}

#[test]
fn encode_then_decode_is_identity() {
    let state = review(true, 3, "Heat", "long, tense");
    let encoded: Vec<u8> = state.encode().unwrap();
    assert_eq!(MovieAccountState::decode(&encoded), Ok(state));
}

#[test]
fn decode_ignores_what_follows_the_review() {
    let state = review(true, 3, "Heat", "long, tense");
    let mut slot: Vec<u8> = state.encode().unwrap();
    slot.resize(MAX_RECORD_BYTES, 0);
    assert_eq!(MovieAccountState::decode(&slot), Ok(state.clone()));
    let mut noisy: Vec<u8> = state.encode().unwrap();
    noisy.extend([9u8, 255, 1, 0, 200]);
    assert_eq!(MovieAccountState::decode(&noisy), Ok(state));
}

#[test]
fn decode_of_blank_slot_is_uninitialized_review() {
    let slot: Vec<u8> = vec![0u8; MAX_RECORD_BYTES];
    let state = MovieAccountState::decode(&slot).unwrap();
    assert_eq!(state, review(false, 0, "", ""));
    assert!(!state.is_initialized());
}

#[test]
fn decode_does_not_judge_the_rating() {
    let encoded: Vec<u8> = vec![1, 200, 0, 0, 0, 0, 0, 0, 0, 0];
    assert_eq!(MovieAccountState::decode(&encoded), Ok(review(true, 200, "", "")));
}

#[test]
fn decode_rejects_short_buffers() {
    assert_eq!(MovieAccountState::decode(&[]), Err(ReviewError::MalformedRecord));
    assert_eq!(MovieAccountState::decode(&[1]), Err(ReviewError::MalformedRecord));
    assert_eq!(MovieAccountState::decode(&[1, 5, 0, 0, 0]), Err(ReviewError::MalformedRecord));
    assert_eq!(MovieAccountState::decode(&[0u8; 9]), Err(ReviewError::MalformedRecord));
    assert!(MovieAccountState::decode(&[0u8; 10]).is_ok());
}

#[test]
fn decode_rejects_length_beyond_buffer() {
    let title_too_long: Vec<u8> = vec![1, 5, 3, 0, 0, 0, b'U', b'p', 0, 0, 0, 0];
    assert_eq!(MovieAccountState::decode(&title_too_long), Err(ReviewError::MalformedRecord));
    let description_too_long: Vec<u8> = vec![1, 5, 2, 0, 0, 0, b'U', b'p', 6, 0, 0, 0, b'g', b'r'];
    assert_eq!(
        MovieAccountState::decode(&description_too_long),
        Err(ReviewError::MalformedRecord)
    );
    let huge: Vec<u8> = vec![1, 5, 255, 255, 255, 255, b'U', b'p', 0, 0, 0, 0];
    assert_eq!(MovieAccountState::decode(&huge), Err(ReviewError::MalformedRecord));
}

#[test]
fn decode_rejects_bad_flag() {
    let encoded: Vec<u8> = vec![2, 5, 0, 0, 0, 0, 0, 0, 0, 0];
    assert_eq!(MovieAccountState::decode(&encoded), Err(ReviewError::MalformedRecord));
}

#[test]
fn decode_rejects_text_that_is_not_utf8() {
    let title: Vec<u8> = vec![1, 5, 2, 0, 0, 0, 0xc3, 0x28, 0, 0, 0, 0];
    assert_eq!(MovieAccountState::decode(&title), Err(ReviewError::MalformedRecord));
    let description: Vec<u8> = vec![1, 5, 0, 0, 0, 0, 1, 0, 0, 0, 0x80];
    assert_eq!(MovieAccountState::decode(&description), Err(ReviewError::MalformedRecord));
}

#[test]
fn decode_returns_the_text_not_its_bytes() {
    let encoded: Vec<u8> = vec![1, 5, 2, 0, 0, 0, 0xc3, 0xa9, 0, 0, 0, 0];
    let state = MovieAccountState::decode(&encoded).unwrap();
    assert_eq!(state.title, "é");
    assert_eq!(state.title.chars().count(), 1);
}

#[test]
fn encode_rejects_reviews_larger_than_a_slot() {
    let at_limit = review(true, 5, "T", &"x".repeat(989));
    assert_eq!(at_limit.encode().unwrap().len(), 1000);
    let above = review(true, 5, "T", &"x".repeat(990));
    assert_eq!(above.encode(), Err(ReviewError::InvalidDataLength));
    let long_title = review(true, 5, &"t".repeat(991), "");
    assert_eq!(long_title.encode(), Err(ReviewError::InvalidDataLength));
}

#[test]
fn capacity_is_counted_in_bytes() {
    assert!(!exceeds_capacity("T", &"x".repeat(989)));
    assert!(exceeds_capacity("T", &"x".repeat(990)));
    assert!(!exceeds_capacity("", ""));
    assert!(!exceeds_capacity(&"t".repeat(990), ""));
    assert!(exceeds_capacity(&"t".repeat(991), ""));
    assert!(exceeds_capacity("T", &"é".repeat(495)));
    assert!(!exceeds_capacity("TT", &"é".repeat(494)));
}

#[test]
fn serialize_writes_the_front_and_keeps_the_rest() {
    let mut slot: Vec<u8> = vec![0xaa; 20];
    assert_eq!(review(true, 5, "Up", "ok").serialize(&mut slot), Ok(()));
    let mut expected: Vec<u8> = vec![1, 5, 2, 0, 0, 0, b'U', b'p', 2, 0, 0, 0, b'o', b'k'];
    expected.extend([0xaa_u8; 6]);
    assert_eq!(slot, expected);
}

#[test]
fn serialize_rejects_what_does_not_fit() {
    let mut small: Vec<u8> = vec![0xaa; 13];
    assert_eq!(
        review(true, 5, "Up", "ok").serialize(&mut small),
        Err(ReviewError::InvalidDataLength)
    );
    assert_eq!(small, vec![0xaa; 13]);
    let mut exact: Vec<u8> = vec![0xaa; 14];
    assert_eq!(review(true, 5, "Up", "ok").serialize(&mut exact), Ok(()));
    let mut large: Vec<u8> = vec![0; 2000];
    assert_eq!(
        review(true, 5, "T", &"x".repeat(990)).serialize(&mut large),
        Err(ReviewError::InvalidDataLength)
    );
    assert_eq!(large, vec![0; 2000]);
}

#[test]
fn error_codes_are_stable_and_distinct() {
    let all = [
        ReviewError::UninitializedAccount,
        ReviewError::InvalidAddress,
        ReviewError::InvalidDataLength,
        ReviewError::InvalidRating,
        ReviewError::InvalidInstructionData,
        ReviewError::MalformedRecord,
        ReviewError::MissingSignature,
        ReviewError::WrongOwner,
    ];
    let codes: Vec<u32> = all.iter().map(|e| e.code()).collect();
    assert_eq!(codes, vec![0, 1, 2, 3, 4, 5, 6, 7]);
}
