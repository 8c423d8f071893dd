use proposal_store::codec::{check_key, check_size, decode, encode, MAX_VALUE_SIZE};
use proposal_store::proposal::{Proposal, StoreError, Tally};

fn sample(id: u64) -> Proposal {
    Proposal {
        id,
        title: "Raise the quorum".to_string(),
        description: "From a third to a half".to_string(),
        creator: "alice".to_string(),
        tally: Tally { approve: 2, reject: 1, pass: 0 },
        open: true,
    }
}

#[test]
fn the_bound_is_five_thousand_bytes() {
    assert_eq!(MAX_VALUE_SIZE, 5000);
}

#[test]
fn check_size_admits_up_to_the_bound() {
    assert_eq!(check_size(vec![]), Ok(vec![]));
    assert_eq!(check_size(vec![7; 5000]), Ok(vec![7; 5000]));
}

#[test]
fn check_size_refuses_one_byte_more() {
    assert_eq!(check_size(vec![7; 5001]), Err(StoreError::RecordTooLarge));
}

#[test]
fn check_key_keeps_a_record_under_its_own_id() {
    assert_eq!(check_key(4, sample(4)), Ok(sample(4)));
}

#[test]
fn check_key_refuses_a_record_under_another_id() {
    assert_eq!(check_key(5, sample(4)), Err(StoreError::StorageFailure));
}

#[test]
fn encode_writes_a_candid_message() {
    let bytes = encode(&sample(4)).unwrap();
    assert_eq!(&bytes[..4], b"DIDL");
    let fields: (u64, String, String, String, u64, u64, u64, bool) =
        candid::decode_args(&bytes).unwrap();
    assert_eq!(
        fields,
        (
            4,
            "Raise the quorum".to_string(),
            "From a third to a half".to_string(),
            "alice".to_string(),
            2,
            1,
            0,
            true
        )
    );
}

#[test]
fn encode_gives_the_bytes_of_the_candid_encoder() {
    let expected = candid::encode_args((
        4u64,
        "Raise the quorum",
        "From a third to a half",
        "alice",
        2u64,
        1u64,
        0u64,
        true,
    ))
    .unwrap();
    assert_eq!(encode(&sample(4)), Ok(expected));
}

#[test]
fn decode_reads_back_what_encode_wrote() {
    let record = sample(4);
    let bytes = encode(&record).unwrap();
    assert_eq!(decode(4, &bytes), Ok(record));
}

#[test]
fn decode_reads_back_closed_records_and_full_counters() {
    let record = Proposal {
        id: u64::MAX,
        title: String::new(),
        description: "ünïcödé ✓".to_string(),
        creator: "bob".to_string(),
        tally: Tally { approve: u64::MAX, reject: 0, pass: 12345678901234567890 },
        open: false,
    };
    let bytes = encode(&record).unwrap();
    assert_eq!(decode(u64::MAX, &bytes), Ok(record));
}

#[test]
fn decode_refuses_bytes_that_are_no_message() {
    assert_eq!(decode(4, &vec![]), Err(StoreError::StorageFailure));
    assert_eq!(decode(4, &vec![1, 2, 3]), Err(StoreError::StorageFailure));
}

#[test]
fn decode_refuses_a_message_of_other_arguments() {
    let bytes = candid::encode_args((4u64, "only a title")).unwrap();
    assert_eq!(decode(4, &bytes), Err(StoreError::StorageFailure));
}

#[test]
fn decode_refuses_a_record_stored_under_another_key() {
    let bytes = encode(&sample(4)).unwrap();
    assert_eq!(decode(5, &bytes), Err(StoreError::StorageFailure));
}

#[test]
fn decode_refuses_more_bytes_than_the_bound() {
    let long = candid::encode_args((
        4u64,
        "t".repeat(6000),
        "d",
        "c",
        0u64,
        0u64,
        0u64,
        true,
    ))
    .unwrap();
    assert!(long.len() > MAX_VALUE_SIZE);
    assert_eq!(decode(4, &long), Err(StoreError::StorageFailure));
}

#[test]
fn encode_refuses_a_record_that_is_too_large() {
    let mut record = sample(4);
    record.description = "x".repeat(5000);
    assert_eq!(encode(&record), Err(StoreError::RecordTooLarge));
}

#[test]
fn encode_admits_a_record_of_exactly_the_bound() {
    let mut record = sample(4);
    record.title = String::new();
    record.description = String::new();
    record.creator = String::new();
    let overhead = encode(&record).unwrap().len();
    // A text of 128 to 16383 bytes takes two bytes for its length, an empty one takes one.
    record.description = "x".repeat(MAX_VALUE_SIZE - overhead - 1);
    let bytes = encode(&record).unwrap();
    assert_eq!(bytes.len(), MAX_VALUE_SIZE);
    record.description.push('x');
    assert_eq!(encode(&record), Err(StoreError::RecordTooLarge));
}
