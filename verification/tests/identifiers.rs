use mind::clock::{nanos_to_timestamp, timestamp_from_elapsed, StoreClock};
use mind::compact_id::CompactGraphIdentifier;
use mind::graph_admission::next_graph_token;
use mind::knowledge_identity::{big_endian_u64, KnowledgeIdentityCodeRange, KnowledgeIdentityMint};
use mind::radix::padded_radix_digits;

#[test]
fn compact_identifiers_count_up_from_aaa() {
    let tokens: Vec<String> = (0..4u64)
        .map(|value| CompactGraphIdentifier::from_zero_based_sequence(value).into_string())
        .collect();
    assert_eq!(tokens, vec!["aaa", "aab", "aac", "aad"]);
}

#[test]
fn compact_identifiers_carry_into_the_next_letter() {
    assert_eq!(CompactGraphIdentifier::from_zero_based_sequence(25).into_string(), "aaz");
    assert_eq!(CompactGraphIdentifier::from_zero_based_sequence(26).into_string(), "aba");
    assert_eq!(CompactGraphIdentifier::from_zero_based_sequence(26 * 26 * 26 - 1).into_string(), "zzz");
    assert_eq!(CompactGraphIdentifier::from_zero_based_sequence(26 * 26 * 26).into_string(), "baaa");
}

#[test]
fn one_based_sequence_starts_at_aaa() {
    assert_eq!(CompactGraphIdentifier::from_one_based_sequence(1).into_string(), "aaa");
    assert_eq!(CompactGraphIdentifier::from_one_based_sequence(2).into_string(), "aab");
    assert_eq!(CompactGraphIdentifier::from_one_based_sequence(0).into_string(), "aaa");
}

#[test]
fn graph_tokens_from_distinct_snapshots_never_collide() {
    let tokens: Vec<String> = (1..=700u64).map(next_graph_token).collect();
    for (i, a) in tokens.iter().enumerate() {
        assert!(a.len() >= 3);
        assert!(a.chars().all(|c| c.is_ascii_lowercase()));
        for b in tokens.iter().skip(i + 1) {
            assert_ne!(a, b);
        }
    }
}

#[test]
fn padded_radix_digits_are_most_significant_first() {
    assert_eq!(padded_radix_digits(0, 26, 3), vec![0, 0, 0]);
    assert_eq!(padded_radix_digits(27, 26, 3), vec![0, 1, 1]);
    assert_eq!(padded_radix_digits(36 * 36 * 36 * 36, 36, 4), vec![1, 0, 0, 0, 0]);
}

#[test]
fn knowledge_codes_are_base_36_padded_to_four() {
    assert_eq!(KnowledgeIdentityCodeRange::code_from_value(0), "0000");
    assert_eq!(KnowledgeIdentityCodeRange::code_from_value(35), "000z");
    assert_eq!(KnowledgeIdentityCodeRange::code_from_value(36), "0010");
    assert_eq!(KnowledgeIdentityCodeRange::code_from_value(36 * 36 * 36 * 36), "10000");
    assert_eq!(KnowledgeIdentityCodeRange::digit_character(9), '9');
    assert_eq!(KnowledgeIdentityCodeRange::digit_character(10), 'a');
    assert_eq!(KnowledgeIdentityCodeRange::radix_power(0), 1);
    assert_eq!(KnowledgeIdentityCodeRange::radix_power(3), 46_656);
}

#[test]
fn code_ranges_split_values_by_code_length() {
    let four = KnowledgeIdentityCodeRange::new(4);
    assert_eq!((four.first_value, four.value_count), (0, 36u64.pow(4)));
    let five = KnowledgeIdentityCodeRange::new(5);
    assert_eq!((five.first_value, five.value_count), (36u64.pow(4), 36u64.pow(5) - 36u64.pow(4)));
    assert_eq!(five.identity_from_random_value(0), "10000");
    assert_eq!(four.identity_from_random_value(36u64.pow(4) + 1), "0001");
}

#[test]
fn first_available_identity_skips_used_codes() {
    let range = KnowledgeIdentityCodeRange::new(4);
    let used = vec!["0000".to_string(), "0001".to_string(), "0003".to_string()];
    assert_eq!(range.first_available_identity(&used), Some("0002".to_string()));
}

#[test]
fn random_identity_has_the_range_length() {
    let range = KnowledgeIdentityCodeRange::new(5);
    let identity = range.random_identity().expect("randomness is available");
    assert_eq!(identity.len(), 5);
    assert!(identity.chars().all(|c| c.is_ascii_digit() || c.is_ascii_lowercase()));
}

#[test]
fn minted_identity_is_fresh() {
    let used: Vec<String> = (0..50u64).map(KnowledgeIdentityCodeRange::code_from_value).collect();
    let mint = KnowledgeIdentityMint::from_identities(used.clone());
    let identity = mint.next_identity().expect("an identity is minted");
    assert!(!used.contains(&identity));
    assert_eq!(identity.len(), 4);
}

#[test]
fn big_endian_bytes_read_most_significant_first() {
    assert_eq!(big_endian_u64(&[0, 0, 0, 0, 0, 0, 1, 2]), 258);
    assert_eq!(big_endian_u64(&[0xff; 8]), u64::MAX);
}

#[test]
fn timestamps_saturate_at_the_largest_u64() {
    assert_eq!(nanos_to_timestamp(17), 17);
    assert_eq!(nanos_to_timestamp(u128::from(u64::MAX) + 5), u64::MAX);
    let stamp = StoreClock::system().timestamp().expect("system time is after the epoch");
    assert!(stamp > 0);
}

#[test]
fn distinct_values_have_distinct_knowledge_codes() {
    let codes: Vec<String> = (0..3000u64).step_by(7).map(KnowledgeIdentityCodeRange::code_from_value).collect();
    for (i, a) in codes.iter().enumerate() {
        for b in codes.iter().skip(i + 1) {
            assert_ne!(a, b);
        }
    }
}

#[test]
fn a_draw_of_random_bytes_picks_a_code_in_the_range() {
    let five = KnowledgeIdentityCodeRange::new(5);
    assert_eq!(five.identity_from_draw(Ok([0; 8])), Ok("10000".to_string()));
    assert_eq!(five.identity_from_draw(Ok([0, 0, 0, 0, 0, 0, 0, 1])), Ok("10001".to_string()));
    assert_eq!(five.identity_from_draw(Err(getrandom::Error::UNSUPPORTED)), Err(()));
}

#[test]
fn elapsed_time_becomes_a_commit_time() {
    assert_eq!(timestamp_from_elapsed(Some(42)), Ok(42));
    assert_eq!(timestamp_from_elapsed(Some(u128::MAX)), Ok(u64::MAX));
    assert_eq!(timestamp_from_elapsed(None), Err(()));
}
