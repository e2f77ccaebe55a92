use proof_of_work::winning_hash;

#[test]
fn difficulty_zero_accepts_any_digest() {
    assert!(winning_hash(String::from("ffff"), 0));
    assert!(winning_hash(String::from("0000"), 0));
    assert!(winning_hash(String::from("not a digest"), 0));
    assert!(winning_hash(String::new(), 0));
}

#[test]
fn difficulty_one_looks_at_the_first_character() {
    assert!(winning_hash(String::from("0"), 1));
    assert!(winning_hash(String::from("0fff"), 1));
    assert!(winning_hash(String::from("00ff"), 1));
    assert!(!winning_hash(String::from("1000"), 1));
    assert!(!winning_hash(String::from("f000"), 1));
    assert!(!winning_hash(String::from("a"), 1));
}

#[test]
fn the_whole_prefix_must_be_zeros() {
    assert!(winning_hash(String::from("000a"), 3));
    assert!(!winning_hash(String::from("000a"), 4));
    assert!(!winning_hash(String::from("0a00"), 2));
    assert!(!winning_hash(String::from("00a0"), 3));
    assert!(winning_hash(String::from("00a0"), 2));
}

#[test]
fn characters_past_the_difficulty_are_not_read() {
    assert!(winning_hash(String::from("00zz"), 2));
    assert!(winning_hash(String::from("0\u{e9}\u{4e16}"), 1));
}

#[test]
fn a_digest_shorter_than_the_difficulty_wins_when_it_is_all_zeros() {
    assert!(winning_hash(String::from("000"), 4));
    assert!(winning_hash(String::from("000"), 200));
    assert!(winning_hash(String::from("0"), u16::MAX));
}

#[test]
fn a_digest_shorter_than_the_difficulty_loses_on_any_other_character() {
    assert!(!winning_hash(String::from("001"), 4));
    assert!(!winning_hash(String::from("100"), 200));
    assert!(!winning_hash(String::from("0a"), 5));
}

#[test]
fn the_empty_digest_wins_at_every_difficulty() {
    assert!(winning_hash(String::new(), 1));
    assert!(winning_hash(String::new(), 128));
    assert!(winning_hash(String::new(), u16::MAX));
}

#[test]
fn only_the_digit_zero_counts() {
    assert!(!winning_hash(String::from("O000"), 1));
    assert!(!winning_hash(String::from(" 000"), 1));
    assert!(!winning_hash(String::from("\u{0}000"), 1));
    assert!(!winning_hash(String::from("\u{ff10}000"), 1));
    assert!(!winning_hash(String::from("0\u{660}"), 2));
}

#[test]
fn characters_are_counted_not_bytes() {
    assert!(!winning_hash(String::from("0\u{e9}0"), 2));
    assert!(!winning_hash(String::from("\u{e9}0"), 1));
    assert!(!winning_hash(String::from("00\u{4e16}"), 5));
}

#[test]
fn a_full_length_digest_of_zeros_wins_at_128_and_beyond() {
    let zeros = "0".repeat(128);
    assert!(winning_hash(zeros.clone(), 128));
    assert!(winning_hash(zeros.clone(), 129));
    let mut almost = "0".repeat(127);
    almost.push('1');
    assert!(winning_hash(almost.clone(), 127));
    assert!(!winning_hash(almost, 128));
}
