use std::time::{Duration, Instant};
use time_tracker::ident::{id_to_string, new_id, parse_id};

fn wait_for_next_millisecond() {
    let started = Instant::now();
    while started.elapsed() < Duration::from_millis(2) {}
}

#[test]
fn text_of_smallest_and_greatest_id() {
    assert_eq!(id_to_string(0), "00000000000000000000000000");
    assert_eq!(id_to_string(u128::MAX), "7ZZZZZZZZZZZZZZZZZZZZZZZZZ");
}

#[test]
fn text_of_id_is_base_32_most_significant_digit_first() {
    assert_eq!(id_to_string(31), "0000000000000000000000000Z");
    assert_eq!(id_to_string(32), "00000000000000000000000010");
    assert_eq!(id_to_string(0x41414141414141414141414141414141), "21850M2GA1850M2GA1850M2GA1");
}

#[test]
fn parse_reads_both_cases() {
    let value = 0x4d4e385051444a59454234335a413756;
    assert_eq!(parse_id("2D9RW50MA499CMAGHM6DD42DTP"), Some(value));
    assert_eq!(parse_id("2d9rw50ma499cmaghm6dd42dtp"), Some(value));
}

#[test]
fn parse_refuses_wrong_length() {
    assert_eq!(parse_id(""), None);
    assert_eq!(parse_id("2D9RW50MA499CMAGHM6DD42DT"), None);
    assert_eq!(parse_id("2D9RW50MA499CMAGHM6DD42DTP0"), None);
}

#[test]
fn parse_refuses_letters_outside_the_alphabet() {
    assert_eq!(parse_id("2D9RW50MA499CMAGHM6DD42DTU"), None);
    assert_eq!(parse_id("2D9RW50MA499CMAGHM6DD42DTI"), None);
    assert_eq!(parse_id("2D9RW50MA499CMAGHM6DD42DT-"), None);
}

#[test]
fn parse_drops_bits_beyond_the_128th() {
    assert_eq!(parse_id("80000000000000000000000000"), Some(0));
    assert_eq!(parse_id("ZZZZZZZZZZZZZZZZZZZZZZZZZZ"), Some(u128::MAX));
}

#[test]
fn text_of_id_reads_back_as_the_id() {
    for id in [0u128, 1, 31, 32, 1 << 80, (1 << 80) - 1, u128::MAX / 3, u128::MAX] {
        assert_eq!(parse_id(&id_to_string(id)), Some(id));
    }
    let fresh = new_id();
    assert_eq!(parse_id(&id_to_string(fresh)), Some(fresh));
}

#[test]
fn fresh_ids_carry_the_current_time() {
    let before = std::time::SystemTime::now()
        .duration_since(std::time::UNIX_EPOCH)
        .unwrap()
        .as_millis();
    let id = new_id();
    let after = std::time::SystemTime::now()
        .duration_since(std::time::UNIX_EPOCH)
        .unwrap()
        .as_millis();
    let millis = id >> 80;
    assert!(before <= millis && millis <= after);
}

#[test]
fn ids_created_in_order_compare_in_order() {
    let mut ids = Vec::new();
    for _ in 0..5 {
        ids.push(new_id());
        wait_for_next_millisecond();
    }
    for pair in ids.windows(2) {
        assert!(pair[0] < pair[1]);
        assert!(id_to_string(pair[0]) < id_to_string(pair[1]));
    }
}
