use spectral_renderer::util::{get_id, is_time_even, seconds_even, IdCounter};
use std::time::{SystemTime, UNIX_EPOCH};

#[test]
fn ids_count_up_from_zero() {
    let mut counter = IdCounter::new();
    assert_eq!(get_id(&mut counter), 0);
    assert_eq!(get_id(&mut counter), 1);
    assert_eq!(get_id(&mut counter), 2);
}

#[test]
fn seconds_parity() {
    assert!(seconds_even(0));
    assert!(!seconds_even(1));
    assert!(seconds_even(1_000_000_000));
    assert!(!seconds_even(1_000_000_001));
}

#[test]
fn time_parity_follows_the_clock() {
    let before = SystemTime::now().duration_since(UNIX_EPOCH).unwrap().as_secs();
    let blink = is_time_even();
    let after = SystemTime::now().duration_since(UNIX_EPOCH).unwrap().as_secs();
    if before == after {
        assert_eq!(blink, before % 2 == 0);
    }
}
