use progressive_jackpot::randomness::{is_timed_out, request_id_for, VRF_TIMEOUT_SECONDS};

#[test]
fn request_id_spells_the_time() {
    let id = request_id_for(1_700_000_000);
    assert_eq!(&id[..8], &1_700_000_000i64.to_le_bytes());
    assert!(id[8..].iter().all(|byte| *byte == 0));
}

#[test]
fn request_id_of_time_zero_is_all_zero() {
    assert_eq!(request_id_for(0), [0u8; 32]);
}

#[test]
fn request_id_of_a_negative_time() {
    let id = request_id_for(-1);
    assert_eq!(&id[..8], &[0xffu8; 8]);
    assert!(id[8..].iter().all(|byte| *byte == 0));
    let id = request_id_for(i64::MIN);
    assert_eq!(&id[..8], &i64::MIN.to_le_bytes());
}

#[test]
fn request_id_agrees_with_std() {
    for time in [1i64, 255, 256, 65_536, i64::MAX, -2, -256, -1_700_000_000, 0x0102_0304_0506_0708] {
        let id = request_id_for(time);
        assert_eq!(&id[..8], &time.to_le_bytes());
        assert!(id[8..].iter().all(|byte| *byte == 0));
    }
}

#[test]
fn request_expires_after_an_hour() {
    assert_eq!(VRF_TIMEOUT_SECONDS, 3600);
    assert!(!is_timed_out(1_000, 1_000));
    assert!(!is_timed_out(1_000, 4_599));
    assert!(is_timed_out(1_000, 4_600));
    assert!(is_timed_out(1_000, 4_601));
}

#[test]
fn request_from_the_future_has_not_expired() {
    assert!(!is_timed_out(5_000, 1_000));
}

#[test]
fn expiry_at_the_ends_of_time() {
    assert!(is_timed_out(i64::MIN, i64::MAX));
    assert!(!is_timed_out(i64::MAX, i64::MIN));
    assert!(is_timed_out(-1, i64::MAX));
}
