use flipperzero_threads::{
    decode_flags, wait_options, Status, WaitMode, FLAG_NO_CLEAR, STATUS_ERROR,
    STATUS_ERROR_ISR, STATUS_ERROR_TIMEOUT,
};

#[test]
fn plain_word_is_flag_value() {
    assert_eq!(decode_flags(0), Ok(0));
    assert_eq!(decode_flags(0x1), Ok(0x1));
    assert_eq!(decode_flags(0x7fff_ffff), Ok(0x7fff_ffff));
}

#[test]
fn timeout_word_is_timeout_status() {
    assert_eq!(decode_flags(0xffff_fffe), Err(Status(STATUS_ERROR_TIMEOUT)));
    assert_eq!(decode_flags(0xffff_fffe), Err(Status(-2)));
}

#[test]
fn error_words_are_negative_statuses() {
    assert_eq!(decode_flags(0xffff_ffff), Err(Status(STATUS_ERROR)));
    assert_eq!(decode_flags(0xffff_fffa), Err(Status(STATUS_ERROR_ISR)));
    assert_eq!(decode_flags(0x8000_0000), Err(Status(i32::MIN)));
    assert_eq!(decode_flags(0x8000_0001), Err(Status(-0x7fff_ffff)));
}

#[test]
fn wait_option_words() {
    assert_eq!(wait_options(WaitMode::Any, true), 0);
    assert_eq!(wait_options(WaitMode::Any, false), 2);
    assert_eq!(wait_options(WaitMode::All, true), 1);
    assert_eq!(wait_options(WaitMode::All, false), 3);
    assert_eq!(wait_options(WaitMode::Any, false) & FLAG_NO_CLEAR, FLAG_NO_CLEAR);
}

#[test]
fn clearing_wait_reports_matched_bit() {
    // A wait for bit 0x1 that clears on wake sends no no-clear option, and a
    // wake that saw the bit reports it as a flag value.
    assert_eq!(wait_options(WaitMode::Any, true) & FLAG_NO_CLEAR, 0);
    assert_eq!(decode_flags(0x1), Ok(0x1));
    assert_eq!(decode_flags(0x0), Ok(0x0));
}
