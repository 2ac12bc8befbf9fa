use ham_logbook::logging::{error, info, log_line};

#[test]
fn logger_accepts_operational_messages() {
    info("test startup");
    error("test error");
}

#[test]
fn log_lines_carry_time_level_and_message() {
    assert_eq!(log_line(1_700_000_000, "INFO", "ready"), "1700000000 INFO ready");
}
