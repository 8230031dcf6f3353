use twofauth_client::models::TwoFAccount;
use twofauth_client::otp::{
    begin_otp_request, counter_label, current_period_index, format_otp, needs_refresh, otp_details,
    remaining_ms, seconds_left, server_clock_ms, start_otp_clock, OtpSettings,
};

fn account(otp_type: &str, digits: u32, period: Option<u32>) -> TwoFAccount {
    TwoFAccount {
        id: 1,
        service: "GitHub".to_string(),
        account: "alice".to_string(),
        otp_type: otp_type.to_string(),
        algorithm: "sha256".to_string(),
        digits,
        period,
        counter: None,
        group_id: None,
        icon: None,
    }
}

#[test]
fn codes_are_split_for_reading() {
    assert_eq!(format_otp("123456", 6), "123 456");
    assert_eq!(format_otp("12345678", 8), "1234 5678");
    assert_eq!(format_otp("1234567", 7), "123 4567");
    assert_eq!(format_otp("12345", 5), "12 345");
    assert_eq!(format_otp("1234", 4), "1234");
}

#[test]
fn other_codes_are_shown_unchanged() {
    assert_eq!(format_otp("123456", 8), "123456");
    assert_eq!(format_otp("12a456", 6), "12a456");
    assert_eq!(format_otp("", 0), "");
    assert_eq!(format_otp("１２３４５６", 6), "１２３４５６");
}

#[test]
fn settings_follow_the_account() {
    let totp = OtpSettings::for_account(&account("TOTP", 0, None));
    assert!(totp.is_totp);
    assert_eq!(totp.digits, 1);
    assert_eq!(totp.period, 30);
    let hotp = OtpSettings::for_account(&account("hotp", 8, Some(0)));
    assert!(!hotp.is_totp);
    assert_eq!(hotp.digits, 8);
    assert_eq!(hotp.period, 1);
    let steam = OtpSettings::for_account(&account("steamtotp", 5, Some(60)));
    assert!(!steam.is_totp);
    assert_eq!(steam.period, 60);
}

#[test]
fn details_and_counter_lines() {
    assert_eq!(otp_details(&account("totp", 6, None), 6, "digits"), "TOTP \u{b7} SHA256 \u{b7} 6 digits");
    assert_eq!(counter_label(Some(12), "Counter"), "Counter: 12");
    assert_eq!(counter_label(None, "Counter"), "HOTP");
}

#[test]
fn countdown_and_refresh() {
    let clock = start_otp_clock(Some(784111777), 5, 30);
    assert_eq!(clock.server_ms, 784_111_777_000);
    assert_eq!(clock.period_index, 784111777 / 30);
    // without a server date the local time counts to the millisecond
    let local = start_otp_clock(None, 95_400, 30);
    assert_eq!(local.server_ms, 95_400);
    assert_eq!(local.period_index, 3);
    assert_eq!(start_otp_clock(Some(u64::MAX), 0, 30).server_ms, u64::MAX);

    assert_eq!(server_clock_ms(90_000, 250), 90_250);
    assert_eq!(server_clock_ms(u64::MAX - 10, 999_999), u64::MAX);
    assert_eq!(seconds_left(90_000, 30), 30);
    assert_eq!(seconds_left(90_001, 30), 30);
    assert_eq!(seconds_left(119_000, 30), 1);
    assert_eq!(seconds_left(119_999, 30), 1);
    assert_eq!(seconds_left(100_500, 30), 20);
    assert_eq!(remaining_ms(100_500, 30), 19_500);
    assert_eq!(current_period_index(119_999, 30), 3);
    assert_eq!(current_period_index(120_000, 30), 4);
    assert!(!needs_refresh(server_clock_ms(95_000, 400), 30, 3, false));
    // the code of a period is kept until the period has run out
    assert!(!needs_refresh(server_clock_ms(95_400, 24_599), 30, 3, false));
    assert!(needs_refresh(server_clock_ms(95_400, 24_600), 30, 3, false));
    assert!(needs_refresh(120_000, 30, 3, false));
    assert!(!needs_refresh(120_000, 30, 3, true));
}

#[test]
fn one_code_request_at_a_time() {
    let mut in_progress = false;
    assert!(begin_otp_request(&mut in_progress));
    assert!(in_progress);
    assert!(!begin_otp_request(&mut in_progress));
    assert!(in_progress);
}
