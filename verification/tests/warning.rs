use car_telemetry::warning::{error_code_text, pedal_fault_text, push_decimal};

#[test]
fn pedal_fault_warning_text() {
    assert_eq!(pedal_fault_text(), "Warning: Recent pedal fault detected!");
}

#[test]
fn error_code_warning_text() {
    assert_eq!(error_code_text(1), "Warning: Error code 1");
    assert_eq!(error_code_text(10), "Warning: Error code 10");
    assert_eq!(error_code_text(305), "Warning: Error code 305");
    assert_eq!(error_code_text(4660), "Warning: Error code 4660");
    assert_eq!(error_code_text(65535), "Warning: Error code 65535");
    assert_eq!(error_code_text(0), "Warning: Error code 0");
}

#[test]
fn error_code_warning_text_for_every_code() {
    for code in 0..=u16::MAX {
        assert_eq!(error_code_text(code), format!("Warning: Error code {}", code));
    }
}

#[test]
fn push_decimal_appends_the_numeral() {
    let mut text = String::from("n=");
    push_decimal(&mut text, 0);
    assert_eq!(text, "n=0");
    push_decimal(&mut text, 9);
    assert_eq!(text, "n=09");
    push_decimal(&mut text, 100);
    assert_eq!(text, "n=09100");
    push_decimal(&mut text, 60001);
    assert_eq!(text, "n=0910060001");
}
