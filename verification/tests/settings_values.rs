use rusty_git_gui::settings_values::{i32SettingOrDefault, i32SettingText, parseI32};

#[test]
fn parsingAgreesWithTheStandardLibrary() {
    let samples = [
        "0", "42", "+42", "-42", "-0", "007", "2147483647", "2147483648", "-2147483648", "-2147483649",
        "", "+", "-", "1a", " 1", "1 ", "99999999999999999999", "--1", "+-1", "١",
    ];
    for sample in samples {
        assert_eq!(parseI32(sample), sample.parse::<i32>().ok(), "sample {:?}", sample);
    }
}

#[test]
fn settingFallsBackToTheDefault() {
    assert_eq!(i32SettingOrDefault(Some("250"), 100), 250);
    assert_eq!(i32SettingOrDefault(Some("wide"), 100), 100);
    assert_eq!(i32SettingOrDefault(None, 100), 100);
    assert_eq!(i32SettingOrDefault(Some("-5"), 100), -5);
}

#[test]
fn storedSettingReadsBack() {
    for value in [0, 1, -1, 300, -4096, i32::MAX, i32::MIN] {
        let text = i32SettingText(value);
        assert_eq!(text, value.to_string());
        assert_eq!(i32SettingOrDefault(Some(&text), 17), value);
    }
}
