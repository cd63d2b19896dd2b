use rusty_git_gui::settings::Settings;

#[test]
fn settingReadsBackWhatWasSet() {
    let mut settings = Settings::new(ini::Ini::new());
    assert_eq!(settings.getI32("Main pane", "position", 400), 400);
    settings.setI32("Main pane", "position", 250);
    assert_eq!(settings.getI32("Main pane", "position", 400), 250);
    settings.setI32("Main pane", "position", -7);
    assert_eq!(settings.getI32("Main pane", "position", 400), -7);
    assert_eq!(settings.config().get_from(Some("Main pane"), "position"), Some("-7"));
}

#[test]
fn settingLeavesOtherSettingsAlone() {
    let config = ini::Ini::load_from_str("[Repository]\ndiffContextSize = 5\n[Pane]\nposition = wide\n").unwrap();
    let mut settings = Settings::new(config);
    assert_eq!(settings.getI32("Repository", "diffContextSize", 3), 5);
    assert_eq!(settings.getI32("Pane", "position", 100), 100);
    settings.setI32("Pane", "position", 120);
    assert_eq!(settings.getI32("Repository", "diffContextSize", 3), 5);
    assert_eq!(settings.getI32("Pane", "position", 100), 120);
    assert_eq!(settings.getI32("Pane", "other", 1), 1);
}

#[test]
fn settingReadsTheLastWriteOfItsKey() {
    let mut settings = Settings::new(ini::Ini::new());
    settings.setI32("Pane", "position", 3);
    settings.setI32("Pane", "width", 4);
    settings.setI32("Pane", "position", 7);
    settings.setI32("Other", "position", 9);
    assert_eq!(settings.getI32("Pane", "position", 1), 7);
    assert_eq!(settings.getI32("Pane", "width", 1), 4);
    assert_eq!(settings.getI32("Other", "position", 1), 9);
    assert_eq!(settings.getI32("Other", "width", 1), 1);
}
