use rusty_git_gui::regex_support::{buildRegex, regexIsMatch, toLowercase};
use rusty_git_gui::text_filter::{TextFilter, TextFilterError};

#[test]
fn newFilterMatchesEverything() {
    let filter = TextFilter::new();
    assert!(filter.isEmpty());
    assert!(filter.isMatch("anything"));
    assert!(filter.isMatch(""));
}

#[test]
fn plainFilterIsCaseInsensitiveByDefault() {
    let mut filter = TextFilter::new();
    assert!(filter.setText("FoO").is_ok());
    assert!(!filter.isEmpty());
    assert!(filter.isMatch("a foo bar"));
    assert!(!filter.isMatch("fo o"));
    assert!(filter.setCaseSensitivityEnabled(true).is_ok());
    assert!(!filter.isMatch("a foo bar"));
    assert!(filter.isMatch("a FoO bar"));
}

#[test]
fn plainFilterDoesNotCompileItsText() {
    let mut filter = TextFilter::new();
    assert!(filter.setText("(").is_ok());
    assert!(filter.isMatch("a(b"));
}

#[test]
fn regexFilterMatchesByPattern() {
    let mut filter = TextFilter::new();
    assert!(filter.setRegexEnabled(true).is_ok());
    assert!(filter.setText("^ab+c$").is_ok());
    assert!(filter.isMatch("ABBBC"));
    assert!(!filter.isMatch("xabc"));
    assert!(filter.setCaseSensitivityEnabled(true).is_ok());
    assert!(!filter.isMatch("ABBBC"));
    assert!(filter.isMatch("abbc"));
}

#[test]
fn invalidRegexReportsTheErrorAndMatchesNothing() {
    let mut filter = TextFilter::new();
    assert!(filter.setRegexEnabled(true).is_ok());
    let result = filter.setText("a(");
    assert!(matches!(result, Err(TextFilterError::InvalidRegex(_))));
    assert!(filter.isEmpty());
    assert!(!filter.isMatch("a("));
    assert!(filter.setText("a\\(").is_ok());
    assert!(filter.isMatch("xa(y"));
}

#[test]
fn switchingRegexOffKeepsTheTextAndOnCompilesIt() {
    let mut filter = TextFilter::new();
    assert!(filter.setText("a.c").is_ok());
    assert!(!filter.isMatch("abc"));
    assert!(filter.setRegexEnabled(true).is_ok());
    assert!(filter.isMatch("abc"));
    assert!(filter.setRegexEnabled(false).is_ok());
    assert!(!filter.isMatch("abc"));
    assert!(filter.isMatch("xa.cx"));
}

#[test]
fn switchingRegexOnWithAnInvalidTextFails() {
    let mut filter = TextFilter::new();
    assert!(filter.setText("[").is_ok());
    assert!(filter.setRegexEnabled(true).is_err());
    assert!(!filter.isMatch("["));
    assert!(filter.setRegexEnabled(false).is_ok());
    assert!(filter.isMatch("["));
}

#[test]
fn regexCallsCompileAndMatch() {
    let compiled = buildRegex("b+", false).ok().unwrap();
    assert_eq!(compiled.asStr(), "b+");
    assert!(regexIsMatch(&compiled, "abbc"));
    assert!(!regexIsMatch(&compiled, "B"));
    let insensitive = buildRegex("b+", true).ok().unwrap();
    assert!(regexIsMatch(&insensitive, "B"));
    assert!(buildRegex("(", false).is_err());
    assert_eq!(toLowercase("MiXeD Ä"), "mixed ä");
}

#[test]
fn togglingCaseSensitivityTwiceRestoresTheFilter() {
    let mut filter = TextFilter::new();
    assert!(filter.setRegexEnabled(true).is_ok());
    assert!(filter.setText("Ab").is_ok());
    let before = [filter.isMatch("ab"), filter.isMatch("AB"), filter.isMatch("xAbx")];
    assert!(filter.setCaseSensitivityEnabled(true).is_ok());
    assert!(!filter.isMatch("ab"));
    assert!(filter.setCaseSensitivityEnabled(false).is_ok());
    assert_eq!([filter.isMatch("ab"), filter.isMatch("AB"), filter.isMatch("xAbx")], before);
    assert_eq!(before, [true, true, true]);
}
