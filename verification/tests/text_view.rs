use rusty_git_gui::text_view::{
    formatCss, onBufferChanged, onScrolled, validateCssError, CssErrorKind, Font, ScrollDirection, ScrollHandling,
    TextViewNotification, UnexpectedCssError,
};
use rusty_git_gui::decimal::pushDecimal;
use rusty_git_gui::tool_bar_stack::{isKnownStackChild, onStackChildChanged};

#[test]
fn zoomStepsByOnePointDownToOne() {
    let font = Font::new(10, "Monospace".to_string());
    assert_eq!(font.calculateHigherFontSize(), 11);
    assert_eq!(font.calculateLowerFontSize(), 9);
    assert_eq!(font.calculateNewFontSize(ScrollDirection::Up), 11);
    assert_eq!(font.calculateNewFontSize(ScrollDirection::Down), 9);
    assert_eq!(font.calculateNewFontSize(ScrollDirection::Still), 10);
    let small = Font::new(1, "Monospace".to_string());
    assert_eq!(small.calculateLowerFontSize(), 1);
    assert_eq!(small.onZoomRequested(ScrollDirection::Down), None);
}

#[test]
fn zoomInThenOutRestoresTheSize() {
    let mut font = Font::new(12, "Sans".to_string());
    let larger = font.onZoomRequested(ScrollDirection::Up).unwrap();
    font.onCssLoaded(larger);
    let smaller = font.onZoomRequested(ScrollDirection::Down).unwrap();
    font.onCssLoaded(smaller);
    assert_eq!(font.size, 12);
}

#[test]
fn refusedSizeBecomesTheLimit() {
    let mut font = Font::new(20, "Sans".to_string());
    assert_eq!(font.onZoomRequested(ScrollDirection::Up), Some(21));
    let reload = font.onCssRejected(ScrollDirection::Up);
    assert_eq!(reload, 20);
    assert_eq!(font.maxSize, Some(20));
    assert_eq!(font.onZoomRequested(ScrollDirection::Up), None);
    assert_eq!(font.onZoomRequested(ScrollDirection::Down), Some(19));
    font.onCssLoaded(19);
    assert_eq!(font.calculateHigherFontSize(), 20);
}

#[test]
fn cssNamesTheSizeAndTheQuotedFamily() {
    assert_eq!(formatCss(12, "Monospace"), "textview {font: 12pt \"Monospace\"}");
    assert_eq!(formatCss(-3, "A \"b\""), "textview {font: -3pt \"A \\\"b\\\"\"}");
    assert_eq!(formatCss(i32::MIN, "x"), format!("textview {{font: {}pt {:?}}}", i32::MIN, "x"));
}

#[test]
fn decimalTextOfIntegers() {
    for n in [0, 7, 10, 305, -1, -90, i32::MAX, i32::MIN] {
        let mut text = String::from("#");
        pushDecimal(&mut text, n);
        assert_eq!(text, format!("#{}", n));
    }
}

#[test]
fn bufferChangesNotifyFilledOrEmptied() {
    assert_eq!(onBufferChanged("", true), Some(TextViewNotification::Emptied));
    assert_eq!(onBufferChanged("", false), Some(TextViewNotification::Emptied));
    assert_eq!(onBufferChanged("text", true), Some(TextViewNotification::Filled));
    assert_eq!(onBufferChanged("text", false), None);
}

#[test]
fn onlyTheTooLargeSizeErrorIsExpected() {
    assert_eq!(validateCssError(CssErrorKind::Syntax, "<data>:1:19not a number"), Ok(()));
    assert_eq!(validateCssError(CssErrorKind::Syntax, "<data>:1:1 junk"), Err(UnexpectedCssError::Message));
    assert_eq!(validateCssError(CssErrorKind::OtherCssError, "<data>:1:19not a number"), Err(UnexpectedCssError::Kind));
    assert_eq!(validateCssError(CssErrorKind::NotCssError, ""), Err(UnexpectedCssError::NotCss));
}

#[test]
fn toolBarFollowsTheMainStackPage() {
    assert!(isKnownStackChild("Current changes"));
    assert!(isKnownStackChild("Commit log"));
    assert!(!isKnownStackChild("Settings"));
    assert_eq!(onStackChildChanged("Current changes"), "Current changes tool bar");
    assert_eq!(onStackChildChanged("Commit log"), "Commit log tool bar");
}

#[test]
fn onlyControlScrollZooms() {
    assert_eq!(onScrolled(true), ScrollHandling::ConsumeAsZoom);
    assert_eq!(onScrolled(false), ScrollHandling::Forward);
}

#[test]
fn zoomOutThenInRestoresTheSize() {
    let mut font = Font::new(9, "Sans".to_string());
    let smaller = font.onZoomRequested(ScrollDirection::Down).unwrap();
    font.onCssLoaded(smaller);
    assert_eq!(font.size, 8);
    let larger = font.onZoomRequested(ScrollDirection::Up).unwrap();
    font.onCssLoaded(larger);
    assert_eq!(font.size, 9);
}

#[test]
fn zoomStaysWithinTheLimit() {
    let mut font = Font::new(3, "Sans".to_string());
    font.maxSize = Some(4);
    assert_eq!(font.calculateNewFontSize(ScrollDirection::Up), 4);
    font.onCssLoaded(4);
    assert_eq!(font.calculateNewFontSize(ScrollDirection::Up), 4);
    font.onCssLoaded(1);
    assert_eq!(font.calculateNewFontSize(ScrollDirection::Down), 1);
}
