//! The decisions of a text view: its font zoom, the notifications it sends
//! when its text changes, and the style sheet text that sets its font.
use vstd::prelude::*;
use crate::decimal::{decimalText, pushDecimal};
use crate::text::textEq;

verus! {

/// Which way a zoom request scrolls: `Up` for a negative vertical delta,
/// `Down` for a positive one, `Still` for none.
#[derive(Clone, Copy, Debug, PartialEq, Eq, Structural)]
pub enum ScrollDirection {
    Up,
    Down,
    Still,
}

/// The font of a text view: its size in points and, once a size was refused
/// by the style sheet parser, the largest size known to be accepted.
pub struct Font {
    pub size: i32,
    pub maxSize: Option<i32>,
    pub family: String,
}

/// The next larger font size: one point more, but no more than `maxSize`.
pub open spec fn higherFontSize(size: int, maxSize: Option<i32>) -> int {
    match maxSize {
        Some(max) => if size + 1 <= max { size + 1 } else { max as int },
        None => size + 1,
    }
}

/// The next smaller font size: one point less, but at least 1.
pub open spec fn lowerFontSize(size: int) -> int {
    if size - 1 >= 1 {
        size - 1
    } else {
        1
    }
}

/// The font size that a scroll in `direction` asks for.
pub open spec fn requestedFontSize(size: int, maxSize: Option<i32>, direction: ScrollDirection) -> int {
    match direction {
        ScrollDirection::Up => higherFontSize(size, maxSize),
        ScrollDirection::Down => lowerFontSize(size),
        ScrollDirection::Still => size,
    }
}

impl Font {
    /// A font of `size` points in `family`, with no known limit.
    pub fn new(size: i32, family: String) -> (font: Self)
        ensures
            font.size == size,
            font.maxSize is None,
            font.family@ == family@,
    {
        Font { size, maxSize: None, family }
    }

    /// The size one step larger than the current one.
    pub fn calculateHigherFontSize(&self) -> (newSize: i32)
        requires
            self.size < i32::MAX,
        ensures
            newSize == higherFontSize(self.size as int, self.maxSize),
    {
        match self.maxSize {
            Some(maxSize) => if self.size + 1 <= maxSize {
                self.size + 1
            } else {
                maxSize
            },
            None => self.size + 1,
        }
    }

    /// The size one step smaller than the current one.
    pub fn calculateLowerFontSize(&self) -> (newSize: i32)
        requires
            self.size > i32::MIN,
        ensures
            newSize == lowerFontSize(self.size as int),
    {
        if self.size - 1 >= 1 {
            self.size - 1
        } else {
            1
        }
    }

    /// The size that a scroll in `direction` asks for.
    pub fn calculateNewFontSize(&self, direction: ScrollDirection) -> (newSize: i32)
        requires
            i32::MIN < self.size < i32::MAX,
        ensures
            newSize == requestedFontSize(self.size as int, self.maxSize, direction),
    {
        match direction {
            ScrollDirection::Up => self.calculateHigherFontSize(),
            ScrollDirection::Down => self.calculateLowerFontSize(),
            ScrollDirection::Still => self.size,
        }
    }

    /// What a zoom request leads to: `None` when the size would stay the same,
    /// else the size for which a style sheet is to be loaded.
    pub fn onZoomRequested(&self, direction: ScrollDirection) -> (toLoad: Option<i32>)
        requires
            i32::MIN < self.size < i32::MAX,
        ensures
            toLoad == (if requestedFontSize(self.size as int, self.maxSize, direction) == self.size {
                None::<i32>
            } else {
                Some(requestedFontSize(self.size as int, self.maxSize, direction) as i32)
            }),
    {
        let newSize = self.calculateNewFontSize(direction);
        if newSize == self.size {
            None
        } else {
            Some(newSize)
        }
    }

    /// The style sheet for `newSize` was loaded: it becomes the current size.
    pub fn onCssLoaded(&mut self, newSize: i32)
        ensures
            final(self).size == newSize,
            final(self).maxSize == old(self).maxSize,
            final(self).family@ == old(self).family@,
    {
        self.size = newSize;
    }

    /// The style sheet for a larger size was refused: the current size becomes
    /// the limit, and the size to load in its place is returned.
    pub fn onCssRejected(&mut self, direction: ScrollDirection) -> (toLoad: i32)
        requires
            i32::MIN < old(self).size < i32::MAX,
        ensures
            final(self).size == old(self).size,
            final(self).maxSize == Some(old(self).size),
            final(self).family@ == old(self).family@,
            toLoad == requestedFontSize(old(self).size as int, Some(old(self).size), direction),
    {
        self.maxSize = Some(self.size);
        self.calculateNewFontSize(direction)
    }
}

/// Zooming in and then out gives back the size one started from, as long as no
/// limit stops the first step and the size is at least 1.
pub proof fn lemma_zoom_in_then_out_restores(size: int, maxSize: Option<i32>)
    requires
        size >= 1,
        maxSize matches Some(max) ==> size < max,
    ensures
        lowerFontSize(higherFontSize(size, maxSize)) == size,
{
}

/// Zooming out and then in gives back the size one started from, for a size
/// above 1 that respects the limit.
pub proof fn lemma_zoom_out_then_in_restores(size: int, maxSize: Option<i32>)
    requires
        size > 1,
        maxSize matches Some(max) ==> size <= max,
    ensures
        higherFontSize(lowerFontSize(size), maxSize) == size,
{
}

/// A size of at least 1 that respects the limit keeps both after any zoom step.
pub proof fn lemma_zoom_stays_in_bounds(size: int, maxSize: Option<i32>, direction: ScrollDirection)
    requires
        size >= 1,
        maxSize matches Some(max) ==> size <= max,
    ensures
        requestedFontSize(size, maxSize, direction) >= 1,
        maxSize matches Some(max) ==> requestedFontSize(size, maxSize, direction) <= max,
{
}

/// Once a size was refused, asking for a larger one loads the current size again.
pub proof fn lemma_refused_size_is_not_asked_again(size: int)
    requires
        i32::MIN <= size <= i32::MAX,
    ensures
        higherFontSize(size, Some(size as i32)) == size,
{
}

/// What becomes of a scroll over a text view.
#[derive(Clone, Copy, Debug, PartialEq, Eq, Structural)]
pub enum ScrollHandling {
    /// The scroll goes on to the default handler, which scrolls the text.
    Forward,
    /// The scroll is a zoom request and goes no further.
    ConsumeAsZoom,
}

/// A scroll with the control key held is a zoom request; any other scrolls the text.
pub fn onScrolled(controlHeld: bool) -> (handling: ScrollHandling)
    ensures
        handling == (if controlHeld { ScrollHandling::ConsumeAsZoom } else { ScrollHandling::Forward }),
{
    if controlHeld {
        ScrollHandling::ConsumeAsZoom
    } else {
        ScrollHandling::Forward
    }
}

/// What a text view reports when its text changes.
#[derive(Clone, Copy, Debug, PartialEq, Eq, Structural)]
pub enum TextViewNotification {
    Filled,
    Emptied,
}

/// The notification owed after the text became `text`: `Emptied` for an empty
/// text, `Filled` for another one when filling is reported, else none.
pub fn onBufferChanged(text: &str, shouldNotifyOnFilled: bool) -> (notification: Option<TextViewNotification>)
    ensures
        text@.len() == 0 ==> notification == Some(TextViewNotification::Emptied),
        text@.len() > 0 && shouldNotifyOnFilled ==> notification == Some(TextViewNotification::Filled),
        text@.len() > 0 && !shouldNotifyOnFilled ==> notification is None,
{
    proof {
        reveal_strlit("");
        if text@.len() == 0 {
            assert(text@ =~= ""@);
        }
    }
    if textEq(text, "") {
        Some(TextViewNotification::Emptied)
    } else if shouldNotifyOnFilled {
        Some(TextViewNotification::Filled)
    } else {
        None
    }
}

/// The text that `{:?}` gives of a string: the string quoted, with escapes.
pub uninterp spec fn debugQuoted(text: Seq<char>) -> Seq<char>;

/// Formats `text` with `{:?}`; trusted to give `debugQuoted` of its characters.
#[verifier::external_body]
fn debugQuote(text: &str) -> (quoted: String)
    ensures
        quoted@ == debugQuoted(text@),
{
    format!("{:?}", text)
}

/// The style sheet that gives a text view a font of `fontSize` points in
/// `quotedFamily`, the family's quoted name.
pub open spec fn cssText(fontSize: int, quotedFamily: Seq<char>) -> Seq<char> {
    "textview {font: "@ + decimalText(fontSize) + "pt "@ + quotedFamily + "}"@
}

/// The style sheet that sets the font of a text view to `fontSize` points of
/// the family `family`.
pub fn formatCss(fontSize: i32, family: &str) -> (css: String)
    ensures
        css@ == cssText(fontSize as int, debugQuoted(family@)),
{
    let mut css = String::new();
    css.append("textview {font: ");
    pushDecimal(&mut css, fontSize);
    css.append("pt ");
    let quoted = debugQuote(family);
    css.append(quoted.as_str());
    css.append("}");
    proof {
        assert(css@ =~= cssText(fontSize as int, debugQuoted(family@)));
    }
    css
}

/// What a style sheet error was, as far as the check below needs it.
#[derive(Clone, Copy, Debug, PartialEq, Eq, Structural)]
pub enum CssErrorKind {
    /// A style sheet syntax error.
    Syntax,
    /// Another error of the style sheet parser.
    OtherCssError,
    /// An error that does not come from the style sheet parser.
    NotCssError,
}

/// Why a style sheet error was not the one that a too large font size causes.
#[derive(Clone, Copy, Debug, PartialEq, Eq, Structural)]
pub enum UnexpectedCssError {
    Message,
    Kind,
    NotCss,
}

/// Checks that a refused style sheet failed only because its font size was too
/// large: a syntax error with the message that the parser gives then.
pub fn validateCssError(kind: CssErrorKind, message: &str) -> (checked: Result<(), UnexpectedCssError>)
    ensures
        kind == CssErrorKind::Syntax && message@ == "<data>:1:19not a number"@ ==> checked is Ok,
        kind == CssErrorKind::Syntax && message@ != "<data>:1:19not a number"@ ==> checked
            == Err::<(), UnexpectedCssError>(UnexpectedCssError::Message),
        kind == CssErrorKind::OtherCssError ==> checked == Err::<(), UnexpectedCssError>(UnexpectedCssError::Kind),
        kind == CssErrorKind::NotCssError ==> checked == Err::<(), UnexpectedCssError>(UnexpectedCssError::NotCss),
{
    match kind {
        CssErrorKind::Syntax => if textEq(message, "<data>:1:19not a number") {
            Ok(())
        } else {
            Err(UnexpectedCssError::Message)
        },
        CssErrorKind::OtherCssError => Err(UnexpectedCssError::Kind),
        CssErrorKind::NotCssError => Err(UnexpectedCssError::NotCss),
    }
}

} // verus!
