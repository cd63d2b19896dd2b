//! Failures when reading GTK text buffers.
use vstd::prelude::*;

verus! {

/// A text view without a buffer, or a buffer without text.
#[derive(Clone, Copy, Debug, PartialEq, Eq, Structural)]
pub enum ErrorKind {
    NoneTextViewBuffer,
    NoneTextBufferContent,
}

impl ErrorKind {
    /// The message that describes the error.
    pub fn message(&self) -> (text: &'static str)
        ensures
            text@ == match self {
                ErrorKind::NoneTextViewBuffer => "gtk::TextView::get_buffer() returned None."@,
                ErrorKind::NoneTextBufferContent => "gtk::TextBuffer::get_text() returned None."@,
            },
    {
        match self {
            ErrorKind::NoneTextViewBuffer => "gtk::TextView::get_buffer() returned None.",
            ErrorKind::NoneTextBufferContent => "gtk::TextBuffer::get_text() returned None.",
        }
    }
}

} // verus!
