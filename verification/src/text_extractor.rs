//! The cache of the text last taken from the clipboard.
//!
//! The runtime injects the copy keystroke and reads the clipboard; what is
//! kept here is the cached text that the translation view polls, and the
//! rule that an unreadable clipboard counts as empty text rather than an
//! error.

use vstd::prelude::*;

verus! {

/// Holds the text most recently extracted from the clipboard.
pub struct TextExtractor {
    pub text_from_clipboard: String,
}

impl TextExtractor {
    /// Starts with no extracted text.
    pub fn new() -> (r: TextExtractor)
        ensures
            r.text_from_clipboard@ == Seq::<char>::empty(),
    {
        TextExtractor { text_from_clipboard: String::new() }
    }

    /// The text last extracted from the clipboard.
    pub fn text_from_clipboard(&self) -> (r: String)
        ensures
            r@ == self.text_from_clipboard@,
    {
        self.text_from_clipboard.clone()
    }

    /// Take what the clipboard read returned and cache it; a clipboard that
    /// could not be read counts as empty text.
    pub fn extract_text_from_clipboard(&mut self, clipboard_content: Option<String>)
        ensures
            final(self).text_from_clipboard@ == (match clipboard_content {
                Some(text) => text@,
                None => Seq::<char>::empty(),
            }),
    {
        self.text_from_clipboard = match clipboard_content {
            Some(text) => text,
            None => String::new(),
        };
    }
}

} // verus!
