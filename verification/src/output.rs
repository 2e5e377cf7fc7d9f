//! The in-memory output target plugin code writes to.
//!
//! A collector reads a plugin's answer from standard output; the
//! verified core instead accumulates everything in an [`OutputBuffer`],
//! whose view is the sequence of characters written so far.  The caller
//! flushes the finished buffer to its real output stream in one step,
//! which preserves the order of every write.

use vstd::prelude::*;
use vstd::string::StringExecFns;

verus! {

/// An append-only text buffer; its view is all text written so far.
pub struct OutputBuffer {
    text: String,
}

impl View for OutputBuffer {
    type V = Seq<char>;

    closed spec fn view(&self) -> Seq<char> {
        self.text@
    }
}

impl OutputBuffer {
    /// An empty buffer.
    pub fn new() -> (r: Self)
        ensures
            r@ == Seq::<char>::empty(),
    {
        OutputBuffer { text: String::new() }
    }

    /// Append `s` as it stands.
    pub fn write_str(&mut self, s: &str)
        ensures
            final(self)@ == old(self)@ + s@,
    {
        self.text.append(s);
    }

    /// Append `s` followed by a newline.
    pub fn write_line(&mut self, s: &str)
        ensures
            final(self)@ == old(self)@ + s@ + "\n"@,
    {
        self.text.append(s);
        self.text.append("\n");
    }

    /// Append an owned string's text.
    pub fn write_string(&mut self, s: &String)
        ensures
            final(self)@ == old(self)@ + s@,
    {
        self.text.append(s.as_str());
    }

    /// The accumulated text, for the caller to flush.
    pub fn into_string(self) -> (r: String)
        ensures
            r@ == self@,
    {
        self.text
    }

    /// Borrow the accumulated text.
    pub fn as_str(&self) -> (r: &str)
        ensures
            r@ == self@,
    {
        self.text.as_str()
    }
}

} // verus!
