//! Where a node came from in the source text.

use vstd::prelude::*;
use vstd::string::*;
use crate::text::{debug_quoted, debug_text, decimal_digits, decimal_text, trim_text, trimmed};

verus! {

/// The part of the source text that a node matched: its byte span, the
/// position of its first character, and the matched text itself.
#[derive(Clone, Debug)]
pub struct Providence {
    /// The byte offset at which the match starts.
    pub start: usize,
    /// The byte offset just behind the match.
    pub end: usize,
    /// The line of the first matched character, counted from 1.
    pub line: usize,
    /// The column of the first matched character, counted from 1.
    pub column: usize,
    /// The matched text.
    pub src: String,
}

/// The mathematical content of a [`Providence`].
pub struct ProvidenceView {
    pub start: nat,
    pub end: nat,
    pub line: nat,
    pub column: nat,
    pub src: Seq<char>,
}

impl View for Providence {
    type V = ProvidenceView;

    open spec fn view(&self) -> ProvidenceView {
        ProvidenceView {
            start: self.start as nat,
            end: self.end as nat,
            line: self.line as nat,
            column: self.column as nat,
            src: self.src@,
        }
    }
}

/// The excerpt that diagnostics show of `s`: the whole text quoted when it
/// takes at most `len` bytes, else its first `len` characters quoted, with
/// two dots behind the closing quote.
pub open spec fn trunc_spec(s: Seq<char>, len: nat) -> Seq<char> {
    if vstd::utf8::encode_utf8(s).len() <= len {
        debug_quoted(s)
    } else if len < s.len() {
        debug_quoted(s.subrange(0, len as int)) + ".."@
    } else {
        debug_quoted(s) + ".."@
    }
}

/// The quoted excerpt of at most `len` characters of `s`.
pub fn trunc(s: &str, len: usize) -> (r: String)
    ensures
        r@ == trunc_spec(s@, len as nat),
{
    if s.as_bytes().len() <= len {
        debug_text(s)
    } else {
        let count = s.unicode_len();
        let kept = if len < count { len } else { count };
        let head = s.substring_char(0, kept);
        assert(s@.subrange(0, s@.len() as int) == s@);
        let mut quoted = debug_text(head);
        quoted.append("..");
        quoted
    }
}

impl ProvidenceView {
    /// The description that diagnostics show of a position and its text.
    pub open spec fn description(self) -> Seq<char> {
        "At "@ + decimal_digits(self.line) + ":"@ + decimal_digits(self.column)
            + ", source code: "@ + trunc_spec(self.src, 40)
    }
}

impl Providence {

    /// The matched text.
    pub fn as_string(&self) -> (s: String)
        ensures
            s@ == self@.src,
    {
        self.src.clone()
    }

    /// The matched text without its leading and trailing white space.
    pub fn as_trimmed_string(&self) -> (s: String)
        ensures
            s@ == trimmed(self@.src),
    {
        trim_text(self.src.as_str())
    }

    /// "At line:column, source code: excerpt", the excerpt being at most 40
    /// characters of the matched text.
    pub fn describe(&self) -> (s: String)
        ensures
            s@ == self@.description(),
    {
        let mut out = String::from_str("At ");
        out.append(decimal_text(self.line).as_str());
        out.append(":");
        out.append(decimal_text(self.column).as_str());
        out.append(", source code: ");
        out.append(trunc(self.src.as_str(), 40).as_str());
        out
    }
}

} // verus!
