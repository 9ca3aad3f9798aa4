//! Failure facts and their bounded diagnostic tail.

use vstd::prelude::*;

use vstd::utf8::{encode_utf8, encode_scalar, char_is_scalar};

use crate::model::{Duplicate, SameView};
use crate::{FailureFacts, FailureFactsView, FailureKind};

verus! {

/// Durable byte bound for diagnostic tails. Enforced by the only
/// constructor and re-enforced during journal replay validation.
pub const DIAGNOSTIC_TAIL_MAX_BYTES: usize = 4096;

/// Bounded diagnostic text journaled with a failure, typically the tail of
/// a process's stderr.
#[derive(Clone, Debug, PartialEq, Eq)]
pub struct DiagnosticTail(String);

impl View for DiagnosticTail {
    type V = Seq<char>;

    closed spec fn view(&self) -> Seq<char> {
        self.0@
    }
}

impl Duplicate for DiagnosticTail {
    fn duplicate(&self) -> (copy: Self) {
        DiagnosticTail(self.0.clone())
    }
}

impl SameView for DiagnosticTail {
    fn same_view(&self, other: &Self) -> (same: bool) {
        self.0 == other.0
    }
}

/// Number of bytes in the UTF-8 encoding of `text`.
pub open spec fn utf8_len(text: Seq<char>) -> nat {
    encode_utf8(text).len()
}

/// Whether the suffix of `text` from `start` fits the durable bound.
pub open spec fn tail_fits(text: Seq<char>, start: int) -> bool {
    utf8_len(text.subrange(start, text.len() as int)) <= DIAGNOSTIC_TAIL_MAX_BYTES
}

/// Walking back from `start` one character at a time while the suffix
/// still fits: where the walk stops.
pub open spec fn tail_start_from(text: Seq<char>, start: int) -> int
    decreases start,
{
    if start > 0 && tail_fits(text, start - 1) {
        tail_start_from(text, start - 1)
    } else {
        start
    }
}

/// Where the kept tail of `text` begins: the earliest character boundary
/// from which the rest fits the durable bound.
pub open spec fn tail_start(text: Seq<char>) -> int {
    tail_start_from(text, text.len() as int)
}

/// UTF-8 width of one character.
pub open spec fn char_width(c: char) -> nat {
    encode_scalar(c as u32).len()
}

proof fn lemma_suffix_len(text: Seq<char>, start: int)
    requires
        0 <= start < text.len(),
    ensures
        utf8_len(text.subrange(start, text.len() as int)) == char_width(text[start]) + utf8_len(
            text.subrange(start + 1, text.len() as int),
        ),
{
    let suffix = text.subrange(start, text.len() as int);
    assert(suffix.drop_first() =~= text.subrange(start + 1, text.len() as int));
    assert(suffix[0] == text[start]);
}

/// Longer suffixes never take fewer bytes.
proof fn lemma_suffix_len_monotone(text: Seq<char>, earlier: int, later: int)
    requires
        0 <= earlier <= later <= text.len(),
    ensures
        utf8_len(text.subrange(earlier, text.len() as int)) >= utf8_len(text.subrange(later, text.len() as int)),
    decreases later - earlier,
{
    if earlier < later {
        lemma_suffix_len(text, earlier);
        lemma_suffix_len_monotone(text, earlier + 1, later);
    }
}

proof fn lemma_tail_start_from(text: Seq<char>, start: int)
    requires
        0 <= start <= text.len(),
        tail_fits(text, start),
    ensures
        0 <= tail_start_from(text, start) <= start,
        tail_fits(text, tail_start_from(text, start)),
        tail_start_from(text, start) == 0 || !tail_fits(text, tail_start_from(text, start) - 1),
    decreases start,
{
    if start > 0 && tail_fits(text, start - 1) {
        lemma_tail_start_from(text, start - 1);
    }
}

/// The kept tail is the longest suffix that fits the durable bound: it
/// fits, one more character would not, and text that fits is kept whole.
pub proof fn lemma_tail_is_longest_fitting_suffix(text: Seq<char>)
    ensures
        0 <= tail_start(text) <= text.len(),
        tail_fits(text, tail_start(text)),
        tail_start(text) == 0 || !tail_fits(text, tail_start(text) - 1),
        utf8_len(text) <= DIAGNOSTIC_TAIL_MAX_BYTES ==> tail_start(text) == 0,
{
    assert(text.subrange(text.len() as int, text.len() as int) =~= Seq::<char>::empty());
    assert(encode_utf8(Seq::<char>::empty()).len() == 0);
    lemma_tail_start_from(text, text.len() as int);
    if utf8_len(text) <= DIAGNOSTIC_TAIL_MAX_BYTES && tail_start(text) > 0 {
        assert(text.subrange(0, text.len() as int) =~= text);
        lemma_suffix_len_monotone(text, 0, tail_start(text) - 1);
    }
}

fn width_of(c: char) -> (width: usize)
    ensures
        width == char_width(c),
        1 <= width <= 4,
{
    proof {
        char_is_scalar(c);
    }
    let v = c as u32;
    if v <= 0x7F {
        1
    } else if v <= 0x7FF {
        2
    } else if v <= 0xFFFF {
        3
    } else {
        4
    }
}

impl DiagnosticTail {
    /// Keeps the trailing bytes of `text` within the durable bound, cut at a
    /// character boundary so the result stays valid UTF-8.
    pub fn truncated(text: &str) -> (tail: Self)
        ensures
            tail@ == text@.subrange(tail_start(text@), text@.len() as int),
    {
        let length = text.unicode_len();
        let mut start = length;
        let mut kept: usize = 0;
        let mut full = false;
        assert(text@.subrange(length as int, length as int) =~= Seq::<char>::empty());
        while start > 0 && !full
            invariant
                start <= length,
                length == text@.len(),
                kept == utf8_len(text@.subrange(start as int, length as int)),
                kept <= DIAGNOSTIC_TAIL_MAX_BYTES,
                tail_start(text@) == tail_start_from(text@, start as int),
                full ==> start > 0 && !tail_fits(text@, start - 1),
            decreases start, if full { 0int } else { 1int },
        {
            let width = width_of(text.get_char(start - 1));
            proof {
                lemma_suffix_len(text@, start - 1);
            }
            if kept + width > DIAGNOSTIC_TAIL_MAX_BYTES {
                full = true;
            } else {
                kept = kept + width;
                start = start - 1;
            }
        }
        assert(tail_start_from(text@, start as int) == start);
        DiagnosticTail(text.substring_char(start, length).to_owned())
    }

    /// The empty tail.
    pub fn empty() -> (tail: Self)
        ensures
            tail@ == Seq::<char>::empty(),
    {
        DiagnosticTail(String::new())
    }

    /// A tail decoded from the journal, not yet held to the bound;
    /// [`DiagnosticTail::validate`] re-enforces it.
    pub fn from_decoded(text: String) -> (tail: Self)
        ensures
            tail@ == text@,
    {
        DiagnosticTail(text)
    }

    /// The kept text.
    pub fn as_str(&self) -> (text: &str)
        ensures
            text@ == self@,
    {
        self.0.as_str()
    }

    /// Replay-side re-enforcement of the construction bound.
    pub fn validate(&self) -> (result: Result<(), &'static str>)
        ensures
            result == tail_validation(self@),
    {
        if self.0.as_str().as_bytes().len() > DIAGNOSTIC_TAIL_MAX_BYTES {
            return Err("failure diagnostic exceeds the durable byte bound");
        }
        Ok(())
    }
}

/// A tail longer than the durable bound is refused.
pub open spec fn tail_validation(tail: Seq<char>) -> Result<(), &'static str> {
    if utf8_len(tail) > DIAGNOSTIC_TAIL_MAX_BYTES {
        Err("failure diagnostic exceeds the durable byte bound")
    } else {
        Ok(())
    }
}

impl FailureFacts {
    /// Failure facts with an empty diagnostic tail.
    pub fn new(kind: FailureKind, message: String) -> (facts: Self)
        ensures
            facts@ == (FailureFactsView { kind, message: message@, diagnostic: Seq::empty() }),
    {
        FailureFacts { kind, message, diagnostic: DiagnosticTail::empty() }
    }

    /// The same facts carrying `diagnostic`.
    pub fn with_diagnostic(self, diagnostic: DiagnosticTail) -> (facts: Self)
        ensures
            facts@ == (FailureFactsView { diagnostic: diagnostic@, ..self@ }),
    {
        FailureFacts { diagnostic, ..self }
    }
}

} // verus!
