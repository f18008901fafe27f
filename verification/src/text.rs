//! Turning captured bytes into the text a caller receives, and assembling
//! the pipeline label used in consolidated error reports.

use vstd::prelude::*;
use vstd::string::StrSliceExecFns;
use vstd::string::StringExecFns;

verus! {

/// The text that lossy UTF-8 decoding yields for a byte sequence.
pub uninterp spec fn lossy_of(bytes: Seq<u8>) -> Seq<char>;

/// Relies on String::from_utf8_lossy: the decoded text is a function of the
/// bytes alone, and an empty input decodes to the empty string.
#[verifier::external_body]
fn lossy_decode(bytes: &Vec<u8>) -> (s: String)
    ensures
        s@ == lossy_of(bytes@),
        bytes@.len() == 0 ==> s@.len() == 0,
{
    String::from_utf8_lossy(bytes).to_string()
}

/// A text with exactly one trailing line terminator stripped if present,
/// unchanged otherwise.
pub open spec fn strip_last_newline(s: Seq<char>) -> Seq<char> {
    if s.len() > 0 && s.last() == '\n' {
        s.drop_last()
    } else {
        s
    }
}

/// Strip exactly one trailing line terminator if present; otherwise return
/// the text unchanged.
pub fn strip_trailing_newline(s: &str) -> (r: String)
    ensures
        r@ == strip_last_newline(s@),
{
    let n = s.unicode_len();
    if n > 0 {
        let last = s.get_char(n - 1);
        if last == '\n' {
            let t = s.substring_char(0, n - 1);
            proof {
                assert(t@ =~= s@.drop_last());
            }
            return String::from_str(t);
        }
    }
    String::from_str(s)
}

/// The text a capturing wait returns for the bytes the terminal stage
/// produced: the bytes decoded lossily, with exactly one trailing line
/// terminator stripped if present.
pub fn capture_to_text(bytes: &Vec<u8>) -> (r: String)
    ensures
        r@ == strip_last_newline(lossy_of(bytes@)),
{
    let s = lossy_decode(bytes);
    strip_trailing_newline(s.as_str())
}

/// The full pipeline identified in one piece: every stage's label, original
/// left-to-right order, joined with a pipe separator.
pub open spec fn joined_labels(labels: Seq<String>) -> Seq<char>
    decreases labels.len(),
{
    if labels.len() == 0 {
        Seq::empty()
    } else if labels.len() == 1 {
        labels[0]@
    } else {
        joined_labels(labels.drop_last()) + " | "@ + labels.last()@
    }
}

/// Join every stage's label, in original left-to-right order, with a pipe
/// separator, for one consolidated failure report.
pub fn join_labels(labels: &Vec<String>) -> (r: String)
    ensures
        r@ == joined_labels(labels@),
{
    let mut r = String::new();
    let mut i: usize = 0;
    #[verifier::loop_isolation(false)]
    while i < labels.len()
        invariant
            i <= labels@.len(),
            r@ == joined_labels(labels@.take(i as int)),
        decreases labels@.len() - i,
    {
        let ghost pre = labels@.take(i as int);
        if i > 0 {
            r.append(" | ");
        }
        r.append(labels[i].as_str());
        proof {
            let post = labels@.take(i as int + 1);
            assert(post.drop_last() =~= pre);
            assert(post.last() == labels@[i as int]);
            assert(r@ =~= joined_labels(post));
        }
        i += 1;
    }
    proof {
        assert(labels@.take(labels@.len() as int) =~= labels@);
    }
    r
}

} // verus!
