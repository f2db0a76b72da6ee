//! The text of a transcript: putting it together and announcing it.
//!
//! The transcription engine returns a transcript in segments. They are
//! joined, trimmed and passed through the configured replacements; the result
//! is announced in a notification with a short summary.

use vstd::prelude::*;
use vstd::string::{StringExecFns, StringSliceAdditionalSpecFns};
use vstd::utf8::{decode_utf8, encode_utf8, group_utf8_lib, is_char_boundary};

verus! {

/// The longest summary that is shown whole, in bytes of UTF-8.
pub const SUMMARY_BYTES: usize = 20;

/// `str::trim` of a text: the text without its leading and trailing white
/// space.
pub uninterp spec fn trimmed(text: Seq<char>) -> Seq<char>;

/// `str::replace` of a text: the text with every match of `from` replaced by
/// `to`.
pub uninterp spec fn replaced(text: Seq<char>, from: Seq<char>, to: Seq<char>) -> Seq<char>;

/// `str::trim`, of which the contract only names the result.
#[verifier::external_body]
fn trim_text(text: &str) -> (out: String)
    ensures
        out@ == trimmed(text@),
{
    text.trim().to_string()
}

/// `str::replace`, of which the contract only names the result.
#[verifier::external_body]
fn replace_text(text: &str, from: &str, to: &str) -> (out: String)
    ensures
        out@ == replaced(text@, from@, to@),
{
    text.replace(from, to)
}

/// The segments in order, each followed by a space.
pub open spec fn spaced(segments: Seq<String>) -> Seq<char>
    decreases segments.len(),
{
    if segments.len() == 0 {
        Seq::<char>::empty()
    } else {
        spaced(segments.drop_last()) + segments.last()@ + seq![' ']
    }
}

/// The text after the replacements have been made in it, one after the
/// other in the order of the list.
pub open spec fn replaced_all(text: Seq<char>, replacements: Seq<(String, String)>) -> Seq<char>
    decreases replacements.len(),
{
    if replacements.len() == 0 {
        text
    } else {
        let pair = replacements.last();
        replaced(replaced_all(text, replacements.drop_last()), pair.0@, pair.1@)
    }
}

/// Joins the segments of a transcript, each followed by a space.
pub fn join_segments(segments: &[String]) -> (text: String)
    ensures
        text@ == spaced(segments@),
{
    let mut text: String = String::new();
    let mut i: usize = 0;
    assert(segments@.take(0) == Seq::<String>::empty());
    while i < segments.len()
        invariant
            i <= segments.len(),
            text@ == spaced(segments@.take(i as int)),
        decreases segments.len() - i,
    {
        proof {
            reveal_strlit(" ");
            assert(segments@.take(i + 1).drop_last() == segments@.take(i as int));
            assert(" "@ == seq![' ']);
        }
        text.append(segments[i].as_str());
        text.append(" ");
        i = i + 1;
    }
    assert(segments@.take(i as int) == segments@);
    text
}

/// Makes the replacements in the text, one after the other in the order of
/// the list, each on the result of the one before.
pub fn apply_replacements(text: String, replacements: &[(String, String)]) -> (out: String)
    ensures
        out@ == replaced_all(text@, replacements@),
{
    let mut out: String = text;
    let mut i: usize = 0;
    assert(replacements@.take(0) == Seq::<(String, String)>::empty());
    while i < replacements.len()
        invariant
            i <= replacements.len(),
            out@ == replaced_all(text@, replacements@.take(i as int)),
        decreases replacements.len() - i,
    {
        proof {
            assert(replacements@.take(i + 1).drop_last() == replacements@.take(i as int));
        }
        let pair = &replacements[i];
        out = replace_text(out.as_str(), pair.0.as_str(), pair.1.as_str());
        i = i + 1;
    }
    assert(replacements@.take(i as int) == replacements@);
    out
}

/// The text of a transcript: its segments joined with spaces, trimmed, with
/// the replacements made in it.
pub fn assemble(segments: &[String], replacements: &[(String, String)]) -> (text: String)
    ensures
        text@ == replaced_all(trimmed(spaced(segments@)), replacements@),
{
    let joined: String = join_segments(segments);
    let trimmed: String = trim_text(joined.as_str());
    apply_replacements(trimmed, replacements)
}

/// What is shown about a transcript.
#[derive(Debug, Clone, PartialEq, Eq)]
pub struct Notice {
    /// The headline of the notification.
    pub summary: String,
    /// Whether there is a text to hand on.
    pub paste: bool,
}

/// The first `count` bytes of the UTF-8 of a text, as a text.
pub open spec fn first_bytes(text: Seq<char>, count: int) -> Seq<char> {
    decode_utf8(encode_utf8(text).subrange(0, count))
}

/// The headline for a transcript that is not empty: the transcript itself
/// if it has no more than [`SUMMARY_BYTES`] bytes, else that many bytes of it
/// and two dots.
pub open spec fn summary(output: Seq<char>) -> Seq<char> {
    if encode_utf8(output).len() > SUMMARY_BYTES {
        first_bytes(output, SUMMARY_BYTES as int) + seq!['.', '.']
    } else {
        output
    }
}

/// Whether the transcript can be cut for its summary: a long transcript must
/// have a character boundary where the cut falls.
pub open spec fn can_summarize(output: Seq<char>) -> bool {
    encode_utf8(output).len() > SUMMARY_BYTES ==> is_char_boundary(
        encode_utf8(output),
        SUMMARY_BYTES as int,
    )
}

/// The headline for a transcript, see [`summary`].
pub fn summary_of(output: &str) -> (headline: String)
    requires
        can_summarize(output@),
    ensures
        headline@ == summary(output@),
{
    broadcast use group_utf8_lib;

    if output.as_bytes().len() > SUMMARY_BYTES {
        let (head, _) = output.split_at(SUMMARY_BYTES);
        proof {
            reveal_strlit("..");
            assert(head.spec_bytes() == output.spec_bytes().subrange(0, SUMMARY_BYTES as int));
            assert(decode_utf8(encode_utf8(head@)) == head@);
            assert(".."@ == seq!['.', '.']);
        }
        String::from_str(head).concat("..")
    } else {
        String::from_str(output)
    }
}

/// What to show about a transcript: that no voice was detected if it is
/// empty, and otherwise its summary, with the text to be handed on.
pub fn notice_for(output: &str) -> (notice: Notice)
    requires
        can_summarize(output@),
    ensures
        output@.len() == 0 ==> notice.summary@ == "No voice detected"@ && !notice.paste,
        output@.len() > 0 ==> notice.summary@ == summary(output@) && notice.paste,
{
    if output.is_empty() {
        Notice { summary: String::from_str("No voice detected"), paste: false }
    } else {
        Notice { summary: summary_of(output), paste: true }
    }
}

} // verus!
