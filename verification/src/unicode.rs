//! Text facts from the Unicode crates, behind trusted wrappers that make one
//! outside call each, and the character classes of `std` (white space and
//! control codes), written out and verified.
use unicode_segmentation::UnicodeSegmentation;
use unicode_width::UnicodeWidthStr;
use vstd::prelude::*;

verus! {

/// The extended grapheme clusters of a text, in order, as
/// `unicode_segmentation` computes them.
pub uninterp spec fn grapheme_clusters(text: Seq<char>) -> Seq<Seq<char>>;

/// The display width of a text, in columns, as `unicode_width` computes it
/// outside of an East Asian context.
pub uninterp spec fn display_width(text: Seq<char>) -> usize;

/// The display width of a text, in columns, as `unicode_width` computes it
/// in an East Asian context (ambiguous characters are wide).
pub uninterp spec fn display_width_cjk(text: Seq<char>) -> usize;

/// Whether a character has the Unicode `White_Space` property, as
/// `char::is_whitespace` reports it: the ASCII tab, line feed, vertical tab,
/// form feed, carriage return and space, next line, no-break space, ogham
/// space mark, the spaces from en quad to hair space, line and paragraph
/// separator, narrow no-break space, medium mathematical space and
/// ideographic space.
pub open spec fn is_white_space(c: char) -> bool {
    ||| '\u{9}' <= c <= '\u{D}'
    ||| c == ' '
    ||| c == '\u{85}'
    ||| c == '\u{A0}'
    ||| c == '\u{1680}'
    ||| '\u{2000}' <= c <= '\u{200A}'
    ||| c == '\u{2028}'
    ||| c == '\u{2029}'
    ||| c == '\u{202F}'
    ||| c == '\u{205F}'
    ||| c == '\u{3000}'
}

/// Whether a character is a control code (general category `Cc`), as
/// `char::is_control` reports it: U+0000 to U+001F and U+007F to U+009F.
pub open spec fn is_control_code(c: char) -> bool {
    c <= '\u{1F}' || ('\u{7F}' <= c <= '\u{9F}')
}

/// Calls `UnicodeSegmentation::graphemes(text, true)` and copies each cluster.
/// Trusted: the clusters are `grapheme_clusters(text@)`.  The crate's
/// iterator hands out consecutive slices `text[start..next]` with
/// `next > start`, from the start of the text to its end, so the clusters
/// spell `text` and none is empty.
#[verifier::external_body]
pub(crate) fn split_graphemes(text: &str) -> (clusters: Vec<String>)
    ensures
        clusters@.map_values(|g: String| g@) == grapheme_clusters(text@),
        clusters@.map_values(|g: String| g@).flatten() == text@,
        forall|i: int| 0 <= i < clusters@.len() ==> #[trigger] clusters@[i]@.len() > 0,
{
    let mut clusters = Vec::new();
    for cluster in text.graphemes(true) {
        clusters.push(cluster.to_string());
    }
    clusters
}

/// Calls `UnicodeWidthStr::width`.  Trusted: the result is
/// `display_width(text@)`, and a text of printable ASCII characters (space
/// to tilde) is as wide as it is long: the crate gives each of them width 1,
/// and none of them starts or continues a sequence of another width.
#[verifier::external_body]
pub(crate) fn str_width(text: &str) -> (width: usize)
    ensures
        width == display_width(text@),
        (forall|i: int| 0 <= i < text@.len() ==> ' ' <= #[trigger] text@[i] <= '~') ==> width
            == text@.len(),
{
    UnicodeWidthStr::width(text)
}

/// Calls `UnicodeWidthStr::width_cjk`.  Trusted: the result is
/// `display_width_cjk(text@)`.
#[verifier::external_body]
pub(crate) fn str_width_cjk(text: &str) -> (width: usize)
    ensures
        width == display_width_cjk(text@),
{
    UnicodeWidthStr::width_cjk(text)
}

/// Whether `c` has the `White_Space` property.
pub(crate) fn char_is_whitespace(c: char) -> (b: bool)
    ensures
        b == is_white_space(c),
{
    ('\u{9}' <= c && c <= '\u{D}') || c == ' ' || c == '\u{85}' || c == '\u{A0}' || c
        == '\u{1680}' || ('\u{2000}' <= c && c <= '\u{200A}') || c == '\u{2028}' || c
        == '\u{2029}' || c == '\u{202F}' || c == '\u{205F}' || c == '\u{3000}'
}

/// Whether `c` is a control code.
pub(crate) fn char_is_control(c: char) -> (b: bool)
    ensures
        b == is_control_code(c),
{
    c <= '\u{1F}' || ('\u{7F}' <= c && c <= '\u{9F}')
}

/// Calls `String::push`.  Trusted: the character is appended to the string.
#[verifier::external_body]
pub(crate) fn push_char(s: &mut String, c: char)
    ensures
        final(s)@ == old(s)@.push(c),
{
    s.push(c)
}

} // verus!
