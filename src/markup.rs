use vstd::prelude::*;
use crate::title::opt_view;

verus! {

/// The pattern of an opening or closing tag without attributes.
pub const TAG_PATTERN: &'static str = "</?\\w+>";

/// The text left when every match of the regular expression `pattern` is
/// removed from `text`.
pub uninterp spec fn regex_removed(pattern: Seq<char>, text: Seq<char>) -> Seq<char>;

/// Relies on `regex::Regex::new`, which compiles `pattern` (only the valid
/// tag pattern is admitted, so the unwrap does not fail), and on
/// `Regex::replace_all` with an empty replacement, which removes every
/// non-overlapping match and returns the haystack unchanged where nothing
/// matches (a match of the tag pattern needs a `<`).
#[verifier::external_body]
fn remove_matches(pattern: &str, text: &str) -> (r: String)
    requires
        pattern@ == TAG_PATTERN@,
    ensures
        r@ == regex_removed(pattern@, text@),
        !text@.contains('<') ==> r@ == text@,
{
    let re = regex::Regex::new(pattern).unwrap();
    re.replace_all(text, "").into_owned()
}

/// The sanitized form of a description: `None` stays `None`; a text loses
/// its opening and closing tags.
pub open spec fn sanitized(text: Option<Seq<char>>) -> Option<Seq<char>> {
    match text {
        Some(t) => Some(regex_removed(TAG_PATTERN@, t)),
        None => None,
    }
}

/// Strips opening and closing markup tags (`<b>`, `</b>`) from a
/// description. Tags with attributes are left as they are.
pub fn sanitize(text: Option<String>) -> (r: Option<String>)
    ensures
        opt_view(r) == sanitized(opt_view(text)),
        text matches Some(t) && !t@.contains('<') ==> opt_view(r) == opt_view(text),
{
    match text {
        Some(t) => Some(remove_matches(TAG_PATTERN, t.as_str())),
        None => None,
    }
}

} // verus!
