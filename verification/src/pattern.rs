//! Regular expressions, as the `regex` crate matches them.

use vstd::prelude::*;
use crate::text::text_view;

verus! {

/// What the group named `group` holds in the first match of the regular
/// expression `pattern` in `text`, as the `regex` crate finds it: nothing
/// where `pattern` is no regular expression, where it matches nowhere in
/// `text`, or where the match does without the group. Nothing is stated of
/// it but that name.
pub uninterp spec fn captured(pattern: Seq<char>, text: Seq<char>, group: Seq<char>) -> Option<
    Seq<char>,
>;

/// Calls `regex::Regex::captures` on `text`, for the expression that
/// `regex::Regex::new` makes of `pattern`, and hands on the text of what
/// `regex::Captures::name` gives for `group`. A pattern that does not
/// compile, a text without a match and a group without a part in the match
/// all give nothing. Taken on trust: what comes back depends on the three
/// texts alone. The contract gives it the name [`captured`].
#[verifier::external_body]
pub(crate) fn capture(pattern: &str, text: &str, group: &str) -> (r: Option<String>)
    ensures
        text_view(r) == captured(pattern@, text@, group@),
{
    let expression = regex::Regex::new(pattern).ok()?;
    let captures = expression.captures(text)?;
    Some(captures.name(group)?.as_str().to_owned())
}

} // verus!
