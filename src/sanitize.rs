use vstd::prelude::*;
use crate::slider::Slides;

verus! {

/// The text with every HTML comment removed, as the comment pattern
/// `(?sm)<!--.*?--\s*>` finds them.
pub uninterp spec fn comments_stripped(s: Seq<char>) -> Seq<char>;

/// The text with its leading front-matter block removed, as the pattern
/// `(?s)\A---(\r\n?|\n)((\w+?): (.+?)(\r\n?|\n))+?---(\r\n?|\n)` finds it.
pub uninterp spec fn front_matter_stripped(s: Seq<char>) -> Seq<char>;

/// `<!--` at `i`, `--` at `j` after it, and `>` at `k` after that: the
/// shape of every comment.
pub open spec fn comment_shape_at(s: Seq<char>, i: int, j: int, k: int) -> bool {
    &&& 0 <= i
    &&& i + 4 <= j
    &&& j + 2 <= k
    &&& k < s.len()
    &&& s.subrange(i, i + 4) == "<!--"@
    &&& s.subrange(j, j + 2) == "--"@
    &&& s[k] == '>'
}

/// `s` may hold a comment: somewhere `<!--`, later `--`, later `>`.
pub open spec fn may_hold_comment(s: Seq<char>) -> bool {
    exists|i: int, j: int, k: int| #[trigger] comment_shape_at(s, i, j, k)
}

/// `s` may begin with front matter: it starts with `---` and a line break,
/// and holds `: ` further on.
pub open spec fn may_hold_front_matter(s: Seq<char>) -> bool {
    &&& s.len() >= 4
    &&& s.subrange(0, 3) == "---"@
    &&& (s[3] == '\n' || s[3] == '\r')
    &&& exists|j: int| 4 <= j && j + 2 <= s.len() && #[trigger] s.subrange(j, j + 2) == ": "@
}

/// Relies on `regex::Regex::replace_all` with the comment pattern, which
/// compiles: it removes every match, and a text with no match comes back
/// unchanged. Every match is `<!--`, then `--`, then `>`.
#[verifier::external_body]
fn remove_comments(text: &str) -> (r: String)
    ensures
        r@ == comments_stripped(text@),
        !may_hold_comment(text@) ==> r@ == text@,
{
    let re = regex::Regex::new(r"(?sm)<!--.*?--\s*>").unwrap();
    re.replace_all(text, "").into_owned()
}

/// Relies on `regex::Regex::replace_all` with the front-matter pattern,
/// which compiles: it removes the match, and a text with no match comes back
/// unchanged. A match starts the text with `---` and a line break, and holds
/// `: ` further on.
#[verifier::external_body]
fn remove_front_matter(text: &str) -> (r: String)
    ensures
        r@ == front_matter_stripped(text@),
        !may_hold_front_matter(text@) ==> r@ == text@,
{
    let re = regex::Regex::new(r"(?s)\A---(\r\n?|\n)((\w+?): (.+?)(\r\n?|\n))+?---(\r\n?|\n)").unwrap();
    re.replace_all(text, "").into_owned()
}

impl Slides {
    /// Removes HTML comments.
    pub fn strip_comments(text: String) -> (r: String)
        ensures
            r@ == comments_stripped(text@),
            !may_hold_comment(text@) ==> r@ == text@,
    {
        remove_comments(text.as_str())
    }

    /// Removes a leading front-matter block.
    pub fn strip_yaml_header(text: String) -> (r: String)
        ensures
            r@ == front_matter_stripped(text@),
            !may_hold_front_matter(text@) ==> r@ == text@,
    {
        remove_front_matter(text.as_str())
    }

    /// Removes comments, then leading front matter. A text that can hold
    /// neither comes back as it was, so cleaning it again changes nothing.
    pub fn sanitize_markdown(text: String) -> (r: String)
        ensures
            r@ == front_matter_stripped(comments_stripped(text@)),
            !may_hold_comment(text@) && !may_hold_front_matter(text@) ==> r@ == text@,
    {
        let no_comments = Slides::strip_comments(text);
        Slides::strip_yaml_header(no_comments)
    }
}

} // verus!
