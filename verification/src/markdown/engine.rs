//! The two outside engines that the renderer drives: the `regex` crate for
//! pattern rewriting and `comrak` for CommonMark to HTML.
use vstd::prelude::*;

verus! {

/// What `Regex::replace_all` gives back for `text`, once `RegexBuilder` has
/// built `pattern` with the two flags; `None` when the pattern does not build.
pub uninterp spec fn regex_replace_result(
    text: Seq<char>,
    pattern: Seq<char>,
    replacement: Seq<char>,
    multi_line: bool,
    dot_matches_new_line: bool,
) -> Option<Seq<char>>;

/// The matches that `Regex::captures_iter` walks over in `text`, once
/// `RegexBuilder` has built `pattern` with the two flags: one entry per match,
/// in order, holding every capture group by index (group 0 is the whole match,
/// `None` for a group that took no part); `None` when the pattern does not build.
pub uninterp spec fn regex_captures_result(
    text: Seq<char>,
    pattern: Seq<char>,
    multi_line: bool,
    dot_matches_new_line: bool,
) -> Option<Seq<Seq<Option<Seq<char>>>>>;

/// What `comrak::markdown_to_html` renders for `markdown` under options whose
/// fields are the other arguments (every other option at its default).
pub uninterp spec fn markdown_html_result(
    markdown: Seq<char>,
    table: bool,
    superscript: bool,
    strikethrough: bool,
    autolink: bool,
    header_id_prefix: Option<Seq<char>>,
    escape: bool,
    smart: bool,
) -> Seq<char>;

/// The comrak options that the renderer sets; all others keep comrak's defaults.
pub struct HtmlOptions {
    pub table: bool,
    pub superscript: bool,
    pub strikethrough: bool,
    pub autolink: bool,
    pub header_id_prefix: Option<Vec<char>>,
    pub escape: bool,
    pub smart: bool,
}

/// Builds `pattern` with `regex::RegexBuilder` (`multi_line`,
/// `dot_matches_new_line`, `build`) and rewrites `text` with
/// `Regex::replace_all(text, replacement)`, where `$n` and `$name` in the
/// replacement stand for capture groups; `None` when `build` returns an error.
/// Claimed of the regex crate: the outcome depends on the arguments alone (it is
/// `regex_replace_result`). What the rewriting does is not stated.
#[verifier::external_body]
pub(crate) fn regex_replace(
    text: &[char],
    pattern: &[char],
    replacement: &[char],
    multi_line: bool,
    dot_matches_new_line: bool,
) -> (r: Option<Vec<char>>)
    ensures
        r.deep_view() == regex_replace_result(
            text@,
            pattern@,
            replacement@,
            multi_line,
            dot_matches_new_line,
        ),
{
    let text: String = text.iter().collect();
    let pattern: String = pattern.iter().collect();
    let replacement: String = replacement.iter().collect();
    let built = regex::RegexBuilder::new(&pattern).multi_line(multi_line).dot_matches_new_line(
        dot_matches_new_line,
    ).build();
    match built {
        Ok(re) => Some(re.replace_all(&text, replacement.as_str()).chars().collect()),
        Err(_) => None,
    }
}

/// Builds `pattern` with `regex::RegexBuilder` as above and collects
/// `Regex::captures_iter(text)`: for every match, in order, the text of each
/// capture group by index; `None` when `build` returns an error. Claimed of the
/// regex crate: the outcome depends on the arguments alone (it is
/// `regex_captures_result`). Which matches are found is not stated.
#[verifier::external_body]
pub(crate) fn regex_captures(
    text: &[char],
    pattern: &[char],
    multi_line: bool,
    dot_matches_new_line: bool,
) -> (r: Option<Vec<Vec<Option<Vec<char>>>>>)
    ensures
        r.deep_view() == regex_captures_result(text@, pattern@, multi_line, dot_matches_new_line),
{
    let text: String = text.iter().collect();
    let pattern: String = pattern.iter().collect();
    let built = regex::RegexBuilder::new(&pattern).multi_line(multi_line).dot_matches_new_line(
        dot_matches_new_line,
    ).build();
    match built {
        Ok(re) => Some(
            re.captures_iter(&text).map(
                |c| c.iter().map(|g| g.map(|m| m.as_str().chars().collect())).collect(),
            ).collect(),
        ),
        Err(_) => None,
    }
}

/// Renders `markdown` with `comrak::markdown_to_html`, the options' fields copied
/// one for one into `comrak::Options::default()`. Claimed of comrak: the HTML
/// depends on the arguments alone (it is `markdown_html_result`). What HTML
/// comes out is not stated.
#[verifier::external_body]
pub(crate) fn markdown_to_html(markdown: &[char], options: &HtmlOptions) -> (r: Vec<char>)
    ensures
        r@ == markdown_html_result(
            markdown@,
            options.table,
            options.superscript,
            options.strikethrough,
            options.autolink,
            options.header_id_prefix.deep_view(),
            options.escape,
            options.smart,
        ),
{
    let mut o = comrak::Options::default();
    o.extension.table = options.table;
    o.extension.superscript = options.superscript;
    o.extension.strikethrough = options.strikethrough;
    o.extension.autolink = options.autolink;
    o.extension.header_id_prefix = options.header_id_prefix.as_ref().map(|p| p.iter().collect());
    o.render.escape = options.escape;
    o.parse.smart = options.smart;
    let md: String = markdown.iter().collect();
    comrak::markdown_to_html(&md, &o).chars().collect()
}

} // verus!
