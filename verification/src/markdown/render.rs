//! Rendering of the markup to HTML: source rewrites, CommonMark through
//! comrak, the `e#...#` blocks, and the rewrites of the rendered HTML.
use vstd::prelude::*;
use crate::markdown::blocks::{
    blocks_view, classify, parse_blocks, scan_blocks, Block, BlockView, Rule,
};
use crate::text::{first_index, lemma_first_index_bounds, lemma_replace_all_absent, occurs_in};
use crate::markdown::engine::{
    markdown_html_result, markdown_to_html, regex_captures, regex_captures_result, regex_replace,
    regex_replace_result, HtmlOptions,
};
use crate::text::{
    cat, chars_of, string_from_chars, copy_chars, lemma_chars_deep_view, push_all, replace_all, replace_all_chars,
    replace_first, replace_first_chars,
};

verus! {

// ------------------------------------------------------------------
// Regex steps as the renderer takes them
// ------------------------------------------------------------------

/// One regex rewrite of the renderer: the pattern is built in multi-line mode;
/// a pattern that does not build leaves the text as it is.
pub open spec fn rewrite(text: Seq<char>, pattern: Seq<char>, rep: Seq<char>, dot_all: bool) -> Seq<
    char,
> {
    match regex_replace_result(text, pattern, rep, true, dot_all) {
        Some(r) => r,
        None => text,
    }
}

/// Capture group `g` of one match, if the match has it.
pub open spec fn group_of(cap: Seq<Option<Seq<char>>>, g: int) -> Option<Seq<char>> {
    if 0 <= g < cap.len() {
        cap[g]
    } else {
        None
    }
}

/// The matches of `pattern` (multi-line) in `text`; none when it does not build.
pub open spec fn matches_of(text: Seq<char>, pattern: Seq<char>, dot_all: bool) -> Seq<
    Seq<Option<Seq<char>>>,
> {
    match regex_captures_result(text, pattern, true, dot_all) {
        Some(caps) => caps,
        None => seq![],
    }
}

/// One regex rewrite of the renderer (see `rewrite`).
pub fn rewrite_chars(text: &[char], pattern: &[char], rep: &[char], dot_all: bool) -> (r: Vec<char>)
    ensures
        r@ == rewrite(text@, pattern@, rep@, dot_all),
{
    match regex_replace(text, pattern, rep, true, dot_all) {
        Some(r) => {
            proof {
                lemma_chars_deep_view(r);
            }
            r
        },
        None => copy_chars(text),
    }
}

/// One regex rewrite of the renderer with literal pattern and replacement.
pub fn rewrite_lit(text: &[char], pattern: &str, rep: &str, dot_all: bool) -> (r: Vec<char>)
    ensures
        r@ == rewrite(text@, pattern@, rep@, dot_all),
{
    rewrite_chars(text, &chars_of(pattern), &chars_of(rep), dot_all)
}

/// The matches of `pattern` (multi-line) in `text` (see `matches_of`).
pub fn find_matches(text: &[char], pattern: &str, dot_all: bool) -> (r: Vec<Vec<Option<Vec<char>>>>)
    ensures
        r.deep_view() == matches_of(text@, pattern@, dot_all),
{
    match regex_captures(text, &chars_of(pattern), true, dot_all) {
        Some(caps) => caps,
        None => {
            let r: Vec<Vec<Option<Vec<char>>>> = Vec::new();
            assert(r.deep_view() =~= Seq::<Seq<Option<Seq<char>>>>::empty());
            r
        },
    }
}

/// Capture group `g` of one match, if the match has it.
pub fn capture_group(cap: &Vec<Option<Vec<char>>>, g: usize) -> (r: Option<Vec<char>>)
    ensures
        match r {
            Some(v) => group_of(cap.deep_view(), g as int) == Some(v@),
            None => group_of(cap.deep_view(), g as int) is None,
        },
{
    if g < cap.len() {
        assert(cap.deep_view()[g as int] == cap@[g as int].deep_view());
        match &cap[g] {
            Some(v) => {
                proof {
                    lemma_chars_deep_view(*v);
                }
                Some(copy_chars(v))
            },
            None => None,
        }
    } else {
        None
    }
}

// ------------------------------------------------------------------
// Rewrites driven by the matches of a pattern
// ------------------------------------------------------------------

/// The loops of the renderer that walk over the matches of a pattern.
#[derive(Clone, Copy, PartialEq, Eq, Debug, Structural)]
pub enum CaptureRewrite {
    /// `![title](src):{WxH}`: every occurrence of the match becomes an `<img>`.
    Image,
    /// `c#color# content #`: the first occurrence becomes a colored span.
    Color,
    /// `->> text ->>` or `->> text <<-`: the first occurrence becomes a flex row.
    FlexArrow,
    /// `-> text ->` or `-> text <-`: the first occurrence becomes an aligned row.
    Arrow,
}

/// `right` when the match ends with `>`, else `center`.
pub open spec fn align_of(m: Seq<char>) -> Seq<char> {
    if m.len() > 0 && m.last() == '>' {
        "right"@
    } else {
        "center"@
    }
}

/// The colored span for `c#color# content #` (`$` in the color stands for `#`).
pub open spec fn color_span(color: Seq<char>, content: Seq<char>) -> Seq<char> {
    "<span style=\"color: "@ + replace_all(color, "$"@, "#"@) + "\" role=\"custom-color\">"@
        + content + "</span>"@
}

/// The flex row for `->> content ->>` / `->> content <<-`.
pub open spec fn flex_row(m: Seq<char>, content: Seq<char>) -> Seq<char> {
    "<rf class=\"justify-"@ + align_of(m) + "\">"@ + content + "</rf>\n"@
}

/// The aligned row for `-> content ->` / `-> content <-`.
pub open spec fn aligned_row(m: Seq<char>, content: Seq<char>) -> Seq<char> {
    "<r class=\"text-"@ + align_of(m) + "\">"@ + content + "</r>\n"@
}

/// What one match does to the text; a match that lacks a group the rewrite
/// reads leaves the text as it is.
pub open spec fn capture_step(kind: CaptureRewrite, text: Seq<char>, cap: Seq<Option<Seq<char>>>) -> Seq<
    char,
> {
    match kind {
        CaptureRewrite::Image => match (
            group_of(cap, 0),
            group_of(cap, 2),
            group_of(cap, 3),
            group_of(cap, 4),
            group_of(cap, 5),
        ) {
            (Some(m), Some(title), Some(src), Some(w), Some(h)) => replace_all(
                text,
                m,
                image_tag(title, src, w, h),
            ),
            _ => text,
        },
        CaptureRewrite::Color => match (group_of(cap, 0), group_of(cap, 2), group_of(cap, 3)) {
            (Some(m), Some(color), Some(content)) => replace_first(
                text,
                m,
                color_span(color, content),
            ),
            _ => text,
        },
        CaptureRewrite::FlexArrow => match (group_of(cap, 0), group_of(cap, 2)) {
            (Some(m), Some(content)) => replace_first(text, m, flex_row(m, content)),
            _ => text,
        },
        CaptureRewrite::Arrow => match (group_of(cap, 0), group_of(cap, 2)) {
            (Some(m), Some(content)) => replace_first(text, m, aligned_row(m, content)),
            _ => text,
        },
    }
}

/// The matches applied in order.
pub open spec fn apply_captures(
    kind: CaptureRewrite,
    text: Seq<char>,
    caps: Seq<Seq<Option<Seq<char>>>>,
) -> Seq<char>
    decreases caps.len(),
{
    if caps.len() == 0 {
        text
    } else {
        apply_captures(kind, capture_step(kind, text, caps[0]), caps.drop_first())
    }
}

/// `right` when the match ends with `>`, else `center`.
pub fn align_chars(m: &[char]) -> (r: Vec<char>)
    ensures
        r@ == align_of(m@),
{
    if m.len() > 0 && m[m.len() - 1] == '>' {
        chars_of("right")
    } else {
        chars_of("center")
    }
}

/// What one match does to the text (see `capture_step`).
pub fn capture_step_chars(kind: CaptureRewrite, text: Vec<char>, cap: &Vec<Option<Vec<char>>>) -> (r:
    Vec<char>)
    ensures
        r@ == capture_step(kind, text@, cap.deep_view()),
{
    match kind {
        CaptureRewrite::Image => {
            let m = capture_group(cap, 0);
            let title = capture_group(cap, 2);
            let src = capture_group(cap, 3);
            let w = capture_group(cap, 4);
            let h = capture_group(cap, 5);
            match (m, title, src, w, h) {
                (Some(m), Some(title), Some(src), Some(w), Some(h)) => {
                    let tag = image_tag_chars(&title, &src, &w, &h);
                    replace_all_chars(&text, &m, &tag)
                },
                _ => text,
            }
        },
        CaptureRewrite::Color => {
            let m = capture_group(cap, 0);
            let color = capture_group(cap, 2);
            let content = capture_group(cap, 3);
            match (m, color, content) {
                (Some(m), Some(color), Some(content)) => {
                    let color = replace_all_chars(&color, &chars_of("$"), &chars_of("#"));
                    let mut span = chars_of("<span style=\"color: ");
                    push_all(&mut span, &color);
                    push_all(&mut span, &chars_of("\" role=\"custom-color\">"));
                    push_all(&mut span, &content);
                    push_all(&mut span, &chars_of("</span>"));
                    replace_first_chars(&text, &m, &span)
                },
                _ => text,
            }
        },
        CaptureRewrite::FlexArrow => {
            let m = capture_group(cap, 0);
            let content = capture_group(cap, 2);
            match (m, content) {
                (Some(m), Some(content)) => {
                    let mut row = chars_of("<rf class=\"justify-");
                    push_all(&mut row, &align_chars(&m));
                    push_all(&mut row, &chars_of("\">"));
                    push_all(&mut row, &content);
                    push_all(&mut row, &chars_of("</rf>\n"));
                    replace_first_chars(&text, &m, &row)
                },
                _ => text,
            }
        },
        CaptureRewrite::Arrow => {
            let m = capture_group(cap, 0);
            let content = capture_group(cap, 2);
            match (m, content) {
                (Some(m), Some(content)) => {
                    let mut row = chars_of("<r class=\"text-");
                    push_all(&mut row, &align_chars(&m));
                    push_all(&mut row, &chars_of("\">"));
                    push_all(&mut row, &content);
                    push_all(&mut row, &chars_of("</r>\n"));
                    replace_first_chars(&text, &m, &row)
                },
                _ => text,
            }
        },
    }
}

/// The matches `caps`, as the regex crate found them, applied in order.
pub fn apply_captures_chars(
    kind: CaptureRewrite,
    text: Vec<char>,
    caps: &Vec<Vec<Option<Vec<char>>>>,
) -> (r: Vec<char>)
    ensures
        r@ == apply_captures(kind, text@, caps.deep_view()),
{
    let ghost all = caps.deep_view();
    let mut out = text;
    let mut i: usize = 0;
    assert(all.skip(0) =~= all);
    while i < caps.len()
        invariant
            i <= caps@.len(),
            all == caps.deep_view(),
            all.len() == caps@.len(),
            apply_captures(kind, out@, all.skip(i as int)) == apply_captures(kind, text@, all),
        decreases caps@.len() - i,
    {
        assert(all.skip(i as int)[0] == caps@[i as int].deep_view());
        assert(all.skip(i as int).drop_first() =~= all.skip(i + 1));
        out = capture_step_chars(kind, out, &caps[i]);
        i = i + 1;
    }
    assert(all.skip(i as int) =~= Seq::<Seq<Option<Seq<char>>>>::empty());
    out
}

// ------------------------------------------------------------------
// Source rewrites (before CommonMark)
// ------------------------------------------------------------------

/// `<img ...>` for an image with a size: `![title](src):{WxH}`.
pub open spec fn image_tag(title: Seq<char>, src: Seq<char>, width: Seq<char>, height: Seq<char>) -> Seq<
    char,
> {
    "<img alt=\""@ + title + "\" title=\""@ + title + "\" src=\""@ + src + "\" style=\"width: "@
        + width + "px; height: "@ + height + "px;\" />"@
}

/// The sized-image pattern.
pub open spec fn image_pattern() -> Seq<char> {
    "(!)\\[(.*?)\\]\\((.*?)\\)\\:\\{(.*?)x(.*?)\\}"@
}

/// Rewrites of the markdown source: underline, sized images, admonitions.
pub open spec fn source_phase(s: Seq<char>) -> Seq<char> {
    let s1 = rewrite(
        s,
        "(\\_{2})(.*?)(\\_{2})"@,
        "<span style=\"text-decoration: underline;\" role=\"underline\">$2</span>"@,
        false,
    );
    let s2 = apply_captures(CaptureRewrite::Image, s1, matches_of(s1, image_pattern(), false));
    let s3 = rewrite(
        s2,
        "^(\\!{3})\\s(?<TYPE>.*?)\\s(?<TITLE>.+)\\n(?<CONTENT>.+)$"@,
        "<div class=\"mdnote note-$2\">\n            <b class=\"mdnote-title\">$3</b>\n            <p>$4</p>\n        </div>\n"@,
        false,
    );
    rewrite(
        s3,
        "^(\\!{3})\\s(?<TYPE>.*?)\\s(?<TITLE>.*?)$"@,
        "<div class=\"mdnote note-$2\"><b class=\"mdnote-title\">$3</b></div>\n"@,
        false,
    )
}

/// The `<img>` tag of a sized image.
pub fn image_tag_chars(title: &[char], src: &[char], width: &[char], height: &[char]) -> (r: Vec<
    char,
>)
    ensures
        r@ == image_tag(title@, src@, width@, height@),
{
    let mut r = chars_of("<img alt=\"");
    push_all(&mut r, title);
    push_all(&mut r, &chars_of("\" title=\""));
    push_all(&mut r, title);
    push_all(&mut r, &chars_of("\" src=\""));
    push_all(&mut r, src);
    push_all(&mut r, &chars_of("\" style=\"width: "));
    push_all(&mut r, width);
    push_all(&mut r, &chars_of("px; height: "));
    push_all(&mut r, height);
    push_all(&mut r, &chars_of("px;\" />"));
    r
}

/// The rewrites of the markdown source (see `source_phase`).
pub fn source_phase_chars(s: &[char]) -> (r: Vec<char>)
    ensures
        r@ == source_phase(s@),
{
    let s1 = rewrite_lit(
        s,
        "(\\_{2})(.*?)(\\_{2})",
        "<span style=\"text-decoration: underline;\" role=\"underline\">$2</span>",
        false,
    );
    let caps = find_matches(&s1, "(!)\\[(.*?)\\]\\((.*?)\\)\\:\\{(.*?)x(.*?)\\}", false);
    let s2 = apply_captures_chars(CaptureRewrite::Image, s1, &caps);
    let s3 = rewrite_lit(
        &s2,
        "^(\\!{3})\\s(?<TYPE>.*?)\\s(?<TITLE>.+)\\n(?<CONTENT>.+)$",
        "<div class=\"mdnote note-$2\">\n            <b class=\"mdnote-title\">$3</b>\n            <p>$4</p>\n        </div>\n",
        false,
    );
    rewrite_lit(
        &s3,
        "^(\\!{3})\\s(?<TYPE>.*?)\\s(?<TITLE>.*?)$",
        "<div class=\"mdnote note-$2\"><b class=\"mdnote-title\">$3</b></div>\n",
        false,
    )
}

// ------------------------------------------------------------------
// CommonMark, then the entity clean-up of the HTML
// ------------------------------------------------------------------

/// The HTML that comrak renders for `src` under the renderer's options: tables,
/// superscript, strikethrough, autolinks, header ids with an empty prefix, raw
/// HTML escaped, no smart punctuation.
pub open spec fn commonmark(src: Seq<char>) -> Seq<char> {
    markdown_html_result(src, true, true, true, true, Some(Seq::<char>::empty()), true, false)
}

/// The clean-up of the HTML that comrak renders: `&!name;` back to `&name;`,
/// quotes unescaped, and the `>` of CSS selectors unescaped.
pub open spec fn html_cleanup(h: Seq<char>) -> Seq<char> {
    let h = rewrite(h, "(&!)(.*?);"@, "&$2;"@, false);
    let h = replace_all(h, "&quot;"@, "\""@);
    let h = replace_all(h, "&gt; \\."@, "> ."@);
    let h = replace_all(h, "&gt; #"@, "> #"@);
    let h = replace_all(h, "(&gt;"@, "(>"@);
    replace_all(h, " &gt; "@, " > "@)
}

/// CommonMark, then the clean-up of its HTML.
pub open spec fn html_phase(src: Seq<char>) -> Seq<char> {
    html_cleanup(commonmark(src))
}

/// The clean-up of the HTML `h` that comrak rendered (see `html_cleanup`).
pub fn html_cleanup_chars(h: &[char]) -> (r: Vec<char>)
    ensures
        r@ == html_cleanup(h@),
{
    let h = rewrite_lit(h, "(&!)(.*?);", "&$2;", false);
    let h = replace_all_chars(&h, &chars_of("&quot;"), &chars_of("\""));
    let h = replace_all_chars(&h, &chars_of("&gt; \\."), &chars_of("> ."));
    let h = replace_all_chars(&h, &chars_of("&gt; #"), &chars_of("> #"));
    let h = replace_all_chars(&h, &chars_of("(&gt;"), &chars_of("(>"));
    replace_all_chars(&h, &chars_of(" &gt; "), &chars_of(" > "))
}

/// CommonMark, then the clean-up of its HTML (see `html_phase`).
pub fn html_phase_chars(src: &[char]) -> (r: Vec<char>)
    ensures
        r@ == html_phase(src@),
{
    let options = HtmlOptions {
        table: true,
        superscript: true,
        strikethrough: true,
        autolink: true,
        header_id_prefix: Some(Vec::new()),
        escape: true,
        smart: false,
    };
    proof {
        let p: Vec<char> = options.header_id_prefix.unwrap();
        assert(p.deep_view() =~= Seq::<char>::empty());
    }
    let h = markdown_to_html(src, &options);
    html_cleanup_chars(&h)
}

// ------------------------------------------------------------------
// The e#...# blocks
// ------------------------------------------------------------------

/// Blocks whose text is matched with its quotes escaped, as the HTML has them.
pub open spec fn quoted_rule(rule: Rule) -> bool {
    rule == Rule::HTML || rule == Rule::CLASS || rule == Rule::ANIMATION
}

/// The text that a block stands as in the rendered HTML.
pub open spec fn block_pattern(b: BlockView) -> Seq<char> {
    "e#"@ + (if quoted_rule(b.rule) {
        replace_all(b.text, "\""@, "&quot;"@)
    } else {
        b.text
    }) + "#"@
}

/// Each word followed by a space.
pub open spec fn attrs(ws: Seq<Seq<char>>) -> Seq<char>
    decreases ws.len(),
{
    if ws.len() == 0 {
        seq![]
    } else {
        attrs(ws.drop_last()) + ws.last() + " "@
    }
}

/// The HTML that a block becomes.
pub open spec fn block_replacement(b: BlockView) -> Seq<char> {
    match b.rule {
        Rule::THEME => "<theme>"@ + b.inner[0] + "</theme>"@,
        Rule::HSL => "<"@ + b.inner[0] + ">"@ + b.inner[1] + "</"@ + b.inner[0] + ">"@,
        Rule::HTML => "<"@ + b.inner[0] + " "@ + attrs(b.inner.drop_first()) + ">"@,
        Rule::CHTML => "</"@ + b.inner[0] + ">"@,
        Rule::ID => "<span id=\""@ + b.inner[0] + "\">"@,
        Rule::CLASS => "<span class=\""@ + attrs(b.inner) + "\">"@,
        Rule::CLOSE => "</span>"@,
        Rule::ANIMATION => "<span role=\"animation\" style=\"animation: "@ + b.inner[0] + " "@
            + attrs(b.inner.drop_first())
            + " ease-in-out forwards running; display: inline-block;\">"@,
    }
}

/// A block has the words that its replacement reads.
pub open spec fn block_fits(b: BlockView) -> bool {
    match b.rule {
        Rule::HSL => b.inner.len() >= 2,
        Rule::CLASS => true,
        Rule::CLOSE => true,
        _ => b.inner.len() >= 1,
    }
}

/// Every block of the list has the words that its replacement reads.
pub open spec fn blocks_fit(bs: Seq<BlockView>) -> bool {
    forall|i: int| 0 <= i < bs.len() ==> #[trigger] block_fits(bs[i])
}

/// The blocks applied in order: every occurrence of a block's text becomes its HTML.
pub open spec fn apply_blocks(text: Seq<char>, bs: Seq<BlockView>) -> Seq<char>
    decreases bs.len(),
{
    if bs.len() == 0 {
        text
    } else {
        apply_blocks(replace_all(text, block_pattern(bs[0]), block_replacement(bs[0])), bs.drop_first())
    }
}

/// The words of `ws` from index `from` on, each followed by a space.
pub fn attrs_chars(ws: &Vec<String>, from: usize) -> (r: Vec<char>)
    requires
        from <= ws@.len(),
    ensures
        r@ == attrs(ws.deep_view().subrange(from as int, ws@.len() as int)),
{
    let ghost all = ws.deep_view();
    let mut r: Vec<char> = Vec::new();
    let mut k: usize = from;
    assert(all.subrange(from as int, from as int) =~= Seq::<Seq<char>>::empty());
    while k < ws.len()
        invariant
            from <= k <= ws@.len(),
            all == ws.deep_view(),
            all.len() == ws@.len(),
            r@ == attrs(all.subrange(from as int, k as int)),
        decreases ws@.len() - k,
    {
        let w = chars_of(ws[k].as_str());
        push_all(&mut r, &w);
        push_all(&mut r, &chars_of(" "));
        assert(all.subrange(from as int, k + 1).drop_last() =~= all.subrange(from as int, k as int));
        assert(all.subrange(from as int, k + 1).last() == ws@[k as int]@);
        k = k + 1;
    }
    r
}

/// The text that a block stands as in the rendered HTML.
pub fn block_pattern_chars(b: &Block) -> (r: Vec<char>)
    ensures
        r@ == block_pattern(b@),
{
    let text = chars_of(b.text.as_str());
    let middle = match b.rule {
        Rule::HTML | Rule::CLASS | Rule::ANIMATION => replace_all_chars(
            &text,
            &chars_of("\""),
            &chars_of("&quot;"),
        ),
        _ => text,
    };
    let mut r = chars_of("e#");
    push_all(&mut r, &middle);
    push_all(&mut r, &chars_of("#"));
    r
}

/// The HTML that a block becomes.
pub fn block_replacement_chars(b: &Block) -> (r: Vec<char>)
    requires
        block_fits(b@),
    ensures
        r@ == block_replacement(b@),
{
    let ghost inner = b.inner.deep_view();
    assert(inner.len() == b.inner@.len());
    match b.rule {
        Rule::THEME => {
            let first = chars_of(b.inner[0].as_str());
            let mut r = chars_of("<theme>");
            push_all(&mut r, &first);
            push_all(&mut r, &chars_of("</theme>"));
            r
        },
        Rule::HSL => {
            let which = chars_of(b.inner[0].as_str());
            let value = chars_of(b.inner[1].as_str());
            let mut r = chars_of("<");
            push_all(&mut r, &which);
            push_all(&mut r, &chars_of(">"));
            push_all(&mut r, &value);
            push_all(&mut r, &chars_of("</"));
            push_all(&mut r, &which);
            push_all(&mut r, &chars_of(">"));
            r
        },
        Rule::HTML => {
            let tag = chars_of(b.inner[0].as_str());
            let rest = attrs_chars(&b.inner, 1);
            assert(inner.subrange(1, inner.len() as int) =~= inner.drop_first());
            let mut r = chars_of("<");
            push_all(&mut r, &tag);
            push_all(&mut r, &chars_of(" "));
            push_all(&mut r, &rest);
            push_all(&mut r, &chars_of(">"));
            r
        },
        Rule::CHTML => {
            let tag = chars_of(b.inner[0].as_str());
            let mut r = chars_of("</");
            push_all(&mut r, &tag);
            push_all(&mut r, &chars_of(">"));
            r
        },
        Rule::ID => {
            let id = chars_of(b.inner[0].as_str());
            let mut r = chars_of("<span id=\"");
            push_all(&mut r, &id);
            push_all(&mut r, &chars_of("\">"));
            r
        },
        Rule::CLASS => {
            let all = attrs_chars(&b.inner, 0);
            assert(inner.subrange(0, inner.len() as int) =~= inner);
            let mut r = chars_of("<span class=\"");
            push_all(&mut r, &all);
            push_all(&mut r, &chars_of("\">"));
            r
        },
        Rule::CLOSE => chars_of("</span>"),
        Rule::ANIMATION => {
            let name = chars_of(b.inner[0].as_str());
            let rest = attrs_chars(&b.inner, 1);
            assert(inner.subrange(1, inner.len() as int) =~= inner.drop_first());
            let mut r = chars_of("<span role=\"animation\" style=\"animation: ");
            push_all(&mut r, &name);
            push_all(&mut r, &chars_of(" "));
            push_all(&mut r, &rest);
            push_all(&mut r, &chars_of(" ease-in-out forwards running; display: inline-block;\">"));
            r
        },
    }
}

/// The blocks of `tree` applied in order (see `apply_blocks`).
pub fn apply_blocks_chars(text: Vec<char>, tree: &Vec<Block>) -> (r: Vec<char>)
    requires
        blocks_fit(blocks_view(tree@)),
    ensures
        r@ == apply_blocks(text@, blocks_view(tree@)),
{
    let ghost all = blocks_view(tree@);
    let mut out = text;
    let mut i: usize = 0;
    assert(all.skip(0) =~= all);
    while i < tree.len()
        invariant
            i <= tree@.len(),
            all == blocks_view(tree@),
            all.len() == tree@.len(),
            blocks_fit(all),
            apply_blocks(out@, all.skip(i as int)) == apply_blocks(text@, all),
        decreases tree@.len() - i,
    {
        assert(all.skip(i as int)[0] == tree@[i as int]@);
        assert(all.skip(i as int).drop_first() =~= all.skip(i + 1));
        assert(block_fits(all[i as int]));
        let pattern = block_pattern_chars(&tree[i]);
        let replacement = block_replacement_chars(&tree[i]);
        out = replace_all_chars(&out, &pattern, &replacement);
        i = i + 1;
    }
    assert(all.skip(i as int) =~= Seq::<BlockView>::empty());
    out
}

// ------------------------------------------------------------------
// Allowed elements: their escaped tags are restored
// ------------------------------------------------------------------

/// The elements whose escaped tags are turned back into tags.
pub open spec fn allowed_elements() -> Seq<Seq<char>> {
    seq![
        "hue"@,
        "sat"@,
        "lit"@,
        "theme"@,
        "comment"@,
        "p"@,
        "span"@,
        "style"@,
        "img"@,
        "div"@,
        "a"@,
        "b"@,
        "i"@,
        "strong"@,
        "em"@,
        "r"@,
        "rf"@,
    ]
}

/// `&lt;e&gt;`, `&lt;e ...&gt;` and `&lt;/e&gt;` back to tags.
pub open spec fn element_step(text: Seq<char>, e: Seq<char>) -> Seq<char> {
    let t = rewrite(text, "&lt;"@ + e + "&gt;"@, "<"@ + e + ">"@, false);
    let t = rewrite(t, "&lt;"@ + e + "(.*?)&gt;"@, "<"@ + e + "$1>"@, false);
    rewrite(t, "&lt;/"@ + e + "&gt;"@, "</"@ + e + ">"@, false)
}

pub open spec fn apply_elements(text: Seq<char>, es: Seq<Seq<char>>) -> Seq<char>
    decreases es.len(),
{
    if es.len() == 0 {
        text
    } else {
        apply_elements(element_step(text, es[0]), es.drop_first())
    }
}

/// The `i`-th allowed element.
pub fn allowed_element(i: usize) -> (r: &'static str)
    requires
        i < 17,
    ensures
        r@ == allowed_elements()[i as int],
{
    match i {
        0 => "hue",
        1 => "sat",
        2 => "lit",
        3 => "theme",
        4 => "comment",
        5 => "p",
        6 => "span",
        7 => "style",
        8 => "img",
        9 => "div",
        10 => "a",
        11 => "b",
        12 => "i",
        13 => "strong",
        14 => "em",
        15 => "r",
        _ => "rf",
    }
}

/// The escaped tags of element `e` restored (see `element_step`).
pub fn element_step_chars(text: &[char], e: &[char]) -> (r: Vec<char>)
    ensures
        r@ == element_step(text@, e@),
{
    let open_pat = cat(&cat(&chars_of("&lt;"), e), &chars_of("&gt;"));
    let open_rep = cat(&cat(&chars_of("<"), e), &chars_of(">"));
    let t = rewrite_chars(text, &open_pat, &open_rep, false);
    let attr_pat = cat(&cat(&chars_of("&lt;"), e), &chars_of("(.*?)&gt;"));
    let attr_rep = cat(&cat(&chars_of("<"), e), &chars_of("$1>"));
    let t = rewrite_chars(&t, &attr_pat, &attr_rep, false);
    let close_pat = cat(&cat(&chars_of("&lt;/"), e), &chars_of("&gt;"));
    let close_rep = cat(&cat(&chars_of("</"), e), &chars_of(">"));
    rewrite_chars(&t, &close_pat, &close_rep, false)
}

/// The escaped tags of every allowed element restored.
pub fn elements_phase_chars(text: Vec<char>) -> (r: Vec<char>)
    ensures
        r@ == apply_elements(text@, allowed_elements()),
{
    let ghost all = allowed_elements();
    let mut out = text;
    let mut i: usize = 0;
    assert(all.skip(0) =~= all);
    while i < 17
        invariant
            i <= 17,
            all == allowed_elements(),
            all.len() == 17,
            apply_elements(out@, all.skip(i as int)) == apply_elements(text@, all),
        decreases 17 - i,
    {
        assert(all.skip(i as int).drop_first() =~= all.skip(i + 1));
        let e = chars_of(allowed_element(i));
        out = element_step_chars(&out, &e);
        i = i + 1;
    }
    assert(all.skip(17) =~= Seq::<Seq<char>>::empty());
    out
}

// ------------------------------------------------------------------
// Style blocks: `ssm#...#` and their compiled CSS
// ------------------------------------------------------------------

/// The `ssm#program#` pattern (dot matches new lines).
pub open spec fn ssm_pattern() -> Seq<char> {
    "(ssm\\#)(?<CONTENT>.*?)\\#"@
}

/// The program of one style block, `$` standing for `#`, as it is handed to
/// the style compiler.
pub open spec fn ssm_source(cap: Seq<Option<Seq<char>>>) -> Option<Seq<char>> {
    match group_of(cap, 2) {
        Some(c) => Some(replace_all(c, "$"@, "#"@)),
        None => None,
    }
}

/// One style block: every occurrence of the match becomes `<style>css</style>`.
pub open spec fn style_step(text: Seq<char>, cap: Seq<Option<Seq<char>>>, css: Seq<char>) -> Seq<char> {
    match group_of(cap, 0) {
        Some(m) => replace_all(text, m, "<style>"@ + css + "</style>"@),
        None => text,
    }
}

/// The style blocks applied in order, each with its compiled CSS.
pub open spec fn apply_styles(
    text: Seq<char>,
    caps: Seq<Seq<Option<Seq<char>>>>,
    css: Seq<Seq<char>>,
) -> Seq<char>
    decreases caps.len(),
{
    if caps.len() == 0 || css.len() == 0 {
        text
    } else {
        apply_styles(style_step(text, caps[0], css[0]), caps.drop_first(), css.drop_first())
    }
}

/// The style blocks of `text`, as the regex crate finds them.
pub fn ssm_matches(text: &[char]) -> (r: Vec<Vec<Option<Vec<char>>>>)
    ensures
        r.deep_view() == matches_of(text@, ssm_pattern(), true),
{
    find_matches(text, "(ssm\\#)(?<CONTENT>.*?)\\#", true)
}

/// The program of one style block, for the style compiler.
pub fn ssm_source_chars(cap: &Vec<Option<Vec<char>>>) -> (r: Option<Vec<char>>)
    ensures
        match r {
            Some(v) => ssm_source(cap.deep_view()) == Some(v@),
            None => ssm_source(cap.deep_view()) is None,
        },
{
    match capture_group(cap, 2) {
        Some(c) => Some(replace_all_chars(&c, &chars_of("$"), &chars_of("#"))),
        None => None,
    }
}

/// The style blocks `caps` replaced by `<style>` elements holding `css`, the
/// compiled CSS of each block in the same order.
pub fn apply_styles_chars(text: Vec<char>, caps: &Vec<Vec<Option<Vec<char>>>>, css: &Vec<Vec<char>>) -> (r:
    Vec<char>)
    ensures
        r@ == apply_styles(text@, caps.deep_view(), css.deep_view()),
{
    let ghost all = caps.deep_view();
    let ghost sheets = css.deep_view();
    let mut out = text;
    let mut i: usize = 0;
    assert(all.skip(0) =~= all);
    assert(sheets.skip(0) =~= sheets);
    while i < caps.len() && i < css.len()
        invariant
            i <= caps@.len(),
            i <= css@.len(),
            all == caps.deep_view(),
            sheets == css.deep_view(),
            all.len() == caps@.len(),
            sheets.len() == css@.len(),
            apply_styles(out@, all.skip(i as int), sheets.skip(i as int)) == apply_styles(
                text@,
                all,
                sheets,
            ),
        decreases caps@.len() - i,
    {
        assert(all.skip(i as int)[0] == caps@[i as int].deep_view());
        assert(sheets.skip(i as int)[0] == css@[i as int].deep_view());
        assert(all.skip(i as int).drop_first() =~= all.skip(i + 1));
        assert(sheets.skip(i as int).drop_first() =~= sheets.skip(i + 1));
        proof {
            lemma_chars_deep_view(css@[i as int]);
        }
        let m = capture_group(&caps[i], 0);
        match m {
            Some(m) => {
                let mut tag = chars_of("<style>");
                push_all(&mut tag, &css[i]);
                push_all(&mut tag, &chars_of("</style>"));
                out = replace_all_chars(&out, &m, &tag);
            },
            None => {},
        }
        i = i + 1;
    }
    assert(all.skip(i as int).len() == 0 || sheets.skip(i as int).len() == 0);
    out
}

// ------------------------------------------------------------------
// Inline rewrites of the HTML
// ------------------------------------------------------------------

/// The `c#color# content #` pattern.
pub open spec fn color_pattern() -> Seq<char> {
    "(c\\#)\\s*(?<COLOR>.*?)\\s*\\#\\s*(?<CONTENT>.*?)\\s*\\#"@
}

/// The `->> ... ->>` pattern.
pub open spec fn flex_arrow_pattern() -> Seq<char> {
    "(\\->{2})(.*?)(\\->{2}|<{2}\\-)"@
}

/// The `-> ... ->` pattern.
pub open spec fn arrow_pattern() -> Seq<char> {
    "(\\->{1})(.*?)(\\->{1}|<{1}\\-)"@
}

/// Colors, spoilers, highlights and alignment arrows.
pub open spec fn inline_phase(s: Seq<char>) -> Seq<char> {
    let t = apply_captures(CaptureRewrite::Color, s, matches_of(s, color_pattern(), true));
    let t = rewrite(
        t,
        "%(.*?)%\\s*(.*?)\\s*(%{2})"@,
        "<span style=\"color: $1;\" role=\"custom-color\">$2</span>"@,
        true,
    );
    let t = rewrite(
        t,
        "(\\|\\|)\\s*(?<CONTENT>.*?)\\s*(\\|\\|)"@,
        "<span role=\"spoiler\">$2</span>"@,
        false,
    );
    let t = rewrite(
        t,
        "(\\!\\&gt;)\\s*(?<CONTENT>.*?)($|\\s\\s)"@,
        "<span role=\"spoiler\">$2</span>"@,
        false,
    );
    let t = rewrite(t, "(\\={2})(.*?)(\\={2})"@, "<span class=\"highlight\">$2</span>"@, false);
    let t = rewrite(t, "-&gt;&gt;"@, "->>"@, false);
    let t = rewrite(t, "&lt;&lt;-"@, "<<-"@, false);
    let t = rewrite(t, "-&gt;"@, "->"@, false);
    let t = rewrite(t, "&lt;-"@, "<-"@, false);
    let t = apply_captures(CaptureRewrite::FlexArrow, t, matches_of(t, flex_arrow_pattern(), true));
    apply_captures(CaptureRewrite::Arrow, t, matches_of(t, arrow_pattern(), true))
}

/// Colors, spoilers, highlights and alignment arrows (see `inline_phase`).
pub fn inline_phase_chars(s: Vec<char>) -> (r: Vec<char>)
    ensures
        r@ == inline_phase(s@),
{
    let caps = find_matches(&s, "(c\\#)\\s*(?<COLOR>.*?)\\s*\\#\\s*(?<CONTENT>.*?)\\s*\\#", true);
    let t = apply_captures_chars(CaptureRewrite::Color, s, &caps);
    let t = rewrite_lit(
        &t,
        "%(.*?)%\\s*(.*?)\\s*(%{2})",
        "<span style=\"color: $1;\" role=\"custom-color\">$2</span>",
        true,
    );
    let t = rewrite_lit(
        &t,
        "(\\|\\|)\\s*(?<CONTENT>.*?)\\s*(\\|\\|)",
        "<span role=\"spoiler\">$2</span>",
        false,
    );
    let t = rewrite_lit(
        &t,
        "(\\!\\&gt;)\\s*(?<CONTENT>.*?)($|\\s\\s)",
        "<span role=\"spoiler\">$2</span>",
        false,
    );
    let t = rewrite_lit(&t, "(\\={2})(.*?)(\\={2})", "<span class=\"highlight\">$2</span>", false);
    let t = rewrite_lit(&t, "-&gt;&gt;", "->>", false);
    let t = rewrite_lit(&t, "&lt;&lt;-", "<<-", false);
    let t = rewrite_lit(&t, "-&gt;", "->", false);
    let t = rewrite_lit(&t, "&lt;-", "<-", false);
    let caps = find_matches(&t, "(\\->{2})(.*?)(\\->{2}|<{2}\\-)", true);
    let t = apply_captures_chars(CaptureRewrite::FlexArrow, t, &caps);
    let caps = find_matches(&t, "(\\->{1})(.*?)(\\->{1}|<{1}\\-)", true);
    apply_captures_chars(CaptureRewrite::Arrow, t, &caps)
}

// ------------------------------------------------------------------
// BBCode-style tags
// ------------------------------------------------------------------

/// `[hN]text[/hN]` to a heading of level `d`.
pub open spec fn heading_step(t: Seq<char>, d: char) -> Seq<char> {
    rewrite(
        t,
        "\\[h"@ + seq![d] + "\\](.*?)\\[/h"@ + seq![d] + "\\]"@,
        "<h"@ + seq![d] + " id=\"$1\">$1</h"@ + seq![d] + ">"@,
        false,
    )
}

/// Bold, italic, underline, alignment, color, message, highlight, headings,
/// line breaks, code and fenced code.
pub open spec fn bbcode_phase(t: Seq<char>) -> Seq<char> {
    let t = rewrite(t, "\\[b\\](.*?)\\[/b\\]"@, "<strong>$1</strong>"@, false);
    let t = rewrite(t, "\\[i\\](.*?)\\[/i\\]"@, "<em>$1</em>"@, false);
    bbcode_after_emphasis(t)
}

/// The BBCode tags after `[b]` and `[i]`, in the order the phase takes them.
pub open spec fn bbcode_after_emphasis(t: Seq<char>) -> Seq<char> {
    let t = rewrite(t, "\\[bi\\](.*?)\\[/bi\\]"@, "<strong><em>$1</em></strong>"@, false);
    let t = rewrite(
        t,
        "\\[u\\](.*?)\\[/u\\]"@,
        "<span style=\"text-decoration: underline;\" role=\"underline\">$1</span>"@,
        false,
    );
    let t = rewrite(t, "\\[c\\](.*?)\\[/c\\]"@, "<r class=\"text-center\">$1</r>"@, true);
    let t = rewrite(t, "\\[r\\](.*?)\\[/r\\]"@, "<r class=\"text-right\">$1</r>"@, true);
    let t = rewrite(
        t,
        "\\[t (.*?)\\](.*?)\\[/t\\]"@,
        "<span style=\"color: $1;\" role=\"custom-color\">$2</span>"@,
        true,
    );
    let t = rewrite(
        t,
        "\\[m (.*?)\\](.*?)\\[/m\\]"@,
        "<span title=\"$1\" role=\"custom-message\">$2</span>"@,
        true,
    );
    let t = rewrite(t, "\\[h\\](.*?)\\[/h\\]"@, "<span class=\"highlight\">$1</span>"@, false);
    let t = rewrite(t, "\\[h\\](.*?)\\[/h\\]"@, "<span class=\"highlight\">$1</span>"@, false);
    let t = heading_step(t, '1');
    let t = heading_step(t, '2');
    let t = heading_step(t, '3');
    let t = heading_step(t, '4');
    let t = heading_step(t, '5');
    let t = heading_step(t, '6');
    let t = rewrite(t, "\\[/\\]"@, "<br />"@, false);
    let t = rewrite(t, "\\[cl\\](.*?)\\[/cl\\]"@, "<code>$1</code>"@, false);
    rewrite(
        t,
        "\\[src (.*?)\\]\\n(.*?)\\n\\[/src\\]"@,
        "<pre class=\"lang-$1\"><code>$2</code></pre>"@,
        true,
    )
}

/// `[hN]text[/hN]` to a heading of level `d` (see `heading_step`).
pub fn heading_step_chars(t: &[char], d: char) -> (r: Vec<char>)
    ensures
        r@ == heading_step(t@, d),
{
    let mut digit: Vec<char> = Vec::new();
    digit.push(d);
    let mut pattern = chars_of("\\[h");
    push_all(&mut pattern, &digit);
    push_all(&mut pattern, &chars_of("\\](.*?)\\[/h"));
    push_all(&mut pattern, &digit);
    push_all(&mut pattern, &chars_of("\\]"));
    let mut rep = chars_of("<h");
    push_all(&mut rep, &digit);
    push_all(&mut rep, &chars_of(" id=\"$1\">$1</h"));
    push_all(&mut rep, &digit);
    push_all(&mut rep, &chars_of(">"));
    assert(digit@ =~= seq![d]);
    rewrite_chars(t, &pattern, &rep, false)
}

/// The BBCode-style tags (see `bbcode_phase`).
pub fn bbcode_phase_chars(t: &[char]) -> (r: Vec<char>)
    ensures
        r@ == bbcode_phase(t@),
{
    let t = rewrite_lit(t, "\\[b\\](.*?)\\[/b\\]", "<strong>$1</strong>", false);
    let t = rewrite_lit(&t, "\\[i\\](.*?)\\[/i\\]", "<em>$1</em>", false);
    let t = rewrite_lit(&t, "\\[bi\\](.*?)\\[/bi\\]", "<strong><em>$1</em></strong>", false);
    let t = rewrite_lit(
        &t,
        "\\[u\\](.*?)\\[/u\\]",
        "<span style=\"text-decoration: underline;\" role=\"underline\">$1</span>",
        false,
    );
    let t = rewrite_lit(&t, "\\[c\\](.*?)\\[/c\\]", "<r class=\"text-center\">$1</r>", true);
    let t = rewrite_lit(&t, "\\[r\\](.*?)\\[/r\\]", "<r class=\"text-right\">$1</r>", true);
    let t = rewrite_lit(
        &t,
        "\\[t (.*?)\\](.*?)\\[/t\\]",
        "<span style=\"color: $1;\" role=\"custom-color\">$2</span>",
        true,
    );
    let t = rewrite_lit(
        &t,
        "\\[m (.*?)\\](.*?)\\[/m\\]",
        "<span title=\"$1\" role=\"custom-message\">$2</span>",
        true,
    );
    let t = rewrite_lit(&t, "\\[h\\](.*?)\\[/h\\]", "<span class=\"highlight\">$1</span>", false);
    let t = rewrite_lit(&t, "\\[h\\](.*?)\\[/h\\]", "<span class=\"highlight\">$1</span>", false);
    let t = heading_step_chars(&t, '1');
    let t = heading_step_chars(&t, '2');
    let t = heading_step_chars(&t, '3');
    let t = heading_step_chars(&t, '4');
    let t = heading_step_chars(&t, '5');
    let t = heading_step_chars(&t, '6');
    let t = rewrite_lit(&t, "\\[/\\]", "<br />", false);
    let t = rewrite_lit(&t, "\\[cl\\](.*?)\\[/cl\\]", "<code>$1</code>", false);
    rewrite_lit(
        &t,
        "\\[src (.*?)\\]\\n(.*?)\\n\\[/src\\]",
        "<pre class=\"lang-$1\"><code>$2</code></pre>",
        true,
    )
}

// ------------------------------------------------------------------
// Removal of event handlers, javascript links, scripts, links and metas
// ------------------------------------------------------------------

pub open spec fn sanitize_phase(t: Seq<char>) -> Seq<char> {
    let t = rewrite(t, "^(on)(.*)\\=(.*)\"$"@, ""@, false);
    let t = rewrite(t, "(href)\\=\"(javascript\\:)(.*)\""@, ""@, false);
    let t = rewrite(t, "(<script.*>)(.*?)(<\\/script>)"@, ""@, false);
    let t = rewrite(t, "(<script.*>)"@, ""@, false);
    let t = rewrite(t, "(<link.*>)"@, ""@, false);
    rewrite(t, "(<meta.*>)"@, ""@, false)
}

/// Removal of event handlers, javascript links, scripts, links and metas.
pub fn sanitize_phase_chars(t: &[char]) -> (r: Vec<char>)
    ensures
        r@ == sanitize_phase(t@),
{
    let t = rewrite_lit(t, "^(on)(.*)\\=(.*)\"$", "", false);
    let t = rewrite_lit(&t, "(href)\\=\"(javascript\\:)(.*)\"", "", false);
    let t = rewrite_lit(&t, "(<script.*>)(.*?)(<\\/script>)", "", false);
    let t = rewrite_lit(&t, "(<script.*>)", "", false);
    let t = rewrite_lit(&t, "(<link.*>)", "", false);
    rewrite_lit(&t, "(<meta.*>)", "", false)
}

// ------------------------------------------------------------------
// The whole renderer
// ------------------------------------------------------------------

/// The HTML up to the place of the style blocks: source rewrites, CommonMark,
/// the blocks `bs`, and the allowed elements.
pub open spec fn render_before_styles(bs: Seq<BlockView>, source: Seq<char>) -> Seq<char> {
    let html = html_phase(source_phase(source));
    let html = apply_blocks(html, bs);
    apply_elements(html, allowed_elements())
}

/// The HTML from the place of the style blocks on: inline rewrites, BBCode
/// tags, and the removal of scripts.
pub open spec fn render_after_styles(html: Seq<char>) -> Seq<char> {
    sanitize_phase(bbcode_phase(inline_phase(html)))
}

/// The HTML that the renderer makes of `source` with the blocks `bs`.
pub open spec fn render(bs: Seq<BlockView>, source: Seq<char>) -> Seq<char> {
    render_after_styles(render_before_styles(bs, source))
}

/// The HTML up to the place of the style blocks (see `render_before_styles`).
pub fn before_styles(tree: &Vec<Block>, source: &[char]) -> (r: Vec<char>)
    requires
        blocks_fit(blocks_view(tree@)),
    ensures
        r@ == render_before_styles(blocks_view(tree@), source@),
{
    let s = source_phase_chars(source);
    let html = html_phase_chars(&s);
    let html = apply_blocks_chars(html, tree);
    elements_phase_chars(html)
}

/// The HTML from the place of the style blocks on (see `render_after_styles`).
pub fn after_styles(html: Vec<char>) -> (r: String)
    ensures
        r@ == render_after_styles(html@),
{
    let html = inline_phase_chars(html);
    let html = bbcode_phase_chars(&html);
    let html = sanitize_phase_chars(&html);
    string_from_chars(&html)
}

/// Renders `original_in` to HTML, the `e#...#` blocks of `tree` included.
///
/// Every pattern of the renderer builds; were one not to, its step would leave
/// the text unchanged. Style blocks `ssm#...#` are left as written: their
/// compiler is not part of this library. A caller that has it renders with
/// `before_styles`, finds the blocks with `ssm_matches`, hands each
/// `ssm_source_chars` to the compiler, applies the CSS with
/// `apply_styles_chars`, and finishes with `after_styles`.
pub fn from_tree(tree: &Vec<Block>, original_in: String) -> (out: String)
    requires
        blocks_fit(blocks_view(tree@)),
    ensures
        out@ == render(blocks_view(tree@), original_in@),
{
    let source = chars_of(original_in.as_str());
    after_styles(before_styles(tree, &source))
}

/// Every block that the scanner finds has the words that its replacement reads.
pub proof fn lemma_scan_blocks_fit(s: Seq<char>)
    ensures
        blocks_fit(scan_blocks(s)),
    decreases s.len(),
{
    if s.len() < 2 {
    } else if s[0] == 'e' && s[1] == '#' {
        lemma_first_index_bounds(s.skip(2), '#');
        match first_index(s.skip(2), '#') {
            Some(k) => match classify(s.subrange(2, 2 + k)) {
                Some(b) => {
                    lemma_scan_blocks_fit(s.skip(3 + k));
                    let rest = scan_blocks(s.skip(3 + k));
                    assert(block_fits(b));
                    assert forall|i: int| 0 <= i < scan_blocks(s).len() implies #[trigger] block_fits(
                        scan_blocks(s)[i],
                    ) by {
                        if i > 0 {
                            assert(scan_blocks(s)[i] == rest[i - 1]);
                        }
                    }
                },
                None => {
                    lemma_scan_blocks_fit(s.skip(1));
                },
            },
            None => {},
        }
    } else {
        lemma_scan_blocks_fit(s.skip(1));
    }
}

/// Renders markup to HTML: the `e#...#` blocks are read from the text itself.
pub fn parse_markdown(input: &str) -> (out: String)
    ensures
        out@ == render(scan_blocks(input@), input@),
{
    let tree = parse_blocks(input);
    proof {
        lemma_scan_blocks_fit(input@);
    }
    from_tree(&tree, input.to_owned())
}

/// Blocks whose text does not appear in the HTML leave it unchanged.
pub proof fn lemma_absent_blocks(text: Seq<char>, bs: Seq<BlockView>)
    requires
        forall|i: int| 0 <= i < bs.len() ==> !occurs_in(text, #[trigger] block_pattern(bs[i])),
    ensures
        apply_blocks(text, bs) == text,
    decreases bs.len(),
{
    if bs.len() > 0 {
        assert(!occurs_in(text, block_pattern(bs[0])));
        lemma_replace_all_absent(text, block_pattern(bs[0]), block_replacement(bs[0]));
        let rest = bs.drop_first();
        assert forall|i: int| 0 <= i < rest.len() implies !occurs_in(
            text,
            #[trigger] block_pattern(rest[i]),
        ) by {
            assert(rest[i] == bs[i + 1]);
        }
        lemma_absent_blocks(text, rest);
    }
}

/// The regex of a BBCode tag `[tag]content[/tag]`, the content as group 1.
pub open spec fn tag_pattern(tag: Seq<char>) -> Seq<char> {
    "\\["@ + tag + "\\](.*?)\\[/"@ + tag + "\\]"@
}

/// The HTML element `element` around group 1 of a match.
pub open spec fn element_around_group(element: Seq<char>) -> Seq<char> {
    "<"@ + element + ">$1</"@ + element + ">"@
}

/// `[b]` and `[i]` are two different tags: the BBCode phase first turns every
/// `[b]x[/b]` into a `strong` element around `x`, then every `[i]x[/i]` into an
/// `em` element around `x`, and only then takes the other tags.
pub proof fn lemma_bbcode_bold_and_italic(t: Seq<char>)
    ensures
        bbcode_phase(t) == bbcode_after_emphasis(
            rewrite(
                rewrite(t, tag_pattern("b"@), element_around_group("strong"@), false),
                tag_pattern("i"@),
                element_around_group("em"@),
                false,
            ),
        ),
        element_around_group("em"@) != element_around_group("strong"@),
{
    reveal_strlit("\\[");
    reveal_strlit("\\](.*?)\\[/");
    reveal_strlit("\\]");
    reveal_strlit("<");
    reveal_strlit(">$1</");
    reveal_strlit(">");
    reveal_strlit("b");
    reveal_strlit("i");
    reveal_strlit("em");
    reveal_strlit("strong");
    reveal_strlit("\\[b\\](.*?)\\[/b\\]");
    reveal_strlit("\\[i\\](.*?)\\[/i\\]");
    reveal_strlit("<strong>$1</strong>");
    reveal_strlit("<em>$1</em>");
    assert(tag_pattern("b"@) =~= "\\[b\\](.*?)\\[/b\\]"@);
    assert(tag_pattern("i"@) =~= "\\[i\\](.*?)\\[/i\\]"@);
    assert(element_around_group("strong"@) =~= "<strong>$1</strong>"@);
    assert(element_around_group("em"@) =~= "<em>$1</em>"@);
    assert(element_around_group("em"@)[1] != element_around_group("strong"@)[1]);
}

} // verus!
