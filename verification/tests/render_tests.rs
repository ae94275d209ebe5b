use bundlrs::markdown::blocks::{Block, Rule};
use bundlrs::markdown::render::{
    after_styles, apply_captures_chars, apply_styles_chars, before_styles, from_tree, parse_markdown,
    ssm_matches, ssm_source_chars, CaptureRewrite,
};

fn block(rule: Rule, text: &str, inner: &[&str]) -> Block {
    Block {
        rule,
        text: text.to_string(),
        inner: inner.iter().map(|s| s.to_string()).collect(),
    }
}

#[test]
fn plain_paragraph() {
    assert_eq!(parse_markdown("hello"), "<p>hello</p>\n");
}

#[test]
fn commonmark_emphasis_is_rendered() {
    assert_eq!(parse_markdown("**b**"), "<p><strong>b</strong></p>\n");
}

#[test]
fn underline_source_rewrite() {
    assert_eq!(
        parse_markdown("__u__"),
        "<p><span style=\"text-decoration: underline;\" role=\"underline\">u</span></p>\n"
    );
}

#[test]
fn bbcode_bold_and_code() {
    assert_eq!(parse_markdown("[b]x[/b]"), "<p><strong>x</strong></p>\n");
    assert_eq!(parse_markdown("[cl]y[/cl]"), "<p><code>y</code></p>\n");
}

#[test]
fn highlight_and_spoiler() {
    assert_eq!(parse_markdown("==hi=="), "<p><span class=\"highlight\">hi</span></p>\n");
    assert_eq!(parse_markdown("||secret||"), "<p><span role=\"spoiler\">secret</span></p>\n");
}

#[test]
fn sized_image() {
    assert_eq!(
        parse_markdown("![t](a.png):{10x20}"),
        "<img alt=\"t\" title=\"t\" src=\"a.png\" style=\"width: 10px; height: 20px;\" />\n"
    );
}

#[test]
fn theme_block() {
    assert_eq!(parse_markdown("e#theme dark#"), "<p><theme>dark</theme></p>\n");
}

#[test]
fn id_and_close_blocks() {
    assert_eq!(
        parse_markdown("e#id top#x e#close#"),
        "<p><span id=\"top\">x </span></p>\n"
    );
}

#[test]
fn right_arrow_alignment() {
    assert_eq!(
        parse_markdown("-> text ->"),
        "<p><r class=\"text-right\"> text </r>\n</p>\n"
    );
}

#[test]
fn colored_text() {
    assert_eq!(
        parse_markdown("c#red# hi #"),
        "<p><span style=\"color: red\" role=\"custom-color\">hi</span></p>\n"
    );
}

#[test]
fn scripts_are_removed() {
    let out = parse_markdown("[b]x[/b]\n\n<script>alert(1)</script>");
    assert!(!out.contains("<script"));
}

#[test]
fn from_tree_with_given_blocks() {
    let tree = vec![block(Rule::HSL, "hsl hue 120", &["hue", "120"])];
    assert_eq!(
        from_tree(&tree, "e#hsl hue 120#".to_string()),
        "<p><hue>120</hue></p>\n"
    );
}

#[test]
fn from_tree_without_blocks_keeps_markers() {
    assert_eq!(from_tree(&vec![], "e#theme dark#".to_string()), "<p>e#theme dark#</p>\n");
}

#[test]
fn absent_block_changes_nothing() {
    let tree = vec![block(Rule::THEME, "theme light", &["light"])];
    assert_eq!(
        from_tree(&tree, "just text".to_string()),
        from_tree(&vec![], "just text".to_string())
    );
}

#[test]
fn bbcode_heading() {
    assert_eq!(parse_markdown("[h2]T[/h2]"), "<p><h2 id=\"T\">T</h2></p>\n");
}

#[test]
fn centered_flex_arrows() {
    assert_eq!(
        parse_markdown("->> x <<-"),
        "<p><rf class=\"justify-center\"> x </rf>\n</p>\n"
    );
}

#[test]
fn animation_block() {
    assert_eq!(
        parse_markdown("e#animation spin 2s#"),
        "<p><span role=\"animation\" style=\"animation: spin 2s  ease-in-out forwards running; display: inline-block;\"></p>\n"
    );
}

#[test]
fn html_block_without_quotes() {
    assert_eq!(parse_markdown("e#html div a=b#x e#chtml div#"), "<p><div a=b >x </div></p>\n");
}

#[test]
fn html_block_with_quotes_stays_as_written() {
    assert_eq!(
        parse_markdown("e#html div class=\"x\"#"),
        "<p>e#html div class=\"x\"#</p>\n"
    );
}

fn v(s: &str) -> Vec<char> {
    s.chars().collect()
}

fn st(v: &[char]) -> String {
    v.iter().collect()
}

#[test]
fn html_cleanup_on_given_html() {
    let out = bundlrs::markdown::render::html_cleanup_chars(&v("<p>&!amp; &quot;q&quot; a &gt; b</p>"));
    assert_eq!(st(&out), "<p>&amp; \"q\" a > b</p>");
}

#[test]
fn capture_rewrites_on_given_matches() {
    let caps = vec![vec![Some(v("-> x <-")), Some(v("->")), Some(v(" x ")), Some(v("<-"))]];
    let out = apply_captures_chars(CaptureRewrite::Arrow, v("a -> x <- b -> x <-"), &caps);
    assert_eq!(st(&out), "a <r class=\"text-center\"> x </r>\n b -> x <-");
    let missing = vec![vec![Some(v("-> x <-"))]];
    assert_eq!(st(&apply_captures_chars(CaptureRewrite::Arrow, v("-> x <-"), &missing)), "-> x <-");
}

#[test]
fn style_blocks_with_given_css() {
    let text = v("<p>ssm#a { color: $fff }#</p>");
    let caps = ssm_matches(&text);
    assert_eq!(caps.len(), 1);
    assert_eq!(st(&ssm_source_chars(&caps[0]).unwrap()), "a { color: #fff }");
    let out = apply_styles_chars(text, &caps, &vec![v("a{color:#fff}")]);
    assert_eq!(st(&out), "<p><style>a{color:#fff}</style></p>");
}

#[test]
fn rendering_in_two_halves_is_rendering() {
    let input = "[b]x[/b] e#theme dark#";
    let tree = bundlrs::markdown::blocks::parse_blocks(input);
    let before = before_styles(&tree, &v(input));
    assert_eq!(after_styles(before), parse_markdown(input));
}
