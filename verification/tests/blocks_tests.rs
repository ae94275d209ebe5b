use bundlrs::markdown::blocks::{classify_block, parse_blocks, split_words, Rule};

fn v(s: &str) -> Vec<char> {
    s.chars().collect()
}

#[test]
fn words_split_on_spaces() {
    let ws = split_words(&v("  html  div class=\"x\" "));
    let ws: Vec<String> = ws.iter().map(|w| w.iter().collect()).collect();
    assert_eq!(ws, vec!["html", "div", "class=\"x\""]);
}

#[test]
fn parse_finds_blocks_in_order() {
    let bs = parse_blocks("a e#theme dark# b e#class x y# c e#close#");
    assert_eq!(bs.len(), 3);
    assert_eq!(bs[0].rule, Rule::THEME);
    assert_eq!(bs[0].text, "theme dark");
    assert_eq!(bs[0].inner, vec!["dark".to_string()]);
    assert_eq!(bs[1].rule, Rule::CLASS);
    assert_eq!(bs[1].inner, vec!["x".to_string(), "y".to_string()]);
    assert_eq!(bs[2].rule, Rule::CLOSE);
    assert!(bs[2].inner.is_empty());
}

#[test]
fn parse_skips_unknown_and_malformed_blocks() {
    assert!(parse_blocks("e#nothing here# e#theme# e#hsl hue#").is_empty());
    assert!(parse_blocks("no markers at all").is_empty());
    assert!(parse_blocks("e#theme dark").is_empty());
}

#[test]
fn parse_hsl_needs_hue_sat_or_lit() {
    let bs = parse_blocks("e#hsl sat 50%# e#hsl red 5#");
    assert_eq!(bs.len(), 1);
    assert_eq!(bs[0].rule, Rule::HSL);
    assert_eq!(bs[0].inner, vec!["sat".to_string(), "50%".to_string()]);
}

#[test]
fn classify_every_keyword() {
    let cases = [
        ("theme a", Rule::THEME),
        ("hsl lit 3", Rule::HSL),
        ("html div a=b", Rule::HTML),
        ("chtml div", Rule::CHTML),
        ("id top", Rule::ID),
        ("class big", Rule::CLASS),
        ("close", Rule::CLOSE),
        ("animation spin 2s", Rule::ANIMATION),
    ];
    for (text, rule) in cases {
        let b = classify_block(&v(text)).expect(text);
        assert_eq!(b.rule, rule);
        assert_eq!(b.text, text);
    }
    assert!(classify_block(&v("")).is_none());
    assert!(classify_block(&v("close now")).is_none());
    assert!(classify_block(&v("id a b")).is_none());
}
