//! The `e#...#` blocks of the markup: what a block is and how the text is
//! scanned for them.
use vstd::prelude::*;
use crate::text::{
    chars_eq, chars_of, find_char_from, first_index, lemma_chars_deep_view,
    lemma_first_index_absent, lemma_first_index_bounds, lemma_first_index_found,
    lemma_first_index_meaning, slice_chars, string_from_chars,
};

verus! {

/// The kind of an `e#...#` block, named by its first word.
#[allow(non_camel_case_types)]
#[derive(Clone, Copy, PartialEq, Eq, Debug, Structural)]
pub enum Rule {
    /// `e#theme (identifier)#`
    THEME,
    /// `e#hsl (hue/lit/sat) (value)#`
    HSL,
    /// `e#html (identifier) {attrs}#`
    HTML,
    /// `e#chtml (identifier)#`
    CHTML,
    /// `e#id (identifier)#`
    ID,
    /// `e#class (identifier)+#`
    CLASS,
    /// `e#close#`
    CLOSE,
    /// `e#animation (identifier) {attrs}#`
    ANIMATION,
}

/// One block of the markup: its kind, the text between `e#` and `#`, and the
/// words that follow the keyword.
#[derive(Debug)]
pub struct Block {
    pub rule: Rule,
    pub text: String,
    pub inner: Vec<String>,
}

/// The mathematical value of a block.
pub struct BlockView {
    pub rule: Rule,
    pub text: Seq<char>,
    pub inner: Seq<Seq<char>>,
}

impl View for Block {
    type V = BlockView;

    open spec fn view(&self) -> BlockView {
        BlockView { rule: self.rule, text: self.text@, inner: self.inner.deep_view() }
    }
}

/// The values of a list of blocks.
pub open spec fn blocks_view(blocks: Seq<Block>) -> Seq<BlockView> {
    blocks.map_values(|b: Block| b@)
}

/// Length of the first word of `s` (up to the first space).
pub open spec fn word_end(s: Seq<char>) -> int {
    match first_index(s, ' ') {
        Some(k) => k,
        None => s.len() as int,
    }
}

/// The words of `s`: its maximal runs of characters other than a space.
pub open spec fn words(s: Seq<char>) -> Seq<Seq<char>>
    decreases s.len(),
{
    if s.len() == 0 {
        seq![]
    } else if s[0] == ' ' {
        words(s.drop_first())
    } else {
        proof {
            lemma_first_index_bounds(s, ' ');
        }
        seq![s.take(word_end(s))] + words(s.skip(word_end(s)))
    }
}

/// The block kind that a keyword names.
pub open spec fn keyword_rule(keyword: Seq<char>) -> Option<Rule> {
    if keyword == "theme"@ {
        Some(Rule::THEME)
    } else if keyword == "hsl"@ {
        Some(Rule::HSL)
    } else if keyword == "html"@ {
        Some(Rule::HTML)
    } else if keyword == "chtml"@ {
        Some(Rule::CHTML)
    } else if keyword == "id"@ {
        Some(Rule::ID)
    } else if keyword == "class"@ {
        Some(Rule::CLASS)
    } else if keyword == "close"@ {
        Some(Rule::CLOSE)
    } else if keyword == "animation"@ {
        Some(Rule::ANIMATION)
    } else {
        None
    }
}

/// The words after the keyword have the shape that the block kind asks for.
pub open spec fn inner_fits(rule: Rule, inner: Seq<Seq<char>>) -> bool {
    match rule {
        Rule::THEME => inner.len() == 1,
        Rule::HSL => inner.len() == 2 && (inner[0] == "hue"@ || inner[0] == "sat"@ || inner[0]
            == "lit"@),
        Rule::HTML => inner.len() >= 1,
        Rule::CHTML => inner.len() == 1,
        Rule::ID => inner.len() == 1,
        Rule::CLASS => inner.len() >= 1,
        Rule::CLOSE => inner.len() == 0,
        Rule::ANIMATION => inner.len() >= 1,
    }
}

/// The block that the text between `e#` and `#` makes, if it makes one.
pub open spec fn classify(content: Seq<char>) -> Option<BlockView> {
    let ws = words(content);
    if ws.len() == 0 {
        None
    } else {
        match keyword_rule(ws[0]) {
            Some(rule) => if inner_fits(rule, ws.drop_first()) {
                Some(BlockView { rule, text: content, inner: ws.drop_first() })
            } else {
                None
            },
            None => None,
        }
    }
}

/// The blocks of `s`, in order: at each `e#`, the text up to the next `#` is a
/// block when it classifies as one, and scanning goes on after that `#`;
/// otherwise scanning goes on at the next character.
pub open spec fn scan_blocks(s: Seq<char>) -> Seq<BlockView>
    decreases s.len(),
{
    if s.len() < 2 {
        seq![]
    } else if s[0] == 'e' && s[1] == '#' {
        proof {
            lemma_first_index_bounds(s.skip(2), '#');
        }
        match first_index(s.skip(2), '#') {
            Some(k) => match classify(s.subrange(2, 2 + k)) {
                Some(b) => seq![b] + scan_blocks(s.skip(3 + k)),
                None => scan_blocks(s.skip(1)),
            },
            None => seq![],
        }
    } else {
        scan_blocks(s.skip(1))
    }
}

/// The words of `s`.
pub fn split_words(s: &[char]) -> (r: Vec<Vec<char>>)
    ensures
        r.deep_view() == words(s@),
{
    let mut acc: Vec<Vec<char>> = Vec::new();
    let mut i: usize = 0;
    assert(s@.subrange(0, s@.len() as int) =~= s@);
    while i < s.len()
        invariant
            i <= s@.len(),
            acc.deep_view() + words(s@.subrange(i as int, s@.len() as int)) == words(s@),
        decreases s@.len() - i,
    {
        let ghost t = s@.subrange(i as int, s@.len() as int);
        let ghost before = acc.deep_view();
        if s[i] == ' ' {
            assert(t.drop_first() =~= s@.subrange(i + 1, s@.len() as int));
            i = i + 1;
        } else {
            let j: usize = match find_char_from(s, ' ', i) {
                Some(j) => j,
                None => s.len(),
            };
            proof {
                lemma_first_index_bounds(t, ' ');
            }
            assert(word_end(t) == j - i);
            let w = slice_chars(s, i, j);
            proof {
                lemma_chars_deep_view(w);
            }
            acc.push(w);
            assert(t.take(j - i) =~= s@.subrange(i as int, j as int));
            assert(t.skip(j - i) =~= s@.subrange(j as int, s@.len() as int));
            assert(acc.deep_view() =~= before + seq![w@]);
            assert(before + (seq![w@] + words(s@.subrange(j as int, s@.len() as int))) =~= acc.deep_view()
                + words(s@.subrange(j as int, s@.len() as int)));
            i = j;
        }
    }
    assert(s@.subrange(i as int, s@.len() as int) =~= Seq::<char>::empty());
    assert(acc.deep_view() + Seq::<Seq<char>>::empty() =~= acc.deep_view());
    acc
}

/// The block kind that `keyword` names.
pub fn rule_of_keyword(keyword: &[char]) -> (r: Option<Rule>)
    ensures
        r == keyword_rule(keyword@),
{
    if chars_eq(keyword, &chars_of("theme")) {
        Some(Rule::THEME)
    } else if chars_eq(keyword, &chars_of("hsl")) {
        Some(Rule::HSL)
    } else if chars_eq(keyword, &chars_of("html")) {
        Some(Rule::HTML)
    } else if chars_eq(keyword, &chars_of("chtml")) {
        Some(Rule::CHTML)
    } else if chars_eq(keyword, &chars_of("id")) {
        Some(Rule::ID)
    } else if chars_eq(keyword, &chars_of("class")) {
        Some(Rule::CLASS)
    } else if chars_eq(keyword, &chars_of("close")) {
        Some(Rule::CLOSE)
    } else if chars_eq(keyword, &chars_of("animation")) {
        Some(Rule::ANIMATION)
    } else {
        None
    }
}

/// Whether the words after the keyword fit the block kind.
pub fn inner_fits_rule(rule: Rule, ws: &Vec<Vec<char>>) -> (r: bool)
    requires
        ws@.len() >= 1,
    ensures
        r == inner_fits(rule, ws.deep_view().drop_first()),
{
    let n = ws.len() - 1;
    let ghost inner = ws.deep_view().drop_first();
    assert(inner.len() == n);
    match rule {
        Rule::THEME => n == 1,
        Rule::HSL => {
            if n != 2 {
                false
            } else {
                let which = &ws[1];
                assert(which@ == inner[0]);
                chars_eq(which, &chars_of("hue")) || chars_eq(which, &chars_of("sat")) || chars_eq(
                    which,
                    &chars_of("lit"),
                )
            }
        },
        Rule::HTML => n >= 1,
        Rule::CHTML => n == 1,
        Rule::ID => n == 1,
        Rule::CLASS => n >= 1,
        Rule::CLOSE => n == 0,
        Rule::ANIMATION => n >= 1,
    }
}

/// The block that `content` (the text between `e#` and `#`) makes, if any.
pub fn classify_block(content: &[char]) -> (r: Option<Block>)
    ensures
        match r {
            Some(b) => classify(content@) == Some(b@),
            None => classify(content@) is None,
        },
{
    let ws = split_words(content);
    if ws.len() == 0 {
        return None;
    }
    assert(ws.deep_view()[0] == ws@[0]@) by {
        lemma_chars_deep_view(ws@[0]);
    }
    let rule = match rule_of_keyword(&ws[0]) {
        Some(rule) => rule,
        None => return None,
    };
    if !inner_fits_rule(rule, &ws) {
        return None;
    }
    let mut inner: Vec<String> = Vec::new();
    let mut k: usize = 1;
    while k < ws.len()
        invariant
            1 <= k <= ws@.len(),
            inner.deep_view() == ws.deep_view().subrange(1, k as int),
        decreases ws@.len() - k,
    {
        let w = string_from_chars(&ws[k]);
        proof {
            lemma_chars_deep_view(ws@[k as int]);
        }
        let ghost old_inner = inner@;
        assert(inner.deep_view().len() == inner@.len());
        assert(ws.deep_view().len() == ws@.len());
        assert(old_inner.len() == k - 1);
        inner.push(w);
        assert forall|j: int| 0 <= j < k as int implies #[trigger] inner.deep_view()[j]
            == ws.deep_view().subrange(1, k + 1)[j] by {
            if j < k - 1 {
                assert(inner@[j] == old_inner[j]);
                assert(old_inner[j].deep_view() == ws.deep_view().subrange(1, k as int)[j]);
            } else {
                assert(inner@[j] == w);
            }
        }
        assert(inner.deep_view() =~= ws.deep_view().subrange(1, k + 1));
        k = k + 1;
    }
    assert(ws.deep_view().subrange(1, ws@.len() as int) =~= ws.deep_view().drop_first());
    Some(Block { rule, text: string_from_chars(content), inner })
}

/// The blocks of `input`, in order (see `scan_blocks`).
pub fn parse_blocks(input: &str) -> (r: Vec<Block>)
    ensures
        blocks_view(r@) == scan_blocks(input@),
{
    let s = chars_of(input);
    let mut acc: Vec<Block> = Vec::new();
    let mut i: usize = 0;
    assert(s@.subrange(0, s@.len() as int) =~= s@);
    assert(blocks_view(acc@) =~= Seq::<BlockView>::empty());
    while i < s.len()
        invariant
            i <= s@.len(),
            blocks_view(acc@) + scan_blocks(s@.subrange(i as int, s@.len() as int)) == scan_blocks(
                input@,
            ),
            s@ == input@,
        decreases s@.len() - i,
    {
        let ghost t = s@.subrange(i as int, s@.len() as int);
        let ghost before = blocks_view(acc@);
        assert(t.skip(1) =~= s@.subrange(i + 1, s@.len() as int));
        if i + 1 < s.len() && s[i] == 'e' && s[i + 1] == '#' {
            assert(t.skip(2) =~= s@.subrange(i + 2, s@.len() as int));
            match find_char_from(&s, '#', i + 2) {
                Some(j) => {
                    let content = slice_chars(&s, i + 2, j);
                    assert(t.subrange(2, 2 + (j - (i + 2))) =~= content@);
                    match classify_block(&content) {
                        Some(b) => {
                            let ghost bv = b@;
                            acc.push(b);
                            assert(blocks_view(acc@) =~= before + seq![bv]);
                            assert(t.skip(3 + (j - (i + 2))) =~= s@.subrange(
                                j + 1,
                                s@.len() as int,
                            ));
                            assert(before + (seq![bv] + scan_blocks(
                                s@.subrange(j + 1, s@.len() as int),
                            )) =~= blocks_view(acc@) + scan_blocks(
                                s@.subrange(j + 1, s@.len() as int),
                            ));
                            i = j + 1;
                        },
                        None => {
                            i = i + 1;
                        },
                    }
                },
                None => {
                    assert(scan_blocks(t) =~= Seq::<BlockView>::empty());
                    assert(s@.subrange(s@.len() as int, s@.len() as int) =~= Seq::<char>::empty());
                    assert(before + Seq::<BlockView>::empty() =~= before);
                    i = s.len();
                },
            }
        } else {
            i = i + 1;
        }
    }
    assert(s@.subrange(i as int, s@.len() as int) =~= Seq::<char>::empty());
    assert(blocks_view(acc@) + Seq::<BlockView>::empty() =~= blocks_view(acc@));
    acc
}

/// Every word is non-empty and holds no space.
pub proof fn lemma_words_shape(s: Seq<char>)
    ensures
        forall|i: int|
            0 <= i < words(s).len() ==> #[trigger] words(s)[i].len() > 0 && !words(s)[i].contains(
                ' ',
            ),
    decreases s.len(),
{
    if s.len() == 0 {
    } else if s[0] == ' ' {
        lemma_words_shape(s.drop_first());
        assert(words(s) == words(s.drop_first()));
    } else {
        lemma_first_index_bounds(s, ' ');
        lemma_first_index_meaning(s, ' ');
        let k = word_end(s);
        lemma_words_shape(s.skip(k));
        let w = s.take(k);
        assert(w.len() > 0);
        assert(!w.contains(' ')) by {
            if w.contains(' ') {
                let j = choose|j: int| 0 <= j < w.len() && w[j] == ' ';
                assert(s[j] == ' ');
            }
        }
        let rest = words(s.skip(k));
        assert(words(s) == seq![w] + rest);
        assert forall|i: int| 0 <= i < words(s).len() implies #[trigger] words(s)[i].len() > 0
            && !words(s)[i].contains(' ') by {
            if i > 0 {
                assert(words(s)[i] == rest[i - 1]);
            } else {
                assert(words(s)[0] == w);
            }
        }
    }
}

/// A text with no `e#` in it has no blocks.
pub proof fn lemma_scan_without_marker(s: Seq<char>)
    requires
        forall|i: int| 0 <= i < s.len() - 1 ==> !(#[trigger] s[i] == 'e' && s[i + 1] == '#'),
    ensures
        scan_blocks(s).len() == 0,
    decreases s.len(),
{
    if s.len() >= 2 {
        assert(!(s[0] == 'e' && s[1] == '#'));
        let t = s.skip(1);
        assert forall|i: int| 0 <= i < t.len() - 1 implies !(#[trigger] t[i] == 'e' && t[i + 1]
            == '#') by {
            assert(t[i] == s[i + 1] && t[i + 1] == s[i + 2]);
        }
        lemma_scan_without_marker(t);
    }
}

/// A word followed by a space and more text: the word is the first word, the
/// words of the rest follow; a word alone is its only word.
pub proof fn lemma_words_of_word(a: Seq<char>, rest: Seq<char>)
    requires
        a.len() > 0,
        !a.contains(' '),
    ensures
        words(a + seq![' '] + rest) == seq![a] + words(rest),
        words(a) == seq![a],
{
    let s = a + seq![' '] + rest;
    assert forall|j: int| 0 <= j < a.len() implies s[j] != ' ' by {
        assert(s[j] == a[j]);
        if a[j] == ' ' {
            assert(a.contains(' '));
        }
    }
    assert(s[a.len() as int] == ' ');
    lemma_first_index_found(s, ' ', a.len() as int);
    assert(s.take(a.len() as int) =~= a);
    let tail = s.skip(a.len() as int);
    assert(tail[0] == ' ');
    assert(tail.drop_first() =~= rest);
    assert(words(tail) == words(rest));
    assert(words(s) == seq![a] + words(rest));
    assert forall|j: int| 0 <= j < a.len() implies a[j] != ' ' by {
        if a[j] == ' ' {
            assert(a.contains(' '));
        }
    }
    lemma_first_index_absent(a, ' ');
    assert(a[0] != ' ');
    assert(word_end(a) == a.len());
    assert(words(Seq::<char>::empty()) =~= Seq::<Seq<char>>::empty());
    assert(a.take(a.len() as int) =~= a);
    assert(a.skip(a.len() as int) =~= Seq::<char>::empty());
    assert(words(a) =~= seq![a]);
}

/// A text that is a single marker `e#content#` (no `#` inside) whose content
/// makes a block holds exactly that block.
pub proof fn lemma_single_marker(content: Seq<char>)
    requires
        !content.contains('#'),
        classify(content) is Some,
    ensures
        scan_blocks(seq!['e', '#'] + content + seq!['#']) == seq![classify(content).unwrap()],
{
    let s = seq!['e', '#'] + content + seq!['#'];
    let t = s.skip(2);
    assert(t =~= content + seq!['#']);
    assert forall|j: int| 0 <= j < content.len() implies t[j] != '#' by {
        assert(t[j] == content[j]);
        if content[j] == '#' {
            assert(content.contains('#'));
        }
    }
    lemma_first_index_found(t, '#', content.len() as int);
    assert(s.subrange(2, 2 + content.len() as int) =~= content);
    assert(s.skip(3 + content.len() as int) =~= Seq::<char>::empty());
    let b = classify(content).unwrap();
    assert(scan_blocks(s) == seq![b] + scan_blocks(Seq::<char>::empty()));
    assert(seq![b] + Seq::<BlockView>::empty() =~= seq![b]);
}

/// An `e#hsl (component) (value)#` block sets one of the three components of
/// a colour, `hue`, `sat` or `lit`: each of the three, with any one-word value,
/// makes an HSL block whose words are the component and the value, and so
/// does the marker `e#hsl component value#` in a text; any other component
/// word makes no block.
pub proof fn lemma_hsl_components(component: Seq<char>, value: Seq<char>)
    requires
        component.len() > 0,
        !component.contains(' '),
        value.len() > 0,
        !value.contains(' '),
    ensures
        (component == "hue"@ || component == "sat"@ || component == "lit"@) ==> classify(
            "hsl "@ + component + " "@ + value,
        ) == Some(
            BlockView {
                rule: Rule::HSL,
                text: "hsl "@ + component + " "@ + value,
                inner: seq![component, value],
            },
        ),
        !(component == "hue"@ || component == "sat"@ || component == "lit"@) ==> classify(
            "hsl "@ + component + " "@ + value,
        ) is None,
        (component == "hue"@ || component == "sat"@ || component == "lit"@) && !value.contains('#')
            && !component.contains('#') ==> scan_blocks("e#hsl "@ + component + " "@ + value + "#"@)
            == seq![
            BlockView {
                rule: Rule::HSL,
                text: "hsl "@ + component + " "@ + value,
                inner: seq![component, value],
            },
        ],
{
    reveal_strlit("hsl ");
    reveal_strlit("hsl");
    reveal_strlit("theme");
    reveal_strlit(" ");
    reveal_strlit("e#hsl ");
    reveal_strlit("#");
    let hsl = "hsl"@;
    assert(!hsl.contains(' ')) by {
        if hsl.contains(' ') {
            let j = choose|j: int| 0 <= j < hsl.len() && hsl[j] == ' ';
            assert(hsl[j] != ' ');
        }
    }
    let content = "hsl "@ + component + " "@ + value;
    assert(content =~= hsl + seq![' '] + (component + seq![' '] + value));
    lemma_words_of_word(hsl, component + seq![' '] + value);
    lemma_words_of_word(component, value);
    lemma_words_of_word(value, Seq::<char>::empty());
    let ws = words(content);
    assert(ws =~= seq![hsl, component, value]);
    assert(keyword_rule(ws[0]) == Some(Rule::HSL));
    assert(ws.drop_first() =~= seq![component, value]);
    if (component == "hue"@ || component == "sat"@ || component == "lit"@) && !value.contains('#')
        && !component.contains('#') {
        assert(!content.contains('#')) by {
            if content.contains('#') {
                let j = choose|j: int| 0 <= j < content.len() && content[j] == '#';
                if j < 4 {
                    assert(content[j] == "hsl "@[j]);
                } else if j < 4 + component.len() {
                    assert(content[j] == component[j - 4]);
                    assert(component.contains('#'));
                } else if j == 4 + component.len() {
                    assert(content[j] == ' ');
                } else {
                    assert(content[j] == value[j - 5 - component.len()]);
                    assert(value.contains('#'));
                }
            }
        }
        lemma_single_marker(content);
        assert("e#hsl "@ + component + " "@ + value + "#"@ =~= seq!['e', '#'] + content + seq!['#']);
    }
}

} // verus!
