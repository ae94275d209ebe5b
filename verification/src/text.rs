use vstd::prelude::*;

verus! {

// ------------------------------------------------------------------
// Specification of the text operations
// ------------------------------------------------------------------

/// Every non-overlapping occurrence of `pat` in `s`, found from left to
/// right, replaced by `rep`. An empty pattern leaves the text unchanged.
pub open spec fn replace_all(s: Seq<char>, pat: Seq<char>, rep: Seq<char>) -> Seq<char>
    decreases s.len(),
{
    if pat.len() == 0 || s.len() < pat.len() {
        s
    } else if s.subrange(0, pat.len() as int) == pat {
        rep + replace_all(s.subrange(pat.len() as int, s.len() as int), pat, rep)
    } else {
        seq![s[0]] + replace_all(s.subrange(1, s.len() as int), pat, rep)
    }
}

/// The first occurrence of `pat` in `s` replaced by `rep`; the text is
/// unchanged when `pat` is empty or does not occur.
pub open spec fn replace_first(s: Seq<char>, pat: Seq<char>, rep: Seq<char>) -> Seq<char>
    decreases s.len(),
{
    if pat.len() == 0 || s.len() < pat.len() {
        s
    } else if s.subrange(0, pat.len() as int) == pat {
        rep + s.subrange(pat.len() as int, s.len() as int)
    } else {
        seq![s[0]] + replace_first(s.subrange(1, s.len() as int), pat, rep)
    }
}

/// `pat` occurs in `s` at index `i`.
pub open spec fn occurs_at(s: Seq<char>, pat: Seq<char>, i: int) -> bool {
    0 <= i && i + pat.len() <= s.len() && s.subrange(i, i + pat.len()) == pat
}

// ------------------------------------------------------------------
// Conversions
// ------------------------------------------------------------------

/// The characters of `s`, in order.
pub fn chars_of(s: &str) -> (v: Vec<char>)
    ensures
        v@ == s@,
{
    let mut v: Vec<char> = Vec::new();
    for c in it: s.chars()
        invariant
            v@ == it.seq().take(it.index() as int),
    {
        v.push(c);
    }
    v
}

/// The string made of the characters `v` (std's `FromIterator<&char>` for `String`).
#[verifier::external_body]
pub fn string_from_chars(v: &[char]) -> (s: String)
    ensures
        s@ == v@,
{
    v.iter().collect()
}

// ------------------------------------------------------------------
// Building and searching
// ------------------------------------------------------------------

/// Appends the characters of `add` to `out`.
pub fn push_all(out: &mut Vec<char>, add: &[char])
    ensures
        final(out)@ == old(out)@ + add@,
{
    let mut k: usize = 0;
    while k < add.len()
        invariant
            k <= add@.len(),
            out@ == old(out)@ + add@.subrange(0, k as int),
        decreases add@.len() - k,
    {
        out.push(add[k]);
        k = k + 1;
        assert(add@.subrange(0, k as int) =~= add@.subrange(0, k - 1) + seq![add@[k - 1]]);
    }
    assert(add@.subrange(0, add@.len() as int) =~= add@);
}

/// `a` followed by `b`.
pub fn cat(a: &[char], b: &[char]) -> (r: Vec<char>)
    ensures
        r@ == a@ + b@,
{
    let mut r: Vec<char> = Vec::new();
    push_all(&mut r, a);
    push_all(&mut r, b);
    assert(r@ =~= a@ + b@);
    r
}

/// A copy of `a`.
pub fn copy_chars(a: &[char]) -> (r: Vec<char>)
    ensures
        r@ == a@,
{
    let mut r: Vec<char> = Vec::new();
    push_all(&mut r, a);
    assert(r@ =~= a@);
    r
}

/// Whether `pat` occurs in `s` at index `i`.
pub fn matches_at(s: &[char], pat: &[char], i: usize) -> (b: bool)
    ensures
        b == occurs_at(s@, pat@, i as int),
{
    if i > s.len() || pat.len() > s.len() - i {
        return false;
    }
    let mut k: usize = 0;
    while k < pat.len()
        invariant
            k <= pat@.len(),
            i + pat@.len() <= s@.len(),
            s@.len() <= usize::MAX,
            forall|j: int| 0 <= j < k ==> s@[i + j] == pat@[j],
        decreases pat@.len() - k,
    {
        if s[i + k] != pat[k] {
            assert(s@.subrange(i as int, i + pat@.len())[k as int] != pat@[k as int]);
            return false;
        }
        k = k + 1;
    }
    assert(s@.subrange(i as int, i + pat@.len()) =~= pat@);
    true
}

proof fn lemma_replace_all_step(s: Seq<char>, pat: Seq<char>, rep: Seq<char>, i: int)
    requires
        0 <= i < s.len(),
        pat.len() > 0,
    ensures
        occurs_at(s, pat, i) ==> replace_all(s.subrange(i, s.len() as int), pat, rep) == rep
            + replace_all(s.subrange(i + pat.len(), s.len() as int), pat, rep),
        !occurs_at(s, pat, i) ==> replace_all(s.subrange(i, s.len() as int), pat, rep) == seq![
            s[i],
        ] + replace_all(s.subrange(i + 1, s.len() as int), pat, rep),
{
    let t = s.subrange(i, s.len() as int);
    if t.len() < pat.len() {
        let u = s.subrange(i + 1, s.len() as int);
        assert(t =~= seq![s[i]] + u);
        assert(replace_all(u, pat, rep) == u);
    } else {
        assert(t.subrange(0, pat.len() as int) =~= s.subrange(i, i + pat.len()));
        assert(t.subrange(pat.len() as int, t.len() as int) =~= s.subrange(
            i + pat.len(),
            s.len() as int,
        ));
        assert(t.subrange(1, t.len() as int) =~= s.subrange(i + 1, s.len() as int));
    }
}

proof fn lemma_replace_first_step(s: Seq<char>, pat: Seq<char>, rep: Seq<char>, i: int)
    requires
        0 <= i < s.len(),
        pat.len() > 0,
    ensures
        occurs_at(s, pat, i) ==> replace_first(s.subrange(i, s.len() as int), pat, rep) == rep
            + s.subrange(i + pat.len(), s.len() as int),
        !occurs_at(s, pat, i) ==> replace_first(s.subrange(i, s.len() as int), pat, rep)
            == seq![s[i]] + replace_first(s.subrange(i + 1, s.len() as int), pat, rep),
{
    let t = s.subrange(i, s.len() as int);
    if t.len() < pat.len() {
        let u = s.subrange(i + 1, s.len() as int);
        assert(t =~= seq![s[i]] + u);
        assert(replace_first(u, pat, rep) == u);
    } else {
        assert(t.subrange(0, pat.len() as int) =~= s.subrange(i, i + pat.len()));
        assert(t.subrange(pat.len() as int, t.len() as int) =~= s.subrange(
            i + pat.len(),
            s.len() as int,
        ));
        assert(t.subrange(1, t.len() as int) =~= s.subrange(i + 1, s.len() as int));
    }
}

/// `s` with every non-overlapping occurrence of `pat` replaced by `rep`
/// (as `str::replace` does for a non-empty pattern).
pub fn replace_all_chars(s: &[char], pat: &[char], rep: &[char]) -> (r: Vec<char>)
    ensures
        r@ == replace_all(s@, pat@, rep@),
{
    if pat.len() == 0 {
        return copy_chars(s);
    }
    let mut out: Vec<char> = Vec::new();
    let mut i: usize = 0;
    assert(s@.subrange(0, s@.len() as int) =~= s@);
    while i < s.len()
        invariant
            i <= s@.len(),
            pat@.len() > 0,
            out@ + replace_all(s@.subrange(i as int, s@.len() as int), pat@, rep@) == replace_all(
                s@,
                pat@,
                rep@,
            ),
        decreases s@.len() - i,
    {
        proof {
            lemma_replace_all_step(s@, pat@, rep@, i as int);
        }
        let ghost before = out@;
        if matches_at(s, pat, i) {
            push_all(&mut out, rep);
            assert(before + (rep@ + replace_all(
                s@.subrange(i + pat@.len(), s@.len() as int),
                pat@,
                rep@,
            )) =~= out@ + replace_all(s@.subrange(i + pat@.len(), s@.len() as int), pat@, rep@));
            i = i + pat.len();
        } else {
            out.push(s[i]);
            assert(before + (seq![s@[i as int]] + replace_all(
                s@.subrange(i + 1, s@.len() as int),
                pat@,
                rep@,
            )) =~= out@ + replace_all(s@.subrange(i + 1, s@.len() as int), pat@, rep@));
            i = i + 1;
        }
    }
    assert(s@.subrange(i as int, s@.len() as int) =~= Seq::<char>::empty());
    assert(out@ + Seq::<char>::empty() =~= out@);
    out
}

/// `s` with the first occurrence of `pat` replaced by `rep`
/// (as `str::replacen(pat, rep, 1)` does for a non-empty pattern).
pub fn replace_first_chars(s: &[char], pat: &[char], rep: &[char]) -> (r: Vec<char>)
    ensures
        r@ == replace_first(s@, pat@, rep@),
{
    if pat.len() == 0 {
        return copy_chars(s);
    }
    let mut out: Vec<char> = Vec::new();
    let mut i: usize = 0;
    assert(s@.subrange(0, s@.len() as int) =~= s@);
    while i < s.len()
        invariant
            i <= s@.len(),
            pat@.len() > 0,
            out@ + replace_first(s@.subrange(i as int, s@.len() as int), pat@, rep@)
                == replace_first(s@, pat@, rep@),
        decreases s@.len() - i,
    {
        proof {
            lemma_replace_first_step(s@, pat@, rep@, i as int);
        }
        let ghost before = out@;
        if matches_at(s, pat, i) {
            push_all(&mut out, rep);
            let mut k: usize = i + pat.len();
            while k < s.len()
                invariant
                    i + pat@.len() <= k <= s@.len(),
                    out@ == before + rep@ + s@.subrange(i + pat@.len(), k as int),
                decreases s@.len() - k,
            {
                out.push(s[k]);
                k = k + 1;
                assert(s@.subrange(i + pat@.len(), k as int) =~= s@.subrange(
                    i + pat@.len(),
                    k - 1,
                ) + seq![s@[k - 1]]);
            }
            assert(out@ =~= before + (rep@ + s@.subrange(i + pat@.len(), s@.len() as int)));
            return out;
        } else {
            out.push(s[i]);
            assert(before + (seq![s@[i as int]] + replace_first(
                s@.subrange(i + 1, s@.len() as int),
                pat@,
                rep@,
            )) =~= out@ + replace_first(s@.subrange(i + 1, s@.len() as int), pat@, rep@));
            i = i + 1;
        }
    }
    assert(s@.subrange(i as int, s@.len() as int) =~= Seq::<char>::empty());
    assert(out@ + Seq::<char>::empty() =~= out@);
    out
}

} // verus!

verus! {

/// Index of the first `c` in `s`, if any.
pub open spec fn first_index(s: Seq<char>, c: char) -> Option<int>
    decreases s.len(),
{
    if s.len() == 0 {
        None
    } else if s[0] == c {
        Some(0)
    } else {
        match first_index(s.drop_first(), c) {
            Some(k) => Some(k + 1),
            None => None,
        }
    }
}

pub proof fn lemma_first_index_bounds(s: Seq<char>, c: char)
    ensures
        first_index(s, c) matches Some(k) ==> 0 <= k < s.len() && s[k] == c,
    decreases s.len(),
{
    if s.len() > 0 {
        lemma_first_index_bounds(s.drop_first(), c);
    }
}

pub proof fn lemma_first_index_found(s: Seq<char>, c: char, m: int)
    requires
        0 <= m < s.len(),
        s[m] == c,
        forall|j: int| 0 <= j < m ==> s[j] != c,
    ensures
        first_index(s, c) == Some(m),
    decreases m,
{
    if m > 0 {
        lemma_first_index_found(s.drop_first(), c, m - 1);
    }
}

pub proof fn lemma_first_index_absent(s: Seq<char>, c: char)
    requires
        forall|j: int| 0 <= j < s.len() ==> s[j] != c,
    ensures
        first_index(s, c) is None,
    decreases s.len(),
{
    if s.len() > 0 {
        lemma_first_index_absent(s.drop_first(), c);
    }
}

/// Index of the first `c` in `s` at or after `from`.
pub fn find_char_from(s: &[char], c: char, from: usize) -> (r: Option<usize>)
    requires
        from <= s@.len(),
    ensures
        match r {
            Some(j) => from <= j < s@.len() && first_index(s@.subrange(from as int, s@.len() as int), c)
                == Some(j - from),
            None => first_index(s@.subrange(from as int, s@.len() as int), c) is None,
        },
{
    let mut j: usize = from;
    while j < s.len()
        invariant
            from <= j <= s@.len(),
            forall|k: int| from <= k < j ==> s@[k] != c,
        decreases s@.len() - j,
    {
        if s[j] == c {
            proof {
                let t = s@.subrange(from as int, s@.len() as int);
                lemma_first_index_found(t, c, j - from);
            }
            return Some(j);
        }
        j = j + 1;
    }
    proof {
        let t = s@.subrange(from as int, s@.len() as int);
        lemma_first_index_absent(t, c);
    }
    None
}

/// The characters of `s` from `from` up to (not including) `to`.
pub fn slice_chars(s: &[char], from: usize, to: usize) -> (r: Vec<char>)
    requires
        from <= to <= s@.len(),
    ensures
        r@ == s@.subrange(from as int, to as int),
{
    let mut r: Vec<char> = Vec::new();
    let mut k: usize = from;
    while k < to
        invariant
            from <= k <= to <= s@.len(),
            r@ == s@.subrange(from as int, k as int),
        decreases to - k,
    {
        r.push(s[k]);
        k = k + 1;
        assert(r@ =~= s@.subrange(from as int, k as int));
    }
    r
}

/// Whether two character sequences are equal.
pub fn chars_eq(a: &[char], b: &[char]) -> (r: bool)
    ensures
        r == (a@ == b@),
{
    if a.len() != b.len() {
        return false;
    }
    let mut k: usize = 0;
    while k < a.len()
        invariant
            k <= a@.len(),
            a@.len() == b@.len(),
            forall|j: int| 0 <= j < k ==> a@[j] == b@[j],
        decreases a@.len() - k,
    {
        if a[k] != b[k] {
            return false;
        }
        k = k + 1;
    }
    assert(a@ =~= b@);
    true
}

} // verus!

verus! {

/// A vector of characters has its own sequence as its deep value.
pub proof fn lemma_chars_deep_view(v: Vec<char>)
    ensures
        v.deep_view() == v@,
{
    assert(v.deep_view() =~= v@);
}

} // verus!

verus! {

// ------------------------------------------------------------------
// Decimal numbers
// ------------------------------------------------------------------

/// Whether `c` is an ASCII decimal digit.
pub open spec fn is_digit(c: char) -> bool {
    '0' <= c && c <= '9'
}

/// The value of the digit `c`.
pub open spec fn digit_value(c: char) -> nat {
    (c as nat - '0' as nat) as nat
}

/// The digit for `d < 10`.
pub open spec fn digit_char(d: nat) -> char {
    if d == 0 {
        '0'
    } else if d == 1 {
        '1'
    } else if d == 2 {
        '2'
    } else if d == 3 {
        '3'
    } else if d == 4 {
        '4'
    } else if d == 5 {
        '5'
    } else if d == 6 {
        '6'
    } else if d == 7 {
        '7'
    } else if d == 8 {
        '8'
    } else {
        '9'
    }
}

/// The digit for `d < 10`.
pub fn digit_for(d: u128) -> (c: char)
    requires
        d < 10,
    ensures
        c == digit_char(d as nat),
        digit_value(c) == d,
{
    match d {
        0 => '0',
        1 => '1',
        2 => '2',
        3 => '3',
        4 => '4',
        5 => '5',
        6 => '6',
        7 => '7',
        8 => '8',
        _ => '9',
    }
}

/// The value of a string of decimal digits.
pub open spec fn digits_value(s: Seq<char>) -> nat
    decreases s.len(),
{
    if s.len() == 0 {
        0
    } else {
        digits_value(s.drop_last()) * 10 + digit_value(s.last())
    }
}

/// Every character of `s` is a decimal digit.
pub open spec fn all_digits(s: Seq<char>) -> bool {
    forall|i: int| 0 <= i < s.len() ==> #[trigger] is_digit(s[i])
}

/// What `str::parse::<u128>` gives for `s`: an optional `+`, then one or more
/// decimal digits whose value fits in a `u128`.
pub open spec fn parse_u128(s: Seq<char>) -> Option<u128> {
    let d = if s.len() > 0 && s[0] == '+' {
        s.drop_first()
    } else {
        s
    };
    if d.len() > 0 && all_digits(d) && digits_value(d) <= u128::MAX {
        Some(digits_value(d) as u128)
    } else {
        None
    }
}

/// The decimal writing of `n`, without leading zeros (`0` for zero).
pub open spec fn decimal(n: nat) -> Seq<char>
    decreases n,
{
    if n < 10 {
        seq![digit_char(n)]
    } else {
        decimal(n / 10) + seq![digit_char(n % 10)]
    }
}

proof fn lemma_digits_value_prefix_le(s: Seq<char>, k: int)
    requires
        0 <= k <= s.len(),
    ensures
        digits_value(s.take(k)) <= digits_value(s),
    decreases s.len() - k,
{
    if k < s.len() {
        lemma_digits_value_prefix_le(s, k + 1);
        assert(s.take(k + 1).drop_last() =~= s.take(k));
    } else {
        assert(s.take(k) =~= s);
    }
}

/// Parses `s` as `str::parse::<u128>` does.
pub fn parse_u128_str(s: &str) -> (r: Option<u128>)
    ensures
        r == parse_u128(s@),
{
    let cs = chars_of(s);
    let start: usize = if cs.len() > 0 && cs[0] == '+' {
        1
    } else {
        0
    };
    let ghost d = if s@.len() > 0 && s@[0] == '+' {
        s@.drop_first()
    } else {
        s@
    };
    assert(d =~= cs@.subrange(start as int, cs@.len() as int));
    if start >= cs.len() {
        return None;
    }
    let mut v: u128 = 0;
    let mut k: usize = start;
    assert(d.take(0) =~= Seq::<char>::empty());
    while k < cs.len()
        invariant
            start <= k <= cs@.len(),
            cs@ == s@,
            d == (if s@.len() > 0 && s@[0] == '+' {
                s@.drop_first()
            } else {
                s@
            }),
            d == cs@.subrange(start as int, cs@.len() as int),
            all_digits(d.take(k - start)),
            v as nat == digits_value(d.take(k - start)),
        decreases cs@.len() - k,
    {
        let c = cs[k];
        assert(c == d[k - start]);
        if !('0' <= c && c <= '9') {
            assert(!is_digit(d[k - start]));
            assert(!all_digits(d));
            return None;
        }
        let digit: u128 = ((c as u32) - ('0' as u32)) as u128;
        assert(digit == digit_value(c));
        assert(d.take(k - start + 1).drop_last() =~= d.take(k - start));
        assert(d.take(k - start + 1).last() == c);
        if v > (u128::MAX - digit) / 10 {
            proof {
                assert(v * 10 + digit > u128::MAX) by (nonlinear_arith)
                    requires
                        v > (u128::MAX - digit) / 10,
                        digit <= 9,
                ;
                lemma_digits_value_prefix_le(d, k - start + 1);
            }
            return None;
        }
        assert(v * 10 + digit <= u128::MAX) by (nonlinear_arith)
            requires
                v <= (u128::MAX - digit) / 10,
                digit <= 9,
        ;
        v = v * 10 + digit;
        k = k + 1;
    }
    assert(d.take(k - start) =~= d);
    Some(v)
}

/// The decimal writing of `n`, as `u128::to_string` gives it.
pub fn decimal_u128(n: u128) -> (r: Vec<char>)
    ensures
        r@ == decimal(n as nat),
    decreases n,
{
    if n < 10 {
        let mut r: Vec<char> = Vec::new();
        let c = digit_for(n);
        r.push(c);
        assert(r@ =~= seq![digit_char(n as nat)]);
        r
    } else {
        let mut r = decimal_u128(n / 10);
        let c = digit_for(n % 10);
        r.push(c);
        r
    }
}

/// Reading back a written number gives the number.
pub proof fn lemma_parse_decimal(n: u128)
    ensures
        parse_u128(decimal(n as nat)) == Some(n),
{
    lemma_decimal_digits(n as nat);
    let s = decimal(n as nat);
    assert(s[0] != '+') by {
        lemma_decimal_first(n as nat);
    }
}

proof fn lemma_decimal_first(n: nat)
    ensures
        is_digit(decimal(n)[0]),
        decimal(n).len() > 0,
    decreases n,
{
    if n >= 10 {
        lemma_decimal_first(n / 10);
    }
}

proof fn lemma_decimal_digits(n: nat)
    ensures
        decimal(n).len() > 0,
        all_digits(decimal(n)),
        digits_value(decimal(n)) == n,
    decreases n,
{
    let s = decimal(n);
    if n < 10 {
        assert(s.drop_last() =~= Seq::<char>::empty());
        assert(digits_value(Seq::<char>::empty()) == 0);
        assert(digit_value(digit_char(n)) == n);
    } else {
        assert(digit_value(digit_char(n % 10)) == n % 10);
        lemma_decimal_digits(n / 10);
        assert(s.drop_last() =~= decimal(n / 10));
        assert(n == (n / 10) * 10 + n % 10);
        assert forall|i: int| 0 <= i < s.len() implies #[trigger] is_digit(s[i]) by {
            if i < s.len() - 1 {
                assert(s[i] == decimal(n / 10)[i]);
            }
        }
    }
}

} // verus!

verus! {

// ------------------------------------------------------------------
// Trimming
// ------------------------------------------------------------------

/// The characters with the Unicode `White_Space` property (what
/// `char::is_whitespace` tests).
pub open spec fn is_white_space(c: char) -> bool {
    ||| ('\u{9}' <= c && c <= '\u{d}')
    ||| c == ' '
    ||| c == '\u{85}'
    ||| c == '\u{a0}'
    ||| c == '\u{1680}'
    ||| ('\u{2000}' <= c && c <= '\u{200a}')
    ||| c == '\u{2028}'
    ||| c == '\u{2029}'
    ||| c == '\u{202f}'
    ||| c == '\u{205f}'
    ||| c == '\u{3000}'
}

/// `s` without its leading white space.
pub open spec fn trim_start(s: Seq<char>) -> Seq<char>
    decreases s.len(),
{
    if s.len() > 0 && is_white_space(s[0]) {
        trim_start(s.drop_first())
    } else {
        s
    }
}

/// `s` without its trailing white space.
pub open spec fn trim_end(s: Seq<char>) -> Seq<char>
    decreases s.len(),
{
    if s.len() > 0 && is_white_space(s.last()) {
        trim_end(s.drop_last())
    } else {
        s
    }
}

/// `s` without leading and trailing white space (what `str::trim` gives).
pub open spec fn trim(s: Seq<char>) -> Seq<char> {
    trim_end(trim_start(s))
}

fn white_space(c: char) -> (r: bool)
    ensures
        r == is_white_space(c),
{
    ('\u{9}' <= c && c <= '\u{d}') || c == ' ' || c == '\u{85}' || c == '\u{a0}' || c == '\u{1680}'
        || ('\u{2000}' <= c && c <= '\u{200a}') || c == '\u{2028}' || c == '\u{2029}' || c
        == '\u{202f}' || c == '\u{205f}' || c == '\u{3000}'
}

/// `s` without leading and trailing white space.
pub fn trim_str(s: &str) -> (r: String)
    ensures
        r@ == trim(s@),
{
    let cs = chars_of(s);
    let n = cs.len();
    let mut i: usize = 0;
    assert(cs@.subrange(0, n as int) =~= cs@);
    while i < n && white_space(cs[i])
        invariant
            i <= n,
            n == cs@.len(),
            trim_start(cs@) == trim_start(cs@.subrange(i as int, n as int)),
        decreases n - i,
    {
        assert(cs@.subrange(i as int, n as int).drop_first() =~= cs@.subrange(i + 1, n as int));
        i = i + 1;
    }
    assert(trim_start(cs@) == cs@.subrange(i as int, n as int));
    let mut j: usize = n;
    while j > i && white_space(cs[j - 1])
        invariant
            i <= j <= n,
            n == cs@.len(),
            trim_end(cs@.subrange(i as int, n as int)) == trim_end(cs@.subrange(i as int, j as int)),
        decreases j - i,
    {
        assert(cs@.subrange(i as int, j as int).drop_last() =~= cs@.subrange(i as int, j - 1));
        j = j - 1;
    }
    string_from_chars(&slice_chars(&cs, i, j))
}

} // verus!

verus! {

// ------------------------------------------------------------------
// Laws of the text operations
// ------------------------------------------------------------------

/// `pat` occurs somewhere in `s`.
pub open spec fn occurs_in(s: Seq<char>, pat: Seq<char>) -> bool {
    exists|i: int| #[trigger] occurs_at(s, pat, i)
}

/// Replacing a pattern that does not occur leaves the text unchanged.
pub proof fn lemma_replace_all_absent(s: Seq<char>, pat: Seq<char>, rep: Seq<char>)
    requires
        !occurs_in(s, pat),
    ensures
        replace_all(s, pat, rep) == s,
    decreases s.len(),
{
    if pat.len() == 0 || s.len() < pat.len() {
    } else {
        assert(!occurs_at(s, pat, 0));
        let t = s.subrange(1, s.len() as int);
        assert forall|i: int| !occurs_at(t, pat, i) by {
            if occurs_at(t, pat, i) {
                assert(t.subrange(i, i + pat.len()) =~= s.subrange(i + 1, i + 1 + pat.len()));
                assert(occurs_at(s, pat, i + 1));
            }
        }
        lemma_replace_all_absent(t, pat, rep);
        assert(seq![s[0]] + t =~= s);
    }
}

/// Replacing the first occurrence of a pattern that does not occur leaves the
/// text unchanged.
pub proof fn lemma_replace_first_absent(s: Seq<char>, pat: Seq<char>, rep: Seq<char>)
    requires
        !occurs_in(s, pat),
    ensures
        replace_first(s, pat, rep) == s,
    decreases s.len(),
{
    if pat.len() == 0 || s.len() < pat.len() {
    } else {
        assert(!occurs_at(s, pat, 0));
        let t = s.subrange(1, s.len() as int);
        assert forall|i: int| !occurs_at(t, pat, i) by {
            if occurs_at(t, pat, i) {
                assert(t.subrange(i, i + pat.len()) =~= s.subrange(i + 1, i + 1 + pat.len()));
                assert(occurs_at(s, pat, i + 1));
            }
        }
        lemma_replace_first_absent(t, pat, rep);
        assert(seq![s[0]] + t =~= s);
    }
}

/// The first occurrence is replaced and nothing else: when `pat` (non-empty)
/// first occurs at `i`, the text before it and the text after it are kept.
pub proof fn lemma_replace_first_at(s: Seq<char>, pat: Seq<char>, rep: Seq<char>, i: int)
    requires
        pat.len() > 0,
        occurs_at(s, pat, i),
        forall|j: int| 0 <= j < i ==> !occurs_at(s, pat, j),
    ensures
        replace_first(s, pat, rep) == s.subrange(0, i) + rep + s.subrange(
            i + pat.len(),
            s.len() as int,
        ),
    decreases i,
{
    if i == 0 {
        assert(s.subrange(0, 0) + rep =~= rep);
    } else {
        assert(!occurs_at(s, pat, 0));
        let t = s.subrange(1, s.len() as int);
        assert(t.subrange(i - 1, i - 1 + pat.len()) =~= s.subrange(i, i + pat.len()));
        assert forall|j: int| 0 <= j < i - 1 implies !occurs_at(t, pat, j) by {
            if occurs_at(t, pat, j) {
                assert(t.subrange(j, j + pat.len()) =~= s.subrange(j + 1, j + 1 + pat.len()));
                assert(occurs_at(s, pat, j + 1));
            }
        }
        lemma_replace_first_at(t, pat, rep, i - 1);
        assert(seq![s[0]] + (t.subrange(0, i - 1) + rep + t.subrange(
            i - 1 + pat.len(),
            t.len() as int,
        )) =~= s.subrange(0, i) + rep + s.subrange(i + pat.len(), s.len() as int));
    }
}

proof fn lemma_trim_start_shape(s: Seq<char>)
    ensures
        trim_start(s).len() == 0 || !is_white_space(trim_start(s)[0]),
        exists|k: int| 0 <= k <= s.len() && trim_start(s) == #[trigger] s.subrange(k, s.len() as int),
    decreases s.len(),
{
    if s.len() > 0 && is_white_space(s[0]) {
        lemma_trim_start_shape(s.drop_first());
        let k = choose|k: int|
            0 <= k <= s.drop_first().len() && trim_start(s.drop_first()) == #[trigger] s.drop_first().subrange(
                k,
                s.drop_first().len() as int,
            );
        assert(s.drop_first().subrange(k, s.drop_first().len() as int) =~= s.subrange(
            k + 1,
            s.len() as int,
        ));
    } else {
        assert(s.subrange(0, s.len() as int) =~= s);
    }
}

proof fn lemma_trim_end_shape(s: Seq<char>)
    ensures
        trim_end(s).len() == 0 || !is_white_space(trim_end(s).last()),
        exists|k: int| 0 <= k <= s.len() && trim_end(s) == #[trigger] s.subrange(0, k),
    decreases s.len(),
{
    if s.len() > 0 && is_white_space(s.last()) {
        lemma_trim_end_shape(s.drop_last());
        let k = choose|k: int|
            0 <= k <= s.drop_last().len() && trim_end(s.drop_last()) == #[trigger] s.drop_last().subrange(0, k);
        assert(s.drop_last().subrange(0, k) =~= s.subrange(0, k));
    } else {
        assert(s.subrange(0, s.len() as int) =~= s);
    }
}

proof fn lemma_trim_end_keeps_first(s: Seq<char>)
    requires
        s.len() > 0,
        !is_white_space(s[0]),
    ensures
        trim_end(s).len() > 0,
        trim_end(s)[0] == s[0],
    decreases s.len(),
{
    if is_white_space(s.last()) {
        assert(s.len() > 1);
        lemma_trim_end_keeps_first(s.drop_last());
    }
}

/// Trimming twice is trimming once.
pub proof fn lemma_trim_idempotent(s: Seq<char>)
    ensures
        trim(trim(s)) == trim(s),
{
    let t = trim_start(s);
    lemma_trim_start_shape(s);
    let u = trim_end(t);
    lemma_trim_end_shape(t);
    if t.len() > 0 {
        lemma_trim_end_keeps_first(t);
    }
    assert(trim_start(u) == u);
    lemma_trim_end_shape(u);
    assert(trim_end(u) == u);
}

/// A trimmed text neither starts nor ends with white space.
pub proof fn lemma_trim_edges(s: Seq<char>)
    ensures
        trim(s).len() > 0 ==> !is_white_space(trim(s)[0]) && !is_white_space(trim(s).last()),
{
    let t = trim_start(s);
    lemma_trim_start_shape(s);
    lemma_trim_end_shape(t);
    if t.len() > 0 {
        lemma_trim_end_keeps_first(t);
    }
}

/// What `first_index` finds: no earlier `c`, and `c` where it points.
pub proof fn lemma_first_index_meaning(s: Seq<char>, c: char)
    ensures
        first_index(s, c) matches Some(k) ==> (0 <= k < s.len() && s[k] == c && forall|j: int|
            0 <= j < k ==> s[j] != c),
        first_index(s, c) is None ==> forall|j: int| 0 <= j < s.len() ==> s[j] != c,
    decreases s.len(),
{
    if s.len() > 0 {
        lemma_first_index_meaning(s.drop_first(), c);
        if s[0] != c {
            assert forall|j: int| 0 < j < s.len() implies s[j] == s.drop_first()[j - 1] by {}
        }
    }
}

} // verus!
