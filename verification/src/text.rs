use vstd::prelude::*;
use vstd::string::*;

verus! {

// ---------------------------------------------------------------------------
// Character classes
// ---------------------------------------------------------------------------

/// An ASCII decimal digit.
pub open spec fn is_digit(c: char) -> bool {
    48 <= c as u32 <= 57
}

/// The numeric value of a decimal digit.
pub open spec fn digit_val(c: char) -> int
    recommends
        is_digit(c),
{
    c as u32 - 48
}

/// ASCII whitespace, the kind that tool output is padded with.
pub open spec fn is_ws(c: char) -> bool {
    c == ' ' || c == '\t' || c == '\n' || c == '\r'
}

pub open spec fn all_digits(s: Seq<char>) -> bool {
    forall|i: int| 0 <= i < s.len() ==> is_digit(#[trigger] s[i])
}

// ---------------------------------------------------------------------------
// Decimal numerals
// ---------------------------------------------------------------------------

/// The value of a digit string, most significant digit first.
pub open spec fn dec_val(s: Seq<char>) -> int
    recommends
        all_digits(s),
    decreases s.len(),
{
    if s.len() == 0 {
        0
    } else {
        dec_val(s.drop_last()) * 10 + digit_val(s.last())
    }
}

pub open spec fn digit_char(d: int) -> char
    recommends
        0 <= d < 10,
{
    if d == 0 {
        '0'
    } else if d == 1 {
        '1'
    } else if d == 2 {
        '2'
    } else if d == 3 {
        '3'
    } else if d == 4 {
        '4'
    } else if d == 5 {
        '5'
    } else if d == 6 {
        '6'
    } else if d == 7 {
        '7'
    } else if d == 8 {
        '8'
    } else {
        '9'
    }
}

/// The canonical decimal numeral of a nonnegative number: no leading zeros,
/// except that zero itself is written "0".
pub open spec fn dec_digits(n: int) -> Seq<char>
    recommends
        n >= 0,
    decreases n,
{
    if n < 10 {
        seq![digit_char(n)]
    } else {
        dec_digits(n / 10).push(digit_char(n % 10))
    }
}

pub proof fn lemma_digit_char_val(d: int)
    requires
        0 <= d < 10,
    ensures
        is_digit(digit_char(d)),
        digit_val(digit_char(d)) == d,
{
}

/// Rendering a number and reading it back returns the number.
pub proof fn lemma_dec_digits_val(n: int)
    requires
        n >= 0,
    ensures
        all_digits(dec_digits(n)),
        dec_val(dec_digits(n)) == n,
        dec_digits(n).len() >= 1,
    decreases n,
{
    if n < 10 {
        lemma_digit_char_val(n);
        let s = dec_digits(n);
        assert(s =~= seq![digit_char(n)]);
        assert(s.last() == digit_char(n));
        assert(s.drop_last() =~= Seq::<char>::empty());
        assert(dec_val(s.drop_last()) == 0);
        assert(dec_val(s) == dec_val(s.drop_last()) * 10 + digit_val(s.last()));
    } else {
        lemma_dec_digits_val(n / 10);
        lemma_digit_char_val(n % 10);
        let s = dec_digits(n);
        assert(s.drop_last() =~= dec_digits(n / 10));
        assert(s.last() == digit_char(n % 10));
        assert(n == n / 10 * 10 + n % 10);
    }
}

pub proof fn lemma_dec_val_nonneg(s: Seq<char>)
    requires
        all_digits(s),
    ensures
        dec_val(s) >= 0,
    decreases s.len(),
{
    if s.len() > 0 {
        lemma_dec_val_nonneg(s.drop_last());
    }
}

/// Appending one more digit never shrinks the value.
pub proof fn lemma_dec_val_extend(s: Seq<char>, i: int)
    requires
        0 <= i < s.len(),
        all_digits(s.take(i)),
        is_digit(s[i]),
    ensures
        dec_val(s.take(i + 1)) == dec_val(s.take(i)) * 10 + digit_val(s[i]),
        dec_val(s.take(i)) <= dec_val(s.take(i + 1)),
{
    assert(s.take(i + 1).drop_last() =~= s.take(i));
    assert(s.take(i + 1).last() == s[i]);
    lemma_dec_val_nonneg(s.take(i));
}

/// A digit string's value dominates the value of any of its prefixes.
pub proof fn lemma_dec_val_prefix(s: Seq<char>, i: int)
    requires
        all_digits(s),
        0 <= i <= s.len(),
    ensures
        dec_val(s.take(i)) <= dec_val(s),
    decreases s.len() - i,
{
    if i == s.len() {
        assert(s.take(i) =~= s);
    } else {
        assert(forall|j: int| 0 <= j < i ==> s.take(i)[j] == s[j]);
        lemma_dec_val_extend(s, i);
        lemma_dec_val_prefix(s, i + 1);
    }
}

/// One decimal digit, as a borrowed string.
pub fn digit_str(d: u32) -> (r: &'static str)
    requires
        d < 10,
    ensures
        r@ == seq![digit_char(d as int)],
{
    proof {
        reveal_strlit("0");
        reveal_strlit("1");
        reveal_strlit("2");
        reveal_strlit("3");
        reveal_strlit("4");
        reveal_strlit("5");
        reveal_strlit("6");
        reveal_strlit("7");
        reveal_strlit("8");
        reveal_strlit("9");
    }
    match d {
        0 => "0",
        1 => "1",
        2 => "2",
        3 => "3",
        4 => "4",
        5 => "5",
        6 => "6",
        7 => "7",
        8 => "8",
        _ => "9",
    }
}

/// Renders a number as its canonical decimal numeral.
pub fn fmt_u32(n: u32) -> (r: String)
    ensures
        r@ == dec_digits(n as int),
    decreases n,
{
    if n < 10 {
        digit_str(n).to_owned()
    } else {
        let mut s = fmt_u32(n / 10);
        s.append(digit_str(n % 10));
        proof {
            assert(dec_digits(n as int) =~= dec_digits(n as int / 10) + seq![
                digit_char(n as int % 10),
            ]);
        }
        s
    }
}

/// The canonical decimal numeral of any integer, a minus sign in front of
/// negative ones.
pub open spec fn int_digits(n: int) -> Seq<char> {
    if n < 0 {
        seq!['-'] + dec_digits(-n)
    } else {
        dec_digits(n)
    }
}

/// Renders a signed number as its canonical decimal numeral.
pub fn fmt_i32(n: i32) -> (r: String)
    ensures
        r@ == int_digits(n as int),
{
    proof {
        reveal_strlit("-");
    }
    if n >= 0 {
        fmt_u32(n as u32)
    } else {
        let wide: i64 = n as i64;
        let mag: u32 = (-wide) as u32;
        let mut s: String = "-".to_owned();
        s.append(fmt_u32(mag).as_str());
        proof {
            assert(s@ =~= int_digits(n as int));
        }
        s
    }
}

/// What `parse_u32` accepts: a nonempty, all-digit string whose value fits.
pub open spec fn parse_u32_spec(s: Seq<char>) -> Option<u32> {
    if s.len() >= 1 && all_digits(s) && dec_val(s) <= u32::MAX {
        Some(dec_val(s) as u32)
    } else {
        None
    }
}

/// Reads a decimal numeral; rejects anything else, including overflow.
pub fn parse_u32(s: &str) -> (r: Option<u32>)
    ensures
        r == parse_u32_spec(s@),
{
    let n: usize = s.unicode_len();
    if n == 0 {
        return None;
    }
    let mut acc: u32 = 0;
    let mut i: usize = 0;
    while i < n
        invariant
            0 <= i <= n,
            n == s@.len(),
            all_digits(s@.take(i as int)),
            acc == dec_val(s@.take(i as int)),
        decreases n - i,
    {
        let c = s.get_char(i);
        let v: u32 = c as u32;
        if v < 48 || v > 57 {
            assert(!is_digit(s@[i as int]));
            return None;
        }
        proof {
            assert(is_digit(s@[i as int]));
            assert(forall|j: int| 0 <= j <= i ==> #[trigger] s@.take(i as int + 1)[j] == s@[j]);
            assert(forall|j: int| 0 <= j < i ==> #[trigger] s@.take(i as int)[j] == s@[j]);
            assert(all_digits(s@.take(i as int + 1)));
            lemma_dec_val_extend(s@, i as int);
        }
        let step = match acc.checked_mul(10) {
            Some(m) => m.checked_add(v - 48),
            None => None,
        };
        match step {
            Some(next) => {
                acc = next;
            },
            None => {
                proof {
                    assert(dec_val(s@.take(i as int + 1)) > u32::MAX);
                    if all_digits(s@) {
                        lemma_dec_val_prefix(s@, i as int + 1);
                    }
                }
                return None;
            },
        }
        i = i + 1;
    }
    proof {
        assert(s@.take(n as int) =~= s@);
    }
    Some(acc)
}

/// What a percent argument accepts: a digit string valued at most 100.
pub open spec fn parse_pct_spec(s: Seq<char>) -> Option<u32> {
    if s.len() >= 1 && all_digits(s) && dec_val(s) <= 100 {
        Some(dec_val(s) as u32)
    } else {
        None
    }
}

/// Reads a percent argument; values above 100 are rejected here, at the
/// parse boundary, before any handler sees them.
pub fn parse_pct(s: &str) -> (r: Option<u32>)
    ensures
        r == parse_pct_spec(s@),
{
    proof {
        if s@.len() >= 1 && all_digits(s@) {
            lemma_dec_val_nonneg(s@);
        }
    }
    match parse_u32(s) {
        Some(v) if v <= 100 => Some(v),
        _ => None,
    }
}

/// Two sequences of different length differ.
pub proof fn lemma_seq_ne_len(a: Seq<char>, b: Seq<char>)
    requires
        a.len() != b.len(),
    ensures
        a != b,
{
    if a == b {
        assert(a.len() == b.len());
    }
}

/// Two sequences that differ at one index differ.
pub proof fn lemma_seq_ne_at(a: Seq<char>, b: Seq<char>, i: int)
    requires
        0 <= i < a.len(),
        0 <= i < b.len(),
        a[i] != b[i],
    ensures
        a != b,
{
    if a == b {
        assert(a[i] == b[i]);
    }
}

/// Checks that every character is a decimal digit.
pub fn all_digits_str(s: &str) -> (r: bool)
    ensures
        r == all_digits(s@),
{
    let n: usize = s.unicode_len();
    let mut i: usize = 0;
    while i < n
        invariant
            0 <= i <= n,
            n == s@.len(),
            forall|j: int| 0 <= j < i ==> is_digit(#[trigger] s@[j]),
        decreases n - i,
    {
        let v: u32 = s.get_char(i) as u32;
        if v < 48 || v > 57 {
            assert(!is_digit(s@[i as int]));
            return false;
        }
        i = i + 1;
    }
    true
}

/// Digits are never spaces.
pub proof fn lemma_digits_sep_free(s: Seq<char>)
    requires
        all_digits(s),
    ensures
        sep_free(s, ' '),
{
    assert(forall|i: int| 0 <= i < s.len() ==> is_digit(#[trigger] s[i]) && s[i] != ' ');
}

// ---------------------------------------------------------------------------
// Splitting on a separator character
// ---------------------------------------------------------------------------

/// Splitting on a separator: n separators yield n + 1 tokens, in order,
/// empty tokens included.
pub open spec fn split_ch(s: Seq<char>, sep: char) -> Seq<Seq<char>>
    decreases s.len(),
{
    if s.len() == 0 {
        seq![Seq::<char>::empty()]
    } else if s[0] == sep {
        seq![Seq::<char>::empty()] + split_ch(s.drop_first(), sep)
    } else {
        let rest = split_ch(s.drop_first(), sep);
        seq![seq![s[0]] + rest[0]] + rest.drop_first()
    }
}

pub proof fn lemma_split_len(s: Seq<char>, sep: char)
    ensures
        split_ch(s, sep).len() >= 1,
    decreases s.len(),
{
    if s.len() > 0 {
        lemma_split_len(s.drop_first(), sep);
    }
}

pub open spec fn sep_free(s: Seq<char>, sep: char) -> bool {
    forall|i: int| 0 <= i < s.len() ==> #[trigger] s[i] != sep
}

/// A token with no separator splits into itself alone.
pub proof fn lemma_split_single(w: Seq<char>, sep: char)
    requires
        sep_free(w, sep),
    ensures
        split_ch(w, sep) =~~= seq![w],
    decreases w.len(),
{
    if w.len() > 0 {
        lemma_split_single(w.drop_first(), sep);
        assert(seq![w[0]] + w.drop_first() =~= w);
    }
}

/// Peeling the first token off a split.
pub proof fn lemma_split_step(w: Seq<char>, sep: char, rest: Seq<char>)
    requires
        sep_free(w, sep),
    ensures
        split_ch(w + seq![sep] + rest, sep) =~~= seq![w] + split_ch(rest, sep),
    decreases w.len(),
{
    let s = w + seq![sep] + rest;
    if w.len() == 0 {
        assert(s =~= seq![sep] + rest);
        assert(s[0] == sep);
        assert(s.drop_first() =~= rest);
    } else {
        assert(s[0] == w[0]);
        assert(s[0] != sep);
        assert(s.drop_first() =~= w.drop_first() + seq![sep] + rest);
        lemma_split_step(w.drop_first(), sep, rest);
        lemma_split_len(rest, sep);
        let rec = split_ch(s.drop_first(), sep);
        assert(rec =~~= seq![w.drop_first()] + split_ch(rest, sep));
        assert(seq![s[0]] + rec[0] =~= w);
        assert(rec.drop_first() =~~= split_ch(rest, sep));
    }
}

/// Splits a string on a separator character, empty tokens included.
pub fn split_str(s: &str, sep: char) -> (r: Vec<String>)
    ensures
        r.deep_view() == split_ch(s@, sep),
{
    let n: usize = s.unicode_len();
    let mut tokens: Vec<String> = Vec::new();
    let mut start: usize = 0;
    let mut i: usize = 0;
    proof {
        assert(s@.skip(0) =~= s@);
        assert(tokens.deep_view() =~= Seq::<Seq<char>>::empty());
    }
    while i < n
        invariant
            0 <= start <= i <= n,
            n == s@.len(),
            sep_free(s@.subrange(start as int, i as int), sep),
            split_ch(s@, sep) =~~= tokens.deep_view() + split_ch(s@.skip(start as int), sep),
        decreases n - i,
    {
        let c = s.get_char(i);
        if c == sep {
            let tok = s.substring_char(start, i).to_owned();
            let ghost pre = tokens.deep_view();
            let ghost w = s@.subrange(start as int, i as int);
            proof {
                assert(s@.skip(start as int) =~= w + seq![sep] + s@.skip(i as int + 1));
                lemma_split_step(w, sep, s@.skip(i as int + 1));
            }
            tokens.push(tok);
            proof {
                assert(tokens.deep_view() =~= pre.push(w));
                assert((pre + (seq![w] + split_ch(s@.skip(i as int + 1), sep))) =~~= (pre.push(w)
                    + split_ch(s@.skip(i as int + 1), sep)));
            }
            start = i + 1;
        } else {
            proof {
                assert(s@.subrange(start as int, i as int + 1) =~= s@.subrange(
                    start as int,
                    i as int,
                ).push(s@[i as int]));
            }
        }
        i = i + 1;
    }
    let tok = s.substring_char(start, n).to_owned();
    let ghost pre = tokens.deep_view();
    let ghost w = s@.subrange(start as int, n as int);
    proof {
        assert(s@.skip(start as int) =~= w);
        lemma_split_single(w, sep);
    }
    tokens.push(tok);
    proof {
        assert(tokens.deep_view() =~= pre.push(w));
        assert((pre + seq![w]) =~~= pre.push(w));
    }
    tokens
}

// ---------------------------------------------------------------------------
// Trimming
// ---------------------------------------------------------------------------

pub open spec fn trim_front_spec(s: Seq<char>) -> Seq<char>
    decreases s.len(),
{
    if s.len() > 0 && is_ws(s[0]) {
        trim_front_spec(s.drop_first())
    } else {
        s
    }
}

pub open spec fn trim_back_spec(s: Seq<char>) -> Seq<char>
    decreases s.len(),
{
    if s.len() > 0 && is_ws(s.last()) {
        trim_back_spec(s.drop_last())
    } else {
        s
    }
}

/// Both ends stripped of ASCII whitespace.
pub open spec fn trim_spec(s: Seq<char>) -> Seq<char> {
    trim_back_spec(trim_front_spec(s))
}

fn is_ws_char(c: char) -> (r: bool)
    ensures
        r == is_ws(c),
{
    c == ' ' || c == '\t' || c == '\n' || c == '\r'
}

/// Strips ASCII whitespace from both ends.
pub fn trim(s: &str) -> (r: String)
    ensures
        r@ == trim_spec(s@),
{
    let n: usize = s.unicode_len();
    let mut lo: usize = 0;
    proof {
        assert(s@.skip(0) =~= s@);
    }
    while lo < n && is_ws_char(s.get_char(lo))
        invariant
            0 <= lo <= n,
            n == s@.len(),
            trim_front_spec(s@) == trim_front_spec(s@.skip(lo as int)),
        decreases n - lo,
    {
        proof {
            assert(s@.skip(lo as int).drop_first() =~= s@.skip(lo as int + 1));
        }
        lo = lo + 1;
    }
    proof {
        if lo < n {
            assert(!is_ws(s@.skip(lo as int)[0]));
        }
        assert(trim_front_spec(s@.skip(lo as int)) == s@.skip(lo as int));
    }
    let mut hi: usize = n;
    proof {
        assert(s@.skip(lo as int) =~= s@.subrange(lo as int, n as int));
    }
    while hi > lo && is_ws_char(s.get_char(hi - 1))
        invariant
            lo <= hi <= n,
            n == s@.len(),
            trim_front_spec(s@) == s@.skip(lo as int),
            trim_back_spec(s@.skip(lo as int)) == trim_back_spec(s@.subrange(lo as int, hi as int)),
        decreases hi,
    {
        proof {
            let cur = s@.subrange(lo as int, hi as int);
            assert(cur.last() == s@[hi as int - 1]);
            assert(cur.drop_last() =~= s@.subrange(lo as int, hi as int - 1));
        }
        hi = hi - 1;
    }
    proof {
        let cur = s@.subrange(lo as int, hi as int);
        if hi > lo {
            assert(!is_ws(cur.last()));
        }
        assert(trim_back_spec(cur) == cur);
    }
    s.substring_char(lo, hi).to_owned()
}

// ---------------------------------------------------------------------------
// Comparison and search
// ---------------------------------------------------------------------------

/// Character-for-character string equality.
pub fn str_eq(a: &str, b: &str) -> (r: bool)
    ensures
        r == (a@ == b@),
{
    let s1 = a.to_owned();
    let s2 = b.to_owned();
    s1 == s2
}

/// Whether `p` is a prefix of `s`.
pub open spec fn has_prefix(s: Seq<char>, p: Seq<char>) -> bool {
    s.len() >= p.len() && s.take(p.len() as int) == p
}

pub fn starts_with(s: &str, p: &str) -> (r: bool)
    ensures
        r == has_prefix(s@, p@),
{
    let n: usize = s.unicode_len();
    let m: usize = p.unicode_len();
    if n < m {
        return false;
    }
    let mut i: usize = 0;
    while i < m
        invariant
            0 <= i <= m <= n,
            n == s@.len(),
            m == p@.len(),
            forall|j: int| 0 <= j < i ==> s@[j] == p@[j],
        decreases m - i,
    {
        if s.get_char(i) != p.get_char(i) {
            proof {
                assert(s@.take(m as int)[i as int] != p@[i as int]);
            }
            return false;
        }
        i = i + 1;
    }
    proof {
        assert(s@.take(m as int) =~= p@);
    }
    true
}

/// Whether `pat` occurs in `s` as a contiguous substring.
pub open spec fn contains_sub(s: Seq<char>, pat: Seq<char>) -> bool {
    exists|i: int|
        0 <= i && i + pat.len() <= s.len() && (#[trigger] s.subrange(i, i + pat.len())) == pat
}

fn match_at(s: &str, at: usize, pat: &str) -> (r: bool)
    requires
        at + pat@.len() <= s@.len(),
    ensures
        r == (s@.subrange(at as int, at as int + pat@.len()) == pat@),
{
    let n: usize = s.unicode_len();
    let m: usize = pat.unicode_len();
    let mut i: usize = 0;
    while i < m
        invariant
            0 <= i <= m,
            at + m <= n,
            n == s@.len(),
            m == pat@.len(),
            forall|j: int| 0 <= j < i ==> s@[at + j] == pat@[j],
        decreases m - i,
    {
        if s.get_char(at + i) != pat.get_char(i) {
            proof {
                assert(s@.subrange(at as int, at as int + m as int)[i as int] != pat@[i as int]);
            }
            return false;
        }
        i = i + 1;
    }
    proof {
        assert(s@.subrange(at as int, at as int + m as int) =~= pat@);
    }
    true
}

/// Substring search, the direct way.
pub fn contains_str(s: &str, pat: &str) -> (r: bool)
    ensures
        r == contains_sub(s@, pat@),
{
    let n: usize = s.unicode_len();
    let m: usize = pat.unicode_len();
    if m > n {
        return false;
    }
    if m == 0 {
        proof {
            let k: int = 0;
            assert(s@.subrange(k, k + pat@.len()) =~= pat@);
            assert(contains_sub(s@, pat@));
        }
        return true;
    }
    let mut i: usize = 0;
    while i <= n - m
        invariant
            0 <= i <= n - m + 1,
            1 <= m <= n,
            n == s@.len(),
            m == pat@.len(),
            forall|j: int| 0 <= j < i ==> #[trigger] s@.subrange(j, j + pat@.len()) != pat@,
        decreases n - i,
    {
        if match_at(s, i, pat) {
            proof {
                let k: int = i as int;
                assert(0 <= k && k + pat@.len() <= s@.len() && s@.subrange(k, k + pat@.len())
                    == pat@);
                assert(contains_sub(s@, pat@));
            }
            return true;
        }
        i = i + 1;
    }
    false
}

} // verus!
