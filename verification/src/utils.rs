use vstd::prelude::*;
use crate::error::Error;

verus! {

// ---------------------------------------------------------------------------
// Byte-level numerals: what external tools print on their standard output
// ---------------------------------------------------------------------------

pub open spec fn is_digit_b(b: u8) -> bool {
    48 <= b <= 57
}

pub open spec fn is_ws_b(b: u8) -> bool {
    b == 32 || b == 9 || b == 10 || b == 13
}

pub open spec fn all_digits_b(s: Seq<u8>) -> bool {
    forall|i: int| 0 <= i < s.len() ==> is_digit_b(#[trigger] s[i])
}

/// The value of a digit string of bytes, most significant first.
pub open spec fn dec_val_b(s: Seq<u8>) -> int
    recommends
        all_digits_b(s),
    decreases s.len(),
{
    if s.len() == 0 {
        0
    } else {
        dec_val_b(s.drop_last()) * 10 + (s.last() - 48)
    }
}

pub open spec fn trim_front_b(s: Seq<u8>) -> Seq<u8>
    decreases s.len(),
{
    if s.len() > 0 && is_ws_b(s[0]) {
        trim_front_b(s.drop_first())
    } else {
        s
    }
}

pub open spec fn trim_back_b(s: Seq<u8>) -> Seq<u8>
    decreases s.len(),
{
    if s.len() > 0 && is_ws_b(s.last()) {
        trim_back_b(s.drop_last())
    } else {
        s
    }
}

/// Both ends stripped of ASCII whitespace.
pub open spec fn trim_b(s: Seq<u8>) -> Seq<u8> {
    trim_back_b(trim_front_b(s))
}

pub proof fn lemma_dec_val_b_nonneg(s: Seq<u8>)
    requires
        all_digits_b(s),
    ensures
        dec_val_b(s) >= 0,
    decreases s.len(),
{
    if s.len() > 0 {
        lemma_dec_val_b_nonneg(s.drop_last());
    }
}

pub proof fn lemma_dec_val_b_extend(s: Seq<u8>, i: int)
    requires
        0 <= i < s.len(),
        all_digits_b(s.take(i)),
        is_digit_b(s[i]),
    ensures
        dec_val_b(s.take(i + 1)) == dec_val_b(s.take(i)) * 10 + (s[i] - 48),
        dec_val_b(s.take(i)) <= dec_val_b(s.take(i + 1)),
{
    assert(s.take(i + 1).drop_last() =~= s.take(i));
    assert(s.take(i + 1).last() == s[i]);
    lemma_dec_val_b_nonneg(s.take(i));
}

pub proof fn lemma_dec_val_b_prefix(s: Seq<u8>, i: int)
    requires
        all_digits_b(s),
        0 <= i <= s.len(),
    ensures
        dec_val_b(s.take(i)) <= dec_val_b(s),
    decreases s.len() - i,
{
    if i == s.len() {
        assert(s.take(i) =~= s);
    } else {
        assert(forall|j: int| 0 <= j < i ==> s.take(i)[j] == s[j]);
        lemma_dec_val_b_extend(s, i);
        lemma_dec_val_b_prefix(s, i + 1);
    }
}

/// What `utf8_to_u32` returns for given bytes: the last byte dropped, the
/// rest trimmed of whitespace, and the remainder read as a decimal numeral.
/// Output in any other shape is the external tool's failure.
pub open spec fn utf8_to_u32_spec(bytes: Seq<u8>) -> Result<u32, Error> {
    if bytes.len() == 0 {
        Err(Error::ExternalTool)
    } else {
        let t = trim_b(bytes.drop_last());
        if t.len() >= 1 && all_digits_b(t) && dec_val_b(t) <= u32::MAX {
            Ok(dec_val_b(t) as u32)
        } else {
            Err(Error::ExternalTool)
        }
    }
}

/// Reads the number an external tool printed: tools end their answer with a
/// newline, so the last byte goes, the rest is trimmed and parsed.
pub fn utf8_to_u32(utf8: Vec<u8>) -> (r: Result<u32, Error>)
    ensures
        r == utf8_to_u32_spec(utf8@),
{
    let n: usize = utf8.len();
    if n == 0 {
        return Err(Error::ExternalTool);
    }
    let ghost body = utf8@.drop_last();
    proof {
        assert(body =~= utf8@.take(n as int - 1));
    }
    let mut lo: usize = 0;
    proof {
        assert(body.skip(0) =~= body);
    }
    while lo < n - 1 && is_ws_byte(utf8[lo])
        invariant
            0 <= lo <= n - 1,
            1 <= n == utf8@.len(),
            body == utf8@.drop_last(),
            trim_front_b(body) == trim_front_b(body.skip(lo as int)),
        decreases n - lo,
    {
        proof {
            assert(body.skip(lo as int)[0] == utf8@[lo as int]);
            assert(body.skip(lo as int).drop_first() =~= body.skip(lo as int + 1));
        }
        lo = lo + 1;
    }
    proof {
        if lo < n - 1 {
            assert(body.skip(lo as int)[0] == utf8@[lo as int]);
        }
        assert(trim_front_b(body.skip(lo as int)) == body.skip(lo as int));
        assert(body.skip(lo as int) =~= body.subrange(lo as int, n as int - 1));
    }
    let mut hi: usize = n - 1;
    while hi > lo && is_ws_byte(utf8[hi - 1])
        invariant
            lo <= hi <= n - 1,
            1 <= n == utf8@.len(),
            body == utf8@.drop_last(),
            trim_front_b(body) == body.subrange(lo as int, n as int - 1),
            trim_back_b(body.subrange(lo as int, n as int - 1)) == trim_back_b(
                body.subrange(lo as int, hi as int),
            ),
        decreases hi,
    {
        proof {
            let cur = body.subrange(lo as int, hi as int);
            assert(cur.last() == utf8@[hi as int - 1]);
            assert(cur.drop_last() =~= body.subrange(lo as int, hi as int - 1));
        }
        hi = hi - 1;
    }
    let ghost t = trim_b(body);
    proof {
        let cur = body.subrange(lo as int, hi as int);
        if hi > lo {
            assert(cur.last() == utf8@[hi as int - 1]);
        }
        assert(trim_back_b(cur) == cur);
        assert(t == cur);
    }
    if lo == hi {
        return Err(Error::ExternalTool);
    }
    let mut acc: u32 = 0;
    let mut i: usize = lo;
    while i < hi
        invariant
            lo <= i <= hi <= n - 1,
            1 <= n == utf8@.len(),
            body == utf8@.drop_last(),
            t == body.subrange(lo as int, hi as int),
            t == trim_b(body),
            all_digits_b(t.take(i - lo as int)),
            acc == dec_val_b(t.take(i - lo as int)),
        decreases hi - i,
    {
        let b = utf8[i];
        proof {
            assert(t[i - lo as int] == utf8@[i as int]);
        }
        if b < 48 || b > 57 {
            proof {
                assert(!is_digit_b(t[i - lo as int]));
            }
            return Err(Error::ExternalTool);
        }
        proof {
            assert(forall|j: int|
                0 <= j <= i - lo ==> #[trigger] t.take(i - lo as int + 1)[j] == t[j]);
            assert(forall|j: int| 0 <= j < i - lo ==> #[trigger] t.take(i - lo as int)[j] == t[j]);
            assert(all_digits_b(t.take(i - lo as int + 1)));
            lemma_dec_val_b_extend(t, i - lo as int);
        }
        let step = match acc.checked_mul(10) {
            Some(m) => m.checked_add((b - 48) as u32),
            None => None,
        };
        match step {
            Some(next) => {
                acc = next;
            },
            None => {
                proof {
                    assert(dec_val_b(t.take(i - lo as int + 1)) > u32::MAX);
                    if all_digits_b(t) {
                        lemma_dec_val_b_prefix(t, i - lo as int + 1);
                    }
                }
                return Err(Error::ExternalTool);
            },
        }
        i = i + 1;
    }
    proof {
        assert(t.take(hi - lo as int) =~= t);
    }
    Ok(acc)
}

fn is_ws_byte(b: u8) -> (r: bool)
    ensures
        r == is_ws_b(b),
{
    b == 32 || b == 9 || b == 10 || b == 13
}

} // verus!
