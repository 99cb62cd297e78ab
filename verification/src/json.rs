use vstd::prelude::*;
use vstd::string::*;
use crate::error::Error;
use crate::text;

verus! {

// ---------------------------------------------------------------------------
// JSON string encoding for persisted records
// ---------------------------------------------------------------------------

pub open spec fn hex_char(d: int) -> char
    recommends
        0 <= d < 16,
{
    if d < 10 {
        text::digit_char(d)
    } else if d == 10 {
        'a'
    } else if d == 11 {
        'b'
    } else if d == 12 {
        'c'
    } else if d == 13 {
        'd'
    } else if d == 14 {
        'e'
    } else {
        'f'
    }
}

/// How one character is written inside a JSON string: quotes and backslashes
/// get a backslash escape, control characters a `\u00XX` escape, everything
/// else stands for itself.
pub open spec fn esc_char(c: char) -> Seq<char> {
    if c == '"' {
        seq!['\\', '"']
    } else if c == '\\' {
        seq!['\\', '\\']
    } else if (c as u32) < 32 {
        seq!['\\', 'u', '0', '0', hex_char((c as u32 / 16) as int), hex_char((c as u32 % 16) as int)]
    } else {
        seq![c]
    }
}

pub open spec fn json_escape(s: Seq<char>) -> Seq<char>
    decreases s.len(),
{
    if s.len() == 0 {
        Seq::<char>::empty()
    } else {
        esc_char(s[0]) + json_escape(s.drop_first())
    }
}

/// A JSON string literal: quote, escaped contents, quote.
pub open spec fn json_string_spec(s: Seq<char>) -> Seq<char> {
    seq!['"'] + json_escape(s) + seq!['"']
}

pub proof fn lemma_json_escape_push(s: Seq<char>, c: char)
    ensures
        json_escape(s.push(c)) == json_escape(s) + esc_char(c),
    decreases s.len(),
{
    if s.len() == 0 {
        assert(s.push(c).drop_first() =~= Seq::<char>::empty());
        assert(json_escape(Seq::<char>::empty()) =~= Seq::<char>::empty());
        assert(s.push(c)[0] == c);
        assert(json_escape(s.push(c)) =~= esc_char(c) + json_escape(s.push(c).drop_first()));
        assert(json_escape(s.push(c)) =~= json_escape(s) + esc_char(c));
    } else {
        assert(s.push(c).drop_first() =~= s.drop_first().push(c));
        assert(s.push(c)[0] == s[0]);
        lemma_json_escape_push(s.drop_first(), c);
        assert(esc_char(s[0]) + (json_escape(s.drop_first()) + esc_char(c)) =~= (esc_char(s[0])
            + json_escape(s.drop_first())) + esc_char(c));
    }
}

fn hex_str(d: u32) -> (r: &'static str)
    requires
        d < 16,
    ensures
        r@ == seq![hex_char(d as int)],
{
    if d < 10 {
        text::digit_str(d)
    } else {
        proof {
            reveal_strlit("a");
            reveal_strlit("b");
            reveal_strlit("c");
            reveal_strlit("d");
            reveal_strlit("e");
            reveal_strlit("f");
        }
        match d {
            10 => "a",
            11 => "b",
            12 => "c",
            13 => "d",
            14 => "e",
            _ => "f",
        }
    }
}

/// Writes a value as a JSON string literal, escaping what JSON requires.
pub fn json_string(s: &str) -> (r: String)
    ensures
        r@ == json_string_spec(s@),
{
    proof {
        reveal_strlit("\"");
        reveal_strlit("\\\"");
        reveal_strlit("\\\\");
        reveal_strlit("\\u00");
    }
    let n: usize = s.unicode_len();
    let mut out: String = "\"".to_owned();
    let mut i: usize = 0;
    proof {
        assert(s@.take(0) =~= Seq::<char>::empty());
        assert(out@ =~= seq!['"'] + json_escape(s@.take(0)));
    }
    while i < n
        invariant
            0 <= i <= n,
            n == s@.len(),
            out@ == seq!['"'] + json_escape(s@.take(i as int)),
        decreases n - i,
    {
        let c = s.get_char(i);
        proof {
            reveal_strlit("\\\"");
            reveal_strlit("\\\\");
            reveal_strlit("\\u00");
            assert(s@.take(i as int + 1) =~= s@.take(i as int).push(s@[i as int]));
            lemma_json_escape_push(s@.take(i as int), s@[i as int]);
        }
        if c == '"' {
            out.append("\\\"");
            proof {
                assert(esc_char(c) =~= "\\\""@);
            }
        } else if c == '\\' {
            out.append("\\\\");
            proof {
                assert(esc_char(c) =~= "\\\\"@);
            }
        } else {
            let v: u32 = c as u32;
            if v < 32 {
                out.append("\\u00");
                out.append(hex_str(v / 16));
                out.append(hex_str(v % 16));
                proof {
                    assert(esc_char(c) =~= "\\u00"@ + seq![hex_char(v as int / 16)] + seq![
                        hex_char(v as int % 16),
                    ]);
                }
            } else {
                let piece = s.substring_char(i, i + 1);
                out.append(piece);
                proof {
                    assert(piece@ =~= seq![c]);
                    assert(esc_char(c) =~= seq![c]);
                }
            }
        }
        proof {
            assert(out@ =~= seq!['"'] + json_escape(s@.take(i as int + 1)));
        }
        i = i + 1;
    }
    out.append("\"");
    proof {
        assert(s@.take(n as int) =~= s@);
        assert(out@ =~= json_string_spec(s@));
    }
    out
}

/// The JSON spelling of a boolean.
pub open spec fn bool_text(b: bool) -> Seq<char> {
    if b {
        "true"@
    } else {
        "false"@
    }
}

pub fn bool_str(b: bool) -> (r: &'static str)
    ensures
        r@ == bool_text(b),
{
    if b {
        "true"
    } else {
        "false"
    }
}

// ---------------------------------------------------------------------------
// Reading a string record back
// ---------------------------------------------------------------------------

/// A character sequence that needs no escaping inside a JSON string.
pub open spec fn plain_str(s: Seq<char>) -> bool {
    forall|i: int|
        0 <= i < s.len() ==> (#[trigger] s[i]) != '"' && s[i] != '\\' && (s[i] as u32) >= 32
}

/// What `parse_string_record` accepts: a quoted, escape-free JSON string.
pub open spec fn record_str_spec(line: Seq<char>) -> Option<Seq<char>> {
    if line.len() >= 2 && line[0] == '"' && line.last() == '"' && plain_str(
        line.subrange(1, line.len() - 1),
    ) {
        Some(line.subrange(1, line.len() - 1))
    } else {
        None
    }
}

/// Reads a persisted string record: a JSON string literal without escapes.
/// A record that this library wrote for a plain value always reads back.
pub fn parse_string_record(line: &str) -> (r: Result<String, Error>)
    ensures
        r matches Ok(s) ==> record_str_spec(line@) == Some(s@),
        r is Err ==> record_str_spec(line@) is None && r == Err::<String, Error>(Error::Parse),
{
    proof {
        reveal_strlit("\"");
    }
    let n: usize = line.unicode_len();
    if n < 2 {
        return Err(Error::Parse);
    }
    if line.get_char(0) != '"' || line.get_char(n - 1) != '"' {
        return Err(Error::Parse);
    }
    let mut i: usize = 1;
    while i < n - 1
        invariant
            1 <= i <= n - 1,
            n == line@.len(),
            2 <= n,
            forall|j: int|
                1 <= j < i ==> (#[trigger] line@[j]) != '"' && line@[j] != '\\' && (line@[j]
                    as u32) >= 32,
        decreases n - i,
    {
        let c = line.get_char(i);
        if c == '"' || c == '\\' || (c as u32) < 32 {
            proof {
                assert(line@.subrange(1, n as int - 1)[i as int - 1] == line@[i as int]);
            }
            return Err(Error::Parse);
        }
        i = i + 1;
    }
    proof {
        assert(forall|j: int|
            0 <= j < n - 2 ==> #[trigger] line@.subrange(1, n as int - 1)[j] == line@[j + 1]);
        assert(plain_str(line@.subrange(1, n as int - 1)));
    }
    Ok(line.substring_char(1, n - 1).to_owned())
}

/// An escape-free value reads back from its own record: the record codec
/// round-trips.
pub proof fn lemma_record_roundtrip(s: Seq<char>)
    requires
        plain_str(s),
    ensures
        record_str_spec(json_string_spec(s)) == Some(s),
{
    lemma_plain_escape(s);
    let line = json_string_spec(s);
    assert(line.len() == s.len() + 2);
    assert(line[0] == '"');
    assert(line.last() == '"');
    assert(line.subrange(1, line.len() - 1) =~= s);
}

/// Escaping changes nothing in a string that needs no escapes.
pub proof fn lemma_plain_escape(s: Seq<char>)
    requires
        plain_str(s),
    ensures
        json_escape(s) == s,
    decreases s.len(),
{
    if s.len() > 0 {
        assert(forall|j: int| 0 <= j < s.len() - 1 ==> #[trigger] s.drop_first()[j] == s[j + 1]);
        lemma_plain_escape(s.drop_first());
        assert(esc_char(s[0]) =~= seq![s[0]]);
        assert(seq![s[0]] + s.drop_first() =~= s);
    }
}

} // verus!
