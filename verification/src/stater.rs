use vstd::prelude::*;
use vstd::string::*;
use crate::error::Error;
use crate::text;
use crate::text::split_ch;

verus! {

/// The single-slot persisted record of one domain: a file of record lines
/// under the state directory, of which only the last line counts. This
/// type owns the naming, the growth bound and the read rule; the file
/// system work around it stays outside.
pub struct Stater {
    pub file: String,
}

/// Where the records live.
pub fn state_dir() -> (r: String)
    ensures
        r@ == "/home/emanuel/.local/state/emanager"@,
{
    "/home/emanuel/.local/state/emanager".to_owned()
}

/// A record file is cut back to nothing once it outgrows this many bytes,
/// so the store never grows unbounded.
pub open spec fn size_ceiling() -> int {
    65536
}

/// What the last-line read returns: the text after the final newline, a
/// trailing newline and a trailing carriage return discounted; an empty
/// file has no record at all.
pub open spec fn last_line_spec(s: Seq<char>) -> Option<Seq<char>> {
    if s.len() == 0 {
        None
    } else {
        let t = if s.last() == '\n' {
            s.drop_last()
        } else {
            s
        };
        let line = split_ch(t, '\n').last();
        if line.len() > 0 && line.last() == '\r' {
            Some(line.drop_last())
        } else {
            Some(line)
        }
    }
}

impl Stater {
    /// Names the record slot of one domain.
    pub fn new(name: &str) -> (r: Stater)
        ensures
            r.file@ == "/home/emanuel/.local/state/emanager"@ + "/"@ + name@,
    {
        let mut file = state_dir();
        file.append("/");
        file.append(name);
        Stater { file }
    }

    /// Whether the record file must be cut back before the next write.
    pub fn should_truncate(&self, len: u64) -> (r: bool)
        ensures
            r == (len > size_ceiling()),
    {
        len > 65536
    }

    /// Reads the authoritative record out of the whole file text: the last
    /// line wins. An empty file means no record has ever been written.
    pub fn last_line(&self, contents: &str) -> (r: Result<String, Error>)
        ensures
            r matches Ok(line) ==> last_line_spec(contents@) == Some(line@),
            r is Err ==> contents@.len() == 0 && r == Err::<String, Error>(Error::NotFound),
    {
        let n: usize = contents.unicode_len();
        if n == 0 {
            return Err(Error::NotFound);
        }
        let hi: usize = if contents.get_char(n - 1) == '\n' {
            n - 1
        } else {
            n
        };
        let t = contents.substring_char(0, hi);
        proof {
            if contents@.last() == '\n' {
                assert(t@ =~= contents@.drop_last());
            } else {
                assert(t@ =~= contents@);
            }
        }
        let parts = text::split_str(t, '\n');
        proof {
            text::lemma_split_len(t@, '\n');
            assert(parts.deep_view()[parts@.len() - 1] == parts@[parts@.len() - 1]@);
        }
        let line = &parts[parts.len() - 1];
        let m: usize = line.as_str().unicode_len();
        if m > 0 && line.as_str().get_char(m - 1) == '\r' {
            let out = line.as_str().substring_char(0, m - 1).to_owned();
            proof {
                assert(out@ =~= split_ch(t@, '\n').last().drop_last());
            }
            Ok(out)
        } else {
            Ok(line.as_str().to_owned())
        }
    }
}

} // verus!
