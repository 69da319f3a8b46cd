use vstd::prelude::*;
use crate::error::PipelineError;
use crate::prompt::texts;

verus! {

/// The start of the configuration line that holds the endpoint's key.
pub const KEY_PREFIX: &'static str = "OPENAI_API_KEY=";

/// What follows the key's prefix on the first line that starts with it.
pub open spec fn key_value(lines: Seq<Seq<char>>) -> Option<Seq<char>>
    decreases lines.len(),
{
    if lines.len() == 0 {
        None
    } else if KEY_PREFIX@.is_prefix_of(lines[0]) {
        Some(lines[0].subrange(KEY_PREFIX@.len() as int, lines[0].len() as int))
    } else {
        key_value(lines.drop_first())
    }
}

/// Whether `s` starts with `prefix`.
pub fn starts_with(s: &str, prefix: &str) -> (r: bool)
    ensures
        r == prefix@.is_prefix_of(s@),
{
    let n = prefix.unicode_len();
    if n > s.unicode_len() {
        return false;
    }
    let mut i: usize = 0;
    while i < n
        invariant
            n == prefix@.len(),
            n <= s@.len(),
            i <= n,
            forall|j: int| 0 <= j < i ==> prefix@[j] == s@[j],
        decreases n - i,
    {
        if prefix.get_char(i) != s.get_char(i) {
            return false;
        }
        i = i + 1;
    }
    assert(prefix@ =~= s@.subrange(0, n as int));
    true
}

/// The endpoint's key, read from the lines of a configuration file: what
/// follows `OPENAI_API_KEY=` on the first line that starts with it. A key
/// that is missing or empty is an error.
pub fn api_key(lines: &Vec<String>) -> (r: Result<String, PipelineError>)
    ensures
        match r {
            Ok(k) => key_value(texts(lines@)) == Some(k@) && k@.len() > 0,
            Err(e) => e == PipelineError::CredentialMissing && !(key_value(texts(lines@)) matches Some(v) && v.len() > 0),
        },
{
    let ghost all = texts(lines@);
    let mut i: usize = 0;
    assert(all.subrange(0, all.len() as int) =~= all);
    while i < lines.len()
        invariant
            i <= lines.len(),
            all == texts(lines@),
            key_value(all) == key_value(all.subrange(i as int, all.len() as int)),
        decreases lines.len() - i,
    {
        let line = lines[i].as_str();
        let ghost rest = all.subrange(i as int, all.len() as int);
        assert(rest[0] == line@);
        if starts_with(line, KEY_PREFIX) {
            let start = KEY_PREFIX.unicode_len();
            let value = line.substring_char(start, line.unicode_len());
            if value.unicode_len() == 0 {
                return Err(PipelineError::CredentialMissing);
            }
            return Ok(String::from_str(value));
        }
        assert(rest.drop_first() =~= all.subrange(i + 1, all.len() as int));
        i = i + 1;
    }
    Err(PipelineError::CredentialMissing)
}

} // verus!
