use vstd::prelude::*;

verus! {

/// Shown in place of an author name that is absent or empty.
pub const UNKNOWN_AUTHOR: &'static str = "Unknown";

/// Shown in place of a commit message that is absent or empty.
pub const NO_MESSAGE: &'static str = "No commit message";

/// The metadata of one commit, as read from the repository.
pub struct CommitRecord {
    /// The commit's content hash, in its usual hexadecimal form.
    pub id: String,
    pub author: Option<String>,
    /// Commit time in seconds since the epoch.
    pub time: i64,
    pub message: Option<String>,
}

/// The character of a decimal digit.
pub open spec fn digit_char(d: nat) -> char {
    if d == 0 { '0' }
    else if d == 1 { '1' }
    else if d == 2 { '2' }
    else if d == 3 { '3' }
    else if d == 4 { '4' }
    else if d == 5 { '5' }
    else if d == 6 { '6' }
    else if d == 7 { '7' }
    else if d == 8 { '8' }
    else { '9' }
}

/// The decimal digits of `n`, most significant first, without leading zeros.
pub open spec fn digits_of(n: nat) -> Seq<char>
    decreases n,
{
    if n < 10 {
        seq![digit_char(n)]
    } else {
        digits_of(n / 10).push(digit_char(n % 10))
    }
}

/// The decimal text of an integer, with a leading `-` when it is negative.
pub open spec fn decimal(n: int) -> Seq<char> {
    if n < 0 {
        seq!['-'] + digits_of((-n) as nat)
    } else {
        digits_of(n as nat)
    }
}

/// The text of an optional field, or `placeholder` when it is absent or empty.
pub open spec fn field_or(f: Option<String>, placeholder: Seq<char>) -> Seq<char> {
    match f {
        Some(s) => if s@.len() > 0 { s@ } else { placeholder },
        None => placeholder,
    }
}

/// The textual record of one commit.
pub open spec fn commit_text(c: CommitRecord) -> Seq<char> {
    "Commit: "@ + c.id@
        + "\nAuthor: "@ + field_or(c.author, UNKNOWN_AUTHOR@)
        + "\nDate: "@ + decimal(c.time as int)
        + "\nMessage: "@ + field_or(c.message, NO_MESSAGE@)
}

fn digit_str(d: u64) -> (r: &'static str)
    requires
        d < 10,
    ensures
        r@ == seq![digit_char(d as nat)],
{
    proof {
        reveal_strlit("0");
        reveal_strlit("1");
        reveal_strlit("2");
        reveal_strlit("3");
        reveal_strlit("4");
        reveal_strlit("5");
        reveal_strlit("6");
        reveal_strlit("7");
        reveal_strlit("8");
        reveal_strlit("9");
    }
    if d == 0 { "0" }
    else if d == 1 { "1" }
    else if d == 2 { "2" }
    else if d == 3 { "3" }
    else if d == 4 { "4" }
    else if d == 5 { "5" }
    else if d == 6 { "6" }
    else if d == 7 { "7" }
    else if d == 8 { "8" }
    else { "9" }
}

fn write_digits(n: u64, out: &mut String)
    ensures
        final(out)@ == old(out)@ + digits_of(n as nat),
    decreases n,
{
    if n < 10 {
        out.append(digit_str(n));
    } else {
        write_digits(n / 10, out);
        out.append(digit_str(n % 10));
        assert(final(out)@ =~= old(out)@ + digits_of(n as nat));
    }
}

/// Appends the decimal text of `n` to `out`.
pub fn write_decimal(n: i64, out: &mut String)
    ensures
        final(out)@ == old(out)@ + decimal(n as int),
{
    if n < 0 {
        let magnitude: u64 = ((-(n + 1)) as u64) + 1;
        proof {
            reveal_strlit("-");
        }
        out.append("-");
        write_digits(magnitude, out);
        assert(final(out)@ =~= old(out)@ + decimal(n as int));
    } else {
        write_digits(n as u64, out);
    }
}

fn append_field_or(out: &mut String, f: &Option<String>, placeholder: &str)
    ensures
        final(out)@ == old(out)@ + field_or(*f, placeholder@),
{
    match f {
        Some(s) => {
            if s.as_str().unicode_len() > 0 {
                out.append(s.as_str());
            } else {
                out.append(placeholder);
            }
        },
        None => out.append(placeholder),
    }
}

/// Renders a commit as text: its hash, author, time in raw seconds and
/// message, one per line. An absent or empty author or message is replaced
/// by a placeholder; there is no failure.
pub fn format_commit(c: &CommitRecord) -> (r: String)
    ensures
        r@ == commit_text(*c),
{
    let mut out = String::from_str("Commit: ");
    out.append(c.id.as_str());
    out.append("\nAuthor: ");
    append_field_or(&mut out, &c.author, UNKNOWN_AUTHOR);
    out.append("\nDate: ");
    write_decimal(c.time, &mut out);
    out.append("\nMessage: ");
    append_field_or(&mut out, &c.message, NO_MESSAGE);
    out
}

/// `t` occurs in `s` as a contiguous run of characters.
pub open spec fn contains_text(s: Seq<char>, t: Seq<char>) -> bool {
    exists|i: int| 0 <= i <= s.len() - t.len() && #[trigger] s.subrange(i, i + t.len()) == t
}

/// Formatting never fails on missing fields: a record whose author is absent
/// or empty renders with the author placeholder, and one whose message is
/// absent or empty renders with the message placeholder.
pub proof fn lemma_placeholders_shown(c: CommitRecord)
    ensures
        (c.author is None || c.author->0@.len() == 0) ==> contains_text(commit_text(c), UNKNOWN_AUTHOR@),
        (c.message is None || c.message->0@.len() == 0) ==> contains_text(commit_text(c), NO_MESSAGE@),
{
    let head = "Commit: "@ + c.id@ + "\nAuthor: "@;
    let author = field_or(c.author, UNKNOWN_AUTHOR@);
    let middle = "\nDate: "@ + decimal(c.time as int) + "\nMessage: "@;
    let message = field_or(c.message, NO_MESSAGE@);
    let text = commit_text(c);
    assert(text =~= head + author + (middle + message));
    assert(text =~= (head + author + middle) + message);
    assert(text.subrange(head.len() as int, (head.len() + author.len()) as int) =~= author);
    let m = (head + author + middle).len() as int;
    assert(text.subrange(m, (m + message.len()) as int) =~= message);
}

} // verus!
