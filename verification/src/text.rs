//! Text building blocks: margins, padding, decimal numerals, line splitting
//! and capitalisation.

use vstd::prelude::*;
use vstd::std_specs::iter::IteratorSpec;
use vstd::string::*;

verus! {

/// The number of columns that one level of indentation takes.
pub const MARGIN_UNIT: usize = 2;

/// `n` space characters.
pub open spec fn spaces(n: nat) -> Seq<char> {
    Seq::new(n, |i: int| ' ')
}

/// The left margin of a line at the given indentation: one margin unit of
/// spaces for each level.
pub open spec fn margin(indentation: nat) -> Seq<char> {
    spaces(MARGIN_UNIT as nat * indentation)
}

/// Builds the left margin for `indentation` levels.
pub fn margin_string(indentation: usize) -> (out: String)
    ensures
        out@ == margin(indentation as nat),
{
    let mut out = String::new();
    let mut level: usize = 0;
    while level < indentation
        invariant
            level <= indentation,
            out@ == margin(level as nat),
        decreases indentation - level,
    {
        proof {
            reveal_strlit("  ");
        }
        out.append("  ");
        level = level + 1;
        assert(out@ =~= margin(level as nat));
    }
    out
}


/// The index of the first line feed in `s`, or `s.len()` when it has none.
pub open spec fn first_newline(s: Seq<char>) -> nat
    decreases s.len(),
{
    if s.len() == 0 || s[0] == '\n' {
        0
    } else {
        1 + first_newline(s.drop_first())
    }
}

/// A line without the carriage return that stood before its line feed.
pub open spec fn strip_carriage_return(line: Seq<char>) -> Seq<char> {
    if line.len() > 0 && line.last() == '\r' {
        line.drop_last()
    } else {
        line
    }
}

/// The physical lines of `s`. Lines end at a line feed, or at a carriage
/// return directly followed by one; the terminator is not part of the line,
/// and a terminator at the very end of `s` opens no further line.
pub open spec fn lines(s: Seq<char>) -> Seq<Seq<char>>
    decreases s.len(),
{
    if s.len() == 0 {
        Seq::empty()
    } else {
        let end = first_newline(s);
        if end >= s.len() {
            seq![s]
        } else {
            seq![strip_carriage_return(s.subrange(0, end as int))] + lines(
                s.subrange(end as int + 1, s.len() as int),
            )
        }
    }
}

/// The views of a sequence of strings.
pub open spec fn string_views(strings: Seq<String>) -> Seq<Seq<char>> {
    strings.map_values(|s: String| s@)
}

/// `first_newline` is the least index that holds a line feed.
pub proof fn lemma_first_newline(s: Seq<char>, k: int)
    requires
        0 <= k <= s.len(),
        forall|j: int| 0 <= j < k ==> s[j] != '\n',
        k < s.len() ==> s[k] == '\n',
    ensures
        first_newline(s) == k,
    decreases s.len(),
{
    if s.len() == 0 || s[0] == '\n' {
    } else {
        lemma_first_newline(s.drop_first(), k - 1);
    }
}

/// Splits `text` into its physical lines.
pub fn split_lines(text: &str) -> (out: Vec<String>)
    ensures
        string_views(out@) == lines(text@),
{
    broadcast use vstd::string::group_string_axioms;

    let total = text.unicode_len();
    let mut out: Vec<String> = Vec::new();
    let mut chars = text.chars();
    let mut start: usize = 0;
    let mut pos: usize = 0;
    let mut after_cr = false;
    proof {
        assert(text@.subrange(0, total as int) == text@);
        assert(string_views(out@) + lines(text@) == lines(text@));
    }
    while pos < total
        invariant
            total == text@.len(),
            start <= pos <= total,
            chars.obeys_prophetic_iter_laws(),
            chars.remaining() == text@.subrange(pos as int, total as int),
            forall|j: int| start <= j < pos ==> text@[j] != '\n',
            after_cr == (start < pos && text@[pos - 1] == '\r'),
            string_views(out@) + lines(text@.subrange(start as int, total as int)) == lines(text@),
        decreases total - pos,
    {
        let next = chars.next();
        assert(next == Some(text@[pos as int]));
        let c = next.unwrap();
        if c == '\n' {
            let end = if after_cr { pos - 1 } else { pos };
            let line = text.substring_char(start, end).to_owned();
            proof {
                let rest = text@.subrange(start as int, total as int);
                lemma_first_newline(rest, pos - start);
                assert(rest.subrange(0, pos - start) == text@.subrange(start as int, pos as int));
                assert(rest.subrange(pos - start + 1, rest.len() as int) == text@.subrange(
                    pos + 1,
                    total as int,
                ));
                assert(line@ == strip_carriage_return(text@.subrange(start as int, pos as int)));
                assert(string_views(out@.push(line)) == string_views(out@) + seq![line@]);
            }
            out.push(line);
            start = pos + 1;
            after_cr = false;
        } else {
            after_cr = c == '\r';
        }
        pos = pos + 1;
        assert(chars.remaining() == text@.subrange(pos as int, total as int));
    }
    if start < total {
        let line = text.substring_char(start, total).to_owned();
        proof {
            let rest = text@.subrange(start as int, total as int);
            lemma_first_newline(rest, total - start);
            assert(line@ == rest);
            assert(string_views(out@.push(line)) == string_views(out@) + seq![line@]);
        }
        out.push(line);
    } else {
        assert(lines(text@.subrange(start as int, total as int)) == Seq::<Seq<char>>::empty());
    }
    out
}


/// The character of a decimal digit.
pub open spec fn digit(d: nat) -> char {
    if d == 0 {
        '0'
    } else if d == 1 {
        '1'
    } else if d == 2 {
        '2'
    } else if d == 3 {
        '3'
    } else if d == 4 {
        '4'
    } else if d == 5 {
        '5'
    } else if d == 6 {
        '6'
    } else if d == 7 {
        '7'
    } else if d == 8 {
        '8'
    } else {
        '9'
    }
}

/// The decimal numeral of `n`, without leading zeros.
pub open spec fn decimal(n: nat) -> Seq<char>
    decreases n,
{
    if n < 10 {
        seq![digit(n)]
    } else {
        decimal(n / 10).push(digit(n % 10))
    }
}

fn digit_str(d: u64) -> (s: &'static str)
    requires
        d < 10,
    ensures
        s@ == seq![digit(d as nat)],
{
    proof {
        reveal_strlit("0");
        reveal_strlit("1");
        reveal_strlit("2");
        reveal_strlit("3");
        reveal_strlit("4");
        reveal_strlit("5");
        reveal_strlit("6");
        reveal_strlit("7");
        reveal_strlit("8");
        reveal_strlit("9");
    }
    let s = if d == 0 {
        "0"
    } else if d == 1 {
        "1"
    } else if d == 2 {
        "2"
    } else if d == 3 {
        "3"
    } else if d == 4 {
        "4"
    } else if d == 5 {
        "5"
    } else if d == 6 {
        "6"
    } else if d == 7 {
        "7"
    } else if d == 8 {
        "8"
    } else {
        "9"
    };
    assert(s@ =~= seq![digit(d as nat)]);
    s
}

/// Writes `n` as a decimal numeral.
pub fn decimal_string(n: u64) -> (out: String)
    ensures
        out@ == decimal(n as nat),
    decreases n,
{
    if n < 10 {
        digit_str(n).to_owned()
    } else {
        let mut out = decimal_string(n / 10);
        out.append(digit_str(n % 10));
        assert(out@ =~= decimal(n as nat));
        out
    }
}

/// The number of bytes that `s` takes as UTF-8.
pub open spec fn byte_len(s: Seq<char>) -> nat {
    vstd::utf8::encode_utf8(s).len()
}

/// The number of spaces that fill `line` up to `width` bytes: none where the
/// line is that long already.
pub open spec fn padding(line: Seq<char>, width: nat) -> nat {
    if byte_len(line) < width {
        (width - byte_len(line)) as nat
    } else {
        0
    }
}

/// `line` filled up with spaces to `width` bytes and closed by a line feed.
pub open spec fn padded(line: Seq<char>, width: nat) -> Seq<char> {
    line + spaces(padding(line, width)) + seq!['\n']
}

/// Fills `line` up with spaces to `width` bytes and closes it with a line
/// feed.
pub fn pad_line(line: &str, width: usize) -> (out: String)
    ensures
        out@ == padded(line@, width as nat),
{
    let used = line.as_bytes().len();
    let mut out = line.to_owned();
    let mut column = used;
    proof {
        reveal_strlit(" ");
        reveal_strlit("\n");
        assert(out@ =~= line@ + spaces(0));
    }
    while column < width
        invariant
            used == byte_len(line@),
            used <= column,
            column <= width || column == used,
            out@ == line@ + spaces((column - used) as nat),
            " "@ == seq![' '],
        decreases width - column,
    {
        out.append(" ");
        column = column + 1;
        assert(out@ =~= line@ + spaces((column - used) as nat));
    }
    out.append("\n");
    assert(out@ =~= padded(line@, width as nat));
    out
}

/// The uppercase form of a character, which may be more than one character
/// long: what `char::to_uppercase` yields for it.
pub uninterp spec fn uppercase(c: char) -> Seq<char>;

/// `char::to_uppercase`, collected into a string. The standard library maps
/// the character by the Unicode tables; the contract claims only that the
/// outcome depends on the character alone.
#[verifier::external_body]
fn to_uppercase(c: char) -> (upper: String)
    ensures
        upper@ == uppercase(c),
{
    c.to_uppercase().collect()
}

/// `s` with its first character in uppercase and the rest unchanged.
pub open spec fn capitalized(s: Seq<char>) -> Seq<char> {
    if s.len() == 0 {
        s
    } else {
        uppercase(s[0]) + s.subrange(1, s.len() as int)
    }
}

/// Puts the first character of `s` in uppercase and leaves the rest as it is.
pub fn capitalize(s: &str) -> (out: String)
    ensures
        out@ == capitalized(s@),
{
    let total = s.unicode_len();
    if total == 0 {
        let out = String::new();
        assert(out@ =~= s@);
        out
    } else {
        let mut out = to_uppercase(s.get_char(0));
        out.append(s.substring_char(1, total));
        out
    }
}

} // verus!
