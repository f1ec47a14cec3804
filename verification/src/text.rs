//! Trimming of the line that a client answers the username prompt with.

use vstd::prelude::*;
use vstd::string::*;

verus! {

/// Whether `c` is white space: one of the characters that Unicode classes as
/// `White_Space`. These are the controls U+0009 to U+000D and U+0085, the
/// space, the no-break space U+00A0, U+1680, the spaces U+2000 to U+200A,
/// the line and paragraph separators U+2028 and U+2029, U+202F, U+205F and
/// U+3000.
pub open spec fn white_space(c: char) -> bool {
    let code = c as u32;
    ||| 0x09 <= code <= 0x0D
    ||| code == 0x20
    ||| code == 0x85
    ||| code == 0xA0
    ||| code == 0x1680
    ||| 0x2000 <= code <= 0x200A
    ||| code == 0x2028
    ||| code == 0x2029
    ||| code == 0x202F
    ||| code == 0x205F
    ||| code == 0x3000
}

/// Whether `c` is white space.
pub fn is_whitespace(c: char) -> (white: bool)
    ensures
        white == white_space(c),
{
    let code = c as u32;
    (0x09 <= code && code <= 0x0D) || code == 0x20 || code == 0x85 || code == 0xA0 || code
        == 0x1680 || (0x2000 <= code && code <= 0x200A) || code == 0x2028 || code == 0x2029
        || code == 0x202F || code == 0x205F || code == 0x3000
}

/// `line` without the white space it starts with.
pub open spec fn trim_start(line: Seq<char>) -> Seq<char>
    decreases line.len(),
{
    if line.len() > 0 && white_space(line[0]) {
        trim_start(line.skip(1))
    } else {
        line
    }
}

/// `line` without the white space it ends with.
pub open spec fn trim_end(line: Seq<char>) -> Seq<char>
    decreases line.len(),
{
    if line.len() > 0 && white_space(line.last()) {
        trim_end(line.drop_last())
    } else {
        line
    }
}

/// `line` without the white space at either end.
pub open spec fn trimmed(line: Seq<char>) -> Seq<char> {
    trim_end(trim_start(line))
}

/// Skipping `from` characters that are all white space does not change what
/// is left after trimming the start.
proof fn lemma_trim_start_skips(line: Seq<char>, from: int)
    requires
        0 <= from <= line.len(),
        forall|k: int| 0 <= k < from ==> white_space(#[trigger] line[k]),
    ensures
        trim_start(line) == trim_start(line.skip(from)),
    decreases from,
{
    if from == 0 {
        assert(line.skip(0) =~= line);
    } else {
        lemma_trim_start_skips(line.skip(1), from - 1);
        assert(line.skip(1).skip(from - 1) =~= line.skip(from));
    }
}

/// Dropping characters at the end that are all white space does not change
/// what is left after trimming the end.
proof fn lemma_trim_end_takes(line: Seq<char>, to: int)
    requires
        0 <= to <= line.len(),
        forall|k: int| to <= k < line.len() ==> white_space(#[trigger] line[k]),
    ensures
        trim_end(line) == trim_end(line.take(to)),
    decreases line.len() - to,
{
    if to == line.len() {
        assert(line.take(to) =~= line);
    } else {
        lemma_trim_end_takes(line.drop_last(), to);
        assert(line.drop_last().take(to) =~= line.take(to));
    }
}

/// The line without leading and trailing white space, as a string of its own.
pub fn trim(line: &str) -> (name: String)
    ensures
        name@ == trimmed(line@),
{
    let n = line.unicode_len();
    let mut start: usize = 0;
    while start < n
        invariant
            n == line@.len(),
            0 <= start <= n,
            forall|k: int| 0 <= k < start ==> white_space(#[trigger] line@[k]),
        ensures
            start == n || !white_space(line@[start as int]),
        decreases n - start,
    {
        if !is_whitespace(line.get_char(start)) {
            break ;
        }
        start += 1;
    }
    let mut end: usize = n;
    while end > start
        invariant
            n == line@.len(),
            start <= end <= n,
            forall|k: int| end <= k < n ==> white_space(#[trigger] line@[k]),
        ensures
            end == start || !white_space(line@[end - 1]),
        decreases end,
    {
        if !is_whitespace(line.get_char(end - 1)) {
            break ;
        }
        end -= 1;
    }
    proof {
        let rest = line@.skip(start as int);
        lemma_trim_start_skips(line@, start as int);
        lemma_trim_end_takes(rest, end - start);
        assert(rest.take(end - start) =~= line@.subrange(start as int, end as int));
    }
    line.substring_char(start, end).to_owned()
}

} // verus!
