//! Character and line helpers: the blank-line test that decides whether a
//! local input line is worth sending, trimming, and the digit scan used when
//! validating discovered addresses.

use vstd::prelude::*;
use vstd::string::StrSliceExecFns;

verus! {

/// Whether the scalar value `u` is a character with the Unicode
/// `White_Space` property, the set that line trimming treats as spacing.
pub open spec fn is_space_code(u: u32) -> bool {
    ||| u == 0x09
    ||| u == 0x0A
    ||| u == 0x0B
    ||| u == 0x0C
    ||| u == 0x0D
    ||| u == 0x20
    ||| u == 0x85
    ||| u == 0xA0
    ||| u == 0x1680
    ||| (0x2000 <= u && u <= 0x200A)
    ||| u == 0x2028
    ||| u == 0x2029
    ||| u == 0x202F
    ||| u == 0x205F
    ||| u == 0x3000
}

/// Whether the character `c` counts as whitespace.
pub open spec fn is_space(c: char) -> bool {
    is_space_code(c as u32)
}

/// A line is blank when every character in it is whitespace; in particular
/// the empty line is blank. Blank lines are discarded by the session pump.
pub open spec fn is_blank(s: Seq<char>) -> bool {
    forall|i: int| 0 <= i < s.len() ==> is_space(#[trigger] s[i])
}

/// Whitespace test on one character.
pub fn char_is_space(c: char) -> (b: bool)
    ensures
        b == is_space(c),
{
    let u = c as u32;
    u == 0x09 || u == 0x0A || u == 0x0B || u == 0x0C || u == 0x0D || u == 0x20 || u == 0x85
        || u == 0xA0 || u == 0x1680 || (0x2000 <= u && u <= 0x200A) || u == 0x2028 || u == 0x2029
        || u == 0x202F || u == 0x205F || u == 0x3000
}

/// Whether `line` consists of whitespace only (or is empty).
pub fn line_is_blank(line: &str) -> (b: bool)
    ensures
        b == is_blank(line@),
{
    let n = line.unicode_len();
    let mut i: usize = 0;
    while i < n
        invariant
            n == line@.len(),
            0 <= i <= n,
            forall|j: int| 0 <= j < i ==> is_space(#[trigger] line@[j]),
        decreases n - i,
    {
        let c = line.get_char(i);
        if !char_is_space(c) {
            return false;
        }
        i += 1;
    }
    true
}

/// `s` with leading and trailing whitespace removed.
pub open spec fn trimmed(s: Seq<char>) -> Seq<char>
    decreases s.len(),
{
    if s.len() == 0 {
        s
    } else if is_space(s[0]) {
        trimmed(s.drop_first())
    } else if is_space(s.last()) {
        trimmed(s.drop_last())
    } else {
        s
    }
}

/// The trimmed text is the subrange between the outermost non-whitespace
/// characters, whenever `lo` and `hi` delimit such a subrange.
proof fn lemma_trimmed_is_subrange(s: Seq<char>, lo: int, hi: int)
    requires
        0 <= lo <= hi <= s.len(),
        forall|i: int| 0 <= i < lo ==> is_space(#[trigger] s[i]),
        forall|i: int| hi <= i < s.len() ==> is_space(#[trigger] s[i]),
        lo < hi ==> !is_space(s[lo]) && !is_space(s[hi - 1]),
    ensures
        trimmed(s) =~= s.subrange(lo, hi),
    decreases s.len(),
{
    if s.len() == 0 {
    } else if lo == hi {
        assert(is_space(s[0]));
        lemma_trimmed_is_subrange(s.drop_first(), 0, 0);
    } else if lo > 0 {
        assert(is_space(s[0]));
        lemma_trimmed_is_subrange(s.drop_first(), lo - 1, hi - 1);
        assert(s.drop_first().subrange(lo - 1, hi - 1) =~= s.subrange(lo, hi));
    } else if hi < s.len() {
        assert(is_space(s.last()));
        lemma_trimmed_is_subrange(s.drop_last(), lo, hi);
        assert(s.drop_last().subrange(lo, hi) =~= s.subrange(lo, hi));
    } else {
        assert(trimmed(s) == s);
        assert(s.subrange(0, s.len() as int) =~= s);
    }
}

/// `line` with leading and trailing whitespace removed.
pub fn trim_line(line: &str) -> (r: &str)
    ensures
        r@ == trimmed(line@),
{
    let n = line.unicode_len();
    let mut lo: usize = 0;
    while lo < n && char_is_space(line.get_char(lo))
        invariant
            n == line@.len(),
            0 <= lo <= n,
            forall|j: int| 0 <= j < lo ==> is_space(#[trigger] line@[j]),
        decreases n - lo,
    {
        lo += 1;
    }
    if lo == n {
        proof {
            lemma_trimmed_is_subrange(line@, 0, 0);
        }
        return line.substring_char(0, 0);
    }
    let mut hi: usize = n;
    while hi > lo + 1 && char_is_space(line.get_char(hi - 1))
        invariant
            n == line@.len(),
            lo < hi <= n,
            !is_space(line@[lo as int]),
            forall|j: int| hi <= j < n ==> is_space(#[trigger] line@[j]),
        decreases hi,
    {
        hi -= 1;
    }
    proof {
        lemma_trimmed_is_subrange(line@, lo as int, hi as int);
    }
    line.substring_char(lo, hi)
}

/// A line is blank exactly when trimming leaves nothing of it.
pub proof fn lemma_blank_iff_trims_empty(s: Seq<char>)
    ensures
        is_blank(s) <==> trimmed(s).len() == 0,
    decreases s.len(),
{
    if s.len() == 0 {
    } else if is_space(s[0]) {
        lemma_blank_iff_trims_empty(s.drop_first());
        assert forall|i: int| 0 <= i < s.len() && is_blank(s.drop_first()) implies is_space(
            #[trigger] s[i],
        ) by {
            if i > 0 {
                assert(s.drop_first()[i - 1] == s[i]);
            }
        }
        assert(is_blank(s.drop_first()) ==> is_blank(s));
        assert(is_blank(s) ==> is_blank(s.drop_first())) by {
            if is_blank(s) {
                assert(forall|j: int|
                    0 <= j < s.drop_first().len() ==> #[trigger] s.drop_first()[j] == s[j + 1]);
            }
        }
    } else if is_space(s.last()) {
        lemma_blank_iff_trims_empty(s.drop_last());
        assert(s.drop_last()[0] == s[0]);
        assert(!is_blank(s.drop_last()));
        assert(!is_blank(s));
    } else {
        assert(!is_blank(s));
    }
}

/// Whether `s` contains at least one ASCII decimal digit.
pub open spec fn has_ascii_digit(s: Seq<char>) -> bool {
    exists|i: int| 0 <= i < s.len() && is_ascii_digit_char(#[trigger] s[i])
}

/// Whether `c` is one of the ASCII digits `0` through `9`.
pub open spec fn is_ascii_digit_char(c: char) -> bool {
    0x30 <= c as u32 && c as u32 <= 0x39
}

/// Digit scan over a line, used to reject address text with no digit in it.
pub fn contains_ascii_digit(line: &str) -> (b: bool)
    ensures
        b == has_ascii_digit(line@),
{
    let n = line.unicode_len();
    let mut i: usize = 0;
    while i < n
        invariant
            n == line@.len(),
            0 <= i <= n,
            forall|j: int| 0 <= j < i ==> !is_ascii_digit_char(#[trigger] line@[j]),
        decreases n - i,
    {
        let c = line.get_char(i);
        let u = c as u32;
        if 0x30 <= u && u <= 0x39 {
            return true;
        }
        i += 1;
    }
    false
}

} // verus!
