//! The position model of the compose editor.
//!
//! A field's text is a sequence of code points; a cursor is an offset into
//! that sequence, `0 <= cursor <= len`.  For the multi-line body field the
//! cursor has a second, derived view: a zero-based line number and a column
//! offset within that line, where lines are the newline-delimited segments
//! of the text.  This module defines both views as spec functions, proves
//! that they are mutually inverse, and provides the executable conversions.

use vstd::prelude::*;

verus! {

/// The code points with the Unicode `White_Space` property, exactly those
/// accepted by `char::is_whitespace`.
pub open spec fn is_space(c: char) -> bool {
    (0x09 <= c as u32 && c as u32 <= 0x0d) || c as u32 == 0x20 || c as u32 == 0x85
        || c as u32 == 0xa0 || c as u32 == 0x1680
        || (0x2000 <= c as u32 && c as u32 <= 0x200a) || c as u32 == 0x2028
        || c as u32 == 0x2029 || c as u32 == 0x202f || c as u32 == 0x205f || c as u32 == 0x3000
}

/// Executable form of `is_space`.
pub fn is_space_char(c: char) -> (r: bool)
    ensures
        r == is_space(c),
{
    let u = c as u32;
    (0x09 <= u && u <= 0x0d) || u == 0x20 || u == 0x85 || u == 0xa0 || u == 0x1680
        || (0x2000 <= u && u <= 0x200a) || u == 0x2028 || u == 0x2029 || u == 0x202f
        || u == 0x205f || u == 0x3000
}

/// How many newline characters `s` holds.
pub open spec fn count_nl(s: Seq<char>) -> nat
    decreases s.len(),
{
    if s.len() == 0 {
        0
    } else {
        count_nl(s.drop_last()) + if s.last() == '\n' { 1nat } else { 0nat }
    }
}

/// The start of the line that position `cur` lies on: the nearest position
/// at or before `cur` that is 0 or directly preceded by a newline.
pub open spec fn line_start_of(s: Seq<char>, cur: int) -> int
    decreases cur,
{
    if cur <= 0 {
        0
    } else if s[cur - 1] == '\n' {
        cur
    } else {
        line_start_of(s, cur - 1)
    }
}

/// The line a cursor lies on: the number of newlines before it.
pub open spec fn line_of(s: Seq<char>, cur: int) -> nat {
    count_nl(s.take(cur))
}

/// The column of a cursor: its distance from the start of its line.
pub open spec fn col_of(s: Seq<char>, cur: int) -> int {
    cur - line_start_of(s, cur)
}

/// The number of newline-delimited segments of `s`, counted as Rust's
/// `str::lines` does: an empty text has none, and a trailing newline does
/// not open a further empty segment.
pub open spec fn num_lines(s: Seq<char>) -> nat {
    if s.len() == 0 {
        0
    } else {
        count_nl(s) + if s.last() == '\n' { 0nat } else { 1nat }
    }
}

/// The position of the first newline at or after `from`, or `s.len()` if
/// there is none.
pub open spec fn next_nl(s: Seq<char>, from: int) -> int
    decreases s.len() - from,
{
    if from < 0 || from >= s.len() {
        s.len() as int
    } else if s[from] == '\n' {
        from
    } else {
        next_nl(s, from + 1)
    }
}

/// The position where line `i` starts.
pub open spec fn nth_start(s: Seq<char>, i: int) -> int
    decreases i,
{
    if i <= 0 {
        0
    } else {
        next_nl(s, nth_start(s, i - 1)) + 1
    }
}

/// The length of line `i`.
pub open spec fn line_len(s: Seq<char>, i: int) -> int {
    next_nl(s, nth_start(s, i)) - nth_start(s, i)
}

/// The cursor a (line, column) pair denotes: the start of that line plus
/// the column, with an out-of-range line clamped to the last line, the
/// column clamped to the line's length, and an empty text yielding 0.
pub open spec fn cursor_of(s: Seq<char>, line: int, col: int) -> int {
    if num_lines(s) == 0 {
        0
    } else {
        let l: int = if line < num_lines(s) {
            line
        } else {
            num_lines(s) - 1
        };
        let start = nth_start(s, l);
        let llen = line_len(s, l);
        start + if col <= llen {
            col
        } else {
            llen
        }
    }
}

pub proof fn lemma_count_nl_le_len(s: Seq<char>)
    ensures
        count_nl(s) <= s.len(),
    decreases s.len(),
{
    if s.len() > 0 {
        lemma_count_nl_le_len(s.drop_last());
    }
}

/// Counting newlines in a prefix grows by one exactly at a newline.
pub proof fn lemma_count_nl_take_step(s: Seq<char>, j: int)
    requires
        0 <= j < s.len(),
    ensures
        count_nl(s.take(j + 1)) == count_nl(s.take(j)) + if s[j] == '\n' { 1nat } else { 0nat },
{
    assert(s.take(j + 1).drop_last() =~= s.take(j));
    assert(s.take(j + 1).last() == s[j]);
}

pub proof fn lemma_count_nl_take_mono(s: Seq<char>, a: int, b: int)
    requires
        0 <= a <= b <= s.len(),
    ensures
        count_nl(s.take(a)) <= count_nl(s.take(b)),
    decreases b - a,
{
    if a < b {
        lemma_count_nl_take_mono(s, a, b - 1);
        lemma_count_nl_take_step(s, b - 1);
    }
}

/// If no newline lies in `[a, b)`, both prefixes hold the same count.
pub proof fn lemma_count_nl_range_const(s: Seq<char>, a: int, b: int)
    requires
        0 <= a <= b <= s.len(),
        forall|j: int| a <= j < b ==> s[j] != '\n',
    ensures
        count_nl(s.take(b)) == count_nl(s.take(a)),
    decreases b - a,
{
    if a < b {
        lemma_count_nl_range_const(s, a, b - 1);
        lemma_count_nl_take_step(s, b - 1);
    }
}

pub proof fn lemma_line_start_bounds(s: Seq<char>, cur: int)
    requires
        0 <= cur <= s.len(),
    ensures
        0 <= line_start_of(s, cur) <= cur,
        line_start_of(s, cur) > 0 ==> s[line_start_of(s, cur) - 1] == '\n',
        forall|j: int| line_start_of(s, cur) <= j < cur ==> s[j] != '\n',
    decreases cur,
{
    if cur > 0 && s[cur - 1] != '\n' {
        lemma_line_start_bounds(s, cur - 1);
    }
}

pub proof fn lemma_next_nl_bounds(s: Seq<char>, from: int)
    requires
        0 <= from <= s.len(),
    ensures
        from <= next_nl(s, from) <= s.len(),
        next_nl(s, from) < s.len() ==> s[next_nl(s, from)] == '\n',
        forall|j: int| from <= j < next_nl(s, from) ==> s[j] != '\n',
    decreases s.len() - from,
{
    if from < s.len() && s[from] != '\n' {
        lemma_next_nl_bounds(s, from + 1);
    }
}

pub proof fn lemma_next_nl_min(s: Seq<char>, from: int, j: int)
    requires
        0 <= from <= j < s.len(),
        s[j] == '\n',
    ensures
        next_nl(s, from) <= j,
    decreases j - from,
{
    if from < j && s[from] != '\n' {
        lemma_next_nl_min(s, from + 1, j);
    }
}

/// The line-number and line-start views agree: the start of the line a
/// cursor lies on is the `k`-th line start, for `k` the cursor's line, and
/// the cursor sits no further than that line's end.
pub proof fn lemma_views_agree(s: Seq<char>, cur: int)
    requires
        0 <= cur <= s.len(),
    ensures
        nth_start(s, line_of(s, cur) as int) == line_start_of(s, cur),
        next_nl(s, line_start_of(s, cur)) >= cur,
    decreases cur,
{
    lemma_line_start_bounds(s, cur);
    if cur == 0 {
        assert(s.take(0) =~= Seq::<char>::empty());
        lemma_next_nl_bounds(s, 0);
    } else {
        lemma_views_agree(s, cur - 1);
        lemma_line_start_bounds(s, cur - 1);
        lemma_count_nl_take_step(s, cur - 1);
        let st0 = line_start_of(s, cur - 1);
        lemma_next_nl_bounds(s, st0);
        if s[cur - 1] == '\n' {
            lemma_next_nl_min(s, st0, cur - 1);
            assert(next_nl(s, st0) == cur - 1);
            assert(line_of(s, cur) == line_of(s, cur - 1) + 1);
            assert(nth_start(s, line_of(s, cur) as int) == next_nl(s, nth_start(s, line_of(s, cur - 1) as int)) + 1);
            lemma_next_nl_bounds(s, cur);
        } else {
            assert(line_start_of(s, cur) == st0);
            assert(line_of(s, cur) == line_of(s, cur - 1));
            assert(next_nl(s, st0) != cur - 1);
        }
    }
}

/// A cursor's line number is below the line count, except for a cursor at
/// the very end of a text that ends in a newline.
pub proof fn lemma_line_of_in_range(s: Seq<char>, cur: int)
    requires
        0 <= cur <= s.len(),
        s.len() > 0,
        cur == s.len() ==> s.last() != '\n',
    ensures
        line_of(s, cur) < num_lines(s),
{
    let len = s.len() as int;
    assert(s.take(len) =~= s);
    if cur == len {
        assert(count_nl(s.take(cur)) == count_nl(s));
    } else {
        lemma_count_nl_take_mono(s, cur, len - 1);
        assert(s.take(len).drop_last() =~= s.take(len - 1));
        assert(count_nl(s) == count_nl(s.take(len - 1)) + if s.last() == '\n' {
            1nat
        } else {
            0nat
        });
        if s.last() == '\n' {
            assert(line_of(s, cur) <= count_nl(s.take(len - 1)));
        } else {
            lemma_count_nl_take_mono(s, cur, len);
        }
    }
}

/// Each line start below the line count is a real position: it lies in the
/// text, follows a newline (or is 0), and exactly `i` newlines precede it.
pub proof fn lemma_nth_start_props(s: Seq<char>, i: int)
    requires
        0 <= i < num_lines(s),
    ensures
        0 <= nth_start(s, i) <= s.len(),
        count_nl(s.take(nth_start(s, i))) == i,
        nth_start(s, i) == 0 || s[nth_start(s, i) - 1] == '\n',
        i > 0 ==> next_nl(s, nth_start(s, i - 1)) < s.len(),
    decreases i,
{
    if i == 0 {
        assert(s.take(0) =~= Seq::<char>::empty());
    } else {
        lemma_nth_start_props(s, i - 1);
        let p = nth_start(s, i - 1);
        let q = next_nl(s, p);
        lemma_next_nl_bounds(s, p);
        let len = s.len() as int;
        assert(s.take(len) =~= s);
        if q == len {
            lemma_count_nl_range_const(s, p, len);
            assert(count_nl(s) == i - 1);
            assert(num_lines(s) <= i);
        } else {
            lemma_count_nl_range_const(s, p, q);
            lemma_count_nl_take_step(s, q);
        }
    }
}

/// Round trip: deriving (line, column) from a cursor and mapping the pair
/// back yields the original cursor.  The one excluded position is the end
/// of a text whose last character is a newline: that position lies past
/// the final newline-delimited segment, so the backward map clamps it.
pub proof fn lemma_round_trip(s: Seq<char>, cur: int)
    requires
        0 <= cur <= s.len(),
        !(s.len() > 0 && s.last() == '\n' && cur == s.len()),
    ensures
        cursor_of(s, line_of(s, cur) as int, col_of(s, cur)) == cur,
{
    if s.len() == 0 {
    } else {
        lemma_line_of_in_range(s, cur);
        lemma_views_agree(s, cur);
        lemma_line_start_bounds(s, cur);
        let k: int = line_of(s, cur) as int;
        let st = line_start_of(s, cur);
        assert(nth_start(s, k) == st);
        assert(line_len(s, k) == next_nl(s, st) - st);
        assert(col_of(s, cur) <= line_len(s, k));
    }
}

/// Derives the (line, column) projection of a cursor by one scan of the
/// prefix before it.
pub fn line_col_from_cursor(text: &Vec<char>, cur: usize) -> (r: (usize, usize))
    requires
        cur <= text@.len(),
    ensures
        r.0 == line_of(text@, cur as int),
        r.1 == col_of(text@, cur as int),
{
    let mut line: usize = 0;
    let mut start: usize = 0;
    let mut j: usize = 0;
    proof {
        assert(text@.take(0) =~= Seq::<char>::empty());
    }
    while j < cur
        invariant
            j <= cur <= text@.len(),
            line == line_of(text@, j as int),
            line <= j,
            start == line_start_of(text@, j as int),
            start <= j,
        decreases cur - j,
    {
        proof {
            lemma_count_nl_take_step(text@, j as int);
        }
        if text[j] == '\n' {
            line = line + 1;
            start = j + 1;
        }
        j = j + 1;
    }
    (line, cur - start)
}

/// Counts the newline-delimited segments of the text.
pub fn count_lines(text: &Vec<char>) -> (n: usize)
    ensures
        n == num_lines(text@),
{
    let len = text.len();
    if len == 0 {
        return 0;
    }
    let mut cnt: usize = 0;
    let mut j: usize = 0;
    proof {
        assert(text@.take(0) =~= Seq::<char>::empty());
    }
    while j < len
        invariant
            j <= len == text@.len(),
            cnt == count_nl(text@.take(j as int)),
            cnt <= j,
        decreases len - j,
    {
        proof {
            lemma_count_nl_take_step(text@, j as int);
        }
        if text[j] == '\n' {
            cnt = cnt + 1;
        }
        j = j + 1;
    }
    proof {
        assert(text@.take(len as int) =~= text@);
    }
    if text[len - 1] == '\n' {
        cnt
    } else {
        proof {
            assert(text@.drop_last() =~= text@.take(len as int - 1));
            lemma_count_nl_le_len(text@.take(len as int - 1));
        }
        cnt + 1
    }
}

/// Finds the first newline at or after `from`, or the text's length.
pub fn find_next_nl(text: &Vec<char>, from: usize) -> (r: usize)
    requires
        from <= text@.len(),
    ensures
        r == next_nl(text@, from as int),
        from <= r <= text@.len(),
{
    let mut j = from;
    while j < text.len()
        invariant
            from <= j <= text@.len(),
            next_nl(text@, from as int) == next_nl(text@, j as int),
        decreases text@.len() - j,
    {
        if text[j] == '\n' {
            return j;
        }
        j = j + 1;
    }
    j
}

/// Finds the position where line `line` starts.
pub fn find_line_start(text: &Vec<char>, line: usize) -> (r: usize)
    requires
        (line as int) < num_lines(text@),
    ensures
        r == nth_start(text@, line as int),
        r <= text@.len(),
{
    let len = text.len();
    let mut i: usize = 0;
    let mut start: usize = 0;
    while i < line
        invariant
            i <= line,
            (line as int) < num_lines(text@),
            len == text@.len(),
            start == nth_start(text@, i as int),
            start <= text@.len(),
        decreases line - i,
    {
        proof {
            lemma_nth_start_props(text@, i as int + 1);
        }
        let q = find_next_nl(text, start);
        start = q + 1;
        i = i + 1;
    }
    start
}

/// Maps a (line, column) pair to a cursor, clamping an out-of-range line
/// to the last line and the column to the line's length; an empty text
/// yields cursor 0.
pub fn cursor_from_line_col(text: &Vec<char>, line: usize, col: usize) -> (r: usize)
    ensures
        r == cursor_of(text@, line as int, col as int),
        r <= text@.len(),
{
    let n = count_lines(text);
    if n == 0 {
        return 0;
    }
    let l = if line < n {
        line
    } else {
        n - 1
    };
    let start = find_line_start(text, l);
    let e = find_next_nl(text, start);
    let llen = e - start;
    if col <= llen {
        start + col
    } else {
        start + llen
    }
}

/// The first position at or after `i` that is whitespace, or the end.
pub open spec fn skip_non_space(s: Seq<char>, i: int) -> int
    decreases s.len() - i,
{
    if i < 0 || i >= s.len() {
        s.len() as int
    } else if is_space(s[i]) {
        i
    } else {
        skip_non_space(s, i + 1)
    }
}

/// The first position at or after `i` that is not whitespace, or the end.
pub open spec fn skip_space(s: Seq<char>, i: int) -> int
    decreases s.len() - i,
{
    if i < 0 || i >= s.len() {
        s.len() as int
    } else if !is_space(s[i]) {
        i
    } else {
        skip_space(s, i + 1)
    }
}

/// Where a word-forward motion from `cur` lands: past the current run of
/// non-whitespace, then past the following whitespace — the start of the
/// next word, or the end of the text.
pub open spec fn word_forward(s: Seq<char>, cur: int) -> int {
    skip_space(s, skip_non_space(s, cur))
}

/// Steps back from `i` over whitespace: the nearest position at or before
/// `i` that is not whitespace, or 0.
pub open spec fn back_over_space(s: Seq<char>, i: int) -> int
    decreases i,
{
    if i <= 0 {
        0
    } else if is_space(s[i]) {
        back_over_space(s, i - 1)
    } else {
        i
    }
}

/// Steps back from `i` to the start of the word it lies in: the nearest
/// position at or before `i` whose predecessor is whitespace, or 0.
pub open spec fn back_to_word_start(s: Seq<char>, i: int) -> int
    decreases i,
{
    if i <= 0 {
        0
    } else if !is_space(s[i - 1]) {
        back_to_word_start(s, i - 1)
    } else {
        i
    }
}

/// Where a word-backward motion from `cur` lands: one step back, back
/// over whitespace, then back to the start of the word reached; 0 stays.
pub open spec fn word_backward(s: Seq<char>, cur: int) -> int {
    if cur <= 0 {
        0
    } else {
        back_to_word_start(s, back_over_space(s, cur - 1))
    }
}

/// Executes a word-forward motion by scanning from the cursor.
pub fn word_forward_from(text: &Vec<char>, cur: usize) -> (r: usize)
    requires
        cur <= text@.len(),
    ensures
        r == word_forward(text@, cur as int),
        cur <= r <= text@.len(),
{
    let len = text.len();
    let mut j = cur;
    while j < len && !is_space_char(text[j])
        invariant
            cur <= j <= len == text@.len(),
            skip_non_space(text@, cur as int) == skip_non_space(text@, j as int),
        decreases len - j,
    {
        j = j + 1;
    }
    let mut k = j;
    while k < len && is_space_char(text[k])
        invariant
            j <= k <= len == text@.len(),
            skip_space(text@, j as int) == skip_space(text@, k as int),
        decreases len - k,
    {
        k = k + 1;
    }
    k
}

/// Executes a word-backward motion by scanning back from the cursor.
pub fn word_backward_from(text: &Vec<char>, cur: usize) -> (r: usize)
    requires
        cur <= text@.len(),
    ensures
        r == word_backward(text@, cur as int),
        r <= cur,
{
    if cur == 0 {
        return 0;
    }
    let mut j = cur - 1;
    while j > 0 && is_space_char(text[j])
        invariant
            j <= cur - 1 < text@.len(),
            back_over_space(text@, cur - 1 as int) == back_over_space(text@, j as int),
        decreases j,
    {
        j = j - 1;
    }
    let mut k = j;
    while k > 0 && !is_space_char(text[k - 1])
        invariant
            k <= j < text@.len(),
            back_to_word_start(text@, j as int) == back_to_word_start(text@, k as int),
        decreases k,
    {
        k = k - 1;
    }
    k
}

/// True of a text that holds nothing but whitespace (an empty one too).
pub open spec fn all_space(s: Seq<char>) -> bool {
    forall|j: int| 0 <= j < s.len() ==> is_space(s[j])
}

/// The end of `s` once trailing whitespace before position `i` is
/// dropped: the nearest position at or before `i` whose predecessor is
/// not whitespace, or 0.
pub open spec fn trim_end_idx(s: Seq<char>, i: int) -> int
    decreases i,
{
    if i <= 0 {
        0
    } else if is_space(s[i - 1]) {
        trim_end_idx(s, i - 1)
    } else {
        i
    }
}

/// `s` without leading and trailing whitespace.
pub open spec fn trimmed(s: Seq<char>) -> Seq<char> {
    let a = skip_space(s, 0);
    let b = trim_end_idx(s, s.len() as int);
    if a <= b {
        s.subrange(a, b)
    } else {
        Seq::<char>::empty()
    }
}

/// Where a right motion in the body lands: one position forward when that
/// stays within the current line or wraps to an existing next line; at the
/// end of the last line it stays put.
pub open spec fn right_target(s: Seq<char>, cur: int) -> int {
    if cur < s.len() && (s[cur] != '\n' || line_of(s, cur) + 1 < num_lines(s)) {
        cur + 1
    } else {
        cur
    }
}

} // verus!
