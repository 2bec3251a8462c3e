//! Conversions between the editor's code-point buffers and `String`, and
//! small verified text helpers over `str`'s code-point view.

use vstd::prelude::*;
use vstd::string::StrSliceExecFns;
use vstd::string::StringExecFns;

use crate::position::{all_space, is_space, is_space_char};

verus! {

/// True when `s` begins with the characters of `p`.
pub open spec fn starts_with(s: Seq<char>, p: Seq<char>) -> bool {
    s.len() >= p.len() && s.subrange(0, p.len() as int) == p
}

/// The lines joined with single newlines between them, as `join` with a
/// `"\n"` separator produces.
pub open spec fn join_nl(ls: Seq<Seq<char>>) -> Seq<char>
    decreases ls.len(),
{
    if ls.len() == 0 {
        Seq::<char>::empty()
    } else if ls.len() == 1 {
        ls[0]
    } else {
        ls[0] + seq!['\n'] + join_nl(ls.drop_first())
    }
}

/// The code-point views of a sequence of strings.
pub open spec fn views_of(ls: Seq<String>) -> Seq<Seq<char>> {
    ls.map_values(|s: String| s@)
}

/// Joining after appending a line appends the line after a newline.
pub proof fn lemma_join_nl_push(ls: Seq<Seq<char>>, x: Seq<char>)
    ensures
        join_nl(ls.push(x)) == if ls.len() == 0 {
            x
        } else {
            join_nl(ls) + seq!['\n'] + x
        },
    decreases ls.len(),
{
    if ls.len() == 0 {
        assert(ls.push(x)[0] =~= x);
        assert(join_nl(ls.push(x)) =~= x);
    } else if ls.len() == 1 {
        assert(ls.push(x).drop_first() =~= seq![x]);
        assert(join_nl(seq![x]) == seq![x][0]);
        assert(seq![x][0] == x);
        assert(ls.push(x)[0] == ls[0]);
        assert(join_nl(ls.push(x)) == ls.push(x)[0] + seq!['\n'] + join_nl(
            ls.push(x).drop_first(),
        ));
        assert(join_nl(ls) == ls[0]);
    } else {
        assert(ls.push(x).drop_first() =~= ls.drop_first().push(x));
        lemma_join_nl_push(ls.drop_first(), x);
        assert(join_nl(ls.push(x)) =~= join_nl(ls) + seq!['\n'] + x);
    }
}

/// Relies on `String::push`: appends exactly the given character.
#[verifier::external_body]
fn push_char(s: &mut String, c: char)
    ensures
        final(s)@ == old(s)@.push(c),
{
    s.push(c);
}

/// Builds the `String` holding exactly the buffer's characters.
pub fn chars_to_string(v: &Vec<char>) -> (r: String)
    ensures
        r@ == v@,
{
    let mut r = String::new();
    let mut i: usize = 0;
    proof {
        assert(v@.take(0) =~= Seq::<char>::empty());
    }
    while i < v.len()
        invariant
            i <= v@.len(),
            r@ == v@.take(i as int),
        decreases v@.len() - i,
    {
        push_char(&mut r, v[i]);
        i = i + 1;
        proof {
            assert(v@.take(i as int) =~= v@.take(i as int - 1).push(v@[i as int - 1]));
        }
    }
    proof {
        assert(v@.take(v@.len() as int) =~= v@);
    }
    r
}

/// True when `s` begins with the characters of `p`.
pub fn str_has_prefix(s: &str, p: &str) -> (r: bool)
    ensures
        r == starts_with(s@, p@),
{
    let n = s.unicode_len();
    let m = p.unicode_len();
    if n < m {
        return false;
    }
    let mut i: usize = 0;
    while i < m
        invariant
            i <= m == p@.len() <= n == s@.len(),
            forall|j: int| 0 <= j < i ==> s@[j] == p@[j],
        decreases m - i,
    {
        if s.get_char(i) != p.get_char(i) {
            proof {
                assert(s@.subrange(0, m as int)[i as int] != p@[i as int]);
            }
            return false;
        }
        i = i + 1;
    }
    proof {
        assert(s@.subrange(0, m as int) =~= p@);
    }
    true
}

/// True when the two hold the same characters.
pub fn str_eq_str(s: &str, p: &str) -> (r: bool)
    ensures
        r == (s@ == p@),
{
    let n = s.unicode_len();
    let m = p.unicode_len();
    if n != m {
        return false;
    }
    let mut i: usize = 0;
    while i < m
        invariant
            i <= m == p@.len() == s@.len(),
            forall|j: int| 0 <= j < i ==> s@[j] == p@[j],
        decreases m - i,
    {
        if s.get_char(i) != p.get_char(i) {
            return false;
        }
        i = i + 1;
    }
    proof {
        assert(s@ =~= p@);
    }
    true
}

/// The characters from position `from` on, as an owned string.
pub fn str_suffix_owned(s: &str, from: usize) -> (r: String)
    requires
        from <= s@.len(),
    ensures
        r@ == s@.subrange(from as int, s@.len() as int),
{
    let n = s.unicode_len();
    let sub = s.substring_char(from, n);
    sub.to_owned()
}

/// True when the line holds nothing but whitespace.
pub fn line_is_blank(s: &str) -> (r: bool)
    ensures
        r == all_space(s@),
{
    let n = s.unicode_len();
    let mut i: usize = 0;
    while i < n
        invariant
            i <= n == s@.len(),
            forall|j: int| 0 <= j < i ==> is_space(s@[j]),
        decreases n - i,
    {
        if !is_space_char(s.get_char(i)) {
            return false;
        }
        i = i + 1;
    }
    true
}

/// Joins the lines with a newline between each pair, as the stored body
/// text of a message is assembled from its lines.
pub fn join_with_newlines(lines: &Vec<String>) -> (r: String)
    ensures
        r@ == join_nl(views_of(lines@)),
{
    let mut r = String::new();
    let mut i: usize = 0;
    proof {
        assert(views_of(lines@.take(0)) =~= Seq::<Seq<char>>::empty());
    }
    while i < lines.len()
        invariant
            i <= lines@.len(),
            r@ == join_nl(views_of(lines@.take(i as int))),
        decreases lines@.len() - i,
    {
        if i > 0 {
            push_char(&mut r, '\n');
        }
        r.append(lines[i].as_str());
        proof {
            let pre = views_of(lines@.take(i as int));
            lemma_join_nl_push(pre, lines@[i as int]@);
            assert(views_of(lines@.take(i + 1)) =~= pre.push(lines@[i as int]@));
            if i == 0 {
                assert(r@ =~= join_nl(views_of(lines@.take(i + 1))));
            } else {
                assert(r@ =~= join_nl(pre) + seq!['\n'] + lines@[i as int]@);
            }
        }
        i = i + 1;
    }
    proof {
        assert(lines@.take(lines@.len() as int) =~= lines@);
    }
    r
}

/// Removes the characters in `[begin, end)` from the buffer.
pub fn remove_range(text: &mut Vec<char>, begin: usize, end: usize)
    requires
        begin <= end <= old(text)@.len(),
    ensures
        final(text)@ == old(text)@.take(begin as int) + old(text)@.skip(end as int),
{
    let mut r: usize = 0;
    let count = end - begin;
    while r < count
        invariant
            r <= count == end - begin,
            begin <= end <= old(text)@.len(),
            text@ == old(text)@.take(begin as int) + old(text)@.skip(begin + r),
        decreases count - r,
    {
        proof {
            assert(text@.len() == old(text)@.len() - r);
            assert(text@.remove(begin as int) =~= old(text)@.take(begin as int) + old(
                text,
            )@.skip(begin + r + 1));
        }
        text.remove(begin);
        r = r + 1;
    }
    proof {
        assert(old(text)@.take(begin as int) + old(text)@.skip(begin + count) =~= old(
            text,
        )@.take(begin as int) + old(text)@.skip(end as int));
    }
}

} // verus!
