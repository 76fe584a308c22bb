//! Character-level text helpers: substring search and line excerpts.
use vstd::prelude::*;

verus! {

broadcast use vstd::string::group_string_axioms;

/// `p` occurs in `s` as a contiguous run of characters.
pub open spec fn contains(s: Seq<char>, p: Seq<char>) -> bool {
    exists|i: int| 0 <= i <= s.len() - p.len() && #[trigger] s.subrange(i, i + p.len()) == p
}

/// Index of the first line feed in `s`, or `s.len()` when there is none.
pub open spec fn first_break(s: Seq<char>) -> nat
    decreases s.len(),
{
    if s.len() == 0 {
        0
    } else if s[0] == '\n' {
        0
    } else {
        1 + first_break(s.drop_first())
    }
}

/// A line that was ended by a line feed loses one trailing carriage return.
pub open spec fn strip_cr(line: Seq<char>) -> Seq<char> {
    if line.len() > 0 && line.last() == '\r' {
        line.drop_last()
    } else {
        line
    }
}

/// The lines of `s`: split at each line feed (`\r\n` counts as one ending), the
/// last line ending optional, so that a trailing line feed adds no empty line.
pub open spec fn lines(s: Seq<char>) -> Seq<Seq<char>>
    decreases s.len(),
{
    if s.len() == 0 {
        Seq::empty()
    } else {
        let e = first_break(s) as int;
        if e >= s.len() {
            seq![s]
        } else {
            seq![strip_cr(s.subrange(0, e))] + lines(s.subrange(e + 1, s.len() as int))
        }
    }
}

/// The first two lines of `s`, joined by one space.
pub open spec fn excerpt(s: Seq<char>) -> Seq<char> {
    let ls = lines(s);
    if ls.len() == 0 {
        Seq::empty()
    } else if ls.len() == 1 {
        ls[0]
    } else {
        ls[0] + seq![' '] + ls[1]
    }
}

proof fn lemma_first_break(s: Seq<char>, j: int)
    requires
        0 <= j <= s.len(),
        forall|k: int| 0 <= k < j ==> s[k] != '\n',
        j == s.len() || s[j] == '\n',
    ensures
        first_break(s) == j,
    decreases j,
{
    if j > 0 {
        lemma_first_break(s.drop_first(), j - 1);
    }
}

/// The characters of `s`, in order.
pub fn chars_of(s: &str) -> (r: Vec<char>)
    ensures
        r@ == s@,
{
    let mut r: Vec<char> = Vec::new();
    for c in it: s.chars()
        invariant
            r@ == it.seq().take(it.index() as int),
    {
        r.push(c);
    }
    r
}

fn matches_at(s: &Vec<char>, p: &Vec<char>, i: usize) -> (r: bool)
    requires
        i + p.len() <= s.len(),
    ensures
        r == (s@.subrange(i as int, i + p.len()) == p@),
{
    let mut j: usize = 0;
    while j < p.len()
        invariant
            i + p.len() <= s.len(),
            j <= p.len(),
            forall|k: int| 0 <= k < j ==> s@[i + k] == p@[k],
        decreases p.len() - j,
    {
        if s[i + j] != p[j] {
            assert(s@.subrange(i as int, i + p.len())[j as int] != p@[j as int]);
            return false;
        }
        j += 1;
    }
    assert(s@.subrange(i as int, i + p.len()) =~= p@);
    true
}

/// Whether `p` occurs in `s`.
pub fn contains_chars(s: &Vec<char>, p: &Vec<char>) -> (r: bool)
    ensures
        r == contains(s@, p@),
{
    if p.len() > s.len() {
        return false;
    }
    let mut i: usize = 0;
    let last = s.len() - p.len();
    while i < last
        invariant
            p.len() <= s.len(),
            last == s.len() - p.len(),
            i <= last,
            forall|k: int| 0 <= k < i ==> #[trigger] s@.subrange(k, k + p.len()) != p@,
        decreases last - i,
    {
        if matches_at(s, p, i) {
            return true;
        }
        i += 1;
    }
    matches_at(s, p, last)
}

/// Whether the literal `p` occurs in `s`.
pub fn mentions(s: &Vec<char>, p: &str) -> (r: bool)
    ensures
        r == contains(s@, p@),
{
    let pc = chars_of(p);
    contains_chars(s, &pc)
}

/// Index of the first line feed at or after `start`, or `s.len()` when there is none.
fn find_break(s: &Vec<char>, start: usize) -> (r: usize)
    requires
        start <= s.len(),
    ensures
        start <= r <= s.len(),
        r < s.len() ==> s@[r as int] == '\n',
        r - start == first_break(s@.subrange(start as int, s.len() as int)),
{
    let mut i: usize = start;
    while i < s.len() && s[i] != '\n'
        invariant
            start <= i <= s.len(),
            forall|k: int| start <= k < i ==> s@[k] != '\n',
        decreases s.len() - i,
    {
        i += 1;
    }
    proof {
        lemma_first_break(s@.subrange(start as int, s.len() as int), i - start);
    }
    i
}

/// End of the line that runs from `start` to the break at `brk`, without the
/// carriage return that precedes a line feed.
fn line_end(s: &Vec<char>, start: usize, brk: usize) -> (r: usize)
    requires
        start <= brk < s.len(),
        s@[brk as int] == '\n',
    ensures
        start <= r <= brk,
        s@.subrange(start as int, r as int) == strip_cr(s@.subrange(start as int, brk as int)),
{
    if brk > start && s[brk - 1] == '\r' {
        assert(s@.subrange(start as int, brk - 1) =~= s@.subrange(start as int, brk as int).drop_last());
        brk - 1
    } else {
        brk
    }
}

/// The first two lines of `s`, joined by one space.
pub fn first_lines(s: &str) -> (r: String)
    ensures
        r@ == excerpt(s@),
{
    let cs = chars_of(s);
    let n = cs.len();
    if n == 0 {
        return String::new();
    }
    let b1 = find_break(&cs, 0);
    assert(cs@.subrange(0, n as int) =~= cs@);
    if b1 == n {
        return String::from_str(s);
    }
    let e1 = line_end(&cs, 0, b1);
    let mut r = String::from_str(s.substring_char(0, e1));
    let ghost rest = cs@.subrange(b1 + 1, n as int);
    assert(lines(cs@) == seq![strip_cr(cs@.subrange(0, b1 as int))] + lines(rest));
    if b1 + 1 == n {
        assert(lines(rest) =~= Seq::<Seq<char>>::empty());
        assert(lines(cs@) =~= seq![strip_cr(cs@.subrange(0, b1 as int))]);
        return r;
    }
    let b2 = find_break(&cs, b1 + 1);
    assert(rest =~= cs@.subrange(b1 + 1, n as int));
    let line2 = if b2 == n {
        assert(lines(rest) == seq![rest]);
        s.substring_char(b1 + 1, n)
    } else {
        let e2 = line_end(&cs, b1 + 1, b2);
        assert(rest.subrange(0, b2 - (b1 + 1)) =~= cs@.subrange(b1 + 1, b2 as int));
        s.substring_char(b1 + 1, e2)
    };
    assert(lines(rest)[0] == line2@);
    r.append(" ");
    r.append(line2);
    proof {
        reveal_strlit(" ");
    }
    assert(r@ =~= excerpt(s@));
    r
}

} // verus!
