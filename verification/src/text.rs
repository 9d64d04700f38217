use vstd::prelude::*;

verus! {

/// `pat` occurs in `s` starting at position `i`.
pub open spec fn occurs_at(s: Seq<char>, pat: Seq<char>, i: int) -> bool {
    0 <= i && i + pat.len() <= s.len() && s.subrange(i, i + pat.len()) == pat
}

/// `pat` occurs somewhere in `s` (the empty pattern occurs in every text).
pub open spec fn spec_contains(s: Seq<char>, pat: Seq<char>) -> bool {
    exists|i: int| occurs_at(s, pat, i)
}

/// The first position at or after `from` that holds `sep`, or the length of
/// `s` when there is none.
pub open spec fn next_sep(s: Seq<char>, sep: char, from: int) -> int
    decreases s.len() - from,
{
    if from < 0 || from >= s.len() {
        s.len() as int
    } else if s[from] == sep {
        from
    } else {
        next_sep(s, sep, from + 1)
    }
}

/// The `n`-th piece (counting from 0) of the part of `s` that starts at
/// `start`, cut at every `sep`; `None` when there are fewer pieces.
pub open spec fn segment_from(s: Seq<char>, sep: char, start: int, n: nat) -> Option<Seq<char>>
    decreases n,
{
    let end = next_sep(s, sep, start);
    if n == 0 {
        Some(s.subrange(start, end))
    } else if end >= s.len() {
        None
    } else {
        segment_from(s, sep, end + 1, (n - 1) as nat)
    }
}

/// The `n`-th piece (counting from 0) of `s` cut at every `sep`, as
/// `s.split(sep).nth(n)` gives it.
pub open spec fn nth_segment(s: Seq<char>, sep: char, n: nat) -> Option<Seq<char>> {
    segment_from(s, sep, 0, n)
}

/// `s` with every `from` replaced by `to`.
pub open spec fn replace_char(s: Seq<char>, from: char, to: char) -> Seq<char> {
    Seq::new(s.len(), |i: int| if s[i] == from { to } else { s[i] })
}

/// The pieces put back together with `sep` between consecutive ones.
pub open spec fn joined(pieces: Seq<Seq<char>>, sep: char) -> Seq<char>
    decreases pieces.len(),
{
    if pieces.len() <= 1 {
        if pieces.len() == 0 {
            seq![]
        } else {
            pieces[0]
        }
    } else {
        pieces[0] + seq![sep] + joined(pieces.drop_first(), sep)
    }
}

proof fn lemma_next_sep_skips_piece(s: Seq<char>, sep: char, start: int, len: int, j: int)
    requires
        0 <= start <= j <= start + len <= s.len(),
        forall|i: int| start <= i < start + len ==> s[i] != sep,
        start + len == s.len() || s[start + len] == sep,
    ensures
        next_sep(s, sep, j) == start + len,
    decreases start + len - j,
{
    if j < start + len {
        lemma_next_sep_skips_piece(s, sep, start, len, j + 1);
    }
}

proof fn lemma_segment_from_joined(s: Seq<char>, sep: char, start: int, pieces: Seq<Seq<char>>, n: nat)
    requires
        0 <= start <= s.len(),
        pieces.len() >= 1,
        s.subrange(start, s.len() as int) == joined(pieces, sep),
        forall|k: int| 0 <= k < pieces.len() ==> !(#[trigger] pieces[k]).contains(sep),
    ensures
        segment_from(s, sep, start, n) == (if n < pieces.len() {
            Some(pieces[n as int])
        } else {
            None::<Seq<char>>
        }),
    decreases pieces.len(),
{
    let p0 = pieces[0];
    let rest = s.subrange(start, s.len() as int);
    assert(!p0.contains(sep));
    if pieces.len() == 1 {
        assert(rest == p0);
        assert forall|i: int| start <= i < start + p0.len() implies s[i] != sep by {
            assert(rest[i - start] == s[i]);
            if s[i] == sep {
                assert(p0.contains(sep));
            }
        }
        lemma_next_sep_skips_piece(s, sep, start, p0.len() as int, start);
        assert(s.subrange(start, start + p0.len()) =~= p0);
    } else {
        let tail = pieces.drop_first();
        assert(rest == p0 + seq![sep] + joined(tail, sep));
        let end = start + p0.len();
        assert forall|i: int| start <= i < end implies s[i] != sep by {
            assert(rest[i - start] == s[i]);
            assert(rest[i - start] == p0[i - start]);
            if s[i] == sep {
                assert(p0.contains(sep));
            }
        }
        assert(rest[p0.len() as int] == sep);
        assert(s[end] == sep);
        lemma_next_sep_skips_piece(s, sep, start, p0.len() as int, start);
        assert(s.subrange(start, end) =~= p0);
        if n > 0 {
            let jt = joined(tail, sep);
            assert(rest.len() == p0.len() + 1 + jt.len());
            assert forall|i: int| 0 <= i < jt.len() implies s.subrange(end + 1, s.len() as int)[i]
                == jt[i] by {
                assert(rest[p0.len() + 1 + i] == jt[i]);
                assert(rest[p0.len() + 1 + i] == s[end + 1 + i]);
            }
            assert(s.subrange(end + 1, s.len() as int) =~= jt);
            assert forall|k: int| 0 <= k < tail.len() implies !(#[trigger] tail[k]).contains(sep) by {
                assert(tail[k] == pieces[k + 1]);
            }
            lemma_segment_from_joined(s, sep, end + 1, tail, (n - 1) as nat);
        }
    }
}

/// Cutting a text made of pieces joined by a separator gives the pieces back:
/// the `n`-th piece of `joined(pieces, sep)` is `pieces[n]`, and there is no
/// piece past the last, as long as no piece holds the separator.
pub proof fn lemma_nth_segment_of_joined(pieces: Seq<Seq<char>>, sep: char, n: nat)
    requires
        pieces.len() >= 1,
        forall|k: int| 0 <= k < pieces.len() ==> !(#[trigger] pieces[k]).contains(sep),
    ensures
        nth_segment(joined(pieces, sep), sep, n) == (if n < pieces.len() {
            Some(pieces[n as int])
        } else {
            None::<Seq<char>>
        }),
{
    let s = joined(pieces, sep);
    assert(s.subrange(0, s.len() as int) =~= s);
    lemma_segment_from_joined(s, sep, 0, pieces, n);
}

/// A pattern put between any two texts occurs in the result.
pub proof fn lemma_embedded_is_contained(before: Seq<char>, pat: Seq<char>, after: Seq<char>)
    ensures
        spec_contains(before + pat + after, pat),
{
    let s = before + pat + after;
    assert(s.subrange(before.len() as int, before.len() + pat.len() as int) =~= pat);
    assert(occurs_at(s, pat, before.len() as int));
}

/// A text that contains a pattern is the pattern with a text before and a
/// text after it; `i` is where the pattern starts.
pub proof fn lemma_contained_splits(s: Seq<char>, pat: Seq<char>) -> (i: int)
    requires
        spec_contains(s, pat),
    ensures
        0 <= i && i + pat.len() <= s.len(),
        s =~= s.take(i) + pat + s.skip(i + pat.len()),
{
    let i = choose|i: int| occurs_at(s, pat, i);
    assert(s.subrange(i, i + pat.len()) == pat);
    assert(s =~= s.take(i) + s.subrange(i, i + pat.len()) + s.skip(i + pat.len()));
    i
}

/// Replacing a character keeps the length and every other character, puts
/// the replacement where the character stood, and leaves none of it behind.
pub proof fn lemma_replace_char_facts(s: Seq<char>, from: char, to: char)
    ensures
        replace_char(s, from, to).len() == s.len(),
        forall|i: int|
            0 <= i < s.len() ==> (s[i] == from ==> #[trigger] replace_char(s, from, to)[i] == to) && (
            s[i] != from ==> replace_char(s, from, to)[i] == s[i]),
        from != to ==> !replace_char(s, from, to).contains(from),
{
}

/// The characters of `s`, in order.
pub fn char_vec(s: &str) -> (v: Vec<char>)
    ensures
        v@ == s@,
{
    let mut v: Vec<char> = Vec::new();
    for c in it: s.chars()
        invariant
            v@ == it.seq().take(it.index() as int),
    {
        v.push(c);
    }
    v
}

fn occurs_at_exec(s: &Vec<char>, pat: &Vec<char>, i: usize) -> (b: bool)
    requires
        i + pat@.len() <= s@.len(),
    ensures
        b == occurs_at(s@, pat@, i as int),
{
    let n = s.len();
    let mut j: usize = 0;
    while j < pat.len()
        invariant
            n == s@.len(),
            j <= pat@.len(),
            i + pat@.len() <= s@.len(),
            forall|k: int| 0 <= k < j ==> s@[i + k] == pat@[k],
        decreases pat@.len() - j,
    {
        if s[i + j] != pat[j] {
            assert(s@.subrange(i as int, i + pat@.len())[j as int] != pat@[j as int]);
            return false;
        }
        j = j + 1;
    }
    assert(s@.subrange(i as int, i + pat@.len()) =~= pat@);
    true
}

/// Whether `pat` occurs in `text`.
pub fn contains(text: &str, pat: &str) -> (b: bool)
    ensures
        b == spec_contains(text@, pat@),
{
    let s = char_vec(text);
    let p = char_vec(pat);
    if p.len() > s.len() {
        assert forall|i: int| !occurs_at(s@, p@, i) by {}
        return false;
    }
    let last = s.len() - p.len();
    let mut i: usize = 0;
    while i < last
        invariant
            last == s@.len() - p@.len(),
            s@ == text@,
            p@ == pat@,
            i <= last,
            forall|k: int| 0 <= k < i ==> !occurs_at(s@, p@, k),
        decreases last - i,
    {
        if occurs_at_exec(&s, &p, i) {
            return true;
        }
        i = i + 1;
    }
    if occurs_at_exec(&s, &p, last) {
        return true;
    }
    assert forall|k: int| !occurs_at(s@, p@, k) by {
        if 0 <= k <= last {
        }
    }
    false
}

/// The first position at or after `from` that holds `sep`, or the length.
fn find_from(s: &Vec<char>, sep: char, from: usize) -> (i: usize)
    requires
        from <= s@.len(),
    ensures
        i as int == next_sep(s@, sep, from as int),
        from <= i <= s@.len(),
{
    let mut i = from;
    while i < s.len() && s[i] != sep
        invariant
            from <= i <= s@.len(),
            next_sep(s@, sep, i as int) == next_sep(s@, sep, from as int),
        decreases s@.len() - i,
    {
        i = i + 1;
    }
    i
}

/// The `n`-th piece (counting from 0) of `text` cut at every `sep`; what
/// `text.split(sep).nth(n)` gives.
pub fn nth_segment_of(text: &str, sep: char, n: usize) -> (r: Option<String>)
    ensures
        r matches Some(seg) ==> nth_segment(text@, sep, n as nat) == Some(seg@),
        r is None ==> nth_segment(text@, sep, n as nat) is None,
{
    let s = char_vec(text);
    let mut start: usize = 0;
    let mut k: usize = 0;
    while k < n
        invariant
            s@ == text@,
            k <= n,
            start <= s@.len(),
            nth_segment(s@, sep, n as nat) == segment_from(s@, sep, start as int, (n - k) as nat),
        decreases n - k,
    {
        let end = find_from(&s, sep, start);
        if end >= s.len() {
            return None;
        }
        start = end + 1;
        k = k + 1;
    }
    let end = find_from(&s, sep, start);
    let piece = text.substring_char(start, end);
    Some(piece.to_owned())
}

/// `text` with every `from` replaced by the single character of `to`; what
/// `text.replace(from, to)` gives.
pub fn replace_char_with(text: &str, from: char, to: &str) -> (r: String)
    requires
        to@.len() == 1,
    ensures
        r@ == replace_char(text@, from, to@[0]),
{
    let s = char_vec(text);
    let mut r = String::new();
    let mut i: usize = 0;
    while i < s.len()
        invariant
            s@ == text@,
            to@.len() == 1,
            i <= s@.len(),
            r@ =~= replace_char(text@, from, to@[0]).take(i as int),
        decreases s@.len() - i,
    {
        if s[i] == from {
            r.append(to);
        } else {
            r.append(text.substring_char(i, i + 1));
        }
        i = i + 1;
    }
    r
}

} // verus!
