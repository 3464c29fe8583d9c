//! Character-level helpers on strings, with their meaning as sequences of
//! characters.
use vstd::prelude::*;

verus! {

/// Relies on `String::push`: appends one character.
pub assume_specification[ String::push ](s: &mut String, ch: char)
    ensures
        final(s)@ == old(s)@.push(ch),
;

/// Whether `p` occurs in `s` at index `i`.
pub open spec fn occurs_at(s: Seq<char>, p: Seq<char>, i: int) -> bool {
    0 <= i && i + p.len() <= s.len() && s.subrange(i, i + p.len()) == p
}

/// Whether `p` occurs anywhere in `s`.
pub open spec fn contains(s: Seq<char>, p: Seq<char>) -> bool {
    exists|i: int| occurs_at(s, p, i)
}

/// Whether `s` begins with `p`.
pub open spec fn starts_with(s: Seq<char>, p: Seq<char>) -> bool {
    occurs_at(s, p, 0)
}

/// Index of the first occurrence of `p` in `s`, or -1 when `p` does not occur.
pub open spec fn first_index(s: Seq<char>, p: Seq<char>) -> int
    decreases s.len(),
{
    if s.len() == 0 {
        if p.len() == 0 { 0 } else { -1 }
    } else if first_index(s.drop_last(), p) >= 0 {
        first_index(s.drop_last(), p)
    } else if occurs_at(s, p, s.len() - p.len()) {
        s.len() - p.len()
    } else {
        -1
    }
}

/// Index of the last occurrence of `p` in `s`, or -1 when `p` does not occur.
pub open spec fn last_index(s: Seq<char>, p: Seq<char>) -> int
    decreases s.len(),
{
    if occurs_at(s, p, s.len() - p.len()) {
        s.len() - p.len()
    } else if s.len() == 0 {
        -1
    } else {
        last_index(s.drop_last(), p)
    }
}

/// `s` cut around the first `p`: what stands before it and what follows it.
pub open spec fn split_once(s: Seq<char>, p: Seq<char>) -> Option<(Seq<char>, Seq<char>)> {
    let i = first_index(s, p);
    if i < 0 {
        None
    } else {
        Some((s.take(i), s.skip(i + p.len())))
    }
}

/// `s` cut around the last `p`: what stands before it and what follows it.
pub open spec fn rsplit_once(s: Seq<char>, p: Seq<char>) -> Option<(Seq<char>, Seq<char>)> {
    let i = last_index(s, p);
    if i < 0 {
        None
    } else {
        Some((s.take(i), s.skip(i + p.len())))
    }
}

/// What stands before the first `p` in `s`, or all of `s`.
pub open spec fn before_first(s: Seq<char>, p: Seq<char>) -> Seq<char> {
    match split_once(s, p) {
        Some(parts) => parts.0,
        None => s,
    }
}

/// What follows the last `p` in `s`, or all of `s`.
pub open spec fn after_last(s: Seq<char>, p: Seq<char>) -> Seq<char> {
    match rsplit_once(s, p) {
        Some(parts) => parts.1,
        None => s,
    }
}

/// The pieces of `s` between the occurrences of `c`, as `str::split` yields
/// them: one more piece than there are occurrences.
pub open spec fn split_char(s: Seq<char>, c: char) -> Seq<Seq<char>>
    decreases s.len(),
{
    if s.len() == 0 {
        seq![Seq::empty()]
    } else if s.last() == c {
        split_char(s.drop_last(), c).push(Seq::empty())
    } else {
        let prev = split_char(s.drop_last(), c);
        prev.update(prev.len() - 1, prev.last().push(s.last()))
    }
}

/// `a` sorts after `b` in the lexicographic order of characters, the order
/// of `str`'s comparison operators.
pub open spec fn lex_greater(a: Seq<char>, b: Seq<char>) -> bool
    decreases a.len(),
{
    if a.len() == 0 {
        false
    } else if b.len() == 0 {
        true
    } else if a[0] != b[0] {
        (a[0] as int) > (b[0] as int)
    } else {
        lex_greater(a.skip(1), b.skip(1))
    }
}

proof fn lemma_split_char_nonempty(s: Seq<char>, c: char)
    ensures
        split_char(s, c).len() >= 1,
    decreases s.len(),
{
    if s.len() > 0 {
        lemma_split_char_nonempty(s.drop_last(), c);
    }
}

/// The characters of `s`, in order.
pub fn chars_of(s: &str) -> (r: Vec<char>)
    ensures
        r@ == s@,
{
    let mut r: Vec<char> = Vec::new();
    for c in it: s.chars()
        invariant
            r@ == it.seq().take(it.index() as int),
    {
        r.push(c);
    }
    r
}

/// The string made of `v[from..to]`.
pub fn string_of(v: &Vec<char>, from: usize, to: usize) -> (r: String)
    requires
        from <= to <= v.len(),
    ensures
        r@ == v@.subrange(from as int, to as int),
{
    let mut r = String::new();
    let mut i: usize = from;
    while i < to
        invariant
            from <= i <= to <= v.len(),
            r@ == v@.subrange(from as int, i as int),
        decreases to - i,
    {
        r.push(v[i]);
        assert(v@.subrange(from as int, i + 1) =~= v@.subrange(from as int, i as int).push(
            v@[i as int],
        ));
        i = i + 1;
    }
    r
}

/// Whether `p` occurs in `v[..end]` at index `i`.
pub fn matches_at(v: &Vec<char>, end: usize, i: usize, p: &Vec<char>) -> (r: bool)
    requires
        end <= v.len(),
    ensures
        r == occurs_at(v@.take(end as int), p@, i as int),
{
    if i > end || p.len() > end - i {
        return false;
    }
    let mut k: usize = 0;
    while k < p.len()
        invariant
            i + p.len() <= end <= v.len(),
            k <= p.len(),
            forall|j: int| 0 <= j < k ==> v@[i + j] == p@[j],
        decreases p.len() - k,
    {
        if v[i + k] != p[k] {
            assert(v@.take(end as int).subrange(i as int, i + p.len())[k as int] != p@[k as int]);
            return false;
        }
        k = k + 1;
    }
    assert(v@.take(end as int).subrange(i as int, i + p.len()) =~= p@);
    true
}

/// Index of the first occurrence of `p` in `v[from..to]`, counted from the
/// start of `v`.
pub fn find_first(v: &Vec<char>, from: usize, to: usize, p: &Vec<char>) -> (r: Option<usize>)
    requires
        from <= to <= v.len(),
    ensures
        first_index(v@.subrange(from as int, to as int), p@) == match r {
            Some(k) => k - from,
            None => -1,
        },
        r matches Some(k) ==> from <= k && k + p.len() <= to,
{
    let ghost s = v@.subrange(from as int, to as int);
    let w = slice_vec(v, from, to);
    let mut found: Option<usize> = if p.len() == 0 { Some(0) } else { None };
    let mut j: usize = 0;
    while j < w.len()
        invariant
            w@ == s,
            j <= w.len(),
            first_index(s.take(j as int), p@) == match found {
                Some(k) => k as int,
                None => -1,
            },
            found matches Some(k) ==> k + p.len() <= j,
        decreases w.len() - j,
    {
        let ghost t = s.take(j + 1);
        assert(t.drop_last() =~= s.take(j as int));
        if found.is_none() && p.len() <= j + 1 && matches_at(&w, j + 1, j + 1 - p.len(), p) {
            found = Some(j + 1 - p.len());
        }
        proof {
            assert(w@.take(j + 1) =~= t);
        }
        j = j + 1;
    }
    assert(s.take(w.len() as int) =~= s);
    match found {
        Some(k) => Some(from + k),
        None => None,
    }
}

/// Index of the last occurrence of `p` in `v[from..to]`, counted from the
/// start of `v`.
pub fn find_last(v: &Vec<char>, from: usize, to: usize, p: &Vec<char>) -> (r: Option<usize>)
    requires
        from <= to <= v.len(),
    ensures
        last_index(v@.subrange(from as int, to as int), p@) == match r {
            Some(k) => k - from,
            None => -1,
        },
        r matches Some(k) ==> from <= k && k + p.len() <= to,
{
    let ghost s = v@.subrange(from as int, to as int);
    let w = slice_vec(v, from, to);
    let mut found: Option<usize> = if p.len() == 0 { Some(0) } else { None };
    assert(occurs_at(s.take(0), p@, 0) <==> p.len() == 0) by {
        if p.len() == 0 {
            assert(s.take(0).subrange(0, 0) =~= p@);
        }
    }
    let mut j: usize = 0;
    while j < w.len()
        invariant
            w@ == s,
            j <= w.len(),
            last_index(s.take(j as int), p@) == match found {
                Some(k) => k as int,
                None => -1,
            },
            found matches Some(k) ==> k + p.len() <= j,
        decreases w.len() - j,
    {
        let ghost t = s.take(j + 1);
        assert(t.drop_last() =~= s.take(j as int));
        assert(w@.take(j + 1) =~= t);
        if p.len() <= j + 1 && matches_at(&w, j + 1, j + 1 - p.len(), p) {
            found = Some(j + 1 - p.len());
        }
        j = j + 1;
    }
    assert(s.take(w.len() as int) =~= s);
    match found {
        Some(k) => Some(from + k),
        None => None,
    }
}

/// The first occurrence is an occurrence, and no occurrence comes before it.
pub proof fn lemma_first_index(s: Seq<char>, p: Seq<char>)
    ensures
        first_index(s, p) >= 0 ==> occurs_at(s, p, first_index(s, p)),
        forall|i: int| occurs_at(s, p, i) ==> 0 <= first_index(s, p) <= i,
        contains(s, p) <==> first_index(s, p) >= 0,
    decreases s.len(),
{
    if s.len() > 0 {
        let d = s.drop_last();
        lemma_first_index(d, p);
        assert forall|i: int| occurs_at(d, p, i) implies occurs_at(s, p, i) by {
            assert(d.subrange(i, i + p.len()) =~= s.subrange(i, i + p.len()));
        }
        assert forall|i: int| occurs_at(s, p, i) && i + p.len() < s.len() implies occurs_at(
            d,
            p,
            i,
        ) by {
            assert(d.subrange(i, i + p.len()) =~= s.subrange(i, i + p.len()));
        }
    } else if p.len() == 0 {
        assert(s.subrange(0, 0) =~= p);
    }
    if first_index(s, p) >= 0 {
        assert(occurs_at(s, p, first_index(s, p)));
    }
}

/// `v[from..to]` cut around the first `p`: the index where that `p` begins.
pub fn cut_first(v: &Vec<char>, from: usize, to: usize, p: &Vec<char>) -> (r: Option<usize>)
    requires
        from <= to <= v.len(),
    ensures
        match split_once(v@.subrange(from as int, to as int), p@) {
            None => r is None,
            Some(parts) => r matches Some(k) && from <= k && k + p.len() <= to && parts.0
                == v@.subrange(from as int, k as int) && parts.1 == v@.subrange(
                k + p.len(),
                to as int,
            ),
        },
{
    let r = find_first(v, from, to, p);
    proof {
        if let Some(k) = r {
            let s = v@.subrange(from as int, to as int);
            assert(s.take(k - from) =~= v@.subrange(from as int, k as int));
            assert(s.skip(k - from + p.len()) =~= v@.subrange(k + p.len(), to as int));
        }
    }
    r
}

/// `v[from..to]` cut around the last `p`: the index where that `p` begins.
pub fn cut_last(v: &Vec<char>, from: usize, to: usize, p: &Vec<char>) -> (r: Option<usize>)
    requires
        from <= to <= v.len(),
    ensures
        match rsplit_once(v@.subrange(from as int, to as int), p@) {
            None => r is None,
            Some(parts) => r matches Some(k) && from <= k && k + p.len() <= to && parts.0
                == v@.subrange(from as int, k as int) && parts.1 == v@.subrange(
                k + p.len(),
                to as int,
            ),
        },
{
    let r = find_last(v, from, to, p);
    proof {
        if let Some(k) = r {
            let s = v@.subrange(from as int, to as int);
            assert(s.take(k - from) =~= v@.subrange(from as int, k as int));
            assert(s.skip(k - from + p.len()) =~= v@.subrange(k + p.len(), to as int));
        }
    }
    r
}

/// Whether `v[from..to]` begins with `p`.
pub fn window_starts_with(v: &Vec<char>, from: usize, to: usize, p: &Vec<char>) -> (r: bool)
    requires
        from <= to <= v.len(),
    ensures
        r == starts_with(v@.subrange(from as int, to as int), p@),
{
    let r = matches_at(v, to, from, p);
    proof {
        if from + p.len() <= to {
            assert(v@.subrange(from as int, to as int).subrange(0, p.len() as int) =~= v@.take(
                to as int,
            ).subrange(from as int, from + p.len()));
        }
    }
    r
}

/// Whether `v[from..to]` is `p`.
pub fn window_equals(v: &Vec<char>, from: usize, to: usize, p: &Vec<char>) -> (r: bool)
    requires
        from <= to <= v.len(),
    ensures
        r == (v@.subrange(from as int, to as int) == p@),
{
    if to - from != p.len() {
        return false;
    }
    let r = window_starts_with(v, from, to, p);
    proof {
        let s = v@.subrange(from as int, to as int);
        assert(s.subrange(0, p.len() as int) =~= s);
    }
    r
}

/// The pieces of `v` between the occurrences of `c`, as `str::split` yields
/// them.
pub fn split_on_char(v: &Vec<char>, c: char) -> (r: Vec<String>)
    ensures
        r.deep_view() == split_char(v@, c),
{
    let mut done: Vec<String> = Vec::new();
    let mut cur = String::new();
    assert(done.deep_view().push(cur@) =~= split_char(v@.take(0), c));
    let mut i: usize = 0;
    while i < v.len()
        invariant
            i <= v.len(),
            done.deep_view().push(cur@) == split_char(v@.take(i as int), c),
        decreases v.len() - i,
    {
        let ghost t = v@.take(i + 1);
        let ghost before = done.deep_view();
        let ghost cur_before = cur@;
        assert(t.drop_last() =~= v@.take(i as int));
        if v[i] == c {
            done.push(cur);
            cur = String::new();
            assert(done.deep_view() =~= before.push(cur_before));
            assert(done.deep_view().push(cur@) =~= split_char(t, c));
        } else {
            cur.push(v[i]);
            assert(done.deep_view() == before);
            assert(done.deep_view().push(cur@) =~= split_char(t, c));
        }
        i = i + 1;
    }
    assert(v@.take(v.len() as int) =~= v@);
    let ghost before = done.deep_view();
    let ghost last = cur@;
    done.push(cur);
    assert(done.deep_view() =~= before.push(last));
    done
}

/// Whether `a` sorts after `b`, character by character.
pub fn lex_greater_exec(a: &str, b: &str) -> (r: bool)
    ensures
        r == lex_greater(a@, b@),
{
    let x = chars_of(a);
    let y = chars_of(b);
    let mut i: usize = 0;
    assert(x@.skip(0) =~= x@);
    assert(y@.skip(0) =~= y@);
    while i < x.len() && i < y.len()
        invariant
            x@ == a@,
            y@ == b@,
            i <= x.len(),
            i <= y.len(),
            lex_greater(x@, y@) == lex_greater(x@.skip(i as int), y@.skip(i as int)),
        decreases x.len() - i,
    {
        assert(x@.skip(i as int)[0] == x@[i as int]);
        assert(y@.skip(i as int)[0] == y@[i as int]);
        if x[i] != y[i] {
            return x[i] > y[i];
        }
        assert(x@.skip(i as int).skip(1) =~= x@.skip(i + 1));
        assert(y@.skip(i as int).skip(1) =~= y@.skip(i + 1));
        i = i + 1;
    }
    i < x.len()
}

/// Whether `p` occurs in `v`.
pub fn contains_exec(v: &Vec<char>, p: &Vec<char>) -> (r: bool)
    ensures
        r == contains(v@, p@),
{
    let found = find_first(v, 0, v.len(), p);
    proof {
        assert(v@.subrange(0, v.len() as int) =~= v@);
        lemma_first_index(v@, p@);
    }
    found.is_some()
}

/// The `i`-th line among the pieces of a text split at `\n`: a `\r` right
/// before the `\n` that ends it is dropped.
pub open spec fn line_at(pieces: Seq<Seq<char>>, i: int) -> Seq<char> {
    let p = pieces[i];
    if i < pieces.len() - 1 && p.len() > 0 && p.last() == '\r' {
        p.drop_last()
    } else {
        p
    }
}

/// The lines of `s`, as `str::lines` gives them: split at each `\n`, with a
/// `\r` right before it dropped, and no empty line after a final `\n`.
pub open spec fn lines(s: Seq<char>) -> Seq<Seq<char>> {
    let pieces = split_char(s, '\n');
    let n = if pieces.last().len() == 0 {
        pieces.len() - 1
    } else {
        pieces.len() as int
    };
    Seq::new(n as nat, |i: int| line_at(pieces, i))
}

/// The lines of a text.
pub fn lines_of(text: &str) -> (r: Vec<String>)
    ensures
        r.deep_view() == lines(text@),
{
    let v = chars_of(text);
    let pieces = split_on_char(&v, '\n');
    let ghost ps = pieces.deep_view();
    proof {
        lemma_split_char_nonempty(text@, '\n');
    }
    let last = pieces.len() - 1;
    let n = if pieces[last].as_str().is_empty() {
        assert(pieces[last as int]@ == ps[last as int]);
        last
    } else {
        pieces.len()
    };
    let mut r: Vec<String> = Vec::new();
    let mut i: usize = 0;
    while i < n
        invariant
            ps == pieces.deep_view(),
            ps == split_char(text@, '\n'),
            n <= pieces.len(),
            last + 1 == pieces.len(),
            i <= n,
            r.len() == i,
            forall|j: int| 0 <= j < i ==> (#[trigger] r[j])@ == line_at(ps, j),
        decreases n - i,
    {
        let piece = chars_of(pieces[i].as_str());
        assert(piece@ == ps[i as int]);
        if i < last && piece.len() > 0 && piece[piece.len() - 1] == '\r' {
            let line = string_of(&piece, 0, piece.len() - 1);
            assert(piece@.subrange(0, piece.len() - 1) =~= ps[i as int].drop_last());
            r.push(line);
        } else {
            assert(piece@.subrange(0, piece.len() as int) =~= ps[i as int]);
            r.push(string_of(&piece, 0, piece.len()));
        }
        i = i + 1;
    }
    assert(r.deep_view() =~= lines(text@)) by {
        assert(pieces[last as int]@ == ps[last as int]);
    }
    r
}

/// A copy of `v[from..to]`.
pub fn slice_vec(v: &Vec<char>, from: usize, to: usize) -> (r: Vec<char>)
    requires
        from <= to <= v.len(),
    ensures
        r@ == v@.subrange(from as int, to as int),
{
    let mut r: Vec<char> = Vec::new();
    let mut i: usize = from;
    while i < to
        invariant
            from <= i <= to <= v.len(),
            r@ == v@.subrange(from as int, i as int),
        decreases to - i,
    {
        r.push(v[i]);
        assert(v@.subrange(from as int, i + 1) =~= v@.subrange(from as int, i as int).push(
            v@[i as int],
        ));
        i = i + 1;
    }
    r
}

} // verus!
