use vstd::prelude::*;

verus! {

/// The characters of `s`, one by one.
pub fn chars_of(s: &str) -> (v: Vec<char>)
    ensures
        v@ == s@,
{
    let n = s.unicode_len();
    let mut v: Vec<char> = Vec::new();
    let mut i: usize = 0;
    while i < n
        invariant
            n == s@.len(),
            i <= n,
            v@ == s@.take(i as int),
        decreases n - i,
    {
        let c = s.get_char(i);
        v.push(c);
        i = i + 1;
        assert(v@ =~= s@.take(i as int));
    }
    assert(v@ =~= s@);
    v
}

/// `c` with an ASCII upper-case letter mapped to its lower-case form.
pub open spec fn ascii_lower_char(c: char) -> char {
    if 'A' <= c && c <= 'Z' {
        ((c as u32) + 32) as char
    } else {
        c
    }
}

/// `s` with every ASCII upper-case letter mapped to lower case and every
/// other character kept (what `str::to_ascii_lowercase` gives).
pub open spec fn ascii_lower(s: Seq<char>) -> Seq<char> {
    s.map_values(|c: char| ascii_lower_char(c))
}

fn lower_char(c: char) -> (r: char)
    ensures
        r == ascii_lower_char(c),
{
    if 'A' <= c && c <= 'Z' {
        let u: u32 = (c as u32) + 32;
        assert(97 <= u <= 122);
        let b: u8 = u as u8;
        b as char
    } else {
        c
    }
}

/// Whether `s`, lower-cased in the ASCII range, equals `lower`.
pub fn ascii_lower_equals(s: &str, lower: &str) -> (r: bool)
    ensures
        r == (ascii_lower(s@) == lower@),
{
    let a = chars_of(s);
    let b = chars_of(lower);
    if a.len() != b.len() {
        proof {
            assert(ascii_lower(s@).len() == s@.len());
        }
        return false;
    }
    let mut i: usize = 0;
    while i < a.len()
        invariant
            a@ == s@,
            b@ == lower@,
            a@.len() == b@.len(),
            i <= a@.len(),
            forall|j: int| 0 <= j < i ==> ascii_lower_char(a@[j]) == b@[j],
        decreases a.len() - i,
    {
        if lower_char(a[i]) != b[i] {
            proof {
                assert(ascii_lower(s@)[i as int] != lower@[i as int]);
            }
            return false;
        }
        i = i + 1;
    }
    assert(ascii_lower(s@) =~= lower@);
    true
}

// ---------------------------------------------------------------------------
// Splitting text the way `str::split`, `str::splitn(2, ..)`, `str::lines`
// and `str::split_whitespace` do
// ---------------------------------------------------------------------------

/// The pieces of `s` between occurrences of `c` (what `str::split(c)`
/// yields): one piece more than there are occurrences, possibly empty.
pub open spec fn split_char(s: Seq<char>, c: char) -> Seq<Seq<char>>
    decreases s.len(),
{
    if s.len() == 0 {
        seq![Seq::<char>::empty()]
    } else {
        let prev = split_char(s.drop_last(), c);
        if s.last() == c {
            prev.push(Seq::<char>::empty())
        } else {
            prev.update(prev.len() - 1, prev.last().push(s.last()))
        }
    }
}

/// The text before the first `c`, or all of `s` without one.
pub open spec fn before_char(s: Seq<char>, c: char) -> Seq<char> {
    split_char(s, c)[0]
}

/// The text after the first `c`, if `s` holds one (what
/// `s.splitn(2, c).nth(1)` yields).
pub open spec fn after_char(s: Seq<char>, c: char) -> Option<Seq<char>> {
    if s.contains(c) {
        Some(s.skip(before_char(s, c).len() as int + 1))
    } else {
        None
    }
}

/// The first line of `s`, without its line ending, if `s` is not empty
/// (what `s.lines().next()` yields): a line ends at `\n`, and a `\r`
/// right before that `\n` belongs to the line ending.
pub open spec fn first_line(s: Seq<char>) -> Option<Seq<char>> {
    if s.len() == 0 {
        None
    } else {
        let l = before_char(s, '\n');
        if l.len() < s.len() && l.len() > 0 && l.last() == '\r' {
            Some(l.drop_last())
        } else {
            Some(l)
        }
    }
}

/// Unicode white space (what `char::is_whitespace` accepts).
pub open spec fn is_white_space(c: char) -> bool {
    ||| ('\u{9}' <= c && c <= '\u{d}')
    ||| c == ' '
    ||| c == '\u{85}'
    ||| c == '\u{a0}'
    ||| c == '\u{1680}'
    ||| ('\u{2000}' <= c && c <= '\u{200a}')
    ||| c == '\u{2028}'
    ||| c == '\u{2029}'
    ||| c == '\u{202f}'
    ||| c == '\u{205f}'
    ||| c == '\u{3000}'
}

/// The maximal runs of non-white-space characters of `s`, in order (what
/// `s.split_whitespace()` yields).
pub open spec fn ws_tokens(s: Seq<char>) -> Seq<Seq<char>>
    decreases s.len(),
{
    if s.len() == 0 {
        Seq::empty()
    } else {
        let prev = ws_tokens(s.drop_last());
        let c = s.last();
        if is_white_space(c) {
            prev
        } else if s.len() >= 2 && !is_white_space(s[s.len() - 2]) {
            prev.update(prev.len() - 1, prev.last().push(c))
        } else {
            prev.push(seq![c])
        }
    }
}

/// `split_char` always yields at least one piece, and exactly one when `c`
/// does not occur.
pub proof fn lemma_split_char_len(s: Seq<char>, c: char)
    ensures
        split_char(s, c).len() >= 1,
        split_char(s, c).len() == 1 <==> !s.contains(c),
    decreases s.len(),
{
    if s.len() > 0 {
        lemma_split_char_len(s.drop_last(), c);
        if s.contains(c) && s.last() != c {
            let i = choose|i: int| 0 <= i < s.len() && s[i] == c;
            assert(s.drop_last()[i] == c);
        }
        if s.drop_last().contains(c) {
            let i = choose|i: int| 0 <= i < s.drop_last().len() && s.drop_last()[i] == c;
            assert(s[i] == c);
        }
        if s.last() == c {
            assert(s[s.len() - 1] == c);
        }
    }
}

/// The text before the first `c` is a prefix of `s` free of `c`, followed
/// in `s` by a `c` unless it is all of `s`.
pub proof fn lemma_before_char(s: Seq<char>, c: char)
    ensures
        before_char(s, c).len() <= s.len(),
        before_char(s, c) == s.take(before_char(s, c).len() as int),
        forall|j: int| 0 <= j < before_char(s, c).len() ==> s[j] != c,
        before_char(s, c).len() < s.len() ==> s[before_char(s, c).len() as int] == c,
        s.contains(c) <==> before_char(s, c).len() < s.len(),
    decreases s.len(),
{
    lemma_split_char_len(s, c);
    if s.len() > 0 {
        let d = s.drop_last();
        lemma_before_char(d, c);
        lemma_split_char_len(d, c);
        let prev = split_char(d, c);
        let k = before_char(d, c);
        if s.last() == c {
            assert(before_char(s, c) == k);
            assert(s.take(k.len() as int) =~= d.take(k.len() as int));
            assert forall|j: int| 0 <= j < k.len() implies s[j] != c by {
                assert(d[j] == s[j]);
            }
        } else if prev.len() == 1 {
            assert(k.len() == d.len());
            assert(before_char(s, c) == k.push(s.last()));
            assert(before_char(s, c) =~= s);
            assert(s.take(s.len() as int) =~= s);
            assert forall|j: int| 0 <= j < s.len() implies s[j] != c by {
                if j < d.len() {
                    assert(d[j] == s[j]);
                }
            }
        } else {
            assert(before_char(s, c) == k);
            assert(s.take(k.len() as int) =~= d.take(k.len() as int));
            assert forall|j: int| 0 <= j < k.len() implies s[j] != c by {
                assert(d[j] == s[j]);
            }
        }
        if s.contains(c) {
            let i = choose|i: int| 0 <= i < s.len() && s[i] == c;
            if i < d.len() {
                assert(d[i] == c);
            }
        }
        if before_char(s, c).len() < s.len() {
            assert(s[before_char(s, c).len() as int] == c);
        }
    }
}

/// `n` is where `c` first occurs in `s`, or the length of `s`.
pub open spec fn first_stop(s: Seq<char>, c: char, n: int) -> bool {
    &&& 0 <= n <= s.len()
    &&& forall|j: int| 0 <= j < n ==> s[j] != c
    &&& n < s.len() ==> s[n] == c
}

/// The text before the first `c` is exactly the prefix up to that first stop.
pub proof fn lemma_before_char_at(s: Seq<char>, c: char, n: int)
    requires
        first_stop(s, c, n),
    ensures
        before_char(s, c) == s.take(n),
        s.contains(c) <==> n < s.len(),
        after_char(s, c) == (if n < s.len() { Some(s.skip(n + 1)) } else { None::<Seq<char>> }),
{
    lemma_before_char(s, c);
    let m = before_char(s, c).len() as int;
    if m < n {
        assert(s[m] == c);
    }
    if n < m {
        assert(s[n] == c);
    }
    assert(m == n);
}

/// Index of the first `c` in `v[from..to]`, or `to` if there is none.
pub fn find_char(v: &Vec<char>, from: usize, to: usize, c: char) -> (r: usize)
    requires
        from <= to <= v@.len(),
    ensures
        first_stop(v@.subrange(from as int, to as int), c, r - from),
        from <= r <= to,
{
    let mut i = from;
    while i < to
        invariant
            from <= i <= to <= v@.len(),
            forall|j: int| from <= j < i ==> v@[j] != c,
        decreases to - i,
    {
        if v[i] == c {
            return i;
        }
        i = i + 1;
    }
    i
}

/// The bounds of `split_char(v[from..to], c)`.
pub fn split_bounds(v: &Vec<char>, from: usize, to: usize, c: char) -> (r: Vec<(usize, usize)>)
    requires
        from <= to <= v@.len(),
    ensures
        r@.len() == split_char(v@.subrange(from as int, to as int), c).len(),
        forall|k: int|
            0 <= k < r@.len() ==> {
                &&& from <= (#[trigger] r@[k]).0 <= r@[k].1 <= to
                &&& v@.subrange(r@[k].0 as int, r@[k].1 as int) == split_char(
                    v@.subrange(from as int, to as int),
                    c,
                )[k]
            },
{
    let ghost t = v@.subrange(from as int, to as int);
    let mut r: Vec<(usize, usize)> = Vec::new();
    r.push((from, from));
    let mut i = from;
    assert(t.take(0) =~= Seq::<char>::empty());
    assert(v@.subrange(from as int, from as int) =~= Seq::<char>::empty());
    while i < to
        invariant
            from <= i <= to <= v@.len(),
            t == v@.subrange(from as int, to as int),
            r@.len() == split_char(t.take(i - from), c).len(),
            r@.len() >= 1,
            r@.last().1 == i,
            forall|k: int|
                0 <= k < r@.len() ==> {
                    &&& from <= (#[trigger] r@[k]).0 <= r@[k].1 <= i
                    &&& v@.subrange(r@[k].0 as int, r@[k].1 as int) == split_char(
                        t.take(i - from),
                        c,
                    )[k]
                },
        decreases to - i,
    {
        let ghost before = r@;
        let ghost p = t.take(i - from);
        let ghost q = t.take(i + 1 - from);
        assert(q.drop_last() =~= p);
        assert(q.last() == v@[i as int]);
        proof {
            lemma_split_char_len(p, c);
        }
        if v[i] == c {
            r.push((i + 1, i + 1));
            assert(v@.subrange(i + 1, i + 1) =~= Seq::<char>::empty());
        } else {
            let last = r.len() - 1;
            let start = r[last].0;
            r.set(last, (start, i + 1));
            assert(v@.subrange(start as int, i + 1) =~= v@.subrange(start as int, i as int).push(
                v@[i as int],
            ));
        }
        i = i + 1;
        assert forall|k: int| 0 <= k < r@.len() implies {
            &&& from <= (#[trigger] r@[k]).0 <= r@[k].1 <= i
            &&& v@.subrange(r@[k].0 as int, r@[k].1 as int) == split_char(t.take(i - from), c)[k]
        } by {
            if k < before.len() && k != before.len() - 1 {
                assert(r@[k] == before[k]);
            }
        }
    }
    assert(t.take(to - from) =~= t);
    r
}

/// The bounds of `ws_tokens(v[from..to])`.
pub fn ws_token_bounds(v: &Vec<char>, from: usize, to: usize) -> (r: Vec<(usize, usize)>)
    requires
        from <= to <= v@.len(),
    ensures
        r@.len() == ws_tokens(v@.subrange(from as int, to as int)).len(),
        forall|k: int|
            0 <= k < r@.len() ==> {
                &&& from <= (#[trigger] r@[k]).0 <= r@[k].1 <= to
                &&& v@.subrange(r@[k].0 as int, r@[k].1 as int) == ws_tokens(
                    v@.subrange(from as int, to as int),
                )[k]
            },
{
    let ghost t = v@.subrange(from as int, to as int);
    let mut r: Vec<(usize, usize)> = Vec::new();
    let mut i = from;
    assert(t.take(0) =~= Seq::<char>::empty());
    while i < to
        invariant
            from <= i <= to <= v@.len(),
            t == v@.subrange(from as int, to as int),
            r@.len() == ws_tokens(t.take(i - from)).len(),
            i > from && !is_white_space(v@[i - 1]) ==> r@.len() >= 1 && r@.last().1 == i,
            forall|k: int|
                0 <= k < r@.len() ==> {
                    &&& from <= (#[trigger] r@[k]).0 <= r@[k].1 <= i
                    &&& v@.subrange(r@[k].0 as int, r@[k].1 as int) == ws_tokens(
                        t.take(i - from),
                    )[k]
                },
        decreases to - i,
    {
        let ghost before = r@;
        let ghost p = t.take(i - from);
        let ghost q = t.take(i + 1 - from);
        assert(q.drop_last() =~= p);
        assert(q.last() == v@[i as int]);
        let c = v[i];
        let ws = is_whitespace(c);
        if ws {
        } else if i > from && !is_whitespace(v[i - 1]) {
            assert(q[q.len() - 2] == v@[i - 1]);
            let last = r.len() - 1;
            let start = r[last].0;
            r.set(last, (start, i + 1));
            assert(v@.subrange(start as int, i + 1) =~= v@.subrange(start as int, i as int).push(
                c,
            ));
        } else {
            if i > from {
                assert(q[q.len() - 2] == v@[i - 1]);
            }
            r.push((i, i + 1));
            assert(v@.subrange(i as int, i + 1) =~= seq![c]);
        }
        i = i + 1;
        assert forall|k: int| 0 <= k < r@.len() implies {
            &&& from <= (#[trigger] r@[k]).0 <= r@[k].1 <= i
            &&& v@.subrange(r@[k].0 as int, r@[k].1 as int) == ws_tokens(t.take(i - from))[k]
        } by {
            if k < before.len() && k != before.len() - 1 {
                assert(r@[k] == before[k]);
            }
        }
    }
    assert(t.take(to - from) =~= t);
    r
}

/// Whether `c` is Unicode white space.
pub fn is_whitespace(c: char) -> (r: bool)
    ensures
        r == is_white_space(c),
{
    ('\u{9}' <= c && c <= '\u{d}') || c == ' ' || c == '\u{85}' || c == '\u{a0}' || c
        == '\u{1680}' || ('\u{2000}' <= c && c <= '\u{200a}') || c == '\u{2028}' || c == '\u{2029}'
        || c == '\u{202f}' || c == '\u{205f}' || c == '\u{3000}'
}

/// Whether `v[from..to]` equals `w`.
pub fn range_equals(v: &Vec<char>, from: usize, to: usize, w: &Vec<char>) -> (r: bool)
    requires
        from <= to <= v@.len(),
    ensures
        r == (v@.subrange(from as int, to as int) == w@),
{
    if to - from != w.len() {
        return false;
    }
    let mut i: usize = 0;
    while i < w.len()
        invariant
            from <= to <= v@.len(),
            to - from == w@.len(),
            i <= w@.len(),
            forall|j: int| 0 <= j < i ==> v@[from + j] == w@[j],
        decreases w.len() - i,
    {
        if v[from + i] != w[i] {
            assert(v@.subrange(from as int, to as int)[i as int] != w@[i as int]);
            return false;
        }
        i = i + 1;
    }
    assert(v@.subrange(from as int, to as int) =~= w@);
    true
}

/// Whether two texts are equal, character by character.
pub fn str_equals(a: &str, b: &str) -> (r: bool)
    ensures
        r == (a@ == b@),
{
    let va = chars_of(a);
    let vb = chars_of(b);
    assert(va@.subrange(0, va@.len() as int) =~= va@);
    range_equals(&va, 0, va.len(), &vb)
}

// ---------------------------------------------------------------------------
// Searching for a text
// ---------------------------------------------------------------------------

/// `p` occurs in `s` starting at index `i`.
pub open spec fn occurs_at(s: Seq<char>, p: Seq<char>, i: int) -> bool {
    0 <= i && i + p.len() <= s.len() && s.subrange(i, i + p.len()) == p
}

/// `i` is where `p` first occurs in `s`.
pub open spec fn first_at(s: Seq<char>, p: Seq<char>, i: int) -> bool {
    occurs_at(s, p, i) && forall|j: int| 0 <= j < i ==> !occurs_at(s, p, j)
}

/// Where `p` first occurs in `s`, if anywhere (what `str::find` gives, in characters).
pub open spec fn first_occurrence(s: Seq<char>, p: Seq<char>) -> Option<int> {
    if exists|i: int| occurs_at(s, p, i) {
        Some(choose|i: int| first_at(s, p, i))
    } else {
        None
    }
}

proof fn lemma_first_at_exists(s: Seq<char>, p: Seq<char>, w: int)
    requires
        occurs_at(s, p, w),
    ensures
        exists|i: int| first_at(s, p, i),
    decreases w,
{
    if exists|j: int| 0 <= j < w && occurs_at(s, p, j) {
        let j = choose|j: int| 0 <= j < w && occurs_at(s, p, j);
        lemma_first_at_exists(s, p, j);
    } else {
        assert(first_at(s, p, w));
    }
}

/// `first_occurrence` gives the first place where the text occurs, or
/// nothing when it occurs nowhere.
pub proof fn lemma_first_occurrence(s: Seq<char>, p: Seq<char>)
    ensures
        match first_occurrence(s, p) {
            Some(i) => first_at(s, p, i),
            None => forall|j: int| !occurs_at(s, p, j),
        },
{
    if exists|i: int| occurs_at(s, p, i) {
        let w = choose|i: int| occurs_at(s, p, i);
        lemma_first_at_exists(s, p, w);
    }
}

/// Where `p` first occurs in `v`, if anywhere.
pub fn find_text(v: &Vec<char>, p: &Vec<char>) -> (r: Option<usize>)
    ensures
        match r {
            Some(i) => first_occurrence(v@, p@) == Some(i as int),
            None => first_occurrence(v@, p@) is None,
        },
{
    if p.len() > v.len() {
        assert forall|j: int| !occurs_at(v@, p@, j) by {}
        return None;
    }
    let plen = p.len();
    let vlen = v.len();
    let last = vlen - plen;
    let mut i: usize = 0;
    loop
        invariant
            plen == p@.len(),
            vlen == v@.len(),
            p@.len() <= v@.len(),
            last == v@.len() - p@.len(),
            i <= last,
            forall|j: int| 0 <= j < i ==> !occurs_at(v@, p@, j),
        ensures
            forall|j: int| 0 <= j <= last ==> !occurs_at(v@, p@, j),
        decreases last - i,
    {
        if range_equals(v, i, i + plen, p) {
            proof {
                assert(occurs_at(v@, p@, i as int));
                assert(first_at(v@, p@, i as int));
                let c = choose|c: int| first_at(v@, p@, c);
                assert(first_at(v@, p@, c));
                if c < i {
                    assert(!occurs_at(v@, p@, c));
                }
                if i < c {
                    assert(!occurs_at(v@, p@, i as int));
                }
            }
            return Some(i);
        }
        if i == last {
            break;
        }
        i = i + 1;
    }
    assert forall|j: int| !occurs_at(v@, p@, j) by {
        if 0 <= j <= last {
        }
    }
    None
}

/// Whether `needle` occurs in `hay` (what `str::contains` gives).
pub fn contains_text(hay: &str, needle: &str) -> (r: bool)
    ensures
        r == (exists|i: int| occurs_at(hay@, needle@, i)),
{
    let v = chars_of(hay);
    let p = chars_of(needle);
    let found = find_text(&v, &p);
    proof {
        if found is Some {
            assert(first_occurrence(v@, p@) is Some);
            assert(exists|j: int| occurs_at(hay@, needle@, j));
        }
    }
    found.is_some()
}

} // verus!
