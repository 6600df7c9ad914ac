//! Character-level text operations that the header and identifier logic is
//! built on: whitespace trimming, prefix matching and splitting on a
//! separator, each stated over `Seq<char>` and implemented on `Vec<char>`.
use vstd::prelude::*;
use vstd::std_specs::iter::IteratorSpec;

verus! {

/// Unicode `White_Space`, the property that `char::is_whitespace` tests.
pub open spec fn is_whitespace(c: char) -> bool {
    let u = c as u32;
    ||| (9 <= u <= 13)
    ||| u == 32
    ||| u == 0x85
    ||| u == 0xA0
    ||| u == 0x1680
    ||| (0x2000 <= u <= 0x200A)
    ||| u == 0x2028
    ||| u == 0x2029
    ||| u == 0x202F
    ||| u == 0x205F
    ||| u == 0x3000
}

/// `s` without its leading whitespace.
pub open spec fn trim_start(s: Seq<char>) -> Seq<char>
    decreases s.len(),
{
    if s.len() > 0 && is_whitespace(s[0]) {
        trim_start(s.drop_first())
    } else {
        s
    }
}

/// `s` without its trailing whitespace.
pub open spec fn trim_end(s: Seq<char>) -> Seq<char>
    decreases s.len(),
{
    if s.len() > 0 && is_whitespace(s.last()) {
        trim_end(s.drop_last())
    } else {
        s
    }
}

/// `s` without leading and trailing whitespace (what `str::trim` returns).
pub open spec fn trim(s: Seq<char>) -> Seq<char> {
    trim_end(trim_start(s))
}

/// `p` is a prefix of `s`.
pub open spec fn starts_with(s: Seq<char>, p: Seq<char>) -> bool {
    p.len() <= s.len() && s.take(p.len() as int) == p
}

/// `s` with every leading repetition of the non-empty pattern `p` removed
/// (what `str::trim_start_matches` returns for a string pattern).
pub open spec fn trim_start_matches(s: Seq<char>, p: Seq<char>) -> Seq<char>
    decreases s.len(),
{
    if p.len() > 0 && starts_with(s, p) {
        trim_start_matches(s.skip(p.len() as int), p)
    } else {
        s
    }
}

/// The pieces of `s` between occurrences of `sep` (what `str::split` yields
/// for a `char` pattern); there is always at least one piece.
pub open spec fn split_char(s: Seq<char>, sep: char) -> Seq<Seq<char>>
    decreases s.len(),
{
    if s.len() == 0 {
        seq![Seq::<char>::empty()]
    } else {
        let prev = split_char(s.drop_last(), sep);
        if s.last() == sep {
            prev.push(Seq::<char>::empty())
        } else {
            prev.update(prev.len() - 1, prev.last().push(s.last()))
        }
    }
}

/// The pieces joined back with the separator between them.
pub open spec fn join_char(pieces: Seq<Seq<char>>, sep: char) -> Seq<char>
    decreases pieces.len(),
{
    if pieces.len() <= 1 {
        if pieces.len() == 0 { Seq::<char>::empty() } else { pieces[0] }
    } else {
        join_char(pieces.drop_last(), sep).push(sep) + pieces.last()
    }
}

pub proof fn lemma_split_nonempty(s: Seq<char>, sep: char)
    ensures
        split_char(s, sep).len() >= 1,
    decreases s.len(),
{
    if s.len() > 0 {
        lemma_split_nonempty(s.drop_last(), sep);
    }
}

/// No piece of a split holds the separator.
pub proof fn lemma_split_pieces_free(s: Seq<char>, sep: char)
    ensures
        forall|i: int, j: int|
            0 <= i < split_char(s, sep).len() && 0 <= j < split_char(s, sep)[i].len()
                ==> split_char(s, sep)[i][j] != sep,
    decreases s.len(),
{
    if s.len() > 0 {
        lemma_split_pieces_free(s.drop_last(), sep);
        lemma_split_nonempty(s.drop_last(), sep);
    }
}

/// A text with no whitespace at either end is its own trim.
pub proof fn lemma_trim_plain(t: Seq<char>)
    requires
        t.len() == 0 || (!is_whitespace(t[0]) && !is_whitespace(t.last())),
    ensures
        trim(t) == t,
{
    assert(trim_start(t) == t);
    assert(trim_end(t) == t);
}

/// A text without the separator is one piece.
pub proof fn lemma_split_free(u: Seq<char>, sep: char)
    requires
        !u.contains(sep),
    ensures
        split_char(u, sep) == seq![u],
    decreases u.len(),
{
    if u.len() > 0 {
        assert(!u.drop_last().contains(sep)) by {
            if u.drop_last().contains(sep) {
                let k = choose|k: int| 0 <= k < u.drop_last().len() && u.drop_last()[k] == sep;
                assert(u[k] == sep);
            }
        }
        lemma_split_free(u.drop_last(), sep);
        assert(u.last() != sep) by {
            assert(u[u.len() - 1] == u.last());
        }
        assert(u.drop_last().push(u.last()) =~= u);
        let prev = split_char(u.drop_last(), sep);
        assert(prev.len() == 1 && prev.last() == u.drop_last());
        assert(seq![u.drop_last()].update(0, u.drop_last().push(u.last())) =~= seq![u]);
    } else {
        assert(u =~= Seq::<char>::empty());
    }
}

/// Two texts without the separator, joined by one separator, split into
/// exactly those two texts: the first piece is what comes before the
/// separator, the second what comes after it.
pub proof fn lemma_split_two(u: Seq<char>, p: Seq<char>, sep: char)
    requires
        !u.contains(sep),
        !p.contains(sep),
    ensures
        split_char(u + seq![sep] + p, sep) == seq![u, p],
    decreases p.len(),
{
    let s = u + seq![sep] + p;
    if p.len() == 0 {
        lemma_split_free(u, sep);
        assert(s.drop_last() =~= u);
        assert(s.last() == sep);
        assert(p =~= Seq::<char>::empty());
        assert(seq![u].push(Seq::<char>::empty()) =~= seq![u, p]);
    } else {
        let q = p.drop_last();
        assert(!q.contains(sep)) by {
            if q.contains(sep) {
                let k = choose|k: int| 0 <= k < q.len() && q[k] == sep;
                assert(p[k] == sep);
            }
        }
        lemma_split_two(u, q, sep);
        assert(s.drop_last() =~= u + seq![sep] + q);
        assert(s.last() == p.last());
        assert(p.last() != sep) by {
            assert(p[p.len() - 1] == p.last());
        }
        assert(q.push(p.last()) =~= p);
        assert(seq![u, q].update(1, q.push(p.last())) =~= seq![u, p]);
    }
}

/// Splitting and joining with the same separator gives the text back.
pub proof fn lemma_split_join(s: Seq<char>, sep: char)
    ensures
        join_char(split_char(s, sep), sep) == s,
    decreases s.len(),
{
    if s.len() > 0 {
        let t = s.drop_last();
        lemma_split_join(t, sep);
        lemma_split_nonempty(t, sep);
        let prev = split_char(t, sep);
        if s.last() == sep {
            let cur = prev.push(Seq::<char>::empty());
            assert(cur.drop_last() =~= prev);
            assert(join_char(cur, sep) =~= t.push(sep));
            assert(s =~= t.push(sep));
        } else {
            let cur = prev.update(prev.len() - 1, prev.last().push(s.last()));
            if prev.len() == 1 {
                assert(join_char(prev, sep) == prev[0]);
                assert(join_char(cur, sep) == cur[0]);
                assert(s =~= t.push(s.last()));
            } else {
                assert(cur.drop_last() =~= prev.drop_last());
                assert(join_char(prev, sep) == join_char(prev.drop_last(), sep).push(sep)
                    + prev.last());
                assert(join_char(cur, sep) =~= join_char(prev, sep).push(s.last()));
                assert(s =~= t.push(s.last()));
            }
        }
    }
}

proof fn lemma_trim_start_at(s: Seq<char>, i: int)
    requires
        0 <= i <= s.len(),
        forall|j: int| 0 <= j < i ==> is_whitespace(#[trigger] s[j]),
        i == s.len() || !is_whitespace(s[i]),
    ensures
        trim_start(s) == s.skip(i),
    decreases i,
{
    if i == 0 {
        assert(s.skip(0) =~= s);
    } else {
        let t = s.drop_first();
        assert forall|j: int| 0 <= j < i - 1 implies is_whitespace(#[trigger] t[j]) by {
            assert(t[j] == s[j + 1]);
        }
        if i - 1 < t.len() {
            assert(t[i - 1] == s[i]);
        }
        lemma_trim_start_at(t, i - 1);
        assert(t.skip(i - 1) =~= s.skip(i));
    }
}

proof fn lemma_trim_end_at(s: Seq<char>, k: int)
    requires
        0 <= k <= s.len(),
        forall|j: int| k <= j < s.len() ==> is_whitespace(#[trigger] s[j]),
        k == 0 || !is_whitespace(s[k - 1]),
    ensures
        trim_end(s) == s.take(k),
    decreases s.len() - k,
{
    if k == s.len() {
        assert(s.take(k) =~= s);
    } else {
        let t = s.drop_last();
        assert forall|j: int| k <= j < t.len() implies is_whitespace(#[trigger] t[j]) by {
            assert(t[j] == s[j]);
        }
        if k > 0 {
            assert(t[k - 1] == s[k - 1]);
        }
        lemma_trim_end_at(t, k);
        assert(t.take(k) =~= s.take(k));
    }
}

/// The characters of a string slice.
pub(crate) fn str_chars(s: &str) -> (r: Vec<char>)
    ensures
        r@ == s@,
{
    broadcast use vstd::string::axiom_spec_iter, vstd::string::next_postcondition;

    let mut v: Vec<char> = Vec::new();
    let mut it = s.chars();
    loop
        invariant
            it.obeys_prophetic_iter_laws(),
            it.decrease() is Some,
            s@ == v@ + it.remaining(),
        ensures
            v@ == s@,
        decreases it.decrease()->0,
    {
        match it.next() {
            Some(c) => {
                v.push(c);
            },
            None => {
                assert(v@ =~= s@);
                break;
            },
        }
    }
    v
}

/// A string made of the given characters.
#[verifier::external_body]
pub(crate) fn string_from_chars(v: &[char]) -> (r: String)
    ensures
        r@ == v@,
{
    v.iter().collect()
}

/// Whether `c` is whitespace, as `char::is_whitespace` decides it.
pub fn char_is_whitespace(c: char) -> (r: bool)
    ensures
        r == is_whitespace(c),
{
    let u = c as u32;
    (9 <= u && u <= 13) || u == 32 || u == 0x85 || u == 0xA0 || u == 0x1680 || (0x2000 <= u && u
        <= 0x200A) || u == 0x2028 || u == 0x2029 || u == 0x202F || u == 0x205F || u == 0x3000
}

/// The characters of `s` from `from` up to `to`.
pub fn sub_chars(s: &[char], from: usize, to: usize) -> (r: Vec<char>)
    requires
        from <= to <= s@.len(),
    ensures
        r@ == s@.subrange(from as int, to as int),
{
    let mut r: Vec<char> = Vec::new();
    let mut i: usize = from;
    while i < to
        invariant
            from <= i <= to <= s@.len(),
            r@ == s@.subrange(from as int, i as int),
        decreases to - i,
    {
        r.push(s[i]);
        i = i + 1;
        assert(r@ =~= s@.subrange(from as int, i as int));
    }
    r
}

/// Whether `p` occurs in `s` at position `at`.
pub fn has_prefix_at(s: &[char], at: usize, p: &[char]) -> (r: bool)
    requires
        at <= s@.len(),
    ensures
        r == starts_with(s@.skip(at as int), p@),
{
    let n = s.len();
    if p.len() > n - at {
        return false;
    }
    let mut j: usize = 0;
    while j < p.len()
        invariant
            n == s@.len(),
            at <= s@.len(),
            p@.len() <= s@.len() - at,
            j <= p@.len(),
            forall|k: int| 0 <= k < j ==> s@[at + k] == p@[k],
        decreases p@.len() - j,
    {
        assert(at + j < s@.len());
        if s[at + j] != p[j] {
            assert(s@.skip(at as int).take(p@.len() as int)[j as int] != p@[j as int]);
            return false;
        }
        j = j + 1;
    }
    assert(s@.skip(at as int).take(p@.len() as int) =~= p@);
    true
}

/// Whether `s` begins with `p`.
pub fn chars_start_with(s: &[char], p: &[char]) -> (r: bool)
    ensures
        r == starts_with(s@, p@),
{
    assert(s@.skip(0) =~= s@);
    has_prefix_at(s, 0, p)
}

/// `s` without its leading whitespace.
pub fn trim_start_chars(s: &[char]) -> (r: Vec<char>)
    ensures
        r@ == trim_start(s@),
{
    let mut i: usize = 0;
    while i < s.len() && char_is_whitespace(s[i])
        invariant
            i <= s@.len(),
            forall|j: int| 0 <= j < i ==> is_whitespace(#[trigger] s@[j]),
        decreases s@.len() - i,
    {
        i = i + 1;
    }
    proof {
        lemma_trim_start_at(s@, i as int);
    }
    let r = sub_chars(s, i, s.len());
    assert(r@ =~= s@.skip(i as int));
    r
}

/// `s` without its trailing whitespace.
pub fn trim_end_chars(s: &[char]) -> (r: Vec<char>)
    ensures
        r@ == trim_end(s@),
{
    let mut k: usize = s.len();
    while k > 0 && char_is_whitespace(s[k - 1])
        invariant
            k <= s@.len(),
            forall|j: int| k <= j < s@.len() ==> is_whitespace(#[trigger] s@[j]),
        decreases k,
    {
        k = k - 1;
    }
    proof {
        lemma_trim_end_at(s@, k as int);
    }
    let r = sub_chars(s, 0, k);
    assert(r@ =~= s@.take(k as int));
    r
}

/// `s` without leading and trailing whitespace.
pub fn trim_chars(s: &[char]) -> (r: Vec<char>)
    ensures
        r@ == trim(s@),
{
    let t = trim_start_chars(s);
    trim_end_chars(&t)
}

/// `s` with every leading repetition of `p` removed.
pub fn trim_start_matches_chars(s: &[char], p: &[char]) -> (r: Vec<char>)
    ensures
        r@ == trim_start_matches(s@, p@),
{
    let mut i: usize = 0;
    let n = s.len();
    assert(s@.skip(0) =~= s@);
    while p.len() > 0 && has_prefix_at(s, i, p)
        invariant
            n == s@.len(),
            i <= s@.len(),
            trim_start_matches(s@.skip(i as int), p@) == trim_start_matches(s@, p@),
        decreases s@.len() - i,
    {
        assert(s@.skip(i as int).len() == s@.len() - i);
        assert(i + p@.len() <= s@.len());
        assert(s@.skip(i as int).skip(p@.len() as int) =~= s@.skip(i + p@.len()));
        i = i + p.len();
    }
    let r = sub_chars(s, i, s.len());
    assert(r@ =~= s@.skip(i as int));
    r
}

/// `s` without the prefix `p`, when it begins with it.
pub fn strip_prefix_chars(s: &[char], p: &[char]) -> (r: Option<Vec<char>>)
    ensures
        r is Some <==> starts_with(s@, p@),
        r matches Some(t) ==> t@ == s@.skip(p@.len() as int),
{
    if chars_start_with(s, p) {
        let t = sub_chars(s, p.len(), s.len());
        assert(t@ =~= s@.skip(p@.len() as int));
        Some(t)
    } else {
        None
    }
}

/// The pieces of `s` between occurrences of `sep`.
pub fn split_chars(s: &[char], sep: char) -> (r: Vec<Vec<char>>)
    ensures
        r@.len() == split_char(s@, sep).len(),
        forall|i: int| 0 <= i < r@.len() ==> #[trigger] r@[i]@ == split_char(s@, sep)[i],
{
    let mut done: Vec<Vec<char>> = Vec::new();
    let mut cur: Vec<char> = Vec::new();
    let mut i: usize = 0;
    while i < s.len()
        invariant
            i <= s@.len(),
            done@.len() + 1 == split_char(s@.take(i as int), sep).len(),
            forall|k: int|
                0 <= k < done@.len() ==> #[trigger] done@[k]@ == split_char(
                    s@.take(i as int),
                    sep,
                )[k],
            cur@ == split_char(s@.take(i as int), sep).last(),
        decreases s@.len() - i,
    {
        let ghost before = s@.take(i as int);
        let ghost after = s@.take(i + 1);
        proof {
            assert(after.drop_last() =~= before);
            assert(after.last() == s@[i as int]);
            lemma_split_nonempty(before, sep);
        }
        if s[i] == sep {
            let piece = cur;
            done.push(piece);
            cur = Vec::new();
            proof {
                assert forall|k: int| 0 <= k < done@.len() implies #[trigger] done@[k]@
                    == split_char(after, sep)[k] by {}
            }
        } else {
            cur.push(s[i]);
        }
        i = i + 1;
    }
    assert(s@.take(s@.len() as int) =~= s@);
    done.push(cur);
    done
}

/// Whether `a` comes before `b` in the order of texts: by the first
/// character where they differ, and a text before any longer text it starts.
pub open spec fn text_less(a: Seq<char>, b: Seq<char>) -> bool
    decreases a.len(),
{
    if a.len() == 0 {
        b.len() > 0
    } else if b.len() == 0 {
        false
    } else if a[0] < b[0] {
        true
    } else if b[0] < a[0] {
        false
    } else {
        text_less(a.drop_first(), b.drop_first())
    }
}

/// The order of texts is strict and total: no text is before itself, two
/// texts are not each before the other, and of two different texts one is
/// before the other.
pub proof fn lemma_text_less(a: Seq<char>, b: Seq<char>)
    ensures
        !text_less(a, a),
        !(text_less(a, b) && text_less(b, a)),
        a != b ==> text_less(a, b) || text_less(b, a),
    decreases a.len(),
{
    if a.len() > 0 {
        lemma_text_less(a.drop_first(), a.drop_first());
    }
    if a.len() > 0 && b.len() > 0 && a[0] == b[0] {
        lemma_text_less(a.drop_first(), b.drop_first());
        if a.drop_first() == b.drop_first() {
            assert(a =~= seq![a[0]] + a.drop_first());
            assert(b =~= seq![b[0]] + b.drop_first());
        }
    }
    if a.len() == 0 && b.len() == 0 {
        assert(a =~= b);
    }
}

/// Whether `a` comes before `b` in the order of texts.
pub fn chars_less(a: &[char], b: &[char]) -> (r: bool)
    ensures
        r == text_less(a@, b@),
{
    let mut i: usize = 0;
    assert(a@.skip(0) =~= a@ && b@.skip(0) =~= b@);
    while i < a.len() && i < b.len()
        invariant
            i <= a@.len(),
            i <= b@.len(),
            text_less(a@, b@) == text_less(a@.skip(i as int), b@.skip(i as int)),
        decreases a@.len() - i,
    {
        let x = a[i];
        let y = b[i];
        if x < y {
            return true;
        }
        if y < x {
            return false;
        }
        proof {
            assert(a@.skip(i as int).drop_first() =~= a@.skip(i + 1));
            assert(b@.skip(i as int).drop_first() =~= b@.skip(i + 1));
        }
        i = i + 1;
    }
    i < b.len() && i >= a.len()
}

} // verus!
