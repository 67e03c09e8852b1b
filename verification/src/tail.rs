use vstd::prelude::*;

verus! {

/// The index of the first occurrence of `sep` in `s`, or the length of
/// `s` when it does not occur.
pub open spec fn spec_find_sep(s: Seq<u8>, sep: u8) -> int
    decreases s.len(),
{
    if s.len() == 0 {
        0
    } else if s.first() == sep {
        0
    } else {
        1 + spec_find_sep(s.drop_first(), sep)
    }
}

/// The lines of `s`: each ends with the separator, except that a
/// non-empty remainder without a trailing separator counts as a final
/// partial line.
pub open spec fn spec_lines(s: Seq<u8>, sep: u8) -> Seq<Seq<u8>>
    decreases s.len(),
{
    if s.len() == 0 {
        Seq::empty()
    } else {
        let e = spec_find_sep(s, sep);
        if 0 <= e && e < s.len() {
            seq![s.take(e + 1)] + spec_lines(s.skip(e + 1), sep)
        } else {
            seq![s]
        }
    }
}

/// The concatenation of a sequence of byte sequences, in order.
pub open spec fn spec_concat(parts: Seq<Seq<u8>>) -> Seq<u8>
    decreases parts.len(),
{
    if parts.len() == 0 {
        Seq::empty()
    } else {
        spec_concat(parts.drop_last()) + parts.last()
    }
}

/// The tail window of `s`: the concatenation of its last
/// `min(n, linecount)` lines.
pub open spec fn spec_tail_lines(s: Seq<u8>, n: int, sep: u8) -> Seq<u8> {
    let ls = spec_lines(s, sep);
    let k = if n <= ls.len() {
        n
    } else {
        ls.len() as int
    };
    spec_concat(ls.skip(ls.len() - k))
}

/// A tail window of zero lines is empty.
pub proof fn lemma_tail_zero(s: Seq<u8>, sep: u8)
    ensures
        spec_tail_lines(s, 0, sep) == Seq::<u8>::empty(),
{
    let ls = spec_lines(s, sep);
    assert(ls.skip(ls.len() as int) =~= Seq::<Seq<u8>>::empty());
    assert(spec_tail_lines(s, 0, sep) =~= Seq::<u8>::empty());
}

proof fn lemma_find_sep_char(s: Seq<u8>, sep: u8)
    ensures
        0 <= spec_find_sep(s, sep) <= s.len(),
        forall|j: int| 0 <= j < spec_find_sep(s, sep) ==> s[j] != sep,
        spec_find_sep(s, sep) < s.len() ==> s[spec_find_sep(s, sep)] == sep,
    decreases s.len(),
{
    if s.len() > 0 && s.first() != sep {
        lemma_find_sep_char(s.drop_first(), sep);
        assert(forall|j: int| 1 <= j < spec_find_sep(s, sep) ==> s[j] == s.drop_first()[j - 1]);
    }
}

proof fn lemma_find_sep_at(s: Seq<u8>, sep: u8, i: int)
    requires
        0 <= i <= s.len(),
        forall|j: int| 0 <= j < i ==> s[j] != sep,
        i < s.len() ==> s[i] == sep,
    ensures
        spec_find_sep(s, sep) == i,
    decreases s.len(),
{
    if s.len() == 0 {
    } else if s.first() == sep {
        assert(i == 0);
    } else {
        assert(forall|j: int| 0 <= j < i - 1 ==> s.drop_first()[j] == s[j + 1] && s[j + 1] != sep);
        lemma_find_sep_at(s.drop_first(), sep, i - 1);
    }
}

proof fn lemma_concat_cons(x: Seq<u8>, rest: Seq<Seq<u8>>)
    ensures
        spec_concat(seq![x] + rest) == x + spec_concat(rest),
    decreases rest.len(),
{
    if rest.len() == 0 {
        assert((seq![x] + rest).drop_last() =~= Seq::<Seq<u8>>::empty());
        assert((seq![x] + rest).last() == x);
        assert(spec_concat(Seq::<Seq<u8>>::empty()) =~= Seq::<u8>::empty());
        assert(spec_concat(seq![x] + rest) == spec_concat((seq![x] + rest).drop_last()) + x);
        assert(spec_concat(seq![x] + rest) =~= x + spec_concat(rest));
    } else {
        assert((seq![x] + rest).drop_last() =~= seq![x] + rest.drop_last());
        assert((seq![x] + rest).last() == rest.last());
        lemma_concat_cons(x, rest.drop_last());
        assert(spec_concat(seq![x] + rest) =~= x + spec_concat(rest));
    }
}

/// The lines of `s` concatenate back to `s`.
pub proof fn lemma_lines_concat(s: Seq<u8>, sep: u8)
    ensures
        spec_concat(spec_lines(s, sep)) == s,
    decreases s.len(),
{
    if s.len() == 0 {
        assert(spec_concat(spec_lines(s, sep)) =~= s);
    } else {
        let e = spec_find_sep(s, sep);
        lemma_find_sep_char(s, sep);
        if e < s.len() {
            lemma_lines_concat(s.skip(e + 1), sep);
            lemma_concat_cons(s.take(e + 1), spec_lines(s.skip(e + 1), sep));
            assert(s.take(e + 1) + s.skip(e + 1) =~= s);
        } else {
            assert((seq![s]).drop_last() =~= Seq::<Seq<u8>>::empty());
            assert(spec_concat(Seq::<Seq<u8>>::empty()) =~= Seq::<u8>::empty());
            assert(spec_concat(seq![s]) == spec_concat((seq![s]).drop_last()) + s);
            assert(Seq::<u8>::empty() + s =~= s);
        }
    }
}

/// Cutting right after a separator splits the lines without merging or
/// breaking any of them.
proof fn lemma_lines_split(s: Seq<u8>, sep: u8, cut: int)
    requires
        0 <= cut <= s.len(),
        cut == 0 || s[cut - 1] == sep,
    ensures
        spec_lines(s, sep) == spec_lines(s.take(cut), sep) + spec_lines(s.skip(cut), sep),
    decreases cut,
{
    if cut == 0 {
        assert(s.take(0) =~= Seq::<u8>::empty());
        assert(s.skip(0) =~= s);
        assert(spec_lines(s.take(0), sep) =~= Seq::<Seq<u8>>::empty());
        assert(spec_lines(s, sep) =~= spec_lines(s.take(cut), sep) + spec_lines(s.skip(cut), sep));
    } else {
        let e = spec_find_sep(s, sep);
        lemma_find_sep_char(s, sep);
        assert(e <= cut - 1);
        let p = s.take(cut);
        assert(forall|j: int| 0 <= j < e ==> p[j] == s[j] && s[j] != sep);
        assert(p[e] == s[e]);
        lemma_find_sep_at(p, sep, e);
        let rest = s.skip(e + 1);
        assert(p.take(e + 1) =~= s.take(e + 1));
        assert(p.skip(e + 1) =~= rest.take(cut - (e + 1)));
        if cut - (e + 1) == 0 {
        } else {
            assert(rest[cut - (e + 1) - 1] == s[cut - 1]);
        }
        lemma_lines_split(rest, sep, cut - (e + 1));
        assert(rest.skip(cut - (e + 1)) =~= s.skip(cut));
        assert(spec_lines(s, sep) =~= spec_lines(s.take(cut), sep) + spec_lines(s.skip(cut), sep));
    }
}

/// Walking the scan one byte to the left grows the line count of the
/// suffix exactly at separators and at the very last byte.
proof fn lemma_count_step(s: Seq<u8>, sep: u8, i: int)
    requires
        0 <= i < s.len(),
    ensures
        spec_lines(s.skip(i), sep).len() == spec_lines(s.skip(i + 1), sep).len() + (if s[i] == sep
            || i + 1 == s.len() {
            1int
        } else {
            0int
        }),
    decreases s.len() - i,
{
    let u = s.skip(i);
    let t = s.skip(i + 1);
    assert(u.len() == s.len() - i);
    assert(u.first() == s[i]);
    assert(u.drop_first() =~= t);
    if s[i] == sep {
        lemma_find_sep_at(u, sep, 0);
        if 0 < u.len() - 1 {
            assert(u.skip(1) =~= t);
        } else {
            assert(i + 1 == s.len());
            assert(t =~= Seq::<u8>::empty());
        }
    } else {
        let e = spec_find_sep(u, sep);
        assert(e == 1 + spec_find_sep(t, sep));
        lemma_find_sep_char(u, sep);
        lemma_find_sep_char(t, sep);
        if e < u.len() {
            assert(u.skip(e + 1) =~= t.skip(e));
            assert(u.take(e + 1).len() > 0);
            assert(t.take(e)[e - 1] == u[e]);
            assert(spec_lines(u, sep) == seq![u.take(e + 1)] + spec_lines(t.skip(e), sep));
            assert(spec_lines(t, sep) == seq![t.take(e)] + spec_lines(t.skip(e), sep));
        } else {
            if t.len() == 0 {
                assert(i + 1 == s.len());
            } else {
                assert(spec_find_sep(t, sep) == t.len());
                assert(spec_lines(u, sep) == seq![u]);
                assert(spec_lines(t, sep) == seq![t]);
            }
        }
    }
}

fn copy_suffix(data: &[u8], cut: usize) -> (r: Vec<u8>)
    requires
        cut <= data@.len(),
    ensures
        r@ == data@.skip(cut as int),
{
    let len = data.len();
    let mut out: Vec<u8> = Vec::new();
    let mut j: usize = cut;
    while j < len
        invariant
            cut <= j <= len,
            len == data@.len(),
            out@ =~= data@.subrange(cut as int, j as int),
        decreases len - j,
    {
        out.push(data[j]);
        proof {
            assert(out@ =~= data@.subrange(cut as int, j + 1));
        }
        j = j + 1;
    }
    proof {
        assert(out@ =~= data@.skip(cut as int));
    }
    out
}

/// Computes the tail window of a log: the last `n` separator-terminated
/// or terminal-partial lines, or the whole content when it holds fewer.
pub fn tail_lines(data: &[u8], n: usize, sep: u8) -> (r: Vec<u8>)
    ensures
        r@ == spec_tail_lines(data@, n as int, sep),
{
    let len = data.len();
    if n == 0 {
        proof {
            lemma_tail_zero(data@, sep);
        }
        return Vec::new();
    }
    let mut need: usize = n;
    let ghost partial: bool = len > 0 && data@[len - 1] != sep;
    if len > 0 && data[len - 1] != sep {
        need = need - 1;
    }
    let mut i: usize = len;
    proof {
        assert(data@.skip(len as int) =~= Seq::<u8>::empty());
    }
    while i > 0
        invariant
            len == data@.len(),
            0 <= i <= len,
            1 <= n,
            need <= n,
            partial == (len > 0 && data@[len - 1] != sep),
            i == len ==> spec_lines(data@.skip(i as int), sep).len() == 0 && need == (if partial {
                n - 1
            } else {
                n as int
            }),
            i < len ==> spec_lines(data@.skip(i as int), sep).len() + need == n,
        decreases i,
    {
        let c = data[i - 1];
        proof {
            lemma_count_step(data@, sep, i - 1);
        }
        if c == sep {
            if i < len && need == 0 {
                proof {
                    lemma_lines_split(data@, sep, i as int);
                    lemma_lines_concat(data@.skip(i as int), sep);
                    let ls = spec_lines(data@, sep);
                    let lsuf = spec_lines(data@.skip(i as int), sep);
                    assert(ls.skip(ls.len() - lsuf.len()) =~= lsuf);
                    assert(lsuf.len() == n);
                    assert(ls.len() >= n);
                }
                return copy_suffix(data, i);
            }
            need = need - 1;
        }
        i = i - 1;
    }
    proof {
        lemma_lines_concat(data@, sep);
        let ls = spec_lines(data@, sep);
        assert(data@.skip(0) =~= data@);
        assert(ls.skip(0) =~= ls);
        if len == 0 {
            assert(ls.len() == 0);
        } else {
            assert(ls.len() + need == n || (ls.len() == 0 && len == 0));
        }
        assert(ls.len() <= n);
    }
    copy_suffix(data, 0)
}

/// The optional tail length of a request; twenty lines when absent.
pub struct LenSpec {
    pub len: Option<usize>,
}

impl LenSpec {
    /// The number of lines the tail window should hold.
    pub fn effective(&self) -> (r: usize)
        ensures
            r == (match self.len {
                Option::Some(v) => v,
                Option::None => 20,
            }),
    {
        match self.len {
            Some(v) => v,
            None => 20,
        }
    }
}

} // verus!
