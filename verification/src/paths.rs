use vstd::prelude::*;

use crate::text::spec_find;
use crate::text::spec_trim;
use crate::text::lemma_find_at;
use crate::text::trim;

verus! {

/// `s` cut at every comma. Every piece is kept here, including empty
/// ones; cleaning happens afterwards.
pub open spec fn spec_split_commas(s: Seq<char>) -> Seq<Seq<char>>
    decreases s.len(),
{
    let e = spec_find(s, ',');
    if 0 <= e && e < s.len() {
        seq![s.take(e)] + spec_split_commas(s.skip(e + 1))
    } else {
        seq![s]
    }
}

/// The pieces trimmed of whitespace, with empty results dropped.
pub open spec fn spec_clean_paths(parts: Seq<Seq<char>>) -> Seq<Seq<char>>
    decreases parts.len(),
{
    if parts.len() == 0 {
        Seq::empty()
    } else {
        let t = spec_trim(parts.first());
        (if t.len() > 0 {
            seq![t]
        } else {
            Seq::empty()
        }) + spec_clean_paths(parts.drop_first())
    }
}

/// The input expression paths of a submission: the comma-separated
/// pieces of the request's path list, trimmed, with empty entries
/// dropped.
pub open spec fn spec_parse_paths(s: Seq<char>) -> Seq<Seq<char>> {
    spec_clean_paths(spec_split_commas(s))
}

fn push_path(out: &mut Vec<String>, s: String)
    ensures
        final(out).deep_view() == old(out).deep_view().push(s@),
{
    let ghost sv = s@;
    out.push(s);
    proof {
        assert(final(out).deep_view() =~= old(out).deep_view().push(sv));
    }
}

/// Splits a submitted path list into its input expression paths.
pub fn parse_paths(paths: &str) -> (r: Vec<String>)
    ensures
        r.deep_view() == spec_parse_paths(paths@),
{
    let n = paths.unicode_len();
    let mut out: Vec<String> = Vec::new();
    let mut start: usize = 0;
    let mut done: bool = false;
    proof {
        assert(paths@.skip(0) =~= paths@);
        assert(out.deep_view() =~= Seq::<Seq<char>>::empty());
    }
    while !done
        invariant
            n == paths@.len(),
            0 <= start <= n,
            !done ==> spec_parse_paths(paths@) == out.deep_view() + spec_parse_paths(
                paths@.skip(start as int),
            ),
            done ==> spec_parse_paths(paths@) == out.deep_view(),
        decreases (if done {
            0int
        } else {
            n - start + 1
        }),
    {
        let mut i: usize = start;
        while i < n && paths.get_char(i) != ','
            invariant
                n == paths@.len(),
                start <= i <= n,
                forall|j: int| start <= j < i ==> paths@[j] != ',',
            decreases n - i,
        {
            i = i + 1;
        }
        let piece = paths.substring_char(start, i);
        proof {
            let t = paths@.skip(start as int);
            assert(forall|j: int|
                0 <= j < i - start ==> t[j] == paths@[j + start] && paths@[j + start] != ',');
            if i < n {
                assert(t[i - start] == paths@[i as int]);
            }
            lemma_find_at(t, ',', i - start as int);
            assert(piece@ =~= t.take(i - start as int));
            if i < n {
                assert(t.skip(i - start + 1) =~= paths@.skip(i + 1));
            } else {
                assert(t =~= piece@);
            }
            assert(spec_split_commas(t).first() == piece@);
        }
        let t = trim(piece);
        if t.unicode_len() > 0 {
            push_path(&mut out, t);
        }
        proof {
            let suffix = paths@.skip(start as int);
            let parts = spec_split_commas(suffix);
            assert(spec_clean_paths(parts) == (if spec_trim(piece@).len() > 0 {
                seq![spec_trim(piece@)]
            } else {
                Seq::<Seq<char>>::empty()
            }) + spec_clean_paths(parts.drop_first()));
            if i < n {
                assert(parts.drop_first() =~= spec_split_commas(paths@.skip(i + 1)));
            } else {
                assert(parts.drop_first() =~= Seq::<Seq<char>>::empty());
            }
            assert(spec_parse_paths(paths@) =~= out.deep_view() + (if i < n {
                spec_parse_paths(paths@.skip(i + 1))
            } else {
                Seq::<Seq<char>>::empty()
            }));
        }
        if i == n {
            done = true;
        } else {
            start = i + 1;
        }
    }
    out
}

} // verus!
