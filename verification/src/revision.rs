use vstd::prelude::*;

use crate::text::spec_first_line;
use crate::text::spec_trim_end;
use crate::text::first_line_trimmed;

verus! {

/// Whether `c` is an ASCII hexadecimal digit, of either case.
pub open spec fn spec_is_hex_digit(c: char) -> bool {
    ('0' as u32 <= c as u32 && c as u32 <= '9' as u32) || ('a' as u32 <= c as u32 && c as u32
        <= 'f' as u32) || ('A' as u32 <= c as u32 && c as u32 <= 'F' as u32)
}

/// A revision is taken as a commit hash exactly when it is 40 hexadecimal
/// digits; anything else is a symbolic ref to be resolved remotely.
pub open spec fn spec_is_commit_hash(s: Seq<char>) -> bool {
    s.len() == 40 && forall|i: int| 0 <= i < s.len() ==> spec_is_hex_digit(#[trigger] s[i])
}

/// Decides whether a revision is a literal commit hash.
pub fn is_commit_hash(h: &str) -> (r: bool)
    ensures
        r == spec_is_commit_hash(h@),
{
    let n = h.unicode_len();
    if n != 40 {
        return false;
    }
    let mut i: usize = 0;
    while i < n
        invariant
            n == h@.len(),
            0 <= i <= n,
            forall|j: int| 0 <= j < i ==> spec_is_hex_digit(#[trigger] h@[j]),
        decreases n - i,
    {
        let c = h.get_char(i) as u32;
        let digit = ('0' as u32 <= c && c <= '9' as u32) || ('a' as u32 <= c && c <= 'f' as u32)
            || ('A' as u32 <= c && c <= 'F' as u32);
        if !digit {
            return false;
        }
        i = i + 1;
    }
    true
}

/// What a successful symbolic resolution stores: the first line of the
/// resolver's standard output, with trailing whitespace stripped.
pub open spec fn spec_resolved_of(out: Seq<char>) -> Seq<char> {
    spec_trim_end(spec_first_line(out))
}

/// Reads the resolved commit hash off the resolver's captured output.
pub fn resolved_rev(out: &str) -> (r: String)
    ensures
        r@ == spec_resolved_of(out@),
{
    first_line_trimmed(out)
}

} // verus!
