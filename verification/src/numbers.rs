use vstd::prelude::*;

verus! {

/// The decimal digit character for `d` (0 through 9).
pub open spec fn spec_digit_char(d: int) -> char
    recommends
        0 <= d < 10,
{
    if d == 0 {
        '0'
    } else if d == 1 {
        '1'
    } else if d == 2 {
        '2'
    } else if d == 3 {
        '3'
    } else if d == 4 {
        '4'
    } else if d == 5 {
        '5'
    } else if d == 6 {
        '6'
    } else if d == 7 {
        '7'
    } else if d == 8 {
        '8'
    } else {
        '9'
    }
}

/// The decimal representation of a non-negative integer, without sign
/// and without leading zeros (except for the single digit of zero itself).
pub open spec fn spec_dec_digits(n: int) -> Seq<char>
    recommends
        n >= 0,
    decreases n,
{
    if n < 10 {
        seq![spec_digit_char(n)]
    } else {
        spec_dec_digits(n / 10).push(spec_digit_char(n % 10))
    }
}

/// The decimal representation of a signed integer.
pub open spec fn spec_dec_int(n: int) -> Seq<char> {
    if n < 0 {
        seq!['-'] + spec_dec_digits(-n)
    } else {
        spec_dec_digits(n)
    }
}

fn digit_str(d: u64) -> (r: &'static str)
    requires
        d < 10,
    ensures
        r@ == seq![spec_digit_char(d as int)],
{
    proof {
        reveal_strlit("0");
        reveal_strlit("1");
        reveal_strlit("2");
        reveal_strlit("3");
        reveal_strlit("4");
        reveal_strlit("5");
        reveal_strlit("6");
        reveal_strlit("7");
        reveal_strlit("8");
        reveal_strlit("9");
    }
    let r = if d == 0 {
        "0"
    } else if d == 1 {
        "1"
    } else if d == 2 {
        "2"
    } else if d == 3 {
        "3"
    } else if d == 4 {
        "4"
    } else if d == 5 {
        "5"
    } else if d == 6 {
        "6"
    } else if d == 7 {
        "7"
    } else if d == 8 {
        "8"
    } else {
        "9"
    };
    proof {
        assert(r@ =~= seq![spec_digit_char(d as int)]);
    }
    r
}

/// Appends the decimal digits of `n` to `out`.
pub fn push_dec_digits(n: u64, out: &mut String)
    ensures
        final(out)@ == old(out)@ + spec_dec_digits(n as int),
    decreases n,
{
    if n >= 10 {
        push_dec_digits(n / 10, out);
    }
    let d = n % 10;
    out.append(digit_str(d));
    proof {
        assert(final(out)@ =~= old(out)@ + spec_dec_digits(n as int));
    }
}

/// The decimal string of an unsigned integer.
pub fn u64_to_string(n: u64) -> (r: String)
    ensures
        r@ == spec_dec_digits(n as int),
{
    let mut r = String::new();
    push_dec_digits(n, &mut r);
    proof {
        assert(r@ =~= spec_dec_digits(n as int));
    }
    r
}

/// The decimal string of a signed integer, as build ids are rendered in
/// log file names, worktree tags and notification payloads.
pub fn i32_to_string(n: i32) -> (r: String)
    ensures
        r@ == spec_dec_int(n as int),
{
    if n < 0 {
        proof {
            reveal_strlit("-");
        }
        let mut r = String::from_str("-");
        let wide: i64 = n as i64;
        let mag: u64 = (-wide) as u64;
        push_dec_digits(mag, &mut r);
        proof {
            assert(r@ =~= spec_dec_int(n as int));
        }
        r
    } else {
        u64_to_string(n as u64)
    }
}

/// Whether `c` is a decimal digit.
pub open spec fn spec_is_digit(c: char) -> bool {
    '0' as u32 <= c as u32 && c as u32 <= '9' as u32
}

/// The numeric value of a digit character.
pub open spec fn spec_digit_val(c: char) -> int {
    c as u32 - '0' as u32
}

/// Whether `s` consists of one or more decimal digits and nothing else.
pub open spec fn spec_all_digits(s: Seq<char>) -> bool {
    s.len() > 0 && forall|i: int| 0 <= i < s.len() ==> spec_is_digit(#[trigger] s[i])
}

/// The integer value of a digit string.
pub open spec fn spec_digits_val(s: Seq<char>) -> int
    decreases s.len(),
{
    if s.len() == 0 {
        0
    } else {
        spec_digits_val(s.drop_last()) * 10 + spec_digit_val(s.last())
    }
}

/// Parses a decimal build id, as carried by a notification payload.
/// Succeeds exactly on strings of digits whose value fits in an `i32`.
pub fn parse_i32(s: &str) -> (r: Option<i32>)
    ensures
        match r {
            Some(v) => spec_all_digits(s@) && spec_digits_val(s@) == v as int,
            None => !(spec_all_digits(s@) && spec_digits_val(s@) <= i32::MAX as int),
        },
{
    let n = s.unicode_len();
    if n == 0 {
        return None;
    }
    let mut acc: u64 = 0;
    let mut i: usize = 0;
    while i < n
        invariant
            0 < n == s@.len(),
            0 <= i <= n,
            forall|j: int| 0 <= j < i ==> spec_is_digit(#[trigger] s@[j]),
            acc as int == spec_digits_val(s@.take(i as int)),
            acc <= i32::MAX as u64,
        decreases n - i,
    {
        let c = s.get_char(i);
        let cv = c as u32;
        if cv < '0' as u32 || cv > '9' as u32 {
            return None;
        }
        let d: u64 = (cv - '0' as u32) as u64;
        if acc > (i32::MAX as u64 - d) / 10 {
            proof {
                lemma_digits_val_grows_once(s@, i as int);
                assert(spec_digits_val(s@.take(i as int + 1)) == acc as int * 10 + d as int);
                assert(acc as int * 10 + d as int > i32::MAX as int) by (nonlinear_arith)
                    requires
                        acc as int > (i32::MAX as int - d as int) / 10,
                        0 <= d < 10,
                ;
                if spec_all_digits(s@) {
                    lemma_digits_val_ge(s@, i as int + 1);
                    assert(spec_digits_val(s@) > i32::MAX as int);
                }
            }
            return None;
        }
        proof {
            assert(acc as int * 10 + d as int <= i32::MAX as int) by (nonlinear_arith)
                requires
                    acc as int <= (i32::MAX as int - d as int) / 10,
                    0 <= d < 10,
            ;
            assert(s@.take(i as int + 1).drop_last() =~= s@.take(i as int));
        }
        acc = acc * 10 + d;
        i = i + 1;
    }
    proof {
        assert(s@.take(n as int) =~= s@);
    }
    Some(acc as i32)
}

proof fn lemma_digits_val_grows_once(s: Seq<char>, i: int)
    requires
        0 <= i < s.len(),
    ensures
        spec_digits_val(s.take(i + 1)) == spec_digits_val(s.take(i)) * 10 + spec_digit_val(s[i]),
{
    assert(s.take(i + 1).drop_last() =~= s.take(i));
    assert(s.take(i + 1).last() == s[i]);
}

/// Appending digits never shrinks the value.
proof fn lemma_digits_val_ge(s: Seq<char>, i: int)
    requires
        0 <= i <= s.len(),
        forall|j: int| 0 <= j < s.len() ==> spec_is_digit(#[trigger] s[j]),
        spec_digits_val(s.take(i)) >= 0,
    ensures
        spec_digits_val(s) >= spec_digits_val(s.take(i)),
    decreases s.len() - i,
{
    if i < s.len() {
        lemma_digits_val_grows_once(s, i);
        assert(spec_digits_val(s.take(i + 1)) >= spec_digits_val(s.take(i))) by (nonlinear_arith)
            requires
                spec_digits_val(s.take(i + 1)) == spec_digits_val(s.take(i)) * 10 + spec_digit_val(
                    s[i],
                ),
                spec_digits_val(s.take(i)) >= 0,
                spec_digit_val(s[i]) >= 0,
        ;
        lemma_digits_val_ge(s, i + 1);
    } else {
        assert(s.take(i) =~= s);
    }
}

} // verus!
