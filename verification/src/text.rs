//! String building blocks shared by the rest of the crate: decimal
//! rendering of integers, prefix tests, prefix trimming and joining.

use vstd::prelude::*;
use vstd::string::*;

verus! {

/// The character that denotes the decimal digit `d` (for `d < 10`).
pub open spec fn digit_char(d: nat) -> char {
    if d == 0 {
        '0'
    } else if d == 1 {
        '1'
    } else if d == 2 {
        '2'
    } else if d == 3 {
        '3'
    } else if d == 4 {
        '4'
    } else if d == 5 {
        '5'
    } else if d == 6 {
        '6'
    } else if d == 7 {
        '7'
    } else if d == 8 {
        '8'
    } else {
        '9'
    }
}

/// The decimal representation of `n`, most significant digit first,
/// without leading zeros (zero itself is `"0"`).
pub open spec fn decimal(n: nat) -> Seq<char>
    decreases n,
{
    if n < 10 {
        seq![digit_char(n)]
    } else {
        decimal(n / 10).push(digit_char(n % 10))
    }
}

/// The number a decimal digit character stands for.
pub open spec fn digit_value(c: char) -> nat {
    if c == '1' {
        1
    } else if c == '2' {
        2
    } else if c == '3' {
        3
    } else if c == '4' {
        4
    } else if c == '5' {
        5
    } else if c == '6' {
        6
    } else if c == '7' {
        7
    } else if c == '8' {
        8
    } else if c == '9' {
        9
    } else {
        0
    }
}

/// Whether `c` is one of the characters `0` to `9`.
pub open spec fn is_digit(c: char) -> bool {
    c == '0' || c == '1' || c == '2' || c == '3' || c == '4' || c == '5' || c == '6' || c == '7'
        || c == '8' || c == '9'
}

/// The number that the digit string `s` reads as, most significant first.
pub open spec fn decimal_value(s: Seq<char>) -> nat
    decreases s.len(),
{
    if s.len() == 0 {
        0
    } else {
        decimal_value(s.drop_last()) * 10 + digit_value(s.last())
    }
}

/// The decimal representation of a number is a non-empty string of
/// digits, without a leading zero unless the number is zero, and it reads
/// back as the number.
pub proof fn lemma_decimal_reads_back(n: nat)
    ensures
        decimal(n).len() > 0,
        forall|i: int| 0 <= i < decimal(n).len() ==> is_digit(#[trigger] decimal(n)[i]),
        n > 0 ==> decimal(n)[0] != '0',
        decimal_value(decimal(n)) == n,
    decreases n,
{
    if n >= 10 {
        lemma_decimal_reads_back(n / 10);
        let d = decimal(n);
        assert(d.drop_last() =~= decimal(n / 10));
        assert(d[0] == decimal(n / 10)[0]);
        assert forall|i: int| 0 <= i < d.len() implies is_digit(#[trigger] d[i]) by {
            if i < d.len() - 1 {
                assert(d[i] == decimal(n / 10)[i]);
            }
        }
        assert(digit_value(digit_char(n % 10)) == n % 10);
        assert(d.last() == digit_char(n % 10));
        assert(decimal_value(d) == decimal_value(decimal(n / 10)) * 10 + n % 10);
        assert((n / 10) * 10 + n % 10 == n);
    } else {
        assert(decimal(n).drop_last() =~= Seq::<char>::empty());
        assert(decimal_value(decimal(n).drop_last()) == 0);
        assert(digit_value(digit_char(n)) == n);
    }
}

fn digit_str(d: u64) -> (r: &'static str)
    requires
        d < 10,
    ensures
        r@ == seq![digit_char(d as nat)],
{
    match d {
        0 => {
            proof {
                reveal_strlit("0");
            }
            "0"
        },
        1 => {
            proof {
                reveal_strlit("1");
            }
            "1"
        },
        2 => {
            proof {
                reveal_strlit("2");
            }
            "2"
        },
        3 => {
            proof {
                reveal_strlit("3");
            }
            "3"
        },
        4 => {
            proof {
                reveal_strlit("4");
            }
            "4"
        },
        5 => {
            proof {
                reveal_strlit("5");
            }
            "5"
        },
        6 => {
            proof {
                reveal_strlit("6");
            }
            "6"
        },
        7 => {
            proof {
                reveal_strlit("7");
            }
            "7"
        },
        8 => {
            proof {
                reveal_strlit("8");
            }
            "8"
        },
        _ => {
            proof {
                reveal_strlit("9");
            }
            "9"
        },
    }
}

/// Appends the decimal representation of `n` to `s`.
pub fn push_decimal(s: &mut String, n: u64)
    ensures
        final(s)@ == old(s)@ + decimal(n as nat),
    decreases n,
{
    if n >= 10 {
        push_decimal(s, n / 10);
    }
    s.append(digit_str(n % 10));
    assert(s@ =~= old(s)@ + decimal(n as nat));
}

/// The decimal representation of `n` as a fresh string.
pub fn decimal_string(n: u64) -> (r: String)
    ensures
        r@ == decimal(n as nat),
{
    let mut s = String::new();
    push_decimal(&mut s, n);
    assert(s@ =~= decimal(n as nat));
    s
}


/// Whether `p` occurs in `s` starting at position `i`.
pub open spec fn occurs_at(s: Seq<char>, i: int, p: Seq<char>) -> bool {
    0 <= i && i + p.len() <= s.len() && s.subrange(i, i + p.len()) == p
}

/// Whether `s` begins with `p`.
pub open spec fn has_prefix(s: Seq<char>, p: Seq<char>) -> bool {
    occurs_at(s, 0, p)
}

/// `p` occurs in `s` at position `i` exactly when it fits there and each of
/// its characters equals the character of `s` in the same place; in
/// particular `s` begins with `p` exactly when `p` is no longer than `s` and
/// their first `p.len()` characters agree.
pub proof fn lemma_occurs_at_by_chars(s: Seq<char>, i: int, p: Seq<char>)
    ensures
        occurs_at(s, i, p) <==> (0 <= i && i + p.len() <= s.len() && forall|j: int|
            0 <= j < p.len() ==> #[trigger] s[i + j] == p[j]),
        has_prefix(s, p) <==> (p.len() <= s.len() && forall|j: int|
            0 <= j < p.len() ==> #[trigger] s[j] == p[j]),
{
    if 0 <= i && i + p.len() <= s.len() && forall|j: int|
        0 <= j < p.len() ==> #[trigger] s[i + j] == p[j] {
        assert forall|k: int| 0 <= k < p.len() implies s.subrange(i, i + p.len())[k] == p[k] by {
            assert(s[i + k] == p[k]);
        }
        assert(s.subrange(i, i + p.len()) =~= p);
    }
    if occurs_at(s, i, p) {
        assert forall|j: int| 0 <= j < p.len() implies #[trigger] s[i + j] == p[j] by {
            assert(s.subrange(i, i + p.len())[j] == s[i + j]);
        }
    }
    if p.len() <= s.len() && forall|j: int| 0 <= j < p.len() ==> #[trigger] s[j] == p[j] {
        assert(s.subrange(0, p.len() as int) =~= p);
    }
    if has_prefix(s, p) {
        assert forall|j: int| 0 <= j < p.len() implies #[trigger] s[j] == p[j] by {
            assert(s.subrange(0, p.len() as int)[j] == s[j]);
        }
    }
}

/// `s` with every leading repetition of the non-empty pattern `p` removed;
/// an empty pattern removes nothing.
pub open spec fn trim_leading(s: Seq<char>, p: Seq<char>) -> Seq<char>
    decreases s.len(),
{
    if p.len() > 0 && has_prefix(s, p) {
        trim_leading(s.skip(p.len() as int), p)
    } else {
        s
    }
}

/// The strings of `parts` joined with `sep` between each two of them.
pub open spec fn joined(parts: Seq<Seq<char>>, sep: Seq<char>) -> Seq<char>
    decreases parts.len(),
{
    if parts.len() == 0 {
        Seq::empty()
    } else if parts.len() == 1 {
        parts[0]
    } else {
        joined(parts.drop_last(), sep) + sep + parts.last()
    }
}

/// Once every leading repetition of a non-empty pattern is removed, the
/// result no longer begins with the pattern, and removing again changes
/// nothing.
pub proof fn lemma_trim_leading_stops(s: Seq<char>, p: Seq<char>)
    requires
        p.len() > 0,
    ensures
        !has_prefix(trim_leading(s, p), p),
        trim_leading(trim_leading(s, p), p) == trim_leading(s, p),
    decreases s.len(),
{
    if has_prefix(s, p) {
        lemma_trim_leading_stops(s.skip(p.len() as int), p);
    }
}

/// Whether `p` occurs in `s` starting at character position `i`.
pub fn matches_at(s: &str, len: usize, i: usize, p: &str, plen: usize) -> (r: bool)
    requires
        len == s@.len(),
        plen == p@.len(),
        i <= len,
    ensures
        r == occurs_at(s@, i as int, p@),
{
    if plen > len - i {
        return false;
    }
    let mut k: usize = 0;
    while k < plen
        invariant
            plen == p@.len(),
            len == s@.len(),
            i + plen <= len,
            k <= plen,
            forall|j: int| 0 <= j < k ==> s@[i + j] == p@[j],
        decreases plen - k,
    {
        if s.get_char(i + k) != p.get_char(k) {
            assert(s@.subrange(i as int, i + plen)[k as int] != p@[k as int]);
            return false;
        }
        k = k + 1;
    }
    assert(s@.subrange(i as int, i + plen) =~= p@);
    true
}

/// Whether `s` begins with `p`.
pub fn starts_with(s: &str, p: &str) -> (r: bool)
    ensures
        r == has_prefix(s@, p@),
{
    let len = s.unicode_len();
    let plen = p.unicode_len();
    matches_at(s, len, 0, p, plen)
}

proof fn lemma_trim_step(s: Seq<char>, p: Seq<char>, i: int)
    requires
        p.len() > 0,
        0 <= i,
        occurs_at(s, i, p),
    ensures
        trim_leading(s.skip(i), p) == trim_leading(s.skip(i + p.len()), p),
{
    assert(s.skip(i).subrange(0, p.len() as int) =~= s.subrange(i, i + p.len()));
    assert(s.skip(i).skip(p.len() as int) =~= s.skip(i + p.len()));
}

/// `s` with every leading repetition of `p` removed (see `trim_leading`).
pub fn trim_start_matches(s: &str, p: &str) -> (r: String)
    ensures
        r@ == trim_leading(s@, p@),
{
    let len = s.unicode_len();
    let plen = p.unicode_len();
    let mut i: usize = 0;
    assert(s@.skip(0) =~= s@);
    if plen > 0 {
        while matches_at(s, len, i, p, plen)
            invariant
                len == s@.len(),
                plen == p@.len(),
                plen > 0,
                i <= len,
                trim_leading(s@, p@) == trim_leading(s@.skip(i as int), p@),
            decreases len - i,
        {
            proof {
                lemma_trim_step(s@, p@, i as int);
            }
            i = i + plen;
        }
        // The walk stopped where the pattern does not occur, so the rest is
        // left as it is.
        proof {
            if i + plen <= len {
                assert(s@.skip(i as int).subrange(0, plen as int) =~= s@.subrange(
                    i as int,
                    i + plen,
                ));
            }
        }
    }
    let rest = s.substring_char(i, len);
    assert(rest@ =~= s@.skip(i as int));
    String::from_str(rest)
}

/// The strings of `parts` joined with `sep` (see `joined`).
pub fn join(parts: &Vec<String>, sep: &str) -> (r: String)
    ensures
        r@ == joined(parts@.map_values(|s: String| s@), sep@),
{
    let ghost views = parts@.map_values(|s: String| s@);
    let mut r = String::new();
    let mut i: usize = 0;
    while i < parts.len()
        invariant
            i <= parts.len(),
            views == parts@.map_values(|s: String| s@),
            r@ == joined(views.take(i as int), sep@),
        decreases parts.len() - i,
    {
        if i > 0 {
            r.append(sep);
        }
        r.append(parts[i].as_str());
        proof {
            assert(views.take(i + 1).drop_last() =~= views.take(i as int));
            if i == 0 {
                assert(joined(views.take(0), sep@) =~= Seq::<char>::empty());
                assert(r@ =~= views.take(1)[0]);
            }
        }
        i = i + 1;
    }
    assert(views.take(parts.len() as int) =~= views);
    r
}

} // verus!
