//! Verified text helpers: decimal rendering and parsing of unsigned
//! integers, whitespace trimming, path joining and basename extraction.
//! Paths are handled as plain strings; the engine only ever joins
//! relative components under a base directory.

use vstd::prelude::*;
use vstd::string::*;

verus! {

/// The decimal digit character for a value below ten.
pub open spec fn dec_digit(d: nat) -> char {
    if d == 0 {
        '0'
    } else if d == 1 {
        '1'
    } else if d == 2 {
        '2'
    } else if d == 3 {
        '3'
    } else if d == 4 {
        '4'
    } else if d == 5 {
        '5'
    } else if d == 6 {
        '6'
    } else if d == 7 {
        '7'
    } else if d == 8 {
        '8'
    } else {
        '9'
    }
}

/// The decimal rendering of a natural number, most significant digit first.
pub open spec fn dec_of(n: nat) -> Seq<char>
    decreases n,
{
    if n < 10 {
        seq![dec_digit(n)]
    } else {
        dec_of(n / 10).push(dec_digit(n % 10))
    }
}

fn digit_str(d: u64) -> (s: &'static str)
    requires
        d < 10,
    ensures
        s@ =~= seq![dec_digit(d as nat)],
{
    let r: &'static str = if d == 0 {
        "0"
    } else if d == 1 {
        "1"
    } else if d == 2 {
        "2"
    } else if d == 3 {
        "3"
    } else if d == 4 {
        "4"
    } else if d == 5 {
        "5"
    } else if d == 6 {
        "6"
    } else if d == 7 {
        "7"
    } else if d == 8 {
        "8"
    } else {
        "9"
    };
    proof {
        reveal_strlit("0");
        reveal_strlit("1");
        reveal_strlit("2");
        reveal_strlit("3");
        reveal_strlit("4");
        reveal_strlit("5");
        reveal_strlit("6");
        reveal_strlit("7");
        reveal_strlit("8");
        reveal_strlit("9");
    }
    r
}

/// Appends the decimal rendering of `n` to `out`.
pub fn push_dec(n: u64, out: &mut String)
    ensures
        final(out)@ == old(out)@ + dec_of(n as nat),
    decreases n,
{
    if n >= 10 {
        push_dec(n / 10, out);
    }
    let d: u64 = n % 10;
    out.append(digit_str(d));
    proof {
        if n >= 10 {
            assert(final(out)@ == old(out)@ + dec_of((n / 10) as nat) + seq![
                dec_digit((n % 10) as nat),
            ]);
            assert(dec_of(n as nat) == dec_of((n / 10) as nat).push(dec_digit((n % 10) as nat)));
            assert(final(out)@ =~= old(out)@ + dec_of(n as nat));
        } else {
            assert(dec_of(n as nat) =~= seq![dec_digit(n as nat)]);
            assert(final(out)@ =~= old(out)@ + dec_of(n as nat));
        }
    }
}

/// The decimal rendering of `n` as a fresh string.
pub fn u64_to_dec(n: u64) -> (s: String)
    ensures
        s@ == dec_of(n as nat),
{
    let mut s = String::new();
    push_dec(n, &mut s);
    proof {
        assert(s@ =~= dec_of(n as nat));
    }
    s
}

/// Compares two strings character by character.
pub fn str_eq(a: &str, b: &str) -> (r: bool)
    ensures
        r == (a@ == b@),
{
    let na = a.unicode_len();
    let nb = b.unicode_len();
    if na != nb {
        return false;
    }
    let mut i: usize = 0;
    while i < na
        invariant
            na == a@.len(),
            nb == b@.len(),
            na == nb,
            0 <= i <= na,
            forall|k: int| 0 <= k < i ==> a@[k] == b@[k],
        decreases na - i,
    {
        if a.get_char(i) != b.get_char(i) {
            proof {
                if a@ == b@ {
                    assert(a@[i as int] == b@[i as int]);
                }
            }
            return false;
        }
        i = i + 1;
    }
    proof {
        assert(a@ =~= b@);
    }
    true
}

/// Whether `c` is a decimal digit.
pub open spec fn is_dec_digit(c: char) -> bool {
    '0' <= c && c <= '9'
}

/// The numeric value of a decimal digit character.
pub open spec fn digit_val(c: char) -> nat {
    ((c as int) - ('0' as int)) as nat
}

/// Whether `s` is a non-empty string of decimal digits.
pub open spec fn valid_dec(s: Seq<char>) -> bool {
    s.len() > 0 && forall|i: int| 0 <= i < s.len() ==> is_dec_digit(s[i])
}

/// The numeric value of a digit string, most significant digit first.
pub open spec fn dec_value(s: Seq<char>) -> nat
    decreases s.len(),
{
    if s.len() == 0 {
        0
    } else {
        dec_value(s.drop_last()) * 10 + digit_val(s.last())
    }
}

proof fn lemma_dec_value_prefix_le(s: Seq<char>, i: int)
    requires
        0 <= i <= s.len(),
    ensures
        dec_value(s.subrange(0, i)) <= dec_value(s),
    decreases s.len() - i,
{
    if i == s.len() {
        assert(s.subrange(0, i) =~= s);
    } else {
        lemma_dec_value_prefix_le(s, i + 1);
        let p = s.subrange(0, i + 1);
        assert(p.drop_last() =~= s.subrange(0, i));
        assert(dec_value(p) == dec_value(s.subrange(0, i)) * 10 + digit_val(p.last()));
        assert(dec_value(s.subrange(0, i)) <= dec_value(s.subrange(0, i)) * 10) by (nonlinear_arith);
    }
}

/// Parses a non-empty all-digit string into a `u64`; returns `None` on any
/// other input and on values over `u64::MAX`.
pub fn parse_u64(s: &str) -> (r: Option<u64>)
    ensures
        match r {
            Some(v) => valid_dec(s@) && v as nat == dec_value(s@),
            None => !valid_dec(s@) || dec_value(s@) > u64::MAX,
        },
{
    let n = s.unicode_len();
    if n == 0 {
        return None;
    }
    let mut acc: u64 = 0;
    let mut i: usize = 0;
    while i < n
        invariant
            0 < n == s@.len(),
            0 <= i <= n,
            forall|k: int| 0 <= k < i ==> is_dec_digit(s@[k]),
            acc as nat == dec_value(s@.subrange(0, i as int)),
        decreases n - i,
    {
        let c = s.get_char(i);
        if c < '0' || c > '9' {
            return None;
        }
        let d: u64 = (c as u32 as u64) - ('0' as u32 as u64);
        let shifted = match acc.checked_mul(10) {
            Some(v) => v,
            None => {
                proof {
                    assert(dec_value(s@.subrange(0, i as int + 1)) > u64::MAX) by {
                        let p = s@.subrange(0, i as int + 1);
                        assert(p.drop_last() =~= s@.subrange(0, i as int));
                        assert(dec_value(p) >= dec_value(p.drop_last()) * 10);
                    };
                    lemma_dec_value_prefix_le(s@, i as int + 1);
                }
                return None;
            },
        };
        let next = match shifted.checked_add(d) {
            Some(v) => v,
            None => {
                proof {
                    assert(dec_value(s@.subrange(0, i as int + 1)) > u64::MAX) by {
                        let p = s@.subrange(0, i as int + 1);
                        assert(p.drop_last() =~= s@.subrange(0, i as int));
                    };
                    lemma_dec_value_prefix_le(s@, i as int + 1);
                }
                return None;
            },
        };
        proof {
            let p = s@.subrange(0, i as int + 1);
            assert(p.drop_last() =~= s@.subrange(0, i as int));
            assert(p.last() == c);
        }
        acc = next;
        i = i + 1;
    }
    proof {
        assert(s@.subrange(0, n as int) =~= s@);
    }
    Some(acc)
}

/// Whether `c` is one of the blank characters the engine trims from
/// manifest lines.
pub open spec fn is_space(c: char) -> bool {
    c == ' ' || c == '\t' || c == '\r' || c == '\n'
}

/// `s` without leading blanks.
pub open spec fn trim_left(s: Seq<char>) -> Seq<char>
    decreases s.len(),
{
    if s.len() > 0 && is_space(s[0]) {
        trim_left(s.drop_first())
    } else {
        s
    }
}

/// `s` without trailing blanks.
pub open spec fn trim_right(s: Seq<char>) -> Seq<char>
    decreases s.len(),
{
    if s.len() > 0 && is_space(s.last()) {
        trim_right(s.drop_last())
    } else {
        s
    }
}

/// `s` without leading and trailing blanks.
pub open spec fn trim_spec(s: Seq<char>) -> Seq<char> {
    trim_right(trim_left(s))
}

proof fn lemma_trim_left_skip(s: Seq<char>, i: int)
    requires
        0 <= i <= s.len(),
        forall|k: int| 0 <= k < i ==> is_space(s[k]),
        i == s.len() || !is_space(s[i]),
    ensures
        trim_left(s) =~= s.skip(i),
    decreases i,
{
    if i == 0 {
        if s.len() > 0 {
            assert(!is_space(s[0]));
        }
        assert(s.skip(0) =~= s);
    } else {
        assert(is_space(s[0]));
        let t = s.drop_first();
        assert(forall|k: int| 0 <= k < i - 1 ==> is_space(t[k]));
        lemma_trim_left_skip(t, i - 1);
        assert(t.skip(i - 1) =~= s.skip(i));
    }
}

proof fn lemma_trim_right_take(s: Seq<char>, j: int)
    requires
        0 <= j <= s.len(),
        forall|k: int| j <= k < s.len() ==> is_space(s[k]),
        j == 0 || !is_space(s[j - 1]),
    ensures
        trim_right(s) =~= s.take(j),
    decreases s.len() - j,
{
    if j == s.len() {
        if s.len() > 0 {
            assert(!is_space(s.last()));
        }
        assert(s.take(j) =~= s);
    } else {
        assert(is_space(s.last()));
        let t = s.drop_last();
        lemma_trim_right_take(t, j);
        assert(t.take(j) =~= s.take(j));
    }
}

/// Returns `s` with leading and trailing blanks removed.
pub fn trim(s: &str) -> (r: &str)
    ensures
        r@ == trim_spec(s@),
{
    let n = s.unicode_len();
    let mut a: usize = 0;
    while a < n && is_space_exec(s.get_char(a))
        invariant
            n == s@.len(),
            0 <= a <= n,
            forall|k: int| 0 <= k < a ==> is_space(s@[k]),
        decreases n - a,
    {
        a = a + 1;
    }
    let mut b: usize = n;
    while b > a && is_space_exec(s.get_char(b - 1))
        invariant
            n == s@.len(),
            a <= b <= n,
            forall|k: int| 0 <= k < a ==> is_space(s@[k]),
            a == n || !is_space(s@[a as int]),
            forall|k: int| b <= k < n ==> is_space(s@[k]),
        decreases b,
    {
        b = b - 1;
    }
    let r = s.substring_char(a, b);
    proof {
        lemma_trim_left_skip(s@, a as int);
        let t = s@.skip(a as int);
        lemma_trim_right_take(t, b - a as int);
        assert(t.take(b - a as int) =~= s@.subrange(a as int, b as int));
    }
    r
}

fn is_space_exec(c: char) -> (r: bool)
    ensures
        r == is_space(c),
{
    c == ' ' || c == '\t' || c == '\r' || c == '\n'
}

/// The part of `s` after its last `/`; `s` itself when it has none.
pub open spec fn basename_spec(s: Seq<char>) -> Seq<char>
    decreases s.len(),
{
    if s.len() == 0 {
        s
    } else if s.last() == '/' {
        Seq::empty()
    } else {
        basename_spec(s.drop_last()).push(s.last())
    }
}

proof fn lemma_basename_no_slash(s: Seq<char>)
    requires
        forall|k: int| 0 <= k < s.len() ==> s[k] != '/',
    ensures
        basename_spec(s) =~= s,
    decreases s.len(),
{
    if s.len() > 0 {
        lemma_basename_no_slash(s.drop_last());
    }
}

proof fn lemma_basename_after_slash(s: Seq<char>, j: int)
    requires
        0 <= j < s.len(),
        s[j] == '/',
        forall|k: int| j < k < s.len() ==> s[k] != '/',
    ensures
        basename_spec(s) =~= s.skip(j + 1),
    decreases s.len() - j,
{
    if j == s.len() - 1 {
        assert(s.last() == '/');
    } else {
        lemma_basename_after_slash(s.drop_last(), j);
        assert(s.drop_last().skip(j + 1) =~= s.skip(j + 1).drop_last());
        assert(basename_spec(s) =~= basename_spec(s.drop_last()).push(s.last()));
    }
}

/// Returns the file name component of a `/`-separated path.
pub fn basename(s: &str) -> (r: &str)
    ensures
        r@ == basename_spec(s@),
{
    let n = s.unicode_len();
    let mut j: usize = n;
    while j > 0
        invariant
            n == s@.len(),
            0 <= j <= n,
            forall|k: int| j <= k < n ==> s@[k] != '/',
        decreases j,
    {
        if s.get_char(j - 1) == '/' {
            let r = s.substring_char(j, n);
            proof {
                lemma_basename_after_slash(s@, j - 1);
                assert(s@.skip(j as int) =~= s@.subrange(j as int, n as int));
            }
            return r;
        }
        j = j - 1;
    }
    proof {
        lemma_basename_no_slash(s@);
    }
    s
}

/// The join of two path components: `a/b`, with no separator doubled and
/// an empty left side giving `b` alone.
pub open spec fn join_spec(a: Seq<char>, b: Seq<char>) -> Seq<char> {
    if a.len() == 0 {
        b
    } else if a.last() == '/' {
        a + b
    } else {
        a + seq!['/'] + b
    }
}

/// Joins two relative path components with a `/` separator.
pub fn join_path(a: &str, b: &str) -> (r: String)
    ensures
        r@ == join_spec(a@, b@),
{
    let n = a.unicode_len();
    if n == 0 {
        let mut r = String::new();
        r.append(b);
        proof {
            assert(r@ =~= join_spec(a@, b@));
        }
        r
    } else if a.get_char(n - 1) == '/' {
        let mut r = String::new();
        r.append(a);
        r.append(b);
        proof {
            assert(r@ =~= join_spec(a@, b@));
        }
        r
    } else {
        let mut r = String::new();
        r.append(a);
        r.append("/");
        r.append(b);
        proof {
            reveal_strlit("/");
            assert(r@ =~= join_spec(a@, b@));
        }
        r
    }
}

} // verus!
