use vstd::prelude::*;

verus! {

pub open spec fn is_digit(c: char) -> bool {
    '0' as u32 <= c as u32 <= '9' as u32
}

/// Where the run of digits of `s` that starts at `i` ends.
pub open spec fn digit_run(s: Seq<char>, i: int) -> int
    decreases s.len() - i,
{
    if 0 <= i < s.len() && is_digit(s[i]) {
        digit_run(s, i + 1)
    } else {
        i
    }
}

/// Whether `s` from `i` on is empty or an exponent: `e` or `E`, a sign if
/// any, and at least one digit, to the end.
pub open spec fn exp_ok(s: Seq<char>, i: int) -> bool {
    ||| i == s.len()
    ||| {
        &&& 0 <= i < s.len()
        &&& (s[i] == 'e' || s[i] == 'E')
        &&& {
            let j = if i + 1 < s.len() && (s[i + 1] == '+' || s[i + 1] == '-') {
                i + 2
            } else {
                i + 1
            };
            digit_run(s, j) > j && digit_run(s, j) == s.len()
        }
    }
}

/// Whether `s` from `i` on is a number: digits, or digits and a point with
/// digits on at least one side, then an optional exponent.
pub open spec fn number_ok(s: Seq<char>, i: int) -> bool {
    let a = digit_run(s, i);
    if a < s.len() && s[a] == '.' {
        let b = digit_run(s, a + 1);
        (a > i || b > a + 1) && exp_ok(s, b)
    } else {
        a > i && exp_ok(s, a)
    }
}

/// Whether `s` is the lower-case ASCII word `w` in any case.
pub open spec fn word_any_case(s: Seq<char>, w: Seq<char>) -> bool {
    s.len() == w.len() && forall|k: int|
        0 <= k < s.len() ==> s[k] == w[k] || (#[trigger] s[k]) as u32 + 32 == w[k] as u32
}

/// Whether `s` is text that a 32-bit float can be read from: an optional
/// sign, then `inf`, `infinity` or `nan` in any case, or a number.
pub open spec fn f32_text(s: Seq<char>) -> bool {
    let i: int = if s.len() > 0 && (s[0] == '+' || s[0] == '-') {
        1
    } else {
        0
    };
    ||| word_any_case(s.skip(i), "inf"@)
    ||| word_any_case(s.skip(i), "infinity"@)
    ||| word_any_case(s.skip(i), "nan"@)
    ||| number_ok(s, i)
}

fn digit_run_exec(s: &str, n: usize, i: usize) -> (r: usize)
    requires
        n == s@.len(),
        i <= n,
    ensures
        r == digit_run(s@, i as int),
        i <= r <= n,
{
    let mut j = i;
    while j < n
        invariant
            n == s@.len(),
            i <= j <= n,
            digit_run(s@, i as int) == digit_run(s@, j as int),
        decreases n - j,
    {
        let c = s.get_char(j);
        if !('0' <= c && c <= '9') {
            return j;
        }
        j = j + 1;
    }
    j
}

fn exp_ok_exec(s: &str, n: usize, i: usize) -> (r: bool)
    requires
        n == s@.len(),
        i <= n,
    ensures
        r == exp_ok(s@, i as int),
{
    if i == n {
        return true;
    }
    let c = s.get_char(i);
    if c != 'e' && c != 'E' {
        return false;
    }
    let j = if i + 1 < n && (s.get_char(i + 1) == '+' || s.get_char(i + 1) == '-') {
        i + 2
    } else {
        i + 1
    };
    let k = digit_run_exec(s, n, j);
    k > j && k == n
}

fn word_any_case_exec(s: &str, n: usize, i: usize, w: &str) -> (r: bool)
    requires
        n == s@.len(),
        i <= n,
    ensures
        r == word_any_case(s@.skip(i as int), w@),
{
    let m = w.unicode_len();
    if n - i != m {
        return false;
    }
    let mut k: usize = 0;
    while k < m
        invariant
            n == s@.len(),
            m == w@.len(),
            n - i == m,
            k <= m,
            forall|q: int|
                0 <= q < k ==> s@.skip(i as int)[q] == w@[q] || (#[trigger] s@.skip(
                    i as int,
                )[q]) as u32 + 32 == w@[q] as u32,
        decreases m - k,
    {
        let c = s.get_char(i + k);
        let d = w.get_char(k);
        assert(s@.skip(i as int)[k as int] == c);
        if !(c == d || (c as u32) + 32 == d as u32) {
            return false;
        }
        k = k + 1;
    }
    true
}

/// Whether a 32-bit float can be read from `s`.
pub fn is_f32_text(s: &str) -> (r: bool)
    ensures
        r == f32_text(s@),
{
    proof {
        reveal_strlit("inf");
        reveal_strlit("infinity");
        reveal_strlit("nan");
    }
    let n = s.unicode_len();
    let i: usize = if n > 0 && (s.get_char(0) == '+' || s.get_char(0) == '-') {
        1
    } else {
        0
    };
    if word_any_case_exec(s, n, i, "inf") || word_any_case_exec(s, n, i, "infinity")
        || word_any_case_exec(s, n, i, "nan") {
        return true;
    }
    let a = digit_run_exec(s, n, i);
    if a < n && s.get_char(a) == '.' {
        let b = digit_run_exec(s, n, a + 1);
        (a > i || b > a + 1) && exp_ok_exec(s, n, b)
    } else {
        a > i && exp_ok_exec(s, n, a)
    }
}

} // verus!
