use vstd::prelude::*;
use vstd::string::StrSliceExecFns;

verus! {

// A required price, size or starting-position field arrives as a string
// holding a decimal number. The record is accepted only if that string
// lexically parses as a 64-bit floating-point literal; the checked grammar
// is the one `f64`'s `FromStr` documents:
//
//   Literal  = Sign? ( 'inf' | 'infinity' | 'nan' | Number )
//   Number   = Mantissa Exp?
//   Mantissa = Digit+ | Digit+ '.' Digit* | Digit* '.' Digit+
//   Exp      = ('e' | 'E') Sign? Digit+
//
// with the three words matched case-insensitively. The numeric value itself
// is never needed here: records carry the validated text through unchanged.
pub open spec fn spec_is_digit(c: char) -> bool {
    '0' <= c && c <= '9'
}

pub open spec fn spec_all_digits(s: Seq<char>) -> bool {
    forall|i: int| 0 <= i < s.len() ==> spec_is_digit(#[trigger] s[i])
}

pub open spec fn spec_is_sign(c: char) -> bool {
    c == '+' || c == '-'
}

/// `c` is `w` up to ASCII case; `w` stands for a lower-case letter.
pub open spec fn spec_ci_eq(c: char, w: char) -> bool {
    c == w || ('A' <= c && c <= 'Z' && c as u32 + 32 == w as u32)
}

pub open spec fn spec_matches_ci(s: Seq<char>, w: Seq<char>) -> bool {
    s.len() == w.len() && forall|i: int| 0 <= i < s.len() ==> spec_ci_eq(#[trigger] s[i], w[i])
}

/// The unsigned part is one of the three special words.
pub open spec fn spec_is_special_word(s: Seq<char>) -> bool {
    spec_matches_ci(s, "inf"@) || spec_matches_ci(s, "infinity"@) || spec_matches_ci(s, "nan"@)
}

/// Digits with at most one dot and at least one digit.
pub open spec fn spec_is_mantissa(s: Seq<char>) -> bool {
    (s.len() >= 1 && spec_all_digits(s)) || (s.len() >= 2 && exists|i: int|
        #![trigger s[i]]
        0 <= i < s.len() && s[i] == '.' && spec_all_digits(s.subrange(0, i)) && spec_all_digits(
            s.subrange(i + 1, s.len() as int),
        ))
}

/// An exponent's tail: an optional sign, then one or more digits.
pub open spec fn spec_is_exp_tail(s: Seq<char>) -> bool {
    (s.len() >= 1 && spec_all_digits(s)) || (s.len() >= 2 && spec_is_sign(s[0]) && spec_all_digits(
        s.subrange(1, s.len() as int),
    ))
}

/// A mantissa, optionally followed by an exponent marker and tail.
pub open spec fn spec_is_number(s: Seq<char>) -> bool {
    spec_is_mantissa(s) || (exists|i: int|
        #![trigger s[i]]
        0 <= i < s.len() && (s[i] == 'e' || s[i] == 'E') && spec_is_mantissa(s.subrange(0, i))
            && spec_is_exp_tail(s.subrange(i + 1, s.len() as int)))
}

/// The whole grammar: an optional sign, then a special word or a number.
pub open spec fn spec_numeric_literal(s: Seq<char>) -> bool {
    if s.len() >= 1 && spec_is_sign(s[0]) {
        spec_is_special_word(s.subrange(1, s.len() as int)) || spec_is_number(
            s.subrange(1, s.len() as int),
        )
    } else {
        spec_is_special_word(s) || spec_is_number(s)
    }
}

/// In a well-formed mantissa every character is a digit or the dot.
proof fn lemma_mantissa_chars(m: Seq<char>, k: int)
    requires
        spec_is_mantissa(m),
        0 <= k < m.len(),
    ensures
        spec_is_digit(m[k]) || m[k] == '.',
{
    if m.len() >= 1 && spec_all_digits(m) {
    } else {
        let i = choose|i: int|
            #![trigger m[i]]
            0 <= i < m.len() && m[i] == '.' && spec_all_digits(m.subrange(0, i))
                && spec_all_digits(m.subrange(i + 1, m.len() as int));
        if k < i {
            assert(spec_is_digit(m.subrange(0, i)[k]));
        } else if k > i {
            assert(spec_is_digit(m.subrange(i + 1, m.len() as int)[k - i - 1]));
        }
    }
}

fn is_digit(c: char) -> (b: bool)
    ensures
        b == spec_is_digit(c),
{
    '0' <= c && c <= '9'
}

fn is_sign(c: char) -> (b: bool)
    ensures
        b == spec_is_sign(c),
{
    c == '+' || c == '-'
}

fn eq_ci(c: char, w: char) -> (b: bool)
    ensures
        b == spec_ci_eq(c, w),
{
    c == w || ('A' <= c && c <= 'Z' && (c as u32) + 32 == (w as u32))
}

/// The characters of `s`, one by one.
fn chars_of(s: &str) -> (v: Vec<char>)
    ensures
        v@ == s@,
{
    let n = s.unicode_len();
    let mut v: Vec<char> = Vec::new();
    for i in 0..n
        invariant
            n == s@.len(),
            v@ =~= s@.subrange(0, i as int),
    {
        v.push(s.get_char(i));
    }
    proof {
        assert(v@ =~= s@);
    }
    v
}

/// A copy of `v[lo..hi]`.
fn copy_range(v: &Vec<char>, lo: usize, hi: usize) -> (out: Vec<char>)
    requires
        lo <= hi <= v.len(),
    ensures
        out@ == v@.subrange(lo as int, hi as int),
{
    let mut out: Vec<char> = Vec::new();
    let mut i = lo;
    while i < hi
        invariant
            lo <= i <= hi <= v.len(),
            out@ =~= v@.subrange(lo as int, i as int),
        decreases hi - i,
    {
        out.push(v[i]);
        i += 1;
    }
    proof {
        assert(out@ =~= v@.subrange(lo as int, hi as int));
    }
    out
}

fn matches_ci(b: &Vec<char>, w: &str) -> (r: bool)
    ensures
        r == spec_matches_ci(b@, w@),
{
    let m = w.unicode_len();
    if b.len() != m {
        return false;
    }
    for i in 0..m
        invariant
            m == w@.len() == b@.len(),
            forall|j: int| 0 <= j < i ==> spec_ci_eq(#[trigger] b@[j], w@[j]),
    {
        if !eq_ci(b[i], w.get_char(i)) {
            assert(!spec_ci_eq(b@[i as int], w@[i as int]));
            return false;
        }
    }
    true
}

fn check_special(b: &Vec<char>) -> (r: bool)
    ensures
        r == spec_is_special_word(b@),
{
    matches_ci(b, "inf") || matches_ci(b, "infinity") || matches_ci(b, "nan")
}

fn check_all_digits(b: &Vec<char>) -> (r: bool)
    ensures
        r == spec_all_digits(b@),
{
    let n = b.len();
    for i in 0..n
        invariant
            n == b.len(),
            forall|j: int| 0 <= j < i ==> spec_is_digit(#[trigger] b@[j]),
    {
        if !is_digit(b[i]) {
            assert(!spec_is_digit(b@[i as int]));
            return false;
        }
    }
    true
}

fn check_mantissa(b: &Vec<char>) -> (r: bool)
    ensures
        r == spec_is_mantissa(b@),
{
    let n = b.len();
    if n == 0 {
        return false;
    }
    let mut dot: Option<usize> = None;
    let mut i: usize = 0;
    while i < n
        invariant
            i <= n,
            n == b.len(),
            match dot {
                Some(d) => d < i && b@[d as int] == '.' && forall|j: int|
                    0 <= j < i && j != d ==> spec_is_digit(#[trigger] b@[j]),
                None => forall|j: int| 0 <= j < i ==> spec_is_digit(#[trigger] b@[j]),
            },
        decreases n - i,
    {
        let c = b[i];
        if c == '.' {
            match dot {
                Some(d) => {
                    // a second dot: no split position can satisfy the grammar
                    proof {
                        assert forall|k: int|
                            0 <= k < b@.len() && b@[k] == '.' implies !(spec_all_digits(
                            b@.subrange(0, k),
                        ) && spec_all_digits(b@.subrange(k + 1, b@.len() as int))) by {
                            if k <= d {
                                assert(b@.subrange(k + 1, b@.len() as int)[i - k - 1] == '.');
                                assert(!spec_is_digit(b@.subrange(k + 1, b@.len() as int)[i - k
                                    - 1]));
                            } else {
                                assert(b@.subrange(0, k)[d as int] == '.');
                                assert(!spec_is_digit(b@.subrange(0, k)[d as int]));
                            }
                        }
                        assert(!spec_is_digit(b@[d as int]));
                    }
                    return false;
                },
                None => {
                    dot = Some(i);
                },
            }
        } else if !is_digit(c) {
            // neither digit nor dot: the grammar has no place for it
            proof {
                assert forall|k: int| 0 <= k < b@.len() && b@[k] == '.' implies !(spec_all_digits(
                    b@.subrange(0, k),
                ) && spec_all_digits(b@.subrange(k + 1, b@.len() as int))) by {
                    if k < i {
                        assert(b@.subrange(k + 1, b@.len() as int)[i - k - 1] == b@[i as int]);
                        assert(!spec_is_digit(b@.subrange(k + 1, b@.len() as int)[i - k - 1]));
                    } else if k > i {
                        assert(b@.subrange(0, k)[i as int] == b@[i as int]);
                        assert(!spec_is_digit(b@.subrange(0, k)[i as int]));
                    }
                }
                assert(!spec_is_digit(b@[i as int]));
            }
            return false;
        }
        i += 1;
    }
    match dot {
        None => {
            assert(spec_all_digits(b@));
            true
        },
        Some(d) => {
            if n >= 2 {
                proof {
                    assert(b@[d as int] == '.');
                    assert(spec_all_digits(b@.subrange(0, d as int)));
                    assert(spec_all_digits(b@.subrange(d as int + 1, b@.len() as int)));
                }
                true
            } else {
                // the dot alone: too short for the dotted form, and not all digits
                assert(!spec_is_digit(b@[d as int]));
                false
            }
        },
    }
}

fn check_exp_tail(b: &Vec<char>) -> (r: bool)
    ensures
        r == spec_is_exp_tail(b@),
{
    let n = b.len();
    if n == 0 {
        return false;
    }
    if is_sign(b[0]) {
        if n == 1 {
            assert(!spec_is_digit(b@[0]));
            return false;
        }
        let digits = copy_range(b, 1, n);
        let r = check_all_digits(&digits);
        proof {
            if !r {
                assert(!spec_all_digits(b@.subrange(1, b@.len() as int)));
                assert(!spec_is_digit(b@.subrange(1, b@.len() as int)[0]) || !spec_all_digits(b@));
            }
        }
        r
    } else {
        let r = check_all_digits(b);
        r
    }
}

fn check_number(b: &Vec<char>) -> (r: bool)
    ensures
        r == spec_is_number(b@),
{
    let n = b.len();
    let mut i: usize = 0;
    while i < n
        invariant
            i <= n,
            n == b.len(),
            forall|j: int| 0 <= j < i ==> !((#[trigger] b@[j]) == 'e' || b@[j] == 'E'),
        decreases n - i,
    {
        let c = b[i];
        if c == 'e' || c == 'E' {
            let mant = copy_range(b, 0, i);
            let tail = copy_range(b, i + 1, n);
            let ok = check_mantissa(&mant) && check_exp_tail(&tail);
            proof {
                if ok {
                    assert(b@[i as int] == 'e' || b@[i as int] == 'E');
                } else {
                    // no other split works: before i there is no marker, and a
                    // later split would leave a marker inside its mantissa
                    assert forall|k: int|
                        0 <= k < b@.len() && ((#[trigger] b@[k]) == 'e' || b@[k] == 'E')
                            implies !(spec_is_mantissa(b@.subrange(0, k)) && spec_is_exp_tail(
                        b@.subrange(k + 1, b@.len() as int),
                    )) by {
                        if k > i {
                            if spec_is_mantissa(b@.subrange(0, k)) {
                                lemma_mantissa_chars(b@.subrange(0, k), i as int);
                                assert(b@.subrange(0, k)[i as int] == b@[i as int]);
                            }
                        }
                    }
                    if spec_is_mantissa(b@) {
                        lemma_mantissa_chars(b@, i as int);
                    }
                }
            }
            return ok;
        }
        i += 1;
    }
    let ok = check_mantissa(b);
    proof {
        if !ok {
            assert forall|k: int|
                0 <= k < b@.len() && ((#[trigger] b@[k]) == 'e' || b@[k] == 'E') implies false by {}
        }
    }
    ok
}

/// Decides whether `s` lexically parses as a floating-point literal.
pub fn is_numeric_literal(s: &str) -> (b: bool)
    ensures
        b == spec_numeric_literal(s@),
{
    let v = chars_of(s);
    let n = v.len();
    if n >= 1 && is_sign(v[0]) {
        let body = copy_range(&v, 1, n);
        check_special(&body) || check_number(&body)
    } else {
        let body = copy_range(&v, 0, n);
        proof {
            assert(body@ =~= s@);
        }
        check_special(&body) || check_number(&body)
    }
}

} // verus!
