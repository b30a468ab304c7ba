//! Character-level helpers shared by the descriptor parsing code:
//! recognising digits, comparing strings, and reading signed integers.

use vstd::prelude::*;
use vstd::string::StrSliceExecFns;

verus! {

/// True of the ten ascii digit characters.
pub open spec fn is_digit_char(c: char) -> bool {
    48 <= c as u32 <= 57
}

/// Numeric value of an ascii digit character.
pub open spec fn digit_val(c: char) -> int {
    c as u32 - 48
}

/// Every character of `s` is an ascii digit.
pub open spec fn all_digits(s: Seq<char>) -> bool {
    forall|i: int| 0 <= i < s.len() ==> is_digit_char(s[i])
}

/// The number denoted by a sequence of ascii digits, most significant first.
pub open spec fn digits_val(s: Seq<char>) -> int
    decreases s.len(),
{
    if s.len() == 0 {
        0
    } else {
        digits_val(s.drop_last()) * 10 + digit_val(s.last())
    }
}

/// `s` starts with an explicit sign character.
pub open spec fn has_sign(s: Seq<char>) -> bool {
    s.len() > 0 && (s[0] == '-' || s[0] == '+')
}

/// The digit part of an optionally signed integer string.
pub open spec fn int_digits(s: Seq<char>) -> Seq<char> {
    if has_sign(s) {
        s.drop_first()
    } else {
        s
    }
}

/// `s` denotes a negative integer.
pub open spec fn int_negative(s: Seq<char>) -> bool {
    s.len() > 0 && s[0] == '-'
}

/// The integer denoted by an optionally signed digit string.
pub open spec fn int_val(s: Seq<char>) -> int {
    if int_negative(s) {
        -digits_val(int_digits(s))
    } else {
        digits_val(int_digits(s))
    }
}

/// `s` is an integer string that fits in an `i64`: an optional sign,
/// one or more ascii digits, and a value in range.
pub open spec fn is_i64_string(s: Seq<char>) -> bool {
    &&& int_digits(s).len() > 0
    &&& all_digits(int_digits(s))
    &&& i64::MIN <= int_val(s) <= i64::MAX
}

proof fn lemma_digits_val_nonneg(s: Seq<char>)
    requires
        all_digits(s),
    ensures
        digits_val(s) >= 0,
    decreases s.len(),
{
    if s.len() > 0 {
        assert(all_digits(s.drop_last()));
        lemma_digits_val_nonneg(s.drop_last());
    }
}

/// Appending digits never decreases the denoted value.
proof fn lemma_digits_val_mono(t: Seq<char>, k: int)
    requires
        all_digits(t),
        0 <= k <= t.len(),
    ensures
        digits_val(t.take(k)) <= digits_val(t),
    decreases t.len() - k,
{
    if k < t.len() {
        let a = t.take(k);
        let b = t.take(k + 1);
        assert(b.drop_last() =~= a);
        assert(b.last() == t[k]);
        assert(all_digits(a));
        lemma_digits_val_nonneg(a);
        assert(digits_val(b) == digits_val(a) * 10 + digit_val(t[k]));
        lemma_digits_val_mono(t, k + 1);
    } else {
        assert(t.take(k) =~= t);
    }
}

/// Character-for-character string equality.
pub fn str_eq(a: &str, b: &str) -> (r: bool)
    ensures
        r == (a@ == b@),
{
    let na = a.unicode_len();
    let nb = b.unicode_len();
    if na != nb {
        return false;
    }
    let mut i: usize = 0;
    while i < na
        invariant
            na == a@.len(),
            na == b@.len(),
            0 <= i <= na,
            forall|j: int| 0 <= j < i ==> a@[j] == b@[j],
        decreases na - i,
    {
        if a.get_char(i) != b.get_char(i) {
            return false;
        }
        i += 1;
    }
    proof {
        assert(a@ =~= b@);
    }
    true
}

/// Reads an optionally signed decimal integer, exactly when `s` is a
/// well-formed integer string whose value fits in an `i64`.
pub fn parse_i64(s: &str) -> (r: Option<i64>)
    ensures
        match r {
            Some(v) => is_i64_string(s@) && v == int_val(s@),
            None => !is_i64_string(s@),
        },
{
    let n = s.unicode_len();
    if n == 0 {
        return None;
    }
    let first = s.get_char(0);
    let neg = first == '-';
    let start: usize = if first == '-' || first == '+' {
        1
    } else {
        0
    };
    proof {
        assert(int_digits(s@) =~= s@.subrange(start as int, n as int));
    }
    if n == start {
        return None;
    }
    // `acc` holds the negated value of the digits read so far, so that
    // `i64::MIN` is reachable without overflow.
    let mut acc: i64 = 0;
    let mut i: usize = start;
    while i < n
        invariant
            n == s@.len(),
            start <= i <= n,
            int_digits(s@) =~= s@.subrange(start as int, n as int),
            all_digits(s@.subrange(start as int, i as int)),
            acc == -digits_val(s@.subrange(start as int, i as int)),
            acc <= 0,
        decreases n - i,
    {
        let c = s.get_char(i);
        let u = c as u32;
        proof {
            assert(s@.subrange(start as int, i as int + 1).drop_last() =~= s@.subrange(
                start as int,
                i as int,
            ));
            assert(s@.subrange(start as int, i as int + 1).last() == s@[i as int]);
        }
        if u < 48 || u > 57 {
            // a non-digit character: the string denotes no integer
            assert(!all_digits(int_digits(s@))) by {
                assert(int_digits(s@)[i - start] == s@[i as int]);
            }
            return None;
        }
        let d = (u - 48) as i64;
        let ghost prefix = s@.subrange(start as int, i as int);
        let ghost extended = s@.subrange(start as int, i as int + 1);
        assert(digits_val(extended) == digits_val(prefix) * 10 + digit_val(s@[i as int]));
        let acc10 = match acc.checked_mul(10) {
            Some(v) => v,
            None => {
                proof {
                    overflow_case(s@, start as int, i as int);
                }
                return None;
            },
        };
        let accd = match acc10.checked_sub(d) {
            Some(v) => v,
            None => {
                proof {
                    overflow_case(s@, start as int, i as int);
                }
                return None;
            },
        };
        acc = accd;
        i += 1;
    }
    proof {
        assert(s@.subrange(start as int, n as int) =~= int_digits(s@));
        lemma_digits_val_nonneg(int_digits(s@));
    }
    if neg {
        Some(acc)
    } else if acc == i64::MIN {
        // the digits denote 2^63, which is out of range without a minus sign
        None
    } else {
        Some(-acc)
    }
}

/// The largest index at which `c` occurs in `s`, or `-1` when it does not.
pub open spec fn last_index_of(s: Seq<char>, c: char) -> int
    decreases s.len(),
{
    if s.len() == 0 {
        -1
    } else if s.last() == c {
        s.len() - 1
    } else {
        last_index_of(s.drop_last(), c)
    }
}

pub proof fn lemma_last_index_of(s: Seq<char>, c: char)
    ensures
        -1 <= last_index_of(s, c) < s.len(),
        last_index_of(s, c) >= 0 ==> s[last_index_of(s, c)] == c,
        forall|j: int| last_index_of(s, c) < j < s.len() ==> s[j] != c,
    decreases s.len(),
{
    if s.len() > 0 && s.last() != c {
        lemma_last_index_of(s.drop_last(), c);
        assert forall|j: int| last_index_of(s, c) < j < s.len() implies s[j] != c by {
            if j < s.len() - 1 {
                assert(s.drop_last()[j] == s[j]);
            }
        }
        if last_index_of(s, c) >= 0 {
            assert(s.drop_last()[last_index_of(s, c)] == s[last_index_of(s, c)]);
        }
    }
}

/// Finds the last occurrence of `c` in `s`, if any.
pub fn rfind_char(s: &str, c: char) -> (r: Option<usize>)
    ensures
        match r {
            Some(j) => j == last_index_of(s@, c),
            None => last_index_of(s@, c) == -1,
        },
{
    let n = s.unicode_len();
    let mut i: usize = n;
    while i > 0
        invariant
            i <= n,
            n == s@.len(),
            forall|j: int| i <= j < n ==> s@[j] != c,
        decreases i,
    {
        i -= 1;
        if s.get_char(i) == c {
            proof {
                lemma_last_index_of(s@, c);
            }
            return Some(i);
        }
    }
    proof {
        lemma_last_index_of(s@, c);
    }
    None
}

/// When the accumulated digits already exceed the `i64` range, the whole
/// string is out of range no matter what follows.
proof fn overflow_case(s: Seq<char>, start: int, i: int)
    requires
        0 <= start <= i < s.len(),
        int_digits(s) =~= s.subrange(start, s.len() as int),
        all_digits(s.subrange(start, i + 1)),
        digits_val(s.subrange(start, i + 1)) > i64::MAX + 1,
    ensures
        !is_i64_string(s),
{
    if all_digits(int_digits(s)) {
        let t = int_digits(s);
        assert(s.subrange(start, i + 1) =~= t.take(i + 1 - start));
        lemma_digits_val_mono(t, i + 1 - start);
        assert(digits_val(t) > i64::MAX + 1);
    }
}

} // verus!
