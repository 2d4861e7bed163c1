//! Character-level string operations with exact specifications.
use vstd::prelude::*;
use crate::text::push_char;

verus! {

/// Whether `c` has the Unicode `White_Space` property.
pub open spec fn is_white_space(c: char) -> bool {
    ||| '\u{9}' <= c <= '\u{d}'
    ||| c == ' '
    ||| c == '\u{85}'
    ||| c == '\u{a0}'
    ||| c == '\u{1680}'
    ||| '\u{2000}' <= c <= '\u{200a}'
    ||| c == '\u{2028}'
    ||| c == '\u{2029}'
    ||| c == '\u{202f}'
    ||| c == '\u{205f}'
    ||| c == '\u{3000}'
}

/// `s` without its leading white space.
pub open spec fn trim_start(s: Seq<char>) -> Seq<char>
    decreases s.len(),
{
    if s.len() > 0 && is_white_space(s[0]) {
        trim_start(s.drop_first())
    } else {
        s
    }
}

/// `s` without its trailing white space.
pub open spec fn trim_end(s: Seq<char>) -> Seq<char>
    decreases s.len(),
{
    if s.len() > 0 && is_white_space(s.last()) {
        trim_end(s.drop_last())
    } else {
        s
    }
}

/// `s` without its leading and trailing white space.
pub open spec fn spec_trim(s: Seq<char>) -> Seq<char> {
    trim_end(trim_start(s))
}

/// The pieces of `s` between occurrences of `sep`, in order; there is always at least one.
pub open spec fn spec_split(s: Seq<char>, sep: char) -> Seq<Seq<char>>
    decreases s.len(),
{
    if s.len() == 0 {
        seq![Seq::empty()]
    } else {
        let prev = spec_split(s.drop_last(), sep);
        if s.last() == sep {
            prev.push(Seq::empty())
        } else {
            prev.update(prev.len() - 1, prev.last().push(s.last()))
        }
    }
}

/// Whether `c` is an ASCII decimal digit.
pub open spec fn is_digit(c: char) -> bool {
    '0' <= c <= '9'
}

/// The value of a string of decimal digits.
pub open spec fn digits_value(s: Seq<char>) -> nat
    decreases s.len(),
{
    if s.len() == 0 {
        0
    } else {
        digits_value(s.drop_last()) * 10 + ((s.last() as u32) - ('0' as u32)) as nat
    }
}

/// The digits of an unsigned number: the text after an optional leading `+`.
pub open spec fn unsigned_digits(s: Seq<char>) -> Seq<char> {
    if s.len() > 0 && s[0] == '+' { s.drop_first() } else { s }
}

/// Whether every character is a decimal digit.
pub open spec fn all_digits(s: Seq<char>) -> bool {
    forall|k: int| 0 <= k < s.len() ==> is_digit(#[trigger] s[k])
}

/// The `u16` a string denotes: decimal digits, optionally preceded by `+`, of value at most
/// 65535.
pub open spec fn spec_parse_u16(s: Seq<char>) -> Option<u16> {
    let digits = unsigned_digits(s);
    if digits.len() == 0 || !all_digits(digits) {
        None
    } else if digits_value(digits) <= u16::MAX {
        Some(digits_value(digits) as u16)
    } else {
        None
    }
}

/// Whether `needle` occurs in `hay`.
pub open spec fn spec_contains(hay: Seq<char>, needle: Seq<char>) -> bool {
    exists|i: int| 0 <= i <= hay.len() - needle.len() && #[trigger] hay.subrange(i, i + needle.len()) == needle
}

/// A string's lowercase mapping, as `str::to_lowercase` computes it.
pub uninterp spec fn lowercase(s: Seq<char>) -> Seq<char>;

/// Returns the lowercase mapping of `s`, computed by `str::to_lowercase`. The contract claims
/// only that the result is `lowercase(s)`, the same characters for the same `s`; what the mapping
/// does to each character is left to Unicode's tables and unstated.
#[verifier::external_body]
pub(crate) fn to_lowercase(s: &str) -> (r: String)
    ensures
        r@ == lowercase(s@),
{
    s.to_lowercase()
}

/// Returns a copy of `s`.
pub fn copy_str(s: &str) -> (r: String)
    ensures
        r@ == s@,
{
    let mut r = String::new();
    r.append(s);
    r
}

/// Returns whether two strings hold the same characters.
pub fn str_eq(a: &str, b: &str) -> (r: bool)
    ensures
        r == (a@ == b@),
{
    let n = a.unicode_len();
    let m = b.unicode_len();
    if n != m {
        return false;
    }
    let mut i: usize = 0;
    while i < n
        invariant
            n == a@.len(),
            n == b@.len(),
            i <= n,
            forall|k: int| 0 <= k < i ==> a@[k] == b@[k],
        decreases n - i,
    {
        if a.get_char(i) != b.get_char(i) {
            return false;
        }
        i = i + 1;
    }
    assert(a@ =~= b@);
    true
}

/// Returns the rest of `s` after `prefix`, when `s` starts with `prefix`.
pub fn strip_prefix(s: &str, prefix: &str) -> (r: Option<String>)
    ensures
        match r {
            Some(rest) => prefix@.len() <= s@.len() && s@.subrange(0, prefix@.len() as int) == prefix@
                && rest@ == s@.skip(prefix@.len() as int),
            None => !(prefix@.len() <= s@.len() && s@.subrange(0, prefix@.len() as int) == prefix@),
        },
{
    let n = s.unicode_len();
    let m = prefix.unicode_len();
    if m > n {
        return None;
    }
    let mut i: usize = 0;
    while i < m
        invariant
            n == s@.len(),
            m == prefix@.len(),
            m <= n,
            i <= m,
            forall|k: int| 0 <= k < i ==> s@[k] == prefix@[k],
        decreases m - i,
    {
        if s.get_char(i) != prefix.get_char(i) {
            proof {
                assert(s@.subrange(0, m as int)[i as int] != prefix@[i as int]);
            }
            return None;
        }
        i = i + 1;
    }
    assert(s@.subrange(0, m as int) =~= prefix@);
    let mut rest = String::new();
    let mut j: usize = m;
    while j < n
        invariant
            n == s@.len(),
            m <= j <= n,
            rest@ == s@.subrange(m as int, j as int),
        decreases n - j,
    {
        push_char(&mut rest, s.get_char(j));
        j = j + 1;
        assert(rest@ =~= s@.subrange(m as int, j as int));
    }
    assert(rest@ =~= s@.skip(m as int));
    Some(rest)
}

/// Splits `s` at every occurrence of `sep`.
pub fn split(s: &str, sep: char) -> (r: Vec<String>)
    ensures
        r@.len() == spec_split(s@, sep).len(),
        forall|k: int| 0 <= k < r@.len() ==> #[trigger] r@[k]@ == spec_split(s@, sep)[k],
{
    let n = s.unicode_len();
    let mut done: Vec<String> = Vec::new();
    let mut cur = String::new();
    let mut i: usize = 0;
    while i < n
        invariant
            n == s@.len(),
            i <= n,
            done@.len() + 1 == spec_split(s@.take(i as int), sep).len(),
            forall|k: int| 0 <= k < done@.len() ==> #[trigger] done@[k]@ == spec_split(s@.take(i as int), sep)[k],
            cur@ == spec_split(s@.take(i as int), sep).last(),
        decreases n - i,
    {
        let c = s.get_char(i);
        proof {
            assert(s@.take(i as int + 1).drop_last() =~= s@.take(i as int));
            assert(s@.take(i as int + 1).last() == c);
        }
        if c == sep {
            let mut fresh = String::new();
            std::mem::swap(&mut fresh, &mut cur);
            done.push(fresh);
        } else {
            push_char(&mut cur, c);
        }
        i = i + 1;
    }
    proof {
        assert(s@.take(n as int) =~= s@);
    }
    done.push(cur);
    proof {
        assert forall|k: int| 0 <= k < done@.len() implies #[trigger] done@[k]@ == spec_split(s@, sep)[k] by {
        }
    }
    done
}

/// Returns `s` without its leading and trailing white space.
pub fn trim(s: &str) -> (r: String)
    ensures
        r@ == spec_trim(s@),
{
    let n = s.unicode_len();
    let mut start: usize = 0;
    assert(s@.skip(0) =~= s@);
    while start < n && is_white_space_exec(s.get_char(start))
        invariant
            n == s@.len(),
            start <= n,
            trim_start(s@) == trim_start(s@.skip(start as int)),
        decreases n - start,
    {
        proof {
            assert(s@.skip(start as int + 1) =~= s@.skip(start as int).drop_first());
        }
        start = start + 1;
    }
    proof {
        assert(trim_start(s@.skip(start as int)) == s@.skip(start as int));
    }
    let mut end: usize = n;
    while end > start && is_white_space_exec(s.get_char(end - 1))
        invariant
            n == s@.len(),
            start <= end <= n,
            trim_start(s@) == s@.skip(start as int),
            spec_trim(s@) == trim_end(s@.subrange(start as int, end as int)),
        decreases end,
    {
        proof {
            assert(s@.subrange(start as int, end as int - 1) =~= s@.subrange(start as int, end as int).drop_last());
        }
        end = end - 1;
    }
    proof {
        assert(trim_end(s@.subrange(start as int, end as int)) == s@.subrange(start as int, end as int));
    }
    let mut r = String::new();
    let mut j: usize = start;
    while j < end
        invariant
            n == s@.len(),
            start <= j <= end <= n,
            r@ == s@.subrange(start as int, j as int),
        decreases end - j,
    {
        push_char(&mut r, s.get_char(j));
        j = j + 1;
        assert(r@ =~= s@.subrange(start as int, j as int));
    }
    proof {
        assert(s@.skip(start as int) =~= s@.subrange(start as int, n as int));
    }
    r
}

/// Returns whether `c` has the Unicode `White_Space` property.
pub fn is_white_space_exec(c: char) -> (r: bool)
    ensures
        r == is_white_space(c),
{
    ('\u{9}' <= c && c <= '\u{d}') || c == ' ' || c == '\u{85}' || c == '\u{a0}' || c == '\u{1680}'
        || ('\u{2000}' <= c && c <= '\u{200a}') || c == '\u{2028}' || c == '\u{2029}' || c == '\u{202f}'
        || c == '\u{205f}' || c == '\u{3000}'
}

/// Larger digit strings have larger values: once a prefix exceeds a bound, so does the whole.
proof fn lemma_digits_value_grows(s: Seq<char>, k: int)
    requires
        0 <= k <= s.len(),
        forall|j: int| 0 <= j < s.len() ==> is_digit(#[trigger] s[j]),
    ensures
        digits_value(s.take(k)) <= digits_value(s),
    decreases s.len() - k,
{
    if k < s.len() {
        let t = s.take(k + 1);
        assert(t.drop_last() =~= s.take(k));
        assert(t.last() == s[k]);
        lemma_digits_value_grows(s, k + 1);
    } else {
        assert(s.take(k) =~= s);
    }
}

/// Parses a `u16` written in decimal, optionally preceded by `+`.
pub fn parse_u16(s: &str) -> (r: Option<u16>)
    ensures
        r == spec_parse_u16(s@),
{
    let n = s.unicode_len();
    let mut i: usize = 0;
    if n > 0 && s.get_char(0) == '+' {
        i = 1;
    }
    let ghost digits = unsigned_digits(s@);
    proof {
        assert(digits =~= s@.skip(i as int));
    }
    if i == n {
        return None;
    }
    let mut value: u32 = 0;
    let mut j: usize = i;
    while j < n
        invariant
            n == s@.len(),
            i <= j <= n,
            i < n,
            digits == s@.skip(i as int),
            digits == unsigned_digits(s@),
            forall|k: int| i <= k < j ==> is_digit(#[trigger] s@[k]),
            value == digits_value(s@.subrange(i as int, j as int)),
            value <= u16::MAX,
        decreases n - j,
    {
        let c = s.get_char(j);
        proof {
            assert(s@.subrange(i as int, j as int + 1).drop_last() =~= s@.subrange(i as int, j as int));
            assert(s@.subrange(i as int, j as int + 1).last() == c);
        }
        if !('0' <= c && c <= '9') {
            proof {
                assert(digits[j - i] == c);
                assert(!is_digit(digits[j - i]));
                assert(!all_digits(digits));
            }
            return None;
        }
        let d = (c as u32) - ('0' as u32);
        value = value * 10 + d;
        if value > 65535 {
            proof {
                let t = s@.subrange(i as int, j as int + 1);
                assert(value == digits_value(t));
                if all_digits(digits) {
                    assert(digits.take(j - i + 1) =~= t);
                    lemma_digits_value_grows(digits, j - i + 1);
                }
            }
            return None;
        }
        j = j + 1;
    }
    proof {
        assert(s@.subrange(i as int, n as int) =~= digits);
        assert forall|k: int| 0 <= k < digits.len() implies is_digit(#[trigger] digits[k]) by {
            assert(digits[k] == s@[k + i]);
        }
        assert(all_digits(digits));
    }
    Some(value as u16)
}

/// Returns whether `needle` occurs in `hay`.
pub fn contains(hay: &str, needle: &str) -> (r: bool)
    ensures
        r == spec_contains(hay@, needle@),
{
    let n = hay.unicode_len();
    let m = needle.unicode_len();
    if m > n {
        proof {
            assert forall|i: int| 0 <= i <= hay@.len() - needle@.len() implies #[trigger] hay@.subrange(i, i + needle@.len()) != needle@ by {
            }
        }
        return false;
    }
    let last = n - m;
    let mut i: usize = 0;
    loop
        invariant
            n == hay@.len(),
            m == needle@.len(),
            m <= n,
            last == n - m,
            i <= last,
            forall|p: int| 0 <= p < i ==> #[trigger] hay@.subrange(p, p + m) != needle@,
        decreases last - i,
    {
        let mut k: usize = 0;
        let mut same = true;
        while k < m && same
            invariant
                n == hay@.len(),
                m == needle@.len(),
                i + m <= n,
                k <= m,
                same ==> forall|q: int| 0 <= q < k ==> hay@[i + q] == needle@[q],
                !same ==> hay@.subrange(i as int, i + m) != needle@,
            decreases m - k,
        {
            if hay.get_char(i + k) != needle.get_char(k) {
                same = false;
                proof {
                    assert(hay@.subrange(i as int, i + m)[k as int] == hay@[i + k]);
                }
            }
            k = k + 1;
        }
        if same {
            proof {
                assert(hay@.subrange(i as int, i + m) =~= needle@);
            }
            return true;
        }
        if i == last {
            return false;
        }
        i = i + 1;
    }
}

} // verus!
