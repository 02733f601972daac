//! Small text-scanning helpers shared by the string formats of the library:
//! turning a `&str` into its characters, finding separators, trimming white
//! space, comparing against lower-case keywords and reading decimal `i32`s.
use vstd::prelude::*;

verus! {

/// The characters of `s`, in order.
pub fn str_chars(s: &str) -> (v: Vec<char>)
    ensures
        v@ == s@,
{
    let mut v: Vec<char> = Vec::new();
    for c in it: s.chars()
        invariant
            v@ == it.seq().take(it.index() as int),
            it.seq() == s@,
    {
        v.push(c);
    }
    v
}

/// The first index at or after `from` that holds `c`, or the length of `s`.
pub open spec fn find_char(s: Seq<char>, c: char, from: int) -> int
    decreases s.len() - from,
{
    if from >= s.len() {
        s.len() as int
    } else if s[from] == c {
        from
    } else {
        find_char(s, c, from + 1)
    }
}

/// `find_char` lands on `c` or on the end, and skips no `c` on the way.
pub proof fn lemma_find_char(s: Seq<char>, c: char, from: int)
    requires
        0 <= from <= s.len(),
    ensures
        from <= find_char(s, c, from) <= s.len(),
        find_char(s, c, from) < s.len() ==> s[find_char(s, c, from)] == c,
        forall|k: int| from <= k < find_char(s, c, from) ==> s[k] != c,
    decreases s.len() - from,
{
    if from < s.len() && s[from] != c {
        lemma_find_char(s, c, from + 1);
    }
}

/// Searching a suffix is searching the whole from the suffix's start.
pub proof fn lemma_find_char_skip(s: Seq<char>, c: char, from: int)
    requires
        0 <= from <= s.len(),
    ensures
        find_char(s.skip(from), c, 0) == find_char(s, c, from) - from,
{
    lemma_find_char(s, c, from);
    lemma_find_char(s.skip(from), c, 0);
    let a = find_char(s.skip(from), c, 0);
    let b = find_char(s, c, from);
    if a + from < b {
        assert(s.skip(from)[a] == s[a + from]);
    } else if a + from > b {
        assert(s.skip(from)[b - from] == s[b]);
    }
}

/// The index of the first `c` at or after `from`, or `s.len()` when there is none.
pub fn find_char_from(s: &[char], c: char, from: usize) -> (r: usize)
    requires
        from <= s@.len(),
    ensures
        r == find_char(s@, c, from as int),
{
    proof {
        lemma_find_char(s@, c, from as int);
    }
    let mut k = from;
    while k < s.len()
        invariant
            from <= k <= s@.len(),
            find_char(s@, c, from as int) == find_char(s@, c, k as int),
        decreases s@.len() - k,
    {
        if s[k] == c {
            return k;
        }
        k = k + 1;
    }
    k
}

/// White space as `str::trim` understands it (the Unicode `White_Space` property).
pub open spec fn is_white_space(c: char) -> bool {
    ||| '\u{9}' <= c <= '\u{d}'
    ||| c == ' '
    ||| c == '\u{85}'
    ||| c == '\u{a0}'
    ||| c == '\u{1680}'
    ||| '\u{2000}' <= c <= '\u{200a}'
    ||| c == '\u{2028}'
    ||| c == '\u{2029}'
    ||| c == '\u{202f}'
    ||| c == '\u{205f}'
    ||| c == '\u{3000}'
}

fn white_space(c: char) -> (r: bool)
    ensures
        r == is_white_space(c),
{
    ('\u{9}' <= c && c <= '\u{d}') || c == ' ' || c == '\u{85}' || c == '\u{a0}' || c
        == '\u{1680}' || ('\u{2000}' <= c && c <= '\u{200a}') || c == '\u{2028}' || c
        == '\u{2029}' || c == '\u{202f}' || c == '\u{205f}' || c == '\u{3000}'
}

/// `s` without leading white space.
pub open spec fn trim_start(s: Seq<char>) -> Seq<char>
    decreases s.len(),
{
    if s.len() > 0 && is_white_space(s[0]) {
        trim_start(s.drop_first())
    } else {
        s
    }
}

/// `s` without trailing white space.
pub open spec fn trim_end(s: Seq<char>) -> Seq<char>
    decreases s.len(),
{
    if s.len() > 0 && is_white_space(s.last()) {
        trim_end(s.drop_last())
    } else {
        s
    }
}

/// `s` without leading or trailing white space.
pub open spec fn trim(s: Seq<char>) -> Seq<char> {
    trim_end(trim_start(s))
}

proof fn lemma_trim_start_step(s: Seq<char>, lo: int, hi: int)
    requires
        0 <= lo < hi <= s.len(),
        is_white_space(s[lo]),
    ensures
        trim_start(s.subrange(lo, hi)) == trim_start(s.subrange(lo + 1, hi)),
{
    assert(s.subrange(lo, hi).drop_first() =~= s.subrange(lo + 1, hi));
}

proof fn lemma_trim_end_step(s: Seq<char>, lo: int, hi: int)
    requires
        0 <= lo < hi <= s.len(),
        is_white_space(s[hi - 1]),
    ensures
        trim_end(s.subrange(lo, hi)) == trim_end(s.subrange(lo, hi - 1)),
{
    assert(s.subrange(lo, hi).drop_last() =~= s.subrange(lo, hi - 1));
}

/// The bounds of `s[lo..hi]` once white space is trimmed from both ends.
pub fn trim_bounds(s: &[char], lo: usize, hi: usize) -> (r: (usize, usize))
    requires
        lo <= hi <= s@.len(),
    ensures
        lo <= r.0 <= r.1 <= hi,
        s@.subrange(r.0 as int, r.1 as int) == trim(s@.subrange(lo as int, hi as int)),
{
    let mut a = lo;
    while a < hi && white_space(s[a])
        invariant
            lo <= a <= hi <= s@.len(),
            trim_start(s@.subrange(lo as int, hi as int)) == trim_start(
                s@.subrange(a as int, hi as int),
            ),
        decreases hi - a,
    {
        proof {
            lemma_trim_start_step(s@, a as int, hi as int);
        }
        a = a + 1;
    }
    proof {
        if a < hi {
            assert(trim_start(s@.subrange(a as int, hi as int)) == s@.subrange(a as int, hi as int));
        } else {
            assert(s@.subrange(a as int, hi as int).len() == 0);
        }
    }
    let mut b = hi;
    while b > a && white_space(s[b - 1])
        invariant
            lo <= a <= b <= hi <= s@.len(),
            trim(s@.subrange(lo as int, hi as int)) == trim_end(s@.subrange(a as int, b as int)),
        decreases b - a,
    {
        proof {
            lemma_trim_end_step(s@, a as int, b as int);
        }
        b = b - 1;
    }
    proof {
        if b > a {
            assert(s@.subrange(a as int, b as int).last() == s@[b - 1]);
        }
    }
    (a, b)
}

/// `c` with an ASCII capital turned into the small letter.
pub open spec fn ascii_lower(c: char) -> char {
    if 'A' <= c <= 'Z' {
        ((c as u32) + 32) as char
    } else {
        c
    }
}

/// `s` equals the lower-case word `word` when ASCII capitals are lowered.
///
/// For words without the letter `k` this is the same as comparing the
/// Unicode lower case of `s` with `word`: the only non-ASCII characters whose
/// lower case is ASCII are the Kelvin sign (to `k`), and lower-casing never
/// turns a non-ASCII character into several ASCII ones.
pub open spec fn lower_eq(s: Seq<char>, word: Seq<char>) -> bool {
    &&& s.len() == word.len()
    &&& forall|i: int| 0 <= i < s.len() ==> ascii_lower(#[trigger] s[i]) == word[i]
}

/// `c` with an ASCII capital lowered.
pub fn lower_char(c: char) -> (r: char)
    ensures
        r == ascii_lower(c),
{
    if 'A' <= c && c <= 'Z' {
        let u: u32 = c as u32;
        proof {
            assert(u + 32 <= 0x7f);
        }
        char_from_ascii(u + 32)
    } else {
        c
    }
}

fn char_from_ascii(u: u32) -> (r: char)
    requires
        u <= 0x7f,
    ensures
        r == u as char,
{
    let b: u8 = u as u8;
    b as char
}

/// Whether `s[lo..hi]`, with ASCII capitals lowered, is `word`.
pub fn lower_matches(s: &[char], lo: usize, hi: usize, word: &[char]) -> (r: bool)
    requires
        lo <= hi <= s@.len(),
    ensures
        r == lower_eq(s@.subrange(lo as int, hi as int), word@),
{
    if hi - lo != word.len() {
        return false;
    }
    let mut k: usize = 0;
    while k < word.len()
        invariant
            hi - lo == word@.len(),
            lo <= hi <= s@.len(),
            0 <= k <= word@.len(),
            forall|i: int| 0 <= i < k ==> ascii_lower(s@[lo + i]) == word@[i],
        decreases word@.len() - k,
    {
        if lower_char(s[lo + k]) != word[k] {
            proof {
                assert(s@.subrange(lo as int, hi as int)[k as int] == s@[lo + k]);
            }
            return false;
        }
        k = k + 1;
    }
    proof {
        assert forall|i: int| 0 <= i < s@.subrange(lo as int, hi as int).len() implies ascii_lower(
            #[trigger] s@.subrange(lo as int, hi as int)[i],
        ) == word@[i] by {
            assert(s@.subrange(lo as int, hi as int)[i] == s@[lo + i]);
        }
    }
    true
}

/// The value of a character as a decimal digit, if it is one.
pub open spec fn is_digit(c: char) -> bool {
    '0' <= c <= '9'
}

/// The number written by a string of decimal digits.
pub open spec fn digits_value(s: Seq<char>) -> nat
    decreases s.len(),
{
    if s.len() == 0 {
        0
    } else {
        digits_value(s.drop_last()) * 10 + ((s.last() as u32) - ('0' as u32)) as nat
    }
}

/// How many sign characters (`+` or `-`) lead `s`: zero or one.
pub open spec fn sign_len(s: Seq<char>) -> int {
    if s.len() > 0 && (s[0] == '-' || s[0] == '+') {
        1
    } else {
        0
    }
}

/// Every character of `s` is a decimal digit.
pub open spec fn all_digits(s: Seq<char>) -> bool {
    forall|i: int| 0 <= i < s.len() ==> is_digit(#[trigger] s[i])
}

/// The `i32` that `s` writes in decimal, as `i32::from_str` reads it: an
/// optional `+` or `-`, then at least one digit and nothing else, with the
/// value in range.
pub open spec fn parse_i32_spec(s: Seq<char>) -> Option<i32> {
    let digits = s.skip(sign_len(s));
    if digits.len() == 0 || !all_digits(digits) {
        None
    } else if s[0] == '-' {
        if digits_value(digits) <= 0x8000_0000 {
            Some((-(digits_value(digits) as int)) as i32)
        } else {
            None
        }
    } else {
        if digits_value(digits) <= 0x7fff_ffff {
            Some(digits_value(digits) as i32)
        } else {
            None
        }
    }
}

proof fn lemma_digits_value_step(s: Seq<char>, lo: int, k: int)
    requires
        0 <= lo <= k < s.len(),
    ensures
        digits_value(s.subrange(lo, k + 1)) == digits_value(s.subrange(lo, k)) * 10 + ((s[k] as u32)
            - ('0' as u32)) as nat,
{
    assert(s.subrange(lo, k + 1).drop_last() =~= s.subrange(lo, k));
}

proof fn lemma_digits_value_grows(s: Seq<char>, lo: int, k: int, hi: int)
    requires
        0 <= lo <= k <= hi <= s.len(),
        forall|i: int| lo <= i < hi ==> is_digit(#[trigger] s[i]),
    ensures
        digits_value(s.subrange(lo, k)) <= digits_value(s.subrange(lo, hi)),
    decreases hi - k,
{
    if k < hi {
        lemma_digits_value_grows(s, lo, k + 1, hi);
        lemma_digits_value_step(s, lo, k);
    }
}

/// Reads `s[lo..hi]` as an `i32` the way `i32::from_str` does.
pub fn parse_i32(s: &[char], lo: usize, hi: usize) -> (r: Option<i32>)
    requires
        lo <= hi <= s@.len(),
    ensures
        r == parse_i32_spec(s@.subrange(lo as int, hi as int)),
{
    let ghost t = s@.subrange(lo as int, hi as int);
    let neg = hi > lo && s[lo] == '-';
    let signed = hi > lo && (s[lo] == '-' || s[lo] == '+');
    let start = if signed {
        lo + 1
    } else {
        lo
    };
    let ghost digits = t.skip(sign_len(t));
    proof {
        assert(digits =~= s@.subrange(start as int, hi as int));
    }
    if start == hi {
        return None;
    }
    proof {
        assert(t[0] == s@[lo as int]);
    }
    let limit: u64 = if neg {
        0x8000_0000
    } else {
        0x7fff_ffff
    };
    let mut value: u64 = 0;
    let mut k = start;
    while k < hi
        invariant
            lo <= start <= k <= hi <= s@.len(),
            start < hi,
            digits == s@.subrange(start as int, hi as int),
            t == s@.subrange(lo as int, hi as int),
            digits == t.skip(sign_len(t)),
            neg == (t[0] == '-'),
            limit == (if neg {
                0x8000_0000u64
            } else {
                0x7fff_ffffu64
            }),
            forall|i: int| start <= i < k ==> is_digit(#[trigger] s@[i]),
            value == digits_value(s@.subrange(start as int, k as int)),
            value <= limit,
        decreases hi - k,
    {
        let c = s[k];
        if !('0' <= c && c <= '9') {
            proof {
                assert(digits[k - start] == s@[k as int]);
                assert(!all_digits(digits));
            }
            return None;
        }
        let d: u64 = (c as u32 - '0' as u32) as u64;
        proof {
            lemma_digits_value_step(s@, start as int, k as int);
        }
        let next = value * 10 + d;
        if next > limit {
            proof {
                if all_digits(digits) {
                    assert forall|i: int| start <= i < hi implies is_digit(#[trigger] s@[i]) by {
                        assert(digits[i - start] == s@[i]);
                    }
                    lemma_digits_value_grows(s@, start as int, k + 1, hi as int);
                }
            }
            return None;
        }
        value = next;
        k = k + 1;
    }
    proof {
        assert(s@.subrange(start as int, k as int) == digits);
        assert forall|i: int| 0 <= i < digits.len() implies is_digit(#[trigger] digits[i]) by {
            assert(digits[i] == s@[start + i]);
        }
    }
    if neg {
        let v: i64 = 0i64 - (value as i64);
        Some(v as i32)
    } else {
        Some(value as i32)
    }
}

} // verus!
