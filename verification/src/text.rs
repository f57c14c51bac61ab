//! Plain-text helpers shared by the configuration reader and the scope
//! filter: decimal digit runs, decimal values, and blank-line detection.

use vstd::prelude::*;

verus! {

/// The ASCII decimal digits.
pub open spec fn is_digit(c: char) -> bool {
    48 <= c as u32 <= 57
}

/// Numeric value of a decimal digit.
pub open spec fn digit_val(c: char) -> int {
    c as u32 - 48
}

/// Index of the first character at or after `i` that is not a decimal digit
/// (the length of the string if every remaining character is a digit).
pub open spec fn digit_run_end(s: Seq<char>, i: int) -> int
    decreases s.len() - i,
{
    if i >= s.len() {
        i
    } else if is_digit(s[i]) {
        digit_run_end(s, i + 1)
    } else {
        i
    }
}

pub proof fn lemma_digit_run_end(s: Seq<char>, i: int)
    requires
        0 <= i <= s.len(),
    ensures
        i <= digit_run_end(s, i) <= s.len(),
        forall|k: int| i <= k < digit_run_end(s, i) ==> #[trigger] is_digit(s[k]),
        digit_run_end(s, i) < s.len() ==> !is_digit(s[digit_run_end(s, i)]),
    decreases s.len() - i,
{
    if i < s.len() && is_digit(s[i]) {
        lemma_digit_run_end(s, i + 1);
    }
}

/// A digit run that reaches `j` ends at `j` exactly when `j` is the end of
/// the string or the character there is no digit.
pub proof fn lemma_digit_run_end_unique(s: Seq<char>, i: int, j: int)
    requires
        0 <= i <= j <= s.len(),
        forall|k: int| i <= k < j ==> #[trigger] is_digit(s[k]),
        j == s.len() || !is_digit(s[j]),
    ensures
        digit_run_end(s, i) == j,
    decreases j - i,
{
    if i < j {
        assert(is_digit(s[i]));
        lemma_digit_run_end_unique(s, i + 1, j);
    }
}

/// A digit run extends at least as far as any all-digit prefix.
pub proof fn lemma_digit_run_end_at_least(s: Seq<char>, i: int, j: int)
    requires
        0 <= i <= j <= s.len(),
        forall|k: int| i <= k < j ==> #[trigger] is_digit(s[k]),
    ensures
        digit_run_end(s, i) >= j,
    decreases j - i,
{
    lemma_digit_run_end(s, i);
    if i < j {
        assert(is_digit(s[i]));
        lemma_digit_run_end_at_least(s, i + 1, j);
    }
}

/// Value of the decimal digits `s[i..j]`, most significant first.
pub open spec fn digits_value(s: Seq<char>, i: int, j: int) -> int
    decreases j - i,
{
    if j <= i {
        0
    } else {
        digits_value(s, i, j - 1) * 10 + digit_val(s[j - 1])
    }
}

pub proof fn lemma_digits_value_nonneg(s: Seq<char>, i: int, j: int)
    requires
        forall|k: int| i <= k < j ==> #[trigger] is_digit(s[k]),
    ensures
        digits_value(s, i, j) >= 0,
    decreases j - i,
{
    if j > i {
        lemma_digits_value_nonneg(s, i, j - 1);
        assert(is_digit(s[j - 1]));
    }
}

/// Appending further digits never makes the value smaller.
pub proof fn lemma_digits_value_mono(s: Seq<char>, i: int, j: int, k: int)
    requires
        i <= j <= k,
        forall|m: int| i <= m < k ==> #[trigger] is_digit(s[m]),
    ensures
        digits_value(s, i, j) <= digits_value(s, i, k),
    decreases k - j,
{
    if j < k {
        lemma_digits_value_mono(s, i, j, k - 1);
        lemma_digits_value_nonneg(s, i, k - 1);
        assert(is_digit(s[k - 1]));
    }
}

/// The value of a non-empty, all-digit string, when it fits in a `u64`.
/// Signs, spaces and any other characters are rejected.
pub open spec fn spec_parse_u64(s: Seq<char>) -> Option<u64> {
    if s.len() >= 1 && (forall|k: int| 0 <= k < s.len() ==> #[trigger] is_digit(s[k]))
        && digits_value(s, 0, s.len() as int) <= u64::MAX {
        Some(digits_value(s, 0, s.len() as int) as u64)
    } else {
        None
    }
}

pub fn parse_u64(s: &str) -> (r: Option<u64>)
    ensures
        r == spec_parse_u64(s@),
{
    let n = s.unicode_len();
    if n == 0 {
        return None;
    }
    let mut acc: u128 = 0;
    let mut i: usize = 0;
    while i < n
        invariant
            0 < n == s@.len(),
            0 <= i <= n,
            forall|k: int| 0 <= k < i ==> #[trigger] is_digit(s@[k]),
            acc == digits_value(s@, 0, i as int),
            acc <= u64::MAX,
        decreases n - i,
    {
        let c = s.get_char(i);
        let u = c as u32;
        if u < 48 || u > 57 {
            proof {
                assert(!is_digit(s@[i as int]));
            }
            return None;
        }
        acc = acc * 10 + ((u - 48) as u128);
        i = i + 1;
        if acc > u64::MAX as u128 {
            proof {
                assert(acc == digits_value(s@, 0, i as int));
                if forall|k: int| 0 <= k < s@.len() ==> #[trigger] is_digit(s@[k]) {
                    lemma_digits_value_mono(s@, 0, i as int, s@.len() as int);
                    assert(digits_value(s@, 0, s@.len() as int) > u64::MAX);
                }
            }
            return None;
        }
    }
    Some(acc as u64)
}

/// The characters that count as whitespace for blank-line detection:
/// the Unicode `White_Space` set.
pub open spec fn is_ws_char(c: char) -> bool {
    let u = c as u32;
    u == 9 || u == 10 || u == 11 || u == 12 || u == 13 || u == 32 || u == 0x85 || u == 0xA0
        || u == 0x1680 || (0x2000 <= u && u <= 0x200A) || u == 0x2028 || u == 0x2029 || u == 0x202F
        || u == 0x205F || u == 0x3000
}

/// A line is blank when every character is whitespace (so in particular when
/// it is empty).
pub open spec fn spec_is_blank(s: Seq<char>) -> bool {
    forall|k: int| 0 <= k < s.len() ==> #[trigger] is_ws_char(s[k])
}

fn char_is_ws(c: char) -> (b: bool)
    ensures
        b == is_ws_char(c),
{
    let u = c as u32;
    u == 9 || u == 10 || u == 11 || u == 12 || u == 13 || u == 32 || u == 0x85 || u == 0xA0
        || u == 0x1680 || (0x2000 <= u && u <= 0x200A) || u == 0x2028 || u == 0x2029 || u == 0x202F
        || u == 0x205F || u == 0x3000
}

pub fn is_blank(s: &str) -> (r: bool)
    ensures
        r == spec_is_blank(s@),
{
    let n = s.unicode_len();
    let mut i: usize = 0;
    while i < n
        invariant
            0 <= i <= n == s@.len(),
            forall|k: int| 0 <= k < i ==> #[trigger] is_ws_char(s@[k]),
        decreases n - i,
    {
        let c = s.get_char(i);
        if !char_is_ws(c) {
            return false;
        }
        i = i + 1;
    }
    true
}

} // verus!
