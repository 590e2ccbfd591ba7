//! Core names: the decimal index a platform reports for a logical core, the
//! hardware core id it stands for, and the name shown for it.

use vstd::prelude::*;

verus! {

/// `c` is an ASCII decimal digit.
pub open spec fn is_digit(c: char) -> bool {
    '0' <= c && c <= '9'
}

/// The value of a string of decimal digits, most significant first.
pub open spec fn digits_value(s: Seq<char>) -> int
    decreases s.len(),
{
    if s.len() == 0 {
        0
    } else {
        digits_value(s.drop_last()) * 10 + (s.last() as int - '0' as int)
    }
}

/// The digits of `s` once an optional leading `+` is dropped.
pub open spec fn unsigned_digits(s: Seq<char>) -> Seq<char> {
    if s.len() > 0 && s[0] == '+' {
        s.drop_first()
    } else {
        s
    }
}

/// The `u32` that `s` spells in decimal, as `u32::from_str` reads it: an
/// optional `+`, then one or more digits, of a value that fits.
pub open spec fn decimal_u32(s: Seq<char>) -> Option<u32> {
    let d = unsigned_digits(s);
    if d.len() > 0 && (forall|i: int| 0 <= i < d.len() ==> is_digit(#[trigger] d[i]))
        && digits_value(d) <= u32::MAX {
        Some(digits_value(d) as u32)
    } else {
        None
    }
}

/// The hardware core id of the logical core with reported index `index`: one
/// less than the index, with index 0 kept as 0.
pub open spec fn hardware_core_id(index: u32) -> u32 {
    if index == 0 {
        0
    } else {
        (index - 1) as u32
    }
}

/// The decimal digits of `n`, most significant first, without leading zeros.
pub open spec fn decimal_chars(n: nat) -> Seq<char>
    decreases n,
{
    if n < 10 {
        seq![(n + '0' as nat) as char]
    } else {
        decimal_chars(n / 10).push(((n % 10) + '0' as nat) as char)
    }
}

/// The name shown for a logical core: `cpu` followed by the hardware core id
/// when the reported name is a decimal index, else the reported name as is.
pub open spec fn display_name(name: Seq<char>) -> Seq<char> {
    match decimal_u32(name) {
        Some(i) => "cpu"@ + decimal_chars(hardware_core_id(i) as nat),
        None => name,
    }
}

proof fn lemma_digits_value_grows(s: Seq<char>, k: int)
    requires
        0 <= k <= s.len(),
        forall|i: int| 0 <= i < s.len() ==> is_digit(#[trigger] s[i]),
    ensures
        digits_value(s.take(k)) <= digits_value(s),
        0 <= digits_value(s.take(k)),
    decreases s.len() - k,
{
    if k < s.len() {
        lemma_digits_value_grows(s, k + 1);
        assert(s.take(k + 1).drop_last() =~= s.take(k));
    } else {
        assert(s.take(k) =~= s);
    }
    lemma_digits_value_nonneg(s.take(k));
}

proof fn lemma_digits_value_nonneg(s: Seq<char>)
    requires
        forall|i: int| 0 <= i < s.len() ==> is_digit(#[trigger] s[i]),
    ensures
        0 <= digits_value(s),
    decreases s.len(),
{
    if s.len() > 0 {
        assert(is_digit(s[s.len() - 1]));
        lemma_digits_value_nonneg(s.drop_last());
    }
}

/// Reads `name` as a decimal `u32`, with the rules of `u32::from_str`.
pub fn parse_core_index(name: &str) -> (r: Option<u32>)
    ensures
        r == decimal_u32(name@),
{
    let n = name.unicode_len();
    let mut i: usize = 0;
    if n > 0 && name.get_char(0) == '+' {
        i = 1;
    }
    let ghost d = unsigned_digits(name@);
    assert(d =~= name@.skip(i as int));
    if i >= n {
        return None;
    }
    let start = i;
    let mut acc: u64 = 0;
    while i < n
        invariant
            n == name@.len(),
            start <= i <= n,
            d == name@.skip(start as int),
            d == unsigned_digits(name@),
            d.len() > 0,
            forall|j: int| 0 <= j < i - start ==> is_digit(#[trigger] d[j]),
            acc == digits_value(d.take(i - start)),
            acc <= u32::MAX,
        decreases n - i,
    {
        let c = name.get_char(i);
        if !('0' <= c && c <= '9') {
            assert(d[i - start] == c);
            assert(!is_digit(d[i - start]));
            return None;
        }
        assert(d.take(i - start + 1).drop_last() =~= d.take(i - start));
        assert(d.take(i - start + 1).last() == c);
        let digit = (c as u32 - '0' as u32) as u64;
        acc = acc * 10 + digit;
        i = i + 1;
        assert(acc == digits_value(d.take(i - start)));
        if acc > u32::MAX as u64 {
            proof {
                if forall|j: int| 0 <= j < d.len() ==> is_digit(#[trigger] d[j]) {
                    lemma_digits_value_grows(d, i - start);
                }
            }
            return None;
        }
    }
    assert(d.take(i - start) =~= d);
    Some(acc as u32)
}

/// The hardware core id of the logical core with reported index `index`.
pub fn hardware_core_id_of(index: u32) -> (r: u32)
    ensures
        r == hardware_core_id(index),
{
    if index == 0 {
        0
    } else {
        index - 1
    }
}

fn digit_text(d: u32) -> (r: &'static str)
    requires
        d < 10,
    ensures
        r@ == seq![(d + '0' as nat) as char],
{
    let digits = "0123456789";
    proof {
        reveal_strlit("0123456789");
    }
    digits.substring_char(d as usize, d as usize + 1)
}

/// The decimal digits of `n`.
pub fn decimal_text(n: u32) -> (r: String)
    ensures
        r@ == decimal_chars(n as nat),
    decreases n,
{
    if n < 10 {
        String::from_str(digit_text(n))
    } else {
        let mut s = decimal_text(n / 10);
        s.append(digit_text(n % 10));
        s
    }
}

/// The name shown for a logical core whose platform-reported name is `name`.
pub fn core_display_name(name: &str) -> (r: String)
    ensures
        r@ == display_name(name@),
{
    match parse_core_index(name) {
        Some(index) => {
            let mut s = String::from_str("cpu");
            s.append(decimal_text(hardware_core_id_of(index)).as_str());
            s
        },
        None => String::from_str(name),
    }
}

} // verus!
