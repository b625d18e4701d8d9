//! Decimal digit strings: how the library writes integers into text and
//! reads them back. Shared by the metadata sidecar codec and by the lenient
//! window-identifier parse of the video pipeline plan.

use vstd::prelude::*;
use vstd::arithmetic::div_mod::lemma_fundamental_div_mod;
use vstd::string::StrSliceExecFns;

verus! {

/// Relies on String::push: appends exactly the given character.
#[verifier::external_body]
pub(crate) fn push_char(s: &mut String, c: char)
    ensures
        final(s)@ == old(s)@.push(c),
{
    s.push(c);
}

/// Whether a character is a decimal digit (codes 48 through 57, '0' to '9').
pub open spec fn is_digit(c: char) -> bool {
    48 <= c as u32 && c as u32 <= 57
}

/// The numeric value of a decimal digit character.
pub open spec fn digit_val(c: char) -> int {
    c as u32 - 48
}

/// Whether every character of a sequence is a decimal digit.
pub open spec fn all_digits(s: Seq<char>) -> bool {
    forall|k: int| 0 <= k < s.len() ==> is_digit(#[trigger] s[k])
}

/// The number a digit sequence denotes, most significant digit first.
pub open spec fn digits_val(s: Seq<char>) -> int
    decreases s.len(),
{
    if s.len() == 0 {
        0
    } else {
        digits_val(s.drop_last()) * 10 + digit_val(s.last())
    }
}

/// The digit character of a value from 0 through 9.
pub open spec fn digit_char(d: int) -> char {
    if d == 0 {
        '0'
    } else if d == 1 {
        '1'
    } else if d == 2 {
        '2'
    } else if d == 3 {
        '3'
    } else if d == 4 {
        '4'
    } else if d == 5 {
        '5'
    } else if d == 6 {
        '6'
    } else if d == 7 {
        '7'
    } else if d == 8 {
        '8'
    } else {
        '9'
    }
}

/// The canonical decimal rendering of a natural number: no sign, no leading
/// zeros (except for zero itself).
pub open spec fn dec_digits(n: nat) -> Seq<char>
    decreases n,
{
    if n < 10 {
        seq![digit_char(n as int)]
    } else {
        dec_digits(n / 10) + seq![digit_char((n % 10) as int)]
    }
}

/// The canonical decimal rendering of a signed number: a minus sign before
/// the magnitude when negative.
pub open spec fn dec_i32(n: int) -> Seq<char> {
    if n < 0 {
        seq!['-'] + dec_digits((-n) as nat)
    } else {
        dec_digits(n as nat)
    }
}

/// A digit character of a value in range denotes exactly that value.
pub proof fn lemma_digit_char_val(d: int)
    requires
        0 <= d <= 9,
    ensures
        is_digit(digit_char(d)),
        digit_val(digit_char(d)) == d,
{
}

/// The canonical rendering of a natural number is a nonempty digit string
/// that denotes exactly that number.
pub proof fn lemma_dec_digits(n: nat)
    ensures
        dec_digits(n).len() >= 1,
        all_digits(dec_digits(n)),
        digits_val(dec_digits(n)) == n,
    decreases n,
{
    if n < 10 {
        lemma_digit_char_val(n as int);
        let c = digit_char(n as int);
        assert(dec_digits(n) == seq![c]);
        assert(seq![c].drop_last() =~= Seq::<char>::empty());
        assert(seq![c].last() == c);
        assert(digits_val(Seq::<char>::empty()) == 0);
        assert(digits_val(seq![c]) == 0 * 10 + digit_val(c));
    } else {
        lemma_dec_digits(n / 10);
        lemma_digit_char_val((n % 10) as int);
        lemma_fundamental_div_mod(n as int, 10);
        let a = dec_digits(n / 10);
        let w = dec_digits(n);
        assert(w.drop_last() =~= a);
        assert(w.last() == digit_char((n % 10) as int));
        assert forall|k: int| 0 <= k < w.len() implies is_digit(w[k]) by {
            if k < a.len() {
                assert(w[k] == a[k]);
            } else {
                assert(w[k] == digit_char((n % 10) as int));
            }
        }
    }
}

/// A digit string denotes a nonnegative number.
pub proof fn lemma_digits_val_nonneg(s: Seq<char>)
    requires
        all_digits(s),
    ensures
        digits_val(s) >= 0,
    decreases s.len(),
{
    if s.len() > 0 {
        assert(all_digits(s.drop_last()));
        lemma_digits_val_nonneg(s.drop_last());
    }
}

/// Extending a digit string never decreases the number it denotes.
pub proof fn lemma_digits_val_prefix(s: Seq<char>, i: int)
    requires
        all_digits(s),
        0 <= i <= s.len(),
    ensures
        digits_val(s.subrange(0, i)) <= digits_val(s),
    decreases s.len() - i,
{
    if i == s.len() {
        assert(s.subrange(0, i) =~= s);
    } else {
        lemma_digits_val_prefix(s, i + 1);
        let t = s.subrange(0, i + 1);
        assert(t.drop_last() =~= s.subrange(0, i));
        assert(all_digits(s.subrange(0, i)));
        lemma_digits_val_nonneg(s.subrange(0, i));
        assert(is_digit(t.last()));
    }
}

/// Where the run of consecutive digit characters beginning at `i` ends: the
/// first position at or after `i` that is past the end or not a digit.
pub open spec fn digit_run_end(s: Seq<char>, i: int) -> int
    recommends
        0 <= i <= s.len(),
    decreases s.len() - i,
    when 0 <= i <= s.len()
{
    if i < s.len() && is_digit(s[i]) {
        digit_run_end(s, i + 1)
    } else {
        i
    }
}

/// Basic facts about a digit run: it stays in bounds, it consists of digits,
/// and it stops right before a non-digit.
pub proof fn lemma_digit_run_end(s: Seq<char>, i: int)
    requires
        0 <= i <= s.len(),
    ensures
        i <= digit_run_end(s, i) <= s.len(),
        all_digits(s.subrange(i, digit_run_end(s, i))),
        digit_run_end(s, i) < s.len() ==> !is_digit(s[digit_run_end(s, i)]),
    decreases s.len() - i,
{
    if i < s.len() && is_digit(s[i]) {
        lemma_digit_run_end(s, i + 1);
        let j = digit_run_end(s, i);
        assert forall|k: int| 0 <= k < j - i implies is_digit(
            #[trigger] s.subrange(i, j)[k],
        ) by {
            if k == 0 {
                assert(s.subrange(i, j)[0] == s[i]);
            } else {
                assert(s.subrange(i, j)[k] == s.subrange(i + 1, j)[k - 1]);
            }
        }
    }
}

/// A block of digits followed by a non-digit (or the end of the text) is
/// exactly the digit run at its start.
pub proof fn lemma_digit_run_of_block(s: Seq<char>, i: int, d: Seq<char>)
    requires
        0 <= i,
        i + d.len() <= s.len(),
        s.subrange(i, i + d.len()) == d,
        all_digits(d),
        i + d.len() < s.len() ==> !is_digit(s[i + d.len()]),
    ensures
        digit_run_end(s, i) == i + d.len(),
    decreases d.len(),
{
    if d.len() == 0 {
    } else {
        assert(s[i] == d[0]);
        assert(is_digit(d[0]));
        assert(s.subrange(i + 1, i + d.len()) =~= d.subrange(1, d.len() as int));
        assert(all_digits(d.subrange(1, d.len() as int)));
        lemma_digit_run_of_block(s, i + 1, d.subrange(1, d.len() as int));
    }
}

/// The canonical decimal rendering of a number, as text.
pub fn u64_to_dec(n: u64) -> (s: String)
    ensures
        s@ == dec_digits(n as nat),
    decreases n,
{
    if n < 10 {
        let mut s = String::new();
        push_char(&mut s, digit_char_of(n));
        proof {
            assert(s@ =~= dec_digits(n as nat));
        }
        s
    } else {
        let mut s = u64_to_dec(n / 10);
        push_char(&mut s, digit_char_of(n % 10));
        proof {
            assert(s@ =~= dec_digits(n as nat));
        }
        s
    }
}

/// The canonical decimal rendering of a signed number, as text.
pub fn i32_to_dec(n: i32) -> (s: String)
    ensures
        s@ == dec_i32(n as int),
{
    if n >= 0 {
        u64_to_dec(n as u64)
    } else {
        let magnitude: u64 = (-(n as i64)) as u64;
        let mut s = String::new();
        push_char(&mut s, '-');
        let digits = u64_to_dec(magnitude);
        s.append(digits.as_str());
        proof {
            assert(magnitude as int == -(n as int));
            assert(s@ =~= dec_i32(n as int));
        }
        s
    }
}

/// The digit character of a value from 0 through 9, as an executable value.
fn digit_char_of(d: u64) -> (c: char)
    requires
        d < 10,
    ensures
        c == digit_char(d as int),
{
    match d {
        0 => '0',
        1 => '1',
        2 => '2',
        3 => '3',
        4 => '4',
        5 => '5',
        6 => '6',
        7 => '7',
        8 => '8',
        _ => '9',
    }
}

/// The number the digit run starting at `i` denotes, together with the
/// position right after the run; nothing when the run is empty or the
/// number does not fit the type.
pub open spec fn spec_scan_u64(s: Seq<char>, i: int) -> Option<(u64, int)> {
    let j = digit_run_end(s, i);
    if j <= i {
        Option::None
    } else if digits_val(s.subrange(i, j)) <= u64::MAX {
        Option::Some((digits_val(s.subrange(i, j)) as u64, j))
    } else {
        Option::None
    }
}

/// Reads the digit run starting at `i`, returning its value and the position
/// right after it; `None` when no digit stands at `i` or the value exceeds
/// the type's range.
pub fn scan_u64(s: &str, i: usize) -> (r: Option<(u64, usize)>)
    requires
        i <= s@.len(),
    ensures
        match r {
            Option::Some(p) => spec_scan_u64(s@, i as int) == Option::Some((p.0, p.1 as int)) && i
                < p.1 <= s@.len(),
            Option::None => spec_scan_u64(s@, i as int) is None,
        },
{
    let len = s.unicode_len();
    proof {
        lemma_digit_run_end(s@, i as int);
    }
    let mut j: usize = i;
    loop
        invariant_except_break
            i <= j <= len,
            len == s@.len(),
            digit_run_end(s@, i as int) == digit_run_end(s@, j as int),
        ensures
            i <= j <= len,
            len == s@.len(),
            j == digit_run_end(s@, i as int),
        decreases len - j,
    {
        if j >= len {
            break ;
        }
        let c = s.get_char(j);
        if !(48 <= c as u32 && c as u32 <= 57) {
            break ;
        }
        j = j + 1;
    }
    if j == i {
        return Option::None;
    }
    proof {
        lemma_digit_run_end(s@, i as int);
    }
    let ghost run = s@.subrange(i as int, j as int);
    let mut k: usize = i;
    let mut acc: u64 = 0;
    while k < j
        invariant
            i <= k <= j <= len,
            len == s@.len(),
            j == digit_run_end(s@, i as int),
            all_digits(s@.subrange(i as int, j as int)),
            run == s@.subrange(i as int, j as int),
            acc == digits_val(s@.subrange(i as int, k as int)),
        decreases j - k,
    {
        let c = s.get_char(k);
        proof {
            assert(s@[k as int] == run[k - i]);
            assert(is_digit(s@[k as int]));
        }
        let d: u64 = (c as u32 - 48) as u64;
        if acc > (u64::MAX - d) / 10 {
            proof {
                let t = s@.subrange(i as int, k as int + 1);
                assert(t.drop_last() =~= s@.subrange(i as int, k as int));
                assert(digits_val(t) == acc * 10 + d);
                assert(acc * 10 + d > u64::MAX) by (nonlinear_arith)
                    requires
                        acc > (u64::MAX - d) / 10,
                        d <= 9,
                ;
                assert(t =~= run.subrange(0, k - i + 1));
                lemma_digits_val_prefix(run, k - i + 1);
                assert(digits_val(run) > u64::MAX);
            }
            return Option::None;
        }
        proof {
            let t = s@.subrange(i as int, k as int + 1);
            assert(t.drop_last() =~= s@.subrange(i as int, k as int));
            assert(digits_val(t) == acc * 10 + d);
            assert(acc * 10 + d <= u64::MAX) by (nonlinear_arith)
                requires
                    acc <= (u64::MAX - d) / 10,
                    d <= 9,
            ;
        }
        acc = acc * 10 + d;
        k = k + 1;
    }
    Option::Some((acc, j))
}

/// The signed number written at `i` — an optional minus sign before a digit
/// run — together with the position right after it; nothing when no number
/// stands there or it does not fit the type.
pub open spec fn spec_scan_i32(s: Seq<char>, i: int) -> Option<(i32, int)> {
    if 0 <= i < s.len() && s[i] == '-' {
        match spec_scan_u64(s, i + 1) {
            Option::Some((v, j)) => if v <= 0x8000_0000u64 {
                Option::Some(((-(v as int)) as i32, j))
            } else {
                Option::None
            },
            Option::None => Option::None,
        }
    } else {
        match spec_scan_u64(s, i) {
            Option::Some((v, j)) => if v <= 0x7fff_ffffu64 {
                Option::Some((v as i32, j))
            } else {
                Option::None
            },
            Option::None => Option::None,
        }
    }
}

/// Reads the signed number written at `i`, returning its value and the
/// position right after it.
pub fn scan_i32(s: &str, i: usize) -> (r: Option<(i32, usize)>)
    requires
        i <= s@.len(),
    ensures
        match r {
            Option::Some(p) => spec_scan_i32(s@, i as int) == Option::Some((p.0, p.1 as int))
                && p.1 <= s@.len(),
            Option::None => spec_scan_i32(s@, i as int) is None,
        },
{
    let len = s.unicode_len();
    if i < len && s.get_char(i) == '-' {
        match scan_u64(s, i + 1) {
            Option::Some((v, j)) => {
                if v <= 0x8000_0000u64 {
                    let w: i32 = (-(v as i64)) as i32;
                    Option::Some((w, j))
                } else {
                    Option::None
                }
            },
            Option::None => Option::None,
        }
    } else {
        match scan_u64(s, i) {
            Option::Some((v, j)) => {
                if v <= 0x7fff_ffffu64 {
                    Option::Some((v as i32, j))
                } else {
                    Option::None
                }
            },
            Option::None => Option::None,
        }
    }
}

/// What parsing a whole string as an unsigned 32-bit number yields: an
/// optional plus sign, then at least one digit and nothing else, denoting a
/// value in range. Anything else is rejected.
pub open spec fn spec_parse_u32(s: Seq<char>) -> Option<u32> {
    let start: int = if s.len() >= 1 && s[0] == '+' {
        1
    } else {
        0
    };
    let j = digit_run_end(s, start);
    if j == s.len() && j > start && digits_val(s.subrange(start, j)) <= u32::MAX {
        Option::Some(digits_val(s.subrange(start, j)) as u32)
    } else {
        Option::None
    }
}

/// Reading a number at the position where its canonical rendering was
/// written, with no digit following it, yields exactly that number.
pub proof fn lemma_scan_u64_block(s: Seq<char>, i: int, n: u64)
    requires
        0 <= i,
        i + dec_digits(n as nat).len() <= s.len(),
        s.subrange(i, i + dec_digits(n as nat).len()) == dec_digits(n as nat),
        i + dec_digits(n as nat).len() < s.len() ==> !is_digit(s[i + dec_digits(n as nat).len()]),
    ensures
        spec_scan_u64(s, i) == Option::Some((n, i + dec_digits(n as nat).len())),
{
    lemma_dec_digits(n as nat);
    lemma_digit_run_of_block(s, i, dec_digits(n as nat));
}

/// Reading a signed number at the position where its canonical rendering was
/// written, with no digit following it, yields exactly that number.
pub proof fn lemma_scan_i32_block(s: Seq<char>, i: int, w: i32)
    requires
        0 <= i,
        i + dec_i32(w as int).len() <= s.len(),
        s.subrange(i, i + dec_i32(w as int).len()) == dec_i32(w as int),
        i + dec_i32(w as int).len() < s.len() ==> !is_digit(s[i + dec_i32(w as int).len()]),
    ensures
        spec_scan_i32(s, i) == Option::Some((w, i + dec_i32(w as int).len())),
{
    if w >= 0 {
        let d = dec_digits(w as nat);
        assert(dec_i32(w as int) == d);
        lemma_dec_digits(w as nat);
        assert(s[i] == s.subrange(i, i + d.len())[0]);
        assert(is_digit(s[i]));
        assert(s[i] != '-');
        lemma_scan_u64_block(s, i, w as u64);
    } else {
        let magnitude: u64 = (-(w as int)) as u64;
        let d = dec_digits(magnitude as nat);
        assert(dec_i32(w as int) == seq!['-'] + d);
        lemma_dec_digits(magnitude as nat);
        assert(s[i] == s.subrange(i, i + dec_i32(w as int).len())[0]);
        assert(s[i] == '-');
        assert(s.subrange(i + 1, i + 1 + d.len()) =~= d) by {
            assert forall|k: int| 0 <= k < d.len() implies s.subrange(i + 1, i + 1 + d.len())[k]
                == d[k] by {
                assert(s.subrange(i, i + dec_i32(w as int).len())[1 + k] == s[i + (1 + k)]);
            }
        }
        lemma_scan_u64_block(s, i + 1, magnitude);
        assert(magnitude <= 0x8000_0000u64);
        assert((-(magnitude as int)) as i32 == w);
    }
}

/// Parses a whole string as an unsigned 32-bit number, as the standard
/// decimal parse does: an optional leading plus sign, then only digits.
pub fn parse_u32(s: &str) -> (r: Option<u32>)
    ensures
        r == spec_parse_u32(s@),
{
    let len = s.unicode_len();
    let start: usize = if len >= 1 && s.get_char(0) == '+' {
        1
    } else {
        0
    };
    match scan_u64(s, start) {
        Option::Some((v, j)) => {
            if j == len && v <= 0xffff_ffffu64 {
                proof {
                    lemma_digit_run_end(s@, start as int);
                    lemma_digits_val_nonneg(s@.subrange(start as int, j as int));
                }
                Option::Some(v as u32)
            } else {
                proof {
                    lemma_digit_run_end(s@, start as int);
                    if j != len {
                        assert(digit_run_end(s@, start as int) != s@.len());
                    } else {
                        lemma_digits_val_nonneg(s@.subrange(start as int, j as int));
                    }
                }
                Option::None
            }
        },
        Option::None => {
            proof {
                lemma_digit_run_end(s@, start as int);
                let j = digit_run_end(s@, start as int);
                if j > start as int {
                    assert(digits_val(s@.subrange(start as int, j)) > u64::MAX);
                }
            }
            Option::None
        },
    }
}

} // verus!
