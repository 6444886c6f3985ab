//! A checker and extractor for the ingestion response body.
//!
//! The grammar is standard JSON. The response envelope the service
//! documents is an object that may carry an `errors` array; each entry
//! of that array may carry `id`, `status`, `message` and `error`
//! fields. The
//! specification functions below define, deterministically, where each
//! construct ends and what the extractor captures; the executable
//! parser is proved to return exactly what they say.
//!
//! Captured string content is kept as the raw bytes between the quotes:
//! escape sequences are carried as written, since the captured fields
//! serve only as diagnostics. A `status` is captured when the number is
//! a plain unsigned integer of at most nine digits; any other shape
//! leaves the field empty.
//!
//! Recursion through nested values is bounded by a fuel parameter; the
//! top-level functions supply one unit more than the input length,
//! which no well-formed input can exhaust, since every nesting level
//! consumes at least one byte.

use vstd::prelude::*;
use crate::jsonenc::is_digit;
use crate::jsonenc::sbytes;
use crate::jsonenc::sp_scan_number;
use crate::jsonenc::scan_number;

verus! {

/// True for the JSON whitespace bytes.
pub open spec fn is_ws(b: u8) -> bool {
    b == 32 || b == 9 || b == 10 || b == 13
}

/// The index of the first non-whitespace byte at or after `i`.
pub open spec fn sp_ws(s: Seq<u8>, i: int) -> int
    decreases s.len() - i,
{
    if 0 <= i < s.len() && is_ws(s[i]) {
        sp_ws(s, i + 1)
    } else {
        i
    }
}

pub proof fn lemma_ws_range(s: Seq<u8>, i: int)
    requires
        0 <= i <= s.len(),
    ensures
        i <= sp_ws(s, i) <= s.len(),
    decreases s.len() - i,
{
    if i < s.len() && is_ws(s[i]) {
        lemma_ws_range(s, i + 1);
    }
}

/// True for the byte a single-character escape may name.
pub open spec fn is_simple_esc(b: u8) -> bool {
    b == 34 || b == 92 || b == 47 || b == 98 || b == 102 || b == 110 || b == 114 || b == 116
}

/// True for a hexadecimal digit byte, either case.
pub open spec fn is_hex(b: u8) -> bool {
    is_digit(b) || (97 <= b <= 102) || (65 <= b <= 70)
}

/// Where a JSON string that began before `j` ends: scans content
/// bytes, validating each escape, until the closing quote, and yields
/// the index just past it. Raw control bytes are refused; a `\u`
/// escape must carry four hex digits, though surrogate pairing is not
/// checked.
pub open spec fn sp_str_tail(s: Seq<u8>, j: int) -> Option<int>
    decreases s.len() - j,
{
    if !(0 <= j < s.len()) {
        None
    } else if s[j] == 34 {
        Some(j + 1)
    } else if s[j] == 92 {
        if j + 1 < s.len() && is_simple_esc(s[j + 1]) {
            sp_str_tail(s, j + 2)
        } else if j + 1 < s.len() && s[j + 1] == 117 {
            if j + 6 <= s.len() && is_hex(s[j + 2]) && is_hex(s[j + 3]) && is_hex(s[j + 4])
                && is_hex(s[j + 5]) {
                sp_str_tail(s, j + 6)
            } else {
                None
            }
        } else {
            None
        }
    } else if s[j] < 32 {
        None
    } else {
        sp_str_tail(s, j + 1)
    }
}

/// The end of a JSON string starting with the quote at `i`.
pub open spec fn sp_str_end(s: Seq<u8>, i: int) -> Option<int> {
    if 0 <= i < s.len() && s[i] == 34 {
        sp_str_tail(s, i + 1)
    } else {
        None
    }
}

pub proof fn lemma_str_tail_range(s: Seq<u8>, j: int)
    requires
        0 <= j <= s.len(),
    ensures
        sp_str_tail(s, j) matches Some(e) ==> j < e <= s.len(),
    decreases s.len() - j,
{
    if j < s.len() {
        if s[j] == 34 {
        } else if s[j] == 92 {
            if j + 1 < s.len() && is_simple_esc(s[j + 1]) {
                lemma_str_tail_range(s, j + 2);
            } else if j + 1 < s.len() && s[j + 1] == 117 && j + 6 <= s.len() {
                lemma_str_tail_range(s, j + 6);
            }
        } else if s[j] < 32 {
        } else {
            lemma_str_tail_range(s, j + 1);
        }
    }
}

pub proof fn lemma_str_end_range(s: Seq<u8>, i: int)
    requires
        0 <= i <= s.len(),
    ensures
        sp_str_end(s, i) matches Some(e) ==> i + 2 <= e <= s.len(),
{
    if 0 <= i < s.len() && s[i] == 34 {
        lemma_str_tail_range(s, i + 1);
    }
}

/// Skips whitespace bytes starting at `i`.
pub fn skip_ws(s: &[u8], i: usize) -> (r: usize)
    requires
        i <= s@.len(),
    ensures
        r as int == sp_ws(s@, i as int),
        i <= r <= s@.len(),
{
    let mut j: usize = i;
    loop
        invariant
            i <= j <= s@.len(),
            sp_ws(s@, i as int) == sp_ws(s@, j as int),
        decreases s@.len() - j,
    {
        if j < s.len() && (s[j] == 32 || s[j] == 9 || s[j] == 10 || s[j] == 13) {
            j = j + 1;
        } else {
            return j;
        }
    }
}

/// Scans one JSON string whose opening quote stands at `i`, returning
/// the index just past the closing quote.
pub fn scan_string(s: &[u8], i: usize) -> (r: Option<usize>)
    requires
        i <= s@.len(),
    ensures
        r is Some <==> sp_str_end(s@, i as int) is Some,
        r matches Some(e) ==> Some(e as int) == sp_str_end(s@, i as int) && i + 2 <= e
            <= s@.len(),
{
    proof {
        lemma_str_end_range(s@, i as int);
    }
    if !(i < s.len() && s[i] == 34) {
        return None;
    }
    let mut j: usize = i + 1;
    loop
        invariant
            i + 1 <= j <= s@.len(),
            sp_str_tail(s@, i + 1 as int) == sp_str_tail(s@, j as int),
            sp_str_end(s@, i as int) == sp_str_tail(s@, i + 1 as int),
        decreases s@.len() - j,
    {
        if j >= s.len() {
            return None;
        }
        let b = s[j];
        if b == 34 {
            return Some(j + 1);
        } else if b == 92 {
            if j + 1 < s.len() && simple_esc(s[j + 1]) {
                j = j + 2;
            } else if j + 1 < s.len() && s[j + 1] == 117 {
                if s.len() >= 6 && j <= s.len() - 6 && hex_byte(s[j + 2]) && hex_byte(s[j + 3])
                    && hex_byte(s[j + 4]) && hex_byte(s[j + 5]) {
                    j = j + 6;
                } else {
                    return None;
                }
            } else {
                return None;
            }
        } else if b < 32 {
            return None;
        } else {
            j = j + 1;
        }
    }
}

/// Tests for a single-character escape name.
fn simple_esc(b: u8) -> (r: bool)
    ensures
        r == is_simple_esc(b),
{
    b == 34 || b == 92 || b == 47 || b == 98 || b == 102 || b == 110 || b == 114 || b == 116
}

/// Tests for a hexadecimal digit byte.
fn hex_byte(b: u8) -> (r: bool)
    ensures
        r == is_hex(b),
{
    (48 <= b && b <= 57) || (97 <= b && b <= 102) || (65 <= b && b <= 70)
}

/// Copies the bytes of `s` between `a` and `b`.
pub fn copy_range(s: &[u8], a: usize, b: usize) -> (r: Vec<u8>)
    requires
        a <= b <= s@.len(),
    ensures
        r@ == s@.subrange(a as int, b as int),
{
    let mut out: Vec<u8> = Vec::new();
    let mut i: usize = a;
    while i < b
        invariant
            a <= i <= b <= s@.len(),
            out@ == s@.subrange(a as int, i as int),
        decreases b - i,
    {
        out.push(s[i]);
        proof {
            assert(s@.subrange(a as int, i + 1 as int) =~= s@.subrange(a as int, i as int).push(
                s@[i as int],
            ));
        }
        i = i + 1;
    }
    out
}

/// Compares the bytes of `s` between `a` and `b` with `t`.
pub fn range_eq(s: &[u8], a: usize, b: usize, t: &[u8]) -> (r: bool)
    requires
        a <= b <= s@.len(),
    ensures
        r <==> s@.subrange(a as int, b as int) == t@,
{
    if b - a != t.len() {
        proof {
            assert(s@.subrange(a as int, b as int).len() != t@.len());
        }
        return false;
    }
    let mut i: usize = 0;
    while i < t.len()
        invariant
            0 <= i <= t@.len(),
            a <= b <= s@.len(),
            b - a == t@.len(),
            forall|k: int| 0 <= k < i ==> s@.subrange(a as int, b as int)[k] == t@[k],
        decreases t@.len() - i,
    {
        if s[a + i] != t[i] {
            proof {
                assert(s@.subrange(a as int, b as int)[i as int] != t@[i as int]);
            }
            return false;
        }
        i = i + 1;
    }
    proof {
        assert(s@.subrange(a as int, b as int) =~= t@);
    }
    true
}

/// The end of the JSON value starting at `i`, or `None` when no
/// well-formed value starts there or the fuel runs out.
pub open spec fn sp_val_end(s: Seq<u8>, i: int, f: nat) -> Option<int>
    decreases f,
{
    if f == 0 {
        None
    } else if !(0 <= i < s.len()) {
        None
    } else if s[i] == 34 {
        sp_str_end(s, i)
    } else if s[i] == 123 {
        sp_obj_rest(s, sp_ws(s, i + 1), (f - 1) as nat)
    } else if s[i] == 91 {
        sp_arr_rest(s, sp_ws(s, i + 1), (f - 1) as nat)
    } else if s[i] == 116 {
        if i + 4 <= s.len() && s[i + 1] == 114 && s[i + 2] == 117 && s[i + 3] == 101 {
            Some(i + 4)
        } else {
            None
        }
    } else if s[i] == 102 {
        if i + 5 <= s.len() && s[i + 1] == 97 && s[i + 2] == 108 && s[i + 3] == 115 && s[i + 4]
            == 101 {
            Some(i + 5)
        } else {
            None
        }
    } else if s[i] == 110 {
        if i + 4 <= s.len() && s[i + 1] == 117 && s[i + 2] == 108 && s[i + 3] == 108 {
            Some(i + 4)
        } else {
            None
        }
    } else if s[i] == 45 || is_digit(s[i]) {
        sp_scan_number(s, i)
    } else {
        None
    }
}

/// The end of an object whose opening brace is already consumed, with
/// `i` at the closing brace or at the first key.
pub open spec fn sp_obj_rest(s: Seq<u8>, i: int, f: nat) -> Option<int>
    decreases f,
{
    if f == 0 {
        None
    } else if 0 <= i < s.len() && s[i] == 125 {
        Some(i + 1)
    } else {
        match sp_str_end(s, i) {
            None => None,
            Some(ke) => {
                let c = sp_ws(s, ke);
                if 0 <= c < s.len() && s[c] == 58 {
                    match sp_val_end(s, sp_ws(s, c + 1), (f - 1) as nat) {
                        None => None,
                        Some(ve) => {
                            let t = sp_ws(s, ve);
                            if 0 <= t < s.len() && s[t] == 44 {
                                let n = sp_ws(s, t + 1);
                                if 0 <= n < s.len() && s[n] == 125 {
                                    None
                                } else {
                                    sp_obj_rest(s, n, (f - 1) as nat)
                                }
                            } else if 0 <= t < s.len() && s[t] == 125 {
                                Some(t + 1)
                            } else {
                                None
                            }
                        },
                    }
                } else {
                    None
                }
            },
        }
    }
}

/// The end of an array whose opening bracket is already consumed, with
/// `i` at the closing bracket or at the first element.
pub open spec fn sp_arr_rest(s: Seq<u8>, i: int, f: nat) -> Option<int>
    decreases f,
{
    if f == 0 {
        None
    } else if 0 <= i < s.len() && s[i] == 93 {
        Some(i + 1)
    } else {
        match sp_val_end(s, i, (f - 1) as nat) {
            None => None,
            Some(ve) => {
                let t = sp_ws(s, ve);
                if 0 <= t < s.len() && s[t] == 44 {
                    let n = sp_ws(s, t + 1);
                    if 0 <= n < s.len() && s[n] == 93 {
                        None
                    } else {
                        sp_arr_rest(s, n, (f - 1) as nat)
                    }
                } else if 0 <= t < s.len() && s[t] == 93 {
                    Some(t + 1)
                } else {
                    None
                }
            },
        }
    }
}

pub proof fn lemma_val_end_range(s: Seq<u8>, i: int, f: nat)
    requires
        0 <= i <= s.len(),
    ensures
        sp_val_end(s, i, f) matches Some(e) ==> i < e <= s.len(),
    decreases f,
{
    if f > 0 && 0 <= i < s.len() {
        if s[i] == 34 {
            lemma_str_end_range(s, i);
        } else if s[i] == 123 {
            lemma_ws_range(s, i + 1);
            lemma_obj_rest_range(s, sp_ws(s, i + 1), (f - 1) as nat);
        } else if s[i] == 91 {
            lemma_ws_range(s, i + 1);
            lemma_arr_rest_range(s, sp_ws(s, i + 1), (f - 1) as nat);
        } else if s[i] == 45 || is_digit(s[i]) {
            crate::jsonenc::lemma_scan_number_range(s, i);
        }
    }
}

pub proof fn lemma_obj_rest_range(s: Seq<u8>, i: int, f: nat)
    requires
        0 <= i <= s.len(),
    ensures
        sp_obj_rest(s, i, f) matches Some(e) ==> i < e <= s.len(),
    decreases f,
{
    if f > 0 {
        if 0 <= i < s.len() && s[i] == 125 {
        } else {
            match sp_str_end(s, i) {
                None => {},
                Some(ke) => {
                    lemma_str_end_range(s, i);
                    let c = sp_ws(s, ke);
                    lemma_ws_range(s, ke);
                    if 0 <= c < s.len() && s[c] == 58 {
                        let vs = sp_ws(s, c + 1);
                        lemma_ws_range(s, c + 1);
                        lemma_val_end_range(s, vs, (f - 1) as nat);
                        match sp_val_end(s, vs, (f - 1) as nat) {
                            None => {},
                            Some(ve) => {
                                let t = sp_ws(s, ve);
                                lemma_ws_range(s, ve);
                                if 0 <= t < s.len() && s[t] == 44 {
                                    lemma_ws_range(s, t + 1);
                                    lemma_obj_rest_range(s, sp_ws(s, t + 1), (f - 1) as nat);
                                }
                            },
                        }
                    }
                },
            }
        }
    }
}

pub proof fn lemma_arr_rest_range(s: Seq<u8>, i: int, f: nat)
    requires
        0 <= i <= s.len(),
    ensures
        sp_arr_rest(s, i, f) matches Some(e) ==> i < e <= s.len(),
    decreases f,
{
    if f > 0 {
        if 0 <= i < s.len() && s[i] == 93 {
        } else {
            lemma_val_end_range(s, i, (f - 1) as nat);
            match sp_val_end(s, i, (f - 1) as nat) {
                None => {},
                Some(ve) => {
                    let t = sp_ws(s, ve);
                    lemma_ws_range(s, ve);
                    if 0 <= t < s.len() && s[t] == 44 {
                        lemma_ws_range(s, t + 1);
                        lemma_arr_rest_range(s, sp_ws(s, t + 1), (f - 1) as nat);
                    }
                },
            }
        }
    }
}

/// Finds the end of the JSON value starting at `i`.
pub fn val_end(s: &[u8], i: usize, f: usize) -> (r: Option<usize>)
    requires
        i <= s@.len(),
    ensures
        r is Some <==> sp_val_end(s@, i as int, f as nat) is Some,
        r matches Some(e) ==> Some(e as int) == sp_val_end(s@, i as int, f as nat) && i < e
            <= s@.len(),
    decreases f,
{
    proof {
        lemma_val_end_range(s@, i as int, f as nat);
    }
    if f == 0 {
        return None;
    }
    if i >= s.len() {
        return None;
    }
    let b = s[i];
    if b == 34 {
        scan_string(s, i)
    } else if b == 123 {
        let j = skip_ws(s, i + 1);
        obj_rest(s, j, f - 1)
    } else if b == 91 {
        let j = skip_ws(s, i + 1);
        arr_rest(s, j, f - 1)
    } else if b == 116 {
        if s.len() >= 4 && i <= s.len() - 4 && s[i + 1] == 114 && s[i + 2] == 117 && s[i + 3]
            == 101 {
            Some(i + 4)
        } else {
            None
        }
    } else if b == 102 {
        if s.len() >= 5 && i <= s.len() - 5 && s[i + 1] == 97 && s[i + 2] == 108 && s[i + 3] == 115
            && s[i + 4] == 101 {
            Some(i + 5)
        } else {
            None
        }
    } else if b == 110 {
        if s.len() >= 4 && i <= s.len() - 4 && s[i + 1] == 117 && s[i + 2] == 108 && s[i + 3]
            == 108 {
            Some(i + 4)
        } else {
            None
        }
    } else if b == 45 || (48 <= b && b <= 57) {
        scan_number(s, i)
    } else {
        None
    }
}

/// Finds the end of an object body, with `i` at the closing brace or
/// at the first key.
fn obj_rest(s: &[u8], i: usize, f: usize) -> (r: Option<usize>)
    requires
        i <= s@.len(),
    ensures
        r is Some <==> sp_obj_rest(s@, i as int, f as nat) is Some,
        r matches Some(e) ==> Some(e as int) == sp_obj_rest(s@, i as int, f as nat) && i < e
            <= s@.len(),
    decreases f,
{
    proof {
        lemma_obj_rest_range(s@, i as int, f as nat);
    }
    let mut j: usize = i;
    let mut g: usize = f;
    loop
        invariant
            j <= s@.len(),
            g <= f,
            i <= s@.len(),
            sp_obj_rest(s@, i as int, f as nat) == sp_obj_rest(s@, j as int, g as nat),
            sp_obj_rest(s@, i as int, f as nat) matches Some(e) ==> i < e <= s@.len(),
        decreases g,
    {
        if g == 0 {
            return None;
        }
        if j < s.len() && s[j] == 125 {
            return Some(j + 1);
        }
        match scan_string(s, j) {
            None => {
                return None;
            },
            Some(ke) => {
                let c = skip_ws(s, ke);
                if !(c < s.len() && s[c] == 58) {
                    return None;
                }
                let vs = skip_ws(s, c + 1);
                match val_end(s, vs, g - 1) {
                    None => {
                        return None;
                    },
                    Some(ve) => {
                        let t = skip_ws(s, ve);
                        if t < s.len() && s[t] == 44 {
                            let nj = skip_ws(s, t + 1);
                            if nj < s.len() && s[nj] == 125 {
                                return None;
                            }
                            j = nj;
                            g = g - 1;
                        } else if t < s.len() && s[t] == 125 {
                            return Some(t + 1);
                        } else {
                            return None;
                        }
                    },
                }
            },
        }
    }
}

/// Finds the end of an array body, with `i` at the closing bracket or
/// at the first element.
fn arr_rest(s: &[u8], i: usize, f: usize) -> (r: Option<usize>)
    requires
        i <= s@.len(),
    ensures
        r is Some <==> sp_arr_rest(s@, i as int, f as nat) is Some,
        r matches Some(e) ==> Some(e as int) == sp_arr_rest(s@, i as int, f as nat) && i < e
            <= s@.len(),
    decreases f,
{
    proof {
        lemma_arr_rest_range(s@, i as int, f as nat);
    }
    let mut j: usize = i;
    let mut g: usize = f;
    loop
        invariant
            j <= s@.len(),
            g <= f,
            i <= s@.len(),
            sp_arr_rest(s@, i as int, f as nat) == sp_arr_rest(s@, j as int, g as nat),
            sp_arr_rest(s@, i as int, f as nat) matches Some(e) ==> i < e <= s@.len(),
        decreases g,
    {
        if g == 0 {
            return None;
        }
        if j < s.len() && s[j] == 93 {
            return Some(j + 1);
        }
        match val_end(s, j, g - 1) {
            None => {
                return None;
            },
            Some(ve) => {
                let t = skip_ws(s, ve);
                if t < s.len() && s[t] == 44 {
                    let nj = skip_ws(s, t + 1);
                    if nj < s.len() && s[nj] == 93 {
                        return None;
                    }
                    j = nj;
                    g = g - 1;
                } else if t < s.len() && s[t] == 93 {
                    return Some(t + 1);
                } else {
                    return None;
                }
            },
        }
    }
}

/// Ten to the given power.
pub open spec fn pow10(n: nat) -> int
    decreases n,
{
    if n == 0 {
        1
    } else {
        10 * pow10((n - 1) as nat)
    }
}

/// True when every byte is an ASCII digit.
pub open spec fn all_digits(s: Seq<u8>) -> bool {
    forall|k: int| 0 <= k < s.len() ==> is_digit(s[k])
}

/// The value of a digit string, most significant digit first.
pub open spec fn sp_digits_val(s: Seq<u8>) -> int
    decreases s.len(),
{
    if s.len() == 0 {
        0
    } else {
        sp_digits_val(s.drop_last()) * 10 + (s.last() - 48)
    }
}

pub proof fn lemma_digits_val_bound(s: Seq<u8>)
    requires
        all_digits(s),
    ensures
        0 <= sp_digits_val(s) < pow10(s.len()),
    decreases s.len(),
{
    if s.len() > 0 {
        assert(all_digits(s.drop_last()));
        lemma_digits_val_bound(s.drop_last());
        let v = sp_digits_val(s.drop_last());
        let p = pow10((s.len() - 1) as nat);
        assert(v * 10 + 9 < p * 10) by (nonlinear_arith)
            requires
                v < p,
        ;
    }
}

/// What the extractor captures from a `status` number between `a` and
/// `b`: the value, when the digits form a plain unsigned integer of at
/// most nine digits.
pub open spec fn sp_int_capture(s: Seq<u8>, a: int, b: int) -> Option<u32> {
    let t = s.subrange(a, b);
    if 1 <= t.len() <= 9 && all_digits(t) {
        Some(sp_digits_val(t) as u32)
    } else {
        None
    }
}

proof fn lemma_pow10_small()
    ensures
        pow10(9) == 1000000000,
        pow10(8) == 100000000,
{
    assert(pow10(0) == 1);
    assert(pow10(1) == 10);
    assert(pow10(2) == 100);
    assert(pow10(3) == 1000);
    assert(pow10(4) == 10000);
    assert(pow10(5) == 100000);
    assert(pow10(6) == 1000000);
    assert(pow10(7) == 10000000);
    assert(pow10(8) == 100000000);
    assert(pow10(9) == 1000000000);
}

proof fn lemma_pow10_mono(a: nat, b: nat)
    requires
        a <= b,
    ensures
        pow10(a) <= pow10(b),
    decreases b,
{
    if a < b {
        lemma_pow10_mono(a, (b - 1) as nat);
        let p = pow10((b - 1) as nat);
        lemma_pow10_pos((b - 1) as nat);
        assert(pow10(b) == 10 * p);
    }
}

proof fn lemma_pow10_pos(n: nat)
    ensures
        pow10(n) >= 1,
    decreases n,
{
    if n > 0 {
        lemma_pow10_pos((n - 1) as nat);
    }
}

/// Captures the value of a digit run between `a` and `b`, when it is a
/// plain unsigned integer of at most nine digits.
fn int_capture(s: &[u8], a: usize, b: usize) -> (r: Option<u32>)
    requires
        a <= b <= s@.len(),
    ensures
        r == sp_int_capture(s@, a as int, b as int),
{
    let ghost t = s@.subrange(a as int, b as int);
    let n: usize = b - a;
    if n < 1 || n > 9 {
        return None;
    }
    let mut v: u32 = 0;
    let mut i: usize = 0;
    while i < n
        invariant
            0 <= i <= n,
            1 <= n <= 9,
            a + n == b <= s@.len(),
            t == s@.subrange(a as int, b as int),
            all_digits(t.take(i as int)),
            v as int == sp_digits_val(t.take(i as int)),
            v < pow10(i as nat),
        decreases n - i,
    {
        let d = s[a + i];
        if !(48 <= d && d <= 57) {
            proof {
                assert(t[i as int] == s@[a + i]);
                assert(!is_digit(t[i as int]));
            }
            return None;
        }
        proof {
            lemma_pow10_small();
            lemma_pow10_mono(i as nat, 8);
            assert(t.take(i + 1 as int).drop_last() =~= t.take(i as int));
            assert(t.take(i + 1 as int).last() == t[i as int]);
            assert(t[i as int] == s@[a + i]);
            assert(v * 10 + 9 < pow10(i as nat) * 10) by (nonlinear_arith)
                requires
                    v < pow10(i as nat),
            ;
            lemma_pow10_mono((i + 1) as nat, 9);
        }
        v = v * 10 + (d - 48) as u32;
        i = i + 1;
    }
    proof {
        assert(t.take(n as int) =~= t);
        lemma_digits_val_bound(t);
        lemma_pow10_small();
        lemma_pow10_mono(t.len(), 9);
    }
    Some(v)
}

/// What the extractor gathers from one entry of the `errors` array.
pub struct ErrSpec {
    pub id: Option<Seq<u8>>,
    pub status: Option<u32>,
    pub message: Option<Seq<u8>>,
    pub error: Option<Seq<u8>>,
}

/// An entry with nothing captured.
pub open spec fn err_empty() -> ErrSpec {
    ErrSpec { id: None, status: None, message: None, error: None }
}

/// One entry of the `errors` array of an ingestion response, as the
/// parser hands it out: the entry's `id`, `status`, `message` and
/// `error` fields, each captured when present with the expected shape.
#[derive(Debug)]
pub struct ErrItem {
    pub id: Option<Vec<u8>>,
    pub status: Option<u32>,
    pub message: Option<Vec<u8>>,
    pub error: Option<Vec<u8>>,
}

impl View for ErrItem {
    type V = ErrSpec;

    open spec fn view(&self) -> ErrSpec {
        ErrSpec {
            id: match self.id {
                Some(v) => Some(v@),
                None => None,
            },
            status: self.status,
            message: match self.message {
                Some(v) => Some(v@),
                None => None,
            },
            error: match self.error {
                Some(v) => Some(v@),
                None => None,
            },
        }
    }
}

/// The members of one error entry, with `i` at the closing brace or at
/// the first key. Each `id`, `status`, `message` or `error` member
/// overwrites
/// the captured field; a member of the wrong shape clears it.
pub open spec fn sp_entry_rest(s: Seq<u8>, i: int, acc: ErrSpec, f: nat) -> Option<(ErrSpec, int)>
    decreases f,
{
    if f == 0 {
        None
    } else if 0 <= i < s.len() && s[i] == 125 {
        Some((acc, i + 1))
    } else {
        match sp_str_end(s, i) {
            None => None,
            Some(ke) => {
                let key = s.subrange(i + 1, ke - 1);
                let c = sp_ws(s, ke);
                if 0 <= c < s.len() && s[c] == 58 {
                    let vs = sp_ws(s, c + 1);
                    let stepped: Option<(ErrSpec, int)> = if key == sbytes(("id")@) {
                        if 0 <= vs < s.len() && s[vs] == 34 {
                            match sp_str_end(s, vs) {
                                None => None,
                                Some(ve) => Some(
                                    (
                                        ErrSpec {
                                            id: Some(s.subrange(vs + 1, ve - 1)),
                                            status: acc.status,
                                            message: acc.message,
                                            error: acc.error,
                                        },
                                        ve,
                                    ),
                                ),
                            }
                        } else {
                            match sp_val_end(s, vs, (f - 1) as nat) {
                                None => None,
                                Some(ve) => Some(
                                    (
                                        ErrSpec {
                                            id: None,
                                            status: acc.status,
                                            message: acc.message,
                                            error: acc.error,
                                        },
                                        ve,
                                    ),
                                ),
                            }
                        }
                    } else if key == sbytes(("message")@) {
                        if 0 <= vs < s.len() && s[vs] == 34 {
                            match sp_str_end(s, vs) {
                                None => None,
                                Some(ve) => Some(
                                    (
                                        ErrSpec {
                                            id: acc.id,
                                            status: acc.status,
                                            message: Some(s.subrange(vs + 1, ve - 1)),
                                            error: acc.error,
                                        },
                                        ve,
                                    ),
                                ),
                            }
                        } else {
                            match sp_val_end(s, vs, (f - 1) as nat) {
                                None => None,
                                Some(ve) => Some(
                                    (
                                        ErrSpec {
                                            id: acc.id,
                                            status: acc.status,
                                            message: None,
                                            error: acc.error,
                                        },
                                        ve,
                                    ),
                                ),
                            }
                        }
                    } else if key == sbytes(("status")@) {
                        if 0 <= vs < s.len() && (s[vs] == 45 || is_digit(s[vs])) {
                            match sp_scan_number(s, vs) {
                                None => None,
                                Some(ve) => Some(
                                    (
                                        ErrSpec {
                                            id: acc.id,
                                            status: sp_int_capture(s, vs, ve),
                                            message: acc.message,
                                            error: acc.error,
                                        },
                                        ve,
                                    ),
                                ),
                            }
                        } else {
                            match sp_val_end(s, vs, (f - 1) as nat) {
                                None => None,
                                Some(ve) => Some(
                                    (
                                        ErrSpec {
                                            id: acc.id,
                                            status: None,
                                            message: acc.message,
                                            error: acc.error,
                                        },
                                        ve,
                                    ),
                                ),
                            }
                        }
                    } else if key == sbytes(("error")@) {
                        if 0 <= vs < s.len() && s[vs] == 34 {
                            match sp_str_end(s, vs) {
                                None => None,
                                Some(ve) => Some(
                                    (
                                        ErrSpec {
                                            id: acc.id,
                                            status: acc.status,
                                            message: acc.message,
                                            error: Some(s.subrange(vs + 1, ve - 1)),
                                        },
                                        ve,
                                    ),
                                ),
                            }
                        } else {
                            match sp_val_end(s, vs, (f - 1) as nat) {
                                None => None,
                                Some(ve) => Some(
                                    (
                                        ErrSpec {
                                            id: acc.id,
                                            status: acc.status,
                                            message: acc.message,
                                            error: None,
                                        },
                                        ve,
                                    ),
                                ),
                            }
                        }
                    } else {
                        match sp_val_end(s, vs, (f - 1) as nat) {
                            None => None,
                            Some(ve) => Some((acc, ve)),
                        }
                    };
                    match stepped {
                        None => None,
                        Some((a2, ve)) => {
                            let t = sp_ws(s, ve);
                            if 0 <= t < s.len() && s[t] == 44 {
                                let n = sp_ws(s, t + 1);
                                if 0 <= n < s.len() && s[n] == 125 {
                                    None
                                } else {
                                    sp_entry_rest(s, n, a2, (f - 1) as nat)
                                }
                            } else if 0 <= t < s.len() && s[t] == 125 {
                                Some((a2, t + 1))
                            } else {
                                None
                            }
                        },
                    }
                } else {
                    None
                }
            },
        }
    }
}

/// One element of the `errors` array: an object yields its captured
/// fields; any other well-formed value counts as an entry with nothing
/// captured.
pub open spec fn sp_entry(s: Seq<u8>, i: int, f: nat) -> Option<(ErrSpec, int)>
    decreases f,
{
    if f == 0 {
        None
    } else if 0 <= i < s.len() && s[i] == 123 {
        sp_entry_rest(s, sp_ws(s, i + 1), err_empty(), (f - 1) as nat)
    } else {
        match sp_val_end(s, i, f) {
            None => None,
            Some(e) => Some((err_empty(), e)),
        }
    }
}

/// The elements of the `errors` array, with `i` at the closing bracket
/// or at the first element.
pub open spec fn sp_errs_rest(s: Seq<u8>, i: int, acc: Seq<ErrSpec>, f: nat) -> Option<
    (Seq<ErrSpec>, int),
>
    decreases f,
{
    if f == 0 {
        None
    } else if 0 <= i < s.len() && s[i] == 93 {
        Some((acc, i + 1))
    } else {
        match sp_entry(s, i, (f - 1) as nat) {
            None => None,
            Some((e, ve)) => {
                let t = sp_ws(s, ve);
                if 0 <= t < s.len() && s[t] == 44 {
                    let n = sp_ws(s, t + 1);
                    if 0 <= n < s.len() && s[n] == 93 {
                        None
                    } else {
                        sp_errs_rest(s, n, acc.push(e), (f - 1) as nat)
                    }
                } else if 0 <= t < s.len() && s[t] == 93 {
                    Some((acc.push(e), t + 1))
                } else {
                    None
                }
            },
        }
    }
}

/// The members of the top-level response object, with `i` at the
/// closing brace or at the first key. An `errors` member whose value is
/// an array yields its entries; a later duplicate overwrites an earlier
/// one; an `errors` member of another shape yields no entries.
pub open spec fn sp_top_rest(s: Seq<u8>, i: int, acc: Seq<ErrSpec>, f: nat) -> Option<
    (Seq<ErrSpec>, int),
>
    decreases f,
{
    if f == 0 {
        None
    } else if 0 <= i < s.len() && s[i] == 125 {
        Some((acc, i + 1))
    } else {
        match sp_str_end(s, i) {
            None => None,
            Some(ke) => {
                let key = s.subrange(i + 1, ke - 1);
                let c = sp_ws(s, ke);
                if 0 <= c < s.len() && s[c] == 58 {
                    let vs = sp_ws(s, c + 1);
                    let stepped: Option<(Seq<ErrSpec>, int)> = if key == sbytes(("errors")@) {
                        if 0 <= vs < s.len() && s[vs] == 91 {
                            sp_errs_rest(s, sp_ws(s, vs + 1), Seq::empty(), (f - 1) as nat)
                        } else {
                            match sp_val_end(s, vs, (f - 1) as nat) {
                                None => None,
                                Some(ve) => Some((Seq::empty(), ve)),
                            }
                        }
                    } else {
                        match sp_val_end(s, vs, (f - 1) as nat) {
                            None => None,
                            Some(ve) => Some((acc, ve)),
                        }
                    };
                    match stepped {
                        None => None,
                        Some((a2, ve)) => {
                            let t = sp_ws(s, ve);
                            if 0 <= t < s.len() && s[t] == 44 {
                                let n = sp_ws(s, t + 1);
                                if 0 <= n < s.len() && s[n] == 125 {
                                    None
                                } else {
                                    sp_top_rest(s, n, a2, (f - 1) as nat)
                                }
                            } else if 0 <= t < s.len() && s[t] == 125 {
                                Some((a2, t + 1))
                            } else {
                                None
                            }
                        },
                    }
                } else {
                    None
                }
            },
        }
    }
}

/// One unit more fuel than the input is long; no well-formed input can
/// exhaust it, since every nesting level consumes at least one byte.
pub open spec fn sp_fuel(s: Seq<u8>) -> nat {
    s.len() + 1
}

/// What the response body reports: `None` when the body is not
/// well-formed JSON; otherwise the entries of its `errors` array, empty
/// when the body has none.
pub open spec fn sp_response(s: Seq<u8>) -> Option<Seq<ErrSpec>> {
    let i = sp_ws(s, 0);
    if 0 <= i < s.len() && s[i] == 123 {
        match sp_top_rest(s, sp_ws(s, i + 1), Seq::empty(), sp_fuel(s)) {
            None => None,
            Some((es, e)) => {
                if sp_ws(s, e) == s.len() {
                    Some(es)
                } else {
                    None
                }
            },
        }
    } else {
        match sp_val_end(s, i, sp_fuel(s)) {
            None => None,
            Some(e) => {
                if sp_ws(s, e) == s.len() {
                    Some(Seq::empty())
                } else {
                    None
                }
            },
        }
    }
}

/// True when the bytes are one well-formed JSON document.
pub open spec fn sp_document(s: Seq<u8>) -> bool {
    let i = sp_ws(s, 0);
    match sp_val_end(s, i, sp_fuel(s)) {
        None => false,
        Some(e) => sp_ws(s, e) == s.len(),
    }
}

/// Parses the members of one error entry.
fn parse_entry_rest(s: &[u8], i: usize, acc: ErrItem, f: usize) -> (r: Option<(ErrItem, usize)>)
    requires
        i <= s@.len(),
    ensures
        r is Some <==> sp_entry_rest(s@, i as int, acc@, f as nat) is Some,
        r matches Some(p) ==> sp_entry_rest(s@, i as int, acc@, f as nat) == Some(
            (p.0@, p.1 as int),
        ) && p.1 <= s@.len(),
{
    let mut a = acc;
    let mut j: usize = i;
    let mut g: usize = f;
    loop
        invariant
            j <= s@.len(),
            sp_entry_rest(s@, i as int, acc@, f as nat) == sp_entry_rest(
                s@,
                j as int,
                a@,
                g as nat,
            ),
        decreases g,
    {
        if g == 0 {
            return None;
        }
        if j < s.len() && s[j] == 125 {
            return Some((a, j + 1));
        }
        let ke = match scan_string(s, j) {
            None => {
                return None;
            },
            Some(ke) => ke,
        };
        let c = skip_ws(s, ke);
        if !(c < s.len() && s[c] == 58) {
            return None;
        }
        let vs = skip_ws(s, c + 1);
        let ks: usize = j + 1;
        let kq: usize = ke - 1;
        let stepped: Option<(ErrItem, usize)> = if range_eq(s, ks, kq, "id".as_bytes()) {
            if vs < s.len() && s[vs] == 34 {
                match scan_string(s, vs) {
                    None => None,
                    Some(ve) => Some(
                        (
                            ErrItem {
                                id: Some(copy_range(s, vs + 1, ve - 1)),
                                status: a.status,
                                message: a.message,
                                error: a.error,
                            },
                            ve,
                        ),
                    ),
                }
            } else {
                match val_end(s, vs, g - 1) {
                    None => None,
                    Some(ve) => Some(
                        (ErrItem { id: None, status: a.status, message: a.message, error: a.error }, ve),
                    ),
                }
            }
        } else if range_eq(s, ks, kq, "message".as_bytes()) {
            if vs < s.len() && s[vs] == 34 {
                match scan_string(s, vs) {
                    None => None,
                    Some(ve) => Some(
                        (
                            ErrItem {
                                id: a.id,
                                status: a.status,
                                message: Some(copy_range(s, vs + 1, ve - 1)),
                                error: a.error,
                            },
                            ve,
                        ),
                    ),
                }
            } else {
                match val_end(s, vs, g - 1) {
                    None => None,
                    Some(ve) => Some(
                        (ErrItem { id: a.id, status: a.status, message: None, error: a.error }, ve),
                    ),
                }
            }
        } else if range_eq(s, ks, kq, "status".as_bytes()) {
            if vs < s.len() && (s[vs] == 45 || (48 <= s[vs] && s[vs] <= 57)) {
                match scan_number(s, vs) {
                    None => None,
                    Some(ve) => Some(
                        (
                            ErrItem {
                                id: a.id,
                                status: int_capture(s, vs, ve),
                                message: a.message,
                                error: a.error,
                            },
                            ve,
                        ),
                    ),
                }
            } else {
                match val_end(s, vs, g - 1) {
                    None => None,
                    Some(ve) => Some(
                        (ErrItem { id: a.id, status: None, message: a.message, error: a.error }, ve),
                    ),
                }
            }
        } else if range_eq(s, ks, kq, "error".as_bytes()) {
            if vs < s.len() && s[vs] == 34 {
                match scan_string(s, vs) {
                    None => None,
                    Some(ve) => Some(
                        (
                            ErrItem {
                                id: a.id,
                                status: a.status,
                                message: a.message,
                                error: Some(copy_range(s, vs + 1, ve - 1)),
                            },
                            ve,
                        ),
                    ),
                }
            } else {
                match val_end(s, vs, g - 1) {
                    None => None,
                    Some(ve) => Some(
                        (ErrItem { id: a.id, status: a.status, message: a.message, error: None }, ve),
                    ),
                }
            }
        } else {
            match val_end(s, vs, g - 1) {
                None => None,
                Some(ve) => Some((a, ve)),
            }
        };
        match stepped {
            None => {
                return None;
            },
            Some((a2, ve)) => {
                let t = skip_ws(s, ve);
                if t < s.len() && s[t] == 44 {
                    let nj = skip_ws(s, t + 1);
                    if nj < s.len() && s[nj] == 125 {
                        return None;
                    }
                    a = a2;
                    j = nj;
                    g = g - 1;
                } else if t < s.len() && s[t] == 125 {
                    return Some((a2, t + 1));
                } else {
                    return None;
                }
            },
        }
    }
}

/// Parses one element of the `errors` array as an entry.
fn parse_entry(s: &[u8], i: usize, f: usize) -> (r: Option<(ErrItem, usize)>)
    requires
        i <= s@.len(),
    ensures
        r is Some <==> sp_entry(s@, i as int, f as nat) is Some,
        r matches Some(p) ==> sp_entry(s@, i as int, f as nat) == Some((p.0@, p.1 as int)) && p.1
            <= s@.len(),
{
    if f == 0 {
        return None;
    }
    if i < s.len() && s[i] == 123 {
        let j = skip_ws(s, i + 1);
        parse_entry_rest(s, j, ErrItem { id: None, status: None, message: None, error: None }, f - 1)
    } else {
        match val_end(s, i, f) {
            None => None,
            Some(e) => Some((ErrItem { id: None, status: None, message: None, error: None }, e)),
        }
    }
}

/// Parses the elements of the `errors` array.
fn parse_errs(s: &[u8], i: usize, f: usize) -> (r: Option<(Vec<ErrItem>, usize)>)
    requires
        i <= s@.len(),
    ensures
        r is Some <==> sp_errs_rest(s@, i as int, Seq::empty(), f as nat) is Some,
        r matches Some(p) ==> sp_errs_rest(s@, i as int, Seq::empty(), f as nat) == Some(
            (p.0@.map_values(|e: ErrItem| e@), p.1 as int),
        ) && p.1 <= s@.len(),
{
    let mut acc: Vec<ErrItem> = Vec::new();
    let mut j: usize = i;
    let mut g: usize = f;
    proof {
        assert(acc@.map_values(|e: ErrItem| e@) =~= Seq::<ErrSpec>::empty());
    }
    loop
        invariant
            j <= s@.len(),
            sp_errs_rest(s@, i as int, Seq::empty(), f as nat) == sp_errs_rest(
                s@,
                j as int,
                acc@.map_values(|e: ErrItem| e@),
                g as nat,
            ),
        decreases g,
    {
        if g == 0 {
            return None;
        }
        if j < s.len() && s[j] == 93 {
            return Some((acc, j + 1));
        }
        match parse_entry(s, j, g - 1) {
            None => {
                return None;
            },
            Some((e, ve)) => {
                let t = skip_ws(s, ve);
                proof {
                    assert(acc@.push(e).map_values(|x: ErrItem| x@) =~= acc@.map_values(
                        |x: ErrItem| x@,
                    ).push(e@));
                }
                if t < s.len() && s[t] == 44 {
                    let nj = skip_ws(s, t + 1);
                    if nj < s.len() && s[nj] == 93 {
                        return None;
                    }
                    acc.push(e);
                    j = nj;
                    g = g - 1;
                } else if t < s.len() && s[t] == 93 {
                    acc.push(e);
                    return Some((acc, t + 1));
                } else {
                    return None;
                }
            },
        }
    }
}

/// Parses the members of the top-level response object.
fn parse_top(s: &[u8], i: usize, f: usize) -> (r: Option<(Vec<ErrItem>, usize)>)
    requires
        i <= s@.len(),
    ensures
        r is Some <==> sp_top_rest(s@, i as int, Seq::empty(), f as nat) is Some,
        r matches Some(p) ==> sp_top_rest(s@, i as int, Seq::empty(), f as nat) == Some(
            (p.0@.map_values(|e: ErrItem| e@), p.1 as int),
        ) && p.1 <= s@.len(),
{
    let mut acc: Vec<ErrItem> = Vec::new();
    let mut j: usize = i;
    let mut g: usize = f;
    proof {
        assert(acc@.map_values(|e: ErrItem| e@) =~= Seq::<ErrSpec>::empty());
    }
    loop
        invariant
            j <= s@.len(),
            sp_top_rest(s@, i as int, Seq::empty(), f as nat) == sp_top_rest(
                s@,
                j as int,
                acc@.map_values(|e: ErrItem| e@),
                g as nat,
            ),
        decreases g,
    {
        if g == 0 {
            return None;
        }
        if j < s.len() && s[j] == 125 {
            return Some((acc, j + 1));
        }
        let ke = match scan_string(s, j) {
            None => {
                return None;
            },
            Some(ke) => ke,
        };
        let c = skip_ws(s, ke);
        if !(c < s.len() && s[c] == 58) {
            return None;
        }
        let vs = skip_ws(s, c + 1);
        let stepped: Option<(Vec<ErrItem>, usize)> = if range_eq(
            s,
            j + 1,
            ke - 1,
            "errors".as_bytes(),
        ) {
            if vs < s.len() && s[vs] == 91 {
                let aj = skip_ws(s, vs + 1);
                match parse_errs(s, aj, g - 1) {
                    None => None,
                    Some((es, ve)) => Some((es, ve)),
                }
            } else {
                match val_end(s, vs, g - 1) {
                    None => None,
                    Some(ve) => {
                        let cleared: Vec<ErrItem> = Vec::new();
                        proof {
                            assert(cleared@.map_values(|e: ErrItem| e@) =~= Seq::<
                                ErrSpec,
                            >::empty());
                        }
                        Some((cleared, ve))
                    },
                }
            }
        } else {
            match val_end(s, vs, g - 1) {
                None => None,
                Some(ve) => Some((acc, ve)),
            }
        };
        match stepped {
            None => {
                return None;
            },
            Some((a2, ve)) => {
                let t = skip_ws(s, ve);
                if t < s.len() && s[t] == 44 {
                    let nj = skip_ws(s, t + 1);
                    if nj < s.len() && s[nj] == 125 {
                        return None;
                    }
                    acc = a2;
                    j = nj;
                    g = g - 1;
                } else if t < s.len() && s[t] == 125 {
                    return Some((a2, t + 1));
                } else {
                    return None;
                }
            },
        }
    }
}

/// Parses a whole response body. `None` when the body is not
/// well-formed JSON; otherwise the entries of its `errors` array,
/// empty when the body has none.
pub fn parse_response(s: &[u8]) -> (r: Option<Vec<ErrItem>>)
    requires
        s@.len() < usize::MAX,
    ensures
        r is Some <==> sp_response(s@) is Some,
        r matches Some(v) ==> sp_response(s@) == Some(v@.map_values(|e: ErrItem| e@)),
{
    let f: usize = s.len() + 1;
    let i = skip_ws(s, 0);
    if i < s.len() && s[i] == 123 {
        let j = skip_ws(s, i + 1);
        match parse_top(s, j, f) {
            None => None,
            Some((es, e)) => {
                let t = skip_ws(s, e);
                if t == s.len() {
                    Some(es)
                } else {
                    None
                }
            },
        }
    } else {
        match val_end(s, i, f) {
            None => None,
            Some(e) => {
                let t = skip_ws(s, e);
                if t == s.len() {
                    Some(Vec::new())
                } else {
                    None
                }
            },
        }
    }
}

/// Checks that the bytes are one well-formed JSON document.
pub fn is_json_document(s: &[u8]) -> (r: bool)
    requires
        s@.len() < usize::MAX,
    ensures
        r == sp_document(s@),
{
    let f: usize = s.len() + 1;
    let i = skip_ws(s, 0);
    match val_end(s, i, f) {
        None => false,
        Some(e) => {
            let t = skip_ws(s, e);
            t == s.len()
        },
    }
}

/// An opaque JSON payload, held as its exact wire text. Values are
/// built only through [`RawJson::new`], which admits just well-formed
/// JSON documents, so a raw payload cannot break the framing around it.
pub struct RawJson {
    text: Vec<u8>,
}

impl RawJson {
    /// The bytes this payload puts on the wire.
    pub closed spec fn lit(&self) -> Seq<u8> {
        self.text@
    }

    /// True when the held text is one well-formed JSON document.
    pub closed spec fn wf(&self) -> bool {
        sp_document(self.text@)
    }

    /// Accepts the bytes exactly when they are well-formed JSON.
    pub fn new(text: Vec<u8>) -> (r: Option<RawJson>)
        requires
            text@.len() < usize::MAX,
        ensures
            r is Some <==> sp_document(text@),
            r matches Some(v) ==> v.lit() == text@ && v.wf(),
    {
        if is_json_document(text.as_slice()) {
            Some(RawJson { text })
        } else {
            None
        }
    }

    /// The wire text, for rendering.
    pub fn render(&self) -> (r: Vec<u8>)
        ensures
            r@ == self.lit(),
    {
        let n = self.text.len();
        let r = copy_range(self.text.as_slice(), 0, n);
        proof {
            assert(self.text@.subrange(0, self.text@.len() as int) =~= self.text@);
        }
        r
    }
}

} // verus!
