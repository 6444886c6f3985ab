//! Byte-level JSON emission: string escaping, decimal numerals, and
//! comma-joined object/array composition, each with an exact
//! specification of the bytes produced.

use vstd::prelude::*;
use vstd::utf8::encode_utf8;

verus! {

/// The UTF-8 bytes of a character sequence.
pub open spec fn sbytes(s: Seq<char>) -> Seq<u8> {
    encode_utf8(s)
}

/// True for an ASCII decimal digit byte.
pub open spec fn is_digit(b: u8) -> bool {
    48 <= b <= 57
}

/// The lowercase hexadecimal digit for a value below 16.
pub open spec fn hexd(n: u8) -> u8 {
    if n < 10 {
        (48 + n) as u8
    } else {
        (87 + n) as u8
    }
}

/// How one byte of string content appears inside a JSON string:
/// quote and backslash are escaped, the common control characters use
/// their short escapes, other control bytes use a `\u00XX` escape, and
/// every remaining byte stands as itself.
pub open spec fn esc_byte(b: u8) -> Seq<u8> {
    if b == 34 {
        seq![92u8, 34u8]
    } else if b == 92 {
        seq![92u8, 92u8]
    } else if b == 8 {
        seq![92u8, 98u8]
    } else if b == 12 {
        seq![92u8, 102u8]
    } else if b == 10 {
        seq![92u8, 110u8]
    } else if b == 13 {
        seq![92u8, 114u8]
    } else if b == 9 {
        seq![92u8, 116u8]
    } else if b < 32 {
        seq![92u8, 117u8, 48u8, 48u8, hexd(b / 16), hexd(b % 16)]
    } else {
        seq![b]
    }
}

/// The escaped form of a whole byte sequence.
pub open spec fn esc_bytes(s: Seq<u8>) -> Seq<u8>
    decreases s.len(),
{
    if s.len() == 0 {
        Seq::empty()
    } else {
        esc_byte(s[0]) + esc_bytes(s.drop_first())
    }
}

/// A JSON string literal: quoted, escaped UTF-8 bytes of the text.
pub open spec fn json_str_bytes(s: Seq<char>) -> Seq<u8> {
    seq![34u8] + esc_bytes(sbytes(s)) + seq![34u8]
}

/// The decimal numeral of a natural number, most significant digit first.
pub open spec fn dec_digits(n: nat) -> Seq<u8>
    decreases n,
{
    if n < 10 {
        seq![(48 + n) as u8]
    } else {
        dec_digits(n / 10).push((48 + n % 10) as u8)
    }
}

/// The decimal numeral of an integer, with a leading minus sign when negative.
pub open spec fn dec_int(n: int) -> Seq<u8> {
    if n < 0 {
        seq![45u8] + dec_digits((-n) as nat)
    } else {
        dec_digits(n as nat)
    }
}

/// Pieces joined by commas, as in the inside of a JSON object or array.
pub open spec fn sp_join(ms: Seq<Seq<u8>>) -> Seq<u8>
    decreases ms.len(),
{
    if ms.len() == 0 {
        Seq::empty()
    } else if ms.len() == 1 {
        ms[0]
    } else {
        ms[0] + seq![44u8] + sp_join(ms.drop_first())
    }
}

/// A JSON object with the given member texts.
pub open spec fn sp_obj(ms: Seq<Seq<u8>>) -> Seq<u8> {
    seq![123u8] + sp_join(ms) + seq![125u8]
}

/// A JSON array with the given element texts.
pub open spec fn sp_arr(ms: Seq<Seq<u8>>) -> Seq<u8> {
    seq![91u8] + sp_join(ms) + seq![93u8]
}

/// One object member: the quoted key, a colon, and the value text.
/// Keys are plain ASCII names, so they need no escaping.
pub open spec fn obj_member(k: Seq<char>, v: Seq<u8>) -> Seq<u8> {
    seq![34u8] + sbytes(k) + seq![34u8, 58u8] + v
}

pub proof fn lemma_esc_bytes_push(s: Seq<u8>, b: u8)
    ensures
        esc_bytes(s.push(b)) == esc_bytes(s) + esc_byte(b),
    decreases s.len(),
{
    if s.len() == 0 {
        assert(s.push(b).drop_first() =~= Seq::<u8>::empty());
        assert(esc_bytes(s.push(b)) =~= esc_byte(b) + esc_bytes(Seq::empty()));
        assert(esc_bytes(s.push(b)) =~= esc_bytes(s) + esc_byte(b));
    } else {
        assert(s.push(b).drop_first() =~= s.drop_first().push(b));
        lemma_esc_bytes_push(s.drop_first(), b);
        assert(esc_bytes(s.push(b)) =~= esc_bytes(s) + esc_byte(b));
    }
}

pub proof fn lemma_sp_join_push(ms: Seq<Seq<u8>>, x: Seq<u8>)
    ensures
        ms.len() == 0 ==> sp_join(ms.push(x)) == x,
        ms.len() > 0 ==> sp_join(ms.push(x)) == sp_join(ms) + seq![44u8] + x,
    decreases ms.len(),
{
    if ms.len() == 0 {
        assert(sp_join(ms.push(x)) =~= x);
    } else if ms.len() == 1 {
        assert(ms.push(x).drop_first() =~= seq![x]);
        assert(sp_join(seq![x]) == x);
        assert(sp_join(ms.push(x)) =~= ms[0] + seq![44u8] + x);
        assert(sp_join(ms) + seq![44u8] + x =~= ms[0] + seq![44u8] + x);
    } else {
        assert(ms.push(x).drop_first() =~= ms.drop_first().push(x));
        lemma_sp_join_push(ms.drop_first(), x);
        assert(sp_join(ms.push(x)) =~= sp_join(ms) + seq![44u8] + x);
    }
}

/// Appends a byte slice to the output.
pub fn push_bytes(out: &mut Vec<u8>, s: &[u8])
    ensures
        final(out)@ == old(out)@ + s@,
{
    let mut i: usize = 0;
    while i < s.len()
        invariant
            0 <= i <= s@.len(),
            out@ == old(out)@ + s@.take(i as int),
        decreases s@.len() - i,
    {
        out.push(s[i]);
        proof {
            assert(s@.take(i + 1 as int) =~= s@.take(i as int).push(s@[i as int]));
        }
        i = i + 1;
    }
    proof {
        assert(s@.take(s@.len() as int) =~= s@);
    }
}

/// Appends the UTF-8 bytes of a string.
pub fn push_lit(out: &mut Vec<u8>, s: &str)
    ensures
        final(out)@ == old(out)@ + sbytes(s@),
{
    push_bytes(out, s.as_bytes());
}

/// Appends one escaped content byte.
fn push_esc_byte(out: &mut Vec<u8>, b: u8)
    ensures
        final(out)@ == old(out)@ + esc_byte(b),
{
    if b == 34 {
        out.push(92);
        out.push(34);
        assert(out@ =~= old(out)@ + esc_byte(b));
    } else if b == 92 {
        out.push(92);
        out.push(92);
        assert(out@ =~= old(out)@ + esc_byte(b));
    } else if b == 8 {
        out.push(92);
        out.push(98);
        assert(out@ =~= old(out)@ + esc_byte(b));
    } else if b == 12 {
        out.push(92);
        out.push(102);
        assert(out@ =~= old(out)@ + esc_byte(b));
    } else if b == 10 {
        out.push(92);
        out.push(110);
        assert(out@ =~= old(out)@ + esc_byte(b));
    } else if b == 13 {
        out.push(92);
        out.push(114);
        assert(out@ =~= old(out)@ + esc_byte(b));
    } else if b == 9 {
        out.push(92);
        out.push(116);
        assert(out@ =~= old(out)@ + esc_byte(b));
    } else if b < 32 {
        out.push(92);
        out.push(117);
        out.push(48);
        out.push(48);
        let hi: u8 = b / 16;
        let lo: u8 = b % 16;
        out.push(if hi < 10 { 48 + hi } else { 87 + hi });
        out.push(if lo < 10 { 48 + lo } else { 87 + lo });
        assert(out@ =~= old(out)@ + esc_byte(b));
    } else {
        out.push(b);
        assert(out@ =~= old(out)@ + esc_byte(b));
    }
}

pub proof fn lemma_esc_bytes_append(a: Seq<u8>, b: Seq<u8>)
    ensures
        esc_bytes(a + b) == esc_bytes(a) + esc_bytes(b),
    decreases b.len(),
{
    if b.len() == 0 {
        assert(a + b =~= a);
        assert(esc_bytes(a) + esc_bytes(b) =~= esc_bytes(a));
    } else {
        lemma_esc_bytes_append(a, b.drop_last());
        assert(a + b =~= (a + b.drop_last()).push(b.last()));
        lemma_esc_bytes_push(a + b.drop_last(), b.last());
        lemma_esc_bytes_push(b.drop_last(), b.last());
        assert(b.drop_last().push(b.last()) =~= b);
        assert(esc_bytes(a + b) =~= esc_bytes(a) + esc_bytes(b));
    }
}

pub proof fn lemma_sbytes_append(a: Seq<char>, b: Seq<char>)
    ensures
        sbytes(a + b) == sbytes(a) + sbytes(b),
    decreases a.len(),
{
    if a.len() == 0 {
        assert(a + b =~= b);
        assert(sbytes(a) + sbytes(b) =~= sbytes(b));
    } else {
        assert((a + b).drop_first() =~= a.drop_first() + b);
        lemma_sbytes_append(a.drop_first(), b);
        assert(encode_utf8(a + b) =~= encode_utf8(a) + encode_utf8(b));
    }
}

/// Appends the escaped bytes of a string's content.
pub fn push_esc_str(out: &mut Vec<u8>, s: &str)
    ensures
        final(out)@ == old(out)@ + esc_bytes(sbytes(s@)),
{
    let b = s.as_bytes();
    let mut i: usize = 0;
    while i < b.len()
        invariant
            0 <= i <= b@.len(),
            b@ == sbytes(s@),
            out@ == old(out)@ + esc_bytes(b@.take(i as int)),
        decreases b@.len() - i,
    {
        push_esc_byte(out, b[i]);
        proof {
            assert(b@.take(i + 1 as int) =~= b@.take(i as int).push(b@[i as int]));
            lemma_esc_bytes_push(b@.take(i as int), b@[i as int]);
        }
        i = i + 1;
    }
    proof {
        assert(b@.take(b@.len() as int) =~= b@);
    }
}

/// Appends a JSON string literal for the given text.
pub fn push_json_str(out: &mut Vec<u8>, s: &str)
    ensures
        final(out)@ == old(out)@ + json_str_bytes(s@),
{
    out.push(34);
    let b = s.as_bytes();
    let mut i: usize = 0;
    while i < b.len()
        invariant
            0 <= i <= b@.len(),
            b@ == sbytes(s@),
            out@ == old(out)@ + seq![34u8] + esc_bytes(b@.take(i as int)),
        decreases b@.len() - i,
    {
        push_esc_byte(out, b[i]);
        proof {
            assert(b@.take(i + 1 as int) =~= b@.take(i as int).push(b@[i as int]));
            lemma_esc_bytes_push(b@.take(i as int), b@[i as int]);
        }
        i = i + 1;
    }
    proof {
        assert(b@.take(b@.len() as int) =~= b@);
    }
    out.push(34);
    proof {
        assert(out@ =~= old(out)@ + json_str_bytes(s@));
    }
}

/// Appends the decimal numeral of an unsigned value.
pub fn push_dec_u128(out: &mut Vec<u8>, n: u128)
    ensures
        final(out)@ == old(out)@ + dec_digits(n as nat),
    decreases n,
{
    if n < 10 {
        out.push(48 + n as u8);
        assert(out@ =~= old(out)@ + dec_digits(n as nat));
    } else {
        assert(n / 10 < n) by (nonlinear_arith)
            requires n >= 10,
        ;
        push_dec_u128(out, n / 10);
        out.push(48 + (n % 10) as u8);
        assert(out@ =~= old(out)@ + dec_digits(n as nat));
    }
}

/// Appends the decimal numeral of a signed value.
pub fn push_dec_i64(out: &mut Vec<u8>, n: i64)
    ensures
        final(out)@ == old(out)@ + dec_int(n as int),
{
    if n < 0 {
        out.push(45);
        let m: u128 = (-(n as i128)) as u128;
        assert(m as nat == (-(n as int)) as nat);
        push_dec_u128(out, m);
        assert(out@ =~= old(out)@ + dec_int(n as int));
    } else {
        push_dec_u128(out, n as u128);
    }
}

/// Appends the members joined by commas.
fn push_join(out: &mut Vec<u8>, ms: &Vec<Vec<u8>>)
    ensures
        final(out)@ == old(out)@ + sp_join(ms.deep_view()),
{
    let mut i: usize = 0;
    while i < ms.len()
        invariant
            0 <= i <= ms@.len(),
            out@ == old(out)@ + sp_join(ms.deep_view().take(i as int)),
        decreases ms@.len() - i,
    {
        if i > 0 {
            out.push(44);
        }
        push_bytes(out, ms[i].as_slice());
        proof {
            assert(ms.deep_view().take(i + 1 as int) =~= ms.deep_view().take(
                i as int,
            ).push(ms.deep_view()[i as int]));
            lemma_sp_join_push(ms.deep_view().take(i as int), ms.deep_view()[i as int]);
            assert(ms.deep_view()[i as int] == ms@[i as int]@);
            assert(out@ =~= old(out)@ + sp_join(ms.deep_view().take(i + 1 as int)));
        }
        i = i + 1;
    }
    proof {
        assert(ms.deep_view().take(ms@.len() as int) =~= ms.deep_view());
    }
}

/// Appends a JSON object with the given member texts.
pub fn push_obj(out: &mut Vec<u8>, ms: &Vec<Vec<u8>>)
    ensures
        final(out)@ == old(out)@ + sp_obj(ms.deep_view()),
{
    out.push(123);
    push_join(out, ms);
    out.push(125);
    proof {
        assert(out@ =~= old(out)@ + sp_obj(ms.deep_view()));
    }
}

/// Appends a JSON array with the given element texts.
pub fn push_arr(out: &mut Vec<u8>, ms: &Vec<Vec<u8>>)
    ensures
        final(out)@ == old(out)@ + sp_arr(ms.deep_view()),
{
    out.push(91);
    push_join(out, ms);
    out.push(93);
    proof {
        assert(out@ =~= old(out)@ + sp_arr(ms.deep_view()));
    }
}

/// Builds one object member from a key and an already-rendered value.
pub fn member(key: &str, val: Vec<u8>) -> (r: Vec<u8>)
    ensures
        r@ == obj_member(key@, val@),
{
    let mut out: Vec<u8> = Vec::new();
    out.push(34);
    push_lit(&mut out, key);
    out.push(34);
    out.push(58);
    push_bytes(&mut out, val.as_slice());
    proof {
        assert(out@ =~= obj_member(key@, val@));
    }
    out
}

/// The index of the first non-digit byte at or after `i`.
pub open spec fn sp_scan_digits(s: Seq<u8>, i: int) -> int
    decreases s.len() - i,
{
    if 0 <= i < s.len() && is_digit(s[i]) {
        sp_scan_digits(s, i + 1)
    } else {
        i
    }
}

pub proof fn lemma_scan_digits_range(s: Seq<u8>, i: int)
    requires
        0 <= i <= s.len(),
    ensures
        i <= sp_scan_digits(s, i) <= s.len(),
    decreases s.len() - i,
{
    if i < s.len() && is_digit(s[i]) {
        lemma_scan_digits_range(s, i + 1);
    }
}

/// The end of the exponent part of a JSON number, if it is well formed,
/// starting from the byte after the fraction (or integer) part.
pub open spec fn sp_scan_exp(s: Seq<u8>, k: int) -> Option<int> {
    if 0 <= k < s.len() && (s[k] == 101 || s[k] == 69) {
        let e0 = if k + 1 < s.len() && (s[k + 1] == 43 || s[k + 1] == 45) {
            k + 2
        } else {
            k + 1
        };
        if e0 < s.len() && is_digit(s[e0]) {
            Some(sp_scan_digits(s, e0))
        } else {
            None
        }
    } else {
        Some(k)
    }
}

/// The end of the fraction and exponent parts of a JSON number, if they
/// are well formed, starting from the byte after the integer part.
pub open spec fn sp_scan_frac(s: Seq<u8>, k: int) -> Option<int> {
    if 0 <= k < s.len() && s[k] == 46 {
        if k + 1 < s.len() && is_digit(s[k + 1]) {
            sp_scan_exp(s, sp_scan_digits(s, k + 1))
        } else {
            None
        }
    } else {
        sp_scan_exp(s, k)
    }
}

/// The end of a JSON number starting at `i`: an optional minus sign, an
/// integer part without leading zeros, then optional fraction and
/// exponent parts. `None` when no well-formed number starts at `i`.
pub open spec fn sp_scan_number(s: Seq<u8>, i: int) -> Option<int> {
    let j = if 0 <= i < s.len() && s[i] == 45 {
        i + 1
    } else {
        i
    };
    if 0 <= j < s.len() && is_digit(s[j]) {
        let k = if s[j] == 48 {
            j + 1
        } else {
            sp_scan_digits(s, j)
        };
        sp_scan_frac(s, k)
    } else {
        None
    }
}

/// True when the whole byte sequence is one well-formed JSON number.
pub open spec fn is_number_lit(s: Seq<u8>) -> bool {
    sp_scan_number(s, 0) == Some(s.len() as int)
}

pub proof fn lemma_scan_number_range(s: Seq<u8>, i: int)
    requires
        0 <= i <= s.len(),
    ensures
        sp_scan_number(s, i) matches Some(e) ==> i < e <= s.len(),
{
    let j = if i < s.len() && s[i] == 45 {
        i + 1
    } else {
        i
    };
    if 0 <= j < s.len() && is_digit(s[j]) {
        let k = if s[j] == 48 {
            j + 1
        } else {
            sp_scan_digits(s, j)
        };
        assert(sp_scan_digits(s, j) == sp_scan_digits(s, j + 1));
        lemma_scan_digits_range(s, j + 1);
        if 0 <= k < s.len() && s[k] == 46 {
            if k + 1 < s.len() && is_digit(s[k + 1]) {
                lemma_scan_digits_range(s, k + 1);
                let k2 = sp_scan_digits(s, k + 1);
                lemma_scan_exp_range(s, k2);
            }
        } else {
            lemma_scan_exp_range(s, k);
        }
    }
}

pub proof fn lemma_scan_exp_range(s: Seq<u8>, k: int)
    requires
        0 <= k <= s.len(),
    ensures
        sp_scan_exp(s, k) matches Some(e) ==> k <= e <= s.len(),
{
    if 0 <= k < s.len() && (s[k] == 101 || s[k] == 69) {
        let e0 = if k + 1 < s.len() && (s[k + 1] == 43 || s[k + 1] == 45) {
            k + 2
        } else {
            k + 1
        };
        if e0 < s.len() && is_digit(s[e0]) {
            lemma_scan_digits_range(s, e0);
        }
    }
}

/// Scans digit bytes starting at `i`.
pub fn scan_digits(s: &[u8], i: usize) -> (r: usize)
    requires
        i <= s@.len(),
    ensures
        r as int == sp_scan_digits(s@, i as int),
        i <= r <= s@.len(),
{
    let mut j: usize = i;
    loop
        invariant
            i <= j <= s@.len(),
            sp_scan_digits(s@, i as int) == sp_scan_digits(s@, j as int),
        decreases s@.len() - j,
    {
        if j < s.len() && 48 <= s[j] && s[j] <= 57 {
            j = j + 1;
        } else {
            return j;
        }
    }
}

/// Scans one JSON number starting at `i`, returning its end.
pub fn scan_number(s: &[u8], i: usize) -> (r: Option<usize>)
    requires
        i <= s@.len(),
    ensures
        r is Some <==> sp_scan_number(s@, i as int) is Some,
        r matches Some(e) ==> Some(e as int) == sp_scan_number(s@, i as int) && i < e <= s@.len(),
{
    proof {
        lemma_scan_number_range(s@, i as int);
    }
    let j: usize = if i < s.len() && s[i] == 45 {
        i + 1
    } else {
        i
    };
    if j < s.len() && 48 <= s[j] && s[j] <= 57 {
        let k: usize = if s[j] == 48 {
            j + 1
        } else {
            scan_digits(s, j)
        };
        // fraction part
        let k2: usize = if k < s.len() && s[k] == 46 {
            if k + 1 < s.len() && 48 <= s[k + 1] && s[k + 1] <= 57 {
                scan_digits(s, k + 1)
            } else {
                return None;
            }
        } else {
            k
        };
        // exponent part
        if k2 < s.len() && (s[k2] == 101 || s[k2] == 69) {
            let e0: usize = if k2 + 1 < s.len() && (s[k2 + 1] == 43 || s[k2 + 1] == 45) {
                k2 + 2
            } else {
                k2 + 1
            };
            if e0 < s.len() && 48 <= s[e0] && s[e0] <= 57 {
                Some(scan_digits(s, e0))
            } else {
                None
            }
        } else {
            Some(k2)
        }
    } else {
        None
    }
}

/// A JSON number literal, held as its exact wire text. Values are built
/// only through [`JsonNum::new`], which admits just well-formed JSON
/// numbers, so fractional and exponent forms can be carried without
/// any floating-point representation.
pub struct JsonNum {
    text: String,
}

impl JsonNum {
    /// The bytes this literal puts on the wire.
    pub closed spec fn lit(&self) -> Seq<u8> {
        sbytes(self.text@)
    }

    /// True when the held text is one well-formed JSON number.
    pub closed spec fn wf(&self) -> bool {
        is_number_lit(sbytes(self.text@))
    }

    /// Accepts the text exactly when it is a well-formed JSON number.
    pub fn new(text: &str) -> (r: Option<JsonNum>)
        ensures
            r is Some <==> is_number_lit(sbytes(text@)),
            r matches Some(n) ==> n.lit() == sbytes(text@) && n.wf(),
    {
        let b = s_bytes_of(text);
        match scan_number(b, 0) {
            Some(e) => {
                if e == b.len() {
                    Some(JsonNum { text: text.to_owned() })
                } else {
                    None
                }
            },
            None => None,
        }
    }

    /// The wire text, for rendering.
    pub fn render(&self) -> (r: Vec<u8>)
        ensures
            r@ == self.lit(),
    {
        let mut out: Vec<u8> = Vec::new();
        push_lit(&mut out, self.text.as_str());
        out
    }
}

/// The UTF-8 bytes of a string slice.
fn s_bytes_of(s: &str) -> (r: &[u8])
    ensures
        r@ == sbytes(s@),
{
    s.as_bytes()
}

} // verus!
