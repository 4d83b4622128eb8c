//! Codec for the linked record's wide-string fields.
//!
//! The record stores text in fixed-size buffers of 16-bit code units. The
//! width is a protocol constant: the buffers always hold UTF-16, regardless of
//! any platform's native wide-character size. Encoding writes at most
//! `capacity - 1` units and always terminates with a zero unit; decoding scans
//! to the first zero unit and interprets the preceding units as UTF-16, with
//! lossy substitution for unpaired surrogates.

use vstd::arithmetic::div_mod::{
    lemma_div_is_ordered, lemma_div_pos_is_pos, lemma_fundamental_div_mod,
    lemma_mod_division_less_than_divisor,
};
use vstd::prelude::*;
use vstd::slice::slice_index_get;
use vstd::string::StrSliceExecFns;
use vstd::utf8::is_scalar;

verus! {

broadcast use vstd::utf8::char_is_scalar;

/// The Unicode replacement character, substituted for unpaired surrogates.
pub open spec fn replacement() -> char {
    '\u{FFFD}'
}

pub open spec fn is_high_surrogate(w: u16) -> bool {
    0xD800 <= w <= 0xDBFF
}

pub open spec fn is_low_surrogate(w: u16) -> bool {
    0xDC00 <= w <= 0xDFFF
}

/// The UTF-16 code units of a single character: one unit for a character in
/// the basic multilingual plane, a surrogate pair for any other.
pub open spec fn wide_units_of_char(c: char) -> Seq<u16> {
    let cp = c as u32;
    if cp < 0x10000 {
        seq![cp as u16]
    } else {
        seq![
            (0xD800 + (cp as int - 0x10000) / 0x400) as u16,
            (0xDC00 + (cp as int - 0x10000) % 0x400) as u16,
        ]
    }
}

/// The UTF-16 code units of a text, in order.
pub open spec fn wide_units(s: Seq<char>) -> Seq<u16>
    decreases s.len(),
{
    if s.len() == 0 {
        Seq::empty()
    } else {
        wide_units_of_char(s[0]) + wide_units(s.skip(1))
    }
}

/// The scalar value encoded by a surrogate pair.
pub open spec fn combined_scalar(hi: u16, lo: u16) -> int
    recommends
        is_high_surrogate(hi),
        is_low_surrogate(lo),
{
    0x10000 + (hi - 0xD800) * 0x400 + (lo - 0xDC00)
}

/// Lossy UTF-16 decoding: a high surrogate followed by a low surrogate forms
/// one character; an unpaired surrogate becomes the replacement character;
/// every other unit is its own character.
pub open spec fn decode_units(u: Seq<u16>) -> Seq<char>
    decreases u.len(),
{
    if u.len() == 0 {
        Seq::empty()
    } else if is_high_surrogate(u[0]) && u.len() >= 2 && is_low_surrogate(u[1]) {
        seq![(combined_scalar(u[0], u[1]) as u32) as char] + decode_units(u.skip(2))
    } else if is_high_surrogate(u[0]) || is_low_surrogate(u[0]) {
        seq![replacement()] + decode_units(u.skip(1))
    } else {
        seq![(u[0] as u32) as char] + decode_units(u.skip(1))
    }
}

/// The index of the first zero unit, or the length if there is none.
pub open spec fn first_zero(u: Seq<u16>) -> int
    decreases u.len(),
{
    if u.len() == 0 {
        0
    } else if u[0] == 0 {
        0
    } else {
        1 + first_zero(u.skip(1))
    }
}

/// The contents of a buffer of `dst.len()` units after a text has been copied
/// into it: the leading units of the text, truncated to leave room for the
/// terminating zero unit, then the terminator, then the untouched tail.
pub open spec fn copied_wide(dst: Seq<u16>, s: Seq<char>) -> Seq<u16> {
    if dst.len() == 0 {
        dst
    } else {
        let c = dst.len() as int;
        let w = wide_units(s);
        let k: int = if w.len() < c - 1 {
            w.len() as int
        } else {
            c - 1
        };
        w.take(k) + seq![0u16] + dst.skip(k + 1)
    }
}

/// The text that decoding a buffer yields: lossy UTF-16 decoding of the units
/// before the first zero unit.
pub open spec fn decoded(u: Seq<u16>) -> Seq<char> {
    decode_units(u.take(first_zero(u)))
}

/// Relies on `char::from_u32`: for every non-surrogate value up to `0x10FFFF`
/// it returns `Some` of the character with that scalar value.
#[verifier::external_body]
fn char_from_scalar(v: u32) -> (c: char)
    requires
        is_scalar(v),
    ensures
        c as u32 == v,
{
    char::from_u32(v).unwrap()
}

/// Relies on `String::push`: appends exactly the given character.
#[verifier::external_body]
fn push_char(s: &mut String, c: char)
    ensures
        final(s)@ == old(s)@.push(c),
{
    s.push(c);
}

pub proof fn lemma_wide_units_append(a: Seq<char>, b: Seq<char>)
    ensures
        wide_units(a + b) == wide_units(a) + wide_units(b),
    decreases a.len(),
{
    if a.len() == 0 {
        assert(a + b =~= b);
        assert(wide_units(a) + wide_units(b) =~= wide_units(b));
    } else {
        lemma_wide_units_append(a.skip(1), b);
        assert((a + b).skip(1) =~= a.skip(1) + b);
        assert((a + b)[0] == a[0]);
        assert(wide_units(a + b) =~= wide_units(a) + wide_units(b));
    }
}

/// Encode `src` into the fixed buffer `dest`: write at most `dest.len() - 1`
/// code units, terminate with a zero unit, and leave the tail beyond the
/// terminator as it was. A zero-capacity buffer is left untouched.
pub fn copy(dest: &mut [u16], src: &str)
    ensures
        final(dest)@ == copied_wide(old(dest)@, src@),
{
    let cap: usize = dest.len();
    if cap == 0 {
        return ;
    }
    let n: usize = src.unicode_len();
    let mut j: usize = 0;
    let mut idx: usize = 0;
    while j < n && idx < cap - 1
        invariant
            cap == dest@.len(),
            dest@.len() == old(dest)@.len(),
            cap > 0,
            n == src@.len(),
            j <= n,
            idx <= cap - 1,
            idx as int == ({
                let wl = wide_units(src@.take(j as int)).len() as int;
                if wl < cap - 1 {
                    wl
                } else {
                    cap - 1
                }
            }),
            forall|i: int|
                0 <= i < idx ==> dest@[i] == wide_units(src@.take(j as int))[i],
            forall|i: int| idx <= i < cap ==> dest@[i] == old(dest)@[i],
        decreases n - j,
    {
        let ghost w_before = wide_units(src@.take(j as int));
        let ch = src.get_char(j);
        let cp: u32 = ch as u32;
        proof {
            lemma_wide_units_append(src@.take(j as int), seq![src@[j as int]]);
            assert(src@.take(j as int) + seq![src@[j as int]] =~= src@.take(j as int + 1));
            assert(seq![ch].skip(1) =~= Seq::<char>::empty());
            assert(wide_units(seq![ch]) == wide_units_of_char(ch) + wide_units(
                seq![ch].skip(1),
            ));
            assert(wide_units_of_char(ch) + Seq::<u16>::empty() =~= wide_units_of_char(ch));
            assert(wide_units(src@.take(j as int + 1)) =~= w_before + wide_units_of_char(ch));
        }
        if cp < 0x10000 {
            dest[idx] = cp as u16;
            idx = idx + 1;
        } else {
            let d: u32 = cp - 0x10000;
            proof {
                assert(cp <= 0x10FFFF);
                lemma_div_pos_is_pos(d as int, 0x400);
                lemma_div_is_ordered(d as int, 0xFFFFF, 0x400);
                lemma_mod_division_less_than_divisor(d as int, 0x400);
            }
            let hi: u16 = (0xD800 + d / 0x400) as u16;
            let lo: u16 = (0xDC00 + d % 0x400) as u16;
            dest[idx] = hi;
            idx = idx + 1;
            if idx < cap - 1 {
                dest[idx] = lo;
                idx = idx + 1;
            }
        }
        j = j + 1;
    }
    proof {
        lemma_wide_units_append(src@.take(j as int), src@.skip(j as int));
        assert(src@.take(j as int) + src@.skip(j as int) =~= src@);
        if j == n {
            assert(src@.take(j as int) =~= src@);
        }
    }
    dest[idx] = 0;
    proof {
        assert(dest@ =~= copied_wide(old(dest)@, src@));
    }
}

/// Decode the buffer: scan for the first zero unit (or the end of the buffer
/// if there is none) and interpret the units before it as UTF-16, with lossy
/// substitution for unpaired surrogates.
pub fn read(src: &[u16]) -> (r: String)
    ensures
        r@ == decoded(src@),
{
    let len: usize = src.len();
    let mut zero: usize = 0;
    while zero < len && *slice_index_get(src, zero) != 0
        invariant
            len == src@.len(),
            zero <= len,
            forall|i: int| 0 <= i < zero ==> src@[i] != 0,
        decreases len - zero,
    {
        zero = zero + 1;
    }
    proof {
        lemma_first_zero_is(src@, zero as int);
    }
    let ghost u = src@.take(zero as int);
    let mut r = String::new();
    let mut i: usize = 0;
    proof {
        assert(u.skip(0) =~= u);
        assert(r@ + decode_units(u) =~= decode_units(u));
    }
    while i < zero
        invariant
            zero <= src@.len(),
            u == src@.take(zero as int),
            u.len() == zero,
            forall|k: int| 0 <= k < zero ==> u[k] == src@[k],
            i <= zero,
            decode_units(u) == r@ + decode_units(u.skip(i as int)),
        decreases zero - i,
    {
        let w: u16 = *slice_index_get(src, i);
        proof {
            assert(u.skip(i as int)[0] == u[i as int]);
        }
        if 0xD800 <= w && w <= 0xDBFF && i + 1 < zero && 0xDC00 <= *slice_index_get(src, i + 1)
            && *slice_index_get(src, i + 1) <= 0xDFFF {
            let lo: u16 = *slice_index_get(src, i + 1);
            proof {
                assert(u.skip(i as int)[1] == u[i as int + 1]);
                assert(u.skip(i as int).skip(2) =~= u.skip(i as int + 2));
            }
            let scalar: u32 = 0x10000 + ((w - 0xD800) as u32) * 0x400 + ((lo - 0xDC00) as u32);
            proof {
                assert(scalar == combined_scalar(w, lo));
            }
            let c = char_from_scalar(scalar);
            push_char(&mut r, c);
            proof {
                vstd::utf8::char_u32_cast(c, scalar);
                assert(r@ + decode_units(u.skip(i as int + 2)) =~= decode_units(u));
            }
            i = i + 2;
        } else if 0xD800 <= w && w <= 0xDFFF {
            proof {
                assert(u.skip(i as int).skip(1) =~= u.skip(i as int + 1));
                if is_high_surrogate(w) && u.skip(i as int).len() >= 2 {
                    assert(u.skip(i as int)[1] == u[i as int + 1]);
                }
            }
            push_char(&mut r, '\u{FFFD}');
            proof {
                assert(r@ + decode_units(u.skip(i as int + 1)) =~= decode_units(u));
            }
            i = i + 1;
        } else {
            proof {
                assert(u.skip(i as int).skip(1) =~= u.skip(i as int + 1));
            }
            let c = char_from_scalar(w as u32);
            push_char(&mut r, c);
            proof {
                vstd::utf8::char_u32_cast(c, w as u32);
                assert(r@ + decode_units(u.skip(i as int + 1)) =~= decode_units(u));
            }
            i = i + 1;
        }
    }
    proof {
        assert(u.skip(zero as int) =~= Seq::<u16>::empty());
        assert(r@ + decode_units(u.skip(zero as int)) =~= r@);
    }
    r
}

/// The first zero unit is where a scan says it is: every unit before `k` is
/// nonzero, and `k` is either the length or the position of a zero unit.
pub proof fn lemma_first_zero_is(u: Seq<u16>, k: int)
    requires
        0 <= k <= u.len(),
        forall|i: int| 0 <= i < k ==> u[i] != 0,
        k < u.len() ==> u[k] == 0,
    ensures
        first_zero(u) == k,
    decreases k,
{
    if k == 0 {
    } else {
        assert(u[0] != 0);
        assert forall|i: int| 0 <= i < k - 1 implies u.skip(1)[i] != 0 by {
            assert(u.skip(1)[i] == u[i + 1]);
        }
        assert(k - 1 < u.skip(1).len() ==> u.skip(1)[k - 1] == 0);
        lemma_first_zero_is(u.skip(1), k - 1);
    }
}

/// No code unit of a NUL-free text is zero.
pub proof fn lemma_wide_units_no_zero(s: Seq<char>)
    requires
        forall|i: int| 0 <= i < s.len() ==> s[i] != '\0',
    ensures
        forall|i: int| 0 <= i < wide_units(s).len() ==> wide_units(s)[i] != 0,
    decreases s.len(),
{
    if s.len() > 0 {
        let c = s[0];
        let cp = c as u32;
        if cp < 0x10000 {
            if cp == 0 {
                vstd::utf8::char_u32_cast(c, cp);
                vstd::utf8::char_u32_cast('\0', 0);
                assert(c == '\0');
            }
            assert(wide_units_of_char(c)[0] != 0);
        } else {
            vstd::utf8::char_is_scalar(c);
            assert(cp <= 0x10FFFF);
            lemma_div_pos_is_pos(cp as int - 0x10000, 0x400);
            lemma_div_is_ordered(cp as int - 0x10000, 0xFFFFF, 0x400);
            lemma_mod_division_less_than_divisor(cp as int - 0x10000, 0x400);
            assert(0xFFFFF as int / 0x400 == 0x3FF) by (nonlinear_arith);
            assert(wide_units_of_char(c)[0] != 0);
            assert(wide_units_of_char(c)[1] != 0);
        }
        assert forall|i: int| 0 <= i < s.skip(1).len() implies s.skip(1)[i] != '\0' by {
            assert(s.skip(1)[i] == s[i + 1]);
        }
        lemma_wide_units_no_zero(s.skip(1));
        assert forall|i: int| 0 <= i < wide_units(s).len() implies wide_units(s)[i] != 0 by {
            if i < wide_units_of_char(c).len() {
            } else {
                assert(wide_units(s)[i] == wide_units(s.skip(1))[i - wide_units_of_char(
                    c,
                ).len()]);
            }
        }
    }
}

/// Decoding inverts encoding on whole texts.
pub proof fn lemma_decode_of_encode(s: Seq<char>)
    ensures
        decode_units(wide_units(s)) == s,
    decreases s.len(),
{
    if s.len() == 0 {
        assert(wide_units(s) =~= Seq::<u16>::empty());
        assert(decode_units(wide_units(s)) =~= s);
    } else {
        let c = s[0];
        let cp = c as u32;
        let rest = s.skip(1);
        let u = wide_units(s);
        lemma_decode_of_encode(rest);
        vstd::utf8::char_is_scalar(c);
        if cp < 0x10000 {
            let w = cp as u16;
            assert(u[0] == w);
            assert(!(0xD800 <= cp <= 0xDFFF));
            assert(w as u32 == cp);
            assert(!is_high_surrogate(w) && !is_low_surrogate(w));
            assert(u.skip(1) =~= wide_units(rest));
            vstd::utf8::char_u32_cast(c, cp);
            assert((u[0] as u32) as char == c);
            assert(decode_units(u) =~= seq![c] + rest);
        } else {
            let d = cp as int - 0x10000;
            assert(cp <= 0x10FFFF);
            lemma_div_pos_is_pos(d, 0x400);
            lemma_div_is_ordered(d, 0xFFFFF, 0x400);
            lemma_mod_division_less_than_divisor(d, 0x400);
            lemma_fundamental_div_mod(d, 0x400);
            assert(0xFFFFF as int / 0x400 == 0x3FF) by (nonlinear_arith);
            let hi = (0xD800 + d / 0x400) as u16;
            let lo = (0xDC00 + d % 0x400) as u16;
            assert(u[0] == hi && u[1] == lo);
            assert(is_high_surrogate(hi) && is_low_surrogate(lo));
            assert(combined_scalar(hi, lo) == cp);
            assert(u.skip(2) =~= wide_units(rest));
            vstd::utf8::char_u32_cast(c, cp);
            assert((combined_scalar(u[0], u[1]) as u32) as char == c);
            assert(decode_units(u) =~= seq![c] + rest);
        }
        assert(seq![c] + rest =~= s);
    }
}

/// Law: for a NUL-free text, encoding into a buffer with room for all of its
/// code units and then decoding returns the text unchanged, and decoding stops
/// exactly at the terminator that encoding wrote.
pub proof fn lemma_roundtrip(dst: Seq<u16>, s: Seq<char>)
    requires
        forall|i: int| 0 <= i < s.len() ==> s[i] != '\0',
        wide_units(s).len() as int <= dst.len() as int - 1,
    ensures
        first_zero(copied_wide(dst, s)) == wide_units(s).len(),
        decoded(copied_wide(dst, s)) == s,
{
    let w = wide_units(s);
    let buf = copied_wide(dst, s);
    lemma_wide_units_no_zero(s);
    assert(buf =~= w + seq![0u16] + dst.skip(w.len() as int + 1));
    assert forall|i: int| 0 <= i < w.len() implies buf[i] != 0 by {
        assert(buf[i] == w[i]);
    }
    assert(buf[w.len() as int] == 0);
    lemma_first_zero_is(buf, w.len() as int);
    assert(buf.take(w.len() as int) =~= w);
    lemma_decode_of_encode(s);
}

/// A text of the basic multilingual plane takes one code unit per character.
pub proof fn lemma_wide_units_bmp_len(s: Seq<char>)
    requires
        forall|i: int| 0 <= i < s.len() ==> (s[i] as u32) < 0x10000,
    ensures
        wide_units(s).len() == s.len(),
    decreases s.len(),
{
    if s.len() > 0 {
        assert forall|i: int| 0 <= i < s.skip(1).len() implies (s.skip(1)[i] as u32) < 0x10000 by {
            assert(s.skip(1)[i] == s[i + 1]);
        }
        lemma_wide_units_bmp_len(s.skip(1));
    }
}

/// Law: for a NUL-free text of the basic multilingual plane whose code units
/// do not fit the buffer, encoding into capacity `c` and decoding returns
/// exactly the first `c - 1` characters. (Truncating a text with characters
/// beyond the plane can cut a surrogate pair in half, and the orphaned half
/// then decodes to the replacement character.)
pub proof fn lemma_truncated_roundtrip(dst: Seq<u16>, s: Seq<char>)
    requires
        forall|i: int| 0 <= i < s.len() ==> s[i] != '\0' && (s[i] as u32) < 0x10000,
        dst.len() >= 1,
        wide_units(s).len() as int >= dst.len() as int - 1,
    ensures
        first_zero(copied_wide(dst, s)) == dst.len() - 1,
        decoded(copied_wide(dst, s)) == s.take(dst.len() as int - 1),
{
    let c = dst.len() as int;
    let k = c - 1;
    let w = wide_units(s);
    lemma_wide_units_bmp_len(s);
    let head = s.take(k);
    assert forall|i: int| 0 <= i < head.len() implies head[i] != '\0' && (head[i] as u32)
        < 0x10000 by {
        assert(head[i] == s[i]);
    }
    lemma_wide_units_append(head, s.skip(k));
    assert(head + s.skip(k) =~= s);
    lemma_wide_units_bmp_len(head);
    assert(w.take(k) =~= wide_units(head));
    lemma_wide_units_no_zero(s);
    let buf = copied_wide(dst, s);
    assert(buf =~= w.take(k) + seq![0u16] + dst.skip(k + 1));
    assert forall|i: int| 0 <= i < k implies buf[i] != 0 by {
        assert(buf[i] == w.take(k)[i]);
        assert(w.take(k)[i] == w[i]);
    }
    assert(buf[k] == 0);
    lemma_first_zero_is(buf, k);
    assert(buf.take(k) =~= wide_units(head));
    lemma_decode_of_encode(head);
}

} // verus!
