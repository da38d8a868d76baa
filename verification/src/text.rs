//! Byte and character helpers shared by the metadata and addressing code.

use vstd::prelude::*;
use vstd::string::{StrSliceExecFns, StringSliceAdditionalSpecFns};
use vstd::utf8::{encode_utf8, valid_utf8};

use crate::error::Error;

verus! {

/// What `std::str::Utf8Error` displays for bytes that are not UTF-8 (where the
/// bad sequence starts, and how long it is or that it is incomplete).
pub uninterp spec fn utf8_error_text(bytes: Seq<u8>) -> Seq<char>;

/// `std::str::from_utf8`: the bytes read as a string slice exactly when they are
/// well-formed UTF-8 (as std documents), and the slice then holds those very
/// bytes; otherwise the error's displayed text, which is named.
#[verifier::external_body]
pub(crate) fn str_from_utf8(bytes: &[u8]) -> (r: Result<&str, String>)
    ensures
        r is Ok <==> valid_utf8(bytes@),
        r matches Ok(s) ==> s.spec_bytes() == bytes@,
        r matches Err(m) ==> m@ == utf8_error_text(bytes@),
{
    match std::str::from_utf8(bytes) {
        Ok(s) => Ok(s),
        Err(e) => Err(e.to_string()),
    }
}

/// `Vec::as_mut_slice`: the slice is the vector's contents, what is written
/// through it is what the vector then holds, and its length cannot change.
/// Claimed beyond vstd's own statement of it: the call does not panic (it only
/// reborrows the vector's buffer).
#[verifier::external_body]
pub(crate) fn vec_as_mut_slice<T>(v: &mut Vec<T>) -> (s: &mut [T])
    ensures
        s@ == old(v)@,
        final(s)@ == final(v)@,
        final(s)@.len() == old(v)@.len(),
    no_unwind
{
    v.as_mut_slice()
}

/// Index of the first zero byte of `s`, if there is one.
pub open spec fn first_nul(s: Seq<u8>) -> Option<int> {
    if exists|i: int| is_first_nul(s, i) {
        Some(choose|i: int| is_first_nul(s, i))
    } else {
        None
    }
}

/// `s[i]` is zero and no earlier byte is.
pub open spec fn is_first_nul(s: Seq<u8>, i: int) -> bool {
    0 <= i < s.len() && s[i] == 0 && forall|j: int| 0 <= j < i ==> s[j] != 0
}

/// Position of the first zero byte in `bytes[..limit]`.
pub fn find_nul(bytes: &[u8], limit: usize) -> (r: Option<usize>)
    requires
        limit <= bytes@.len(),
    ensures
        r matches Some(i) ==> i < limit && bytes@[i as int] == 0 && forall|j: int|
            0 <= j < i ==> bytes@[j] != 0,
        r is None ==> forall|j: int| 0 <= j < limit ==> bytes@[j] != 0,
{
    let mut i: usize = 0;
    while i < limit
        invariant
            i <= limit <= bytes@.len(),
            forall|j: int| 0 <= j < i ==> bytes@[j] != 0,
        decreases limit - i,
    {
        if bytes[i] == 0 {
            return Some(i);
        }
        i = i + 1;
    }
    None
}

/// Copies `bytes` into a fresh vector.
pub fn copy_bytes(bytes: &[u8]) -> (r: Vec<u8>)
    ensures
        r@ == bytes@,
{
    let mut out: Vec<u8> = Vec::new();
    let mut i: usize = 0;
    while i < bytes.len()
        invariant
            i <= bytes@.len(),
            out@ == bytes@.subrange(0, i as int),
        decreases bytes@.len() - i,
    {
        out.push(bytes[i]);
        i = i + 1;
        assert(out@ == bytes@.subrange(0, i as int));
    }
    assert(bytes@.subrange(0, bytes@.len() as int) == bytes@);
    out
}

/// `bytes[start..end]` as a borrowed slice.
pub fn sub_slice(bytes: &[u8], start: usize, end: usize) -> (r: &[u8])
    requires
        start <= end <= bytes@.len(),
    ensures
        r@ == bytes@.subrange(start as int, end as int),
{
    vstd::slice::slice_subrange(bytes, start, end)
}

/// The characters of a string slice.
pub fn chars_of(s: &str) -> (r: Vec<char>)
    ensures
        r@ == s@,
{
    let n = s.unicode_len();
    let mut out: Vec<char> = Vec::new();
    let mut i: usize = 0;
    while i < n
        invariant
            n == s@.len(),
            i <= n,
            out@ == s@.subrange(0, i as int),
        decreases n - i,
    {
        out.push(s.get_char(i));
        i = i + 1;
        assert(out@ == s@.subrange(0, i as int));
    }
    assert(s@.subrange(0, n as int) == s@);
    out
}

/// `pat` occurs in `s` starting at `i`.
pub open spec fn occurs_at(s: Seq<char>, pat: Seq<char>, i: int) -> bool {
    0 <= i && i + pat.len() <= s.len() && s.subrange(i, i + pat.len()) == pat
}

/// `pat` occurs somewhere in `s`.
pub open spec fn contains_seq(s: Seq<char>, pat: Seq<char>) -> bool {
    exists|i: int| occurs_at(s, pat, i)
}

/// `pat` occurs at `i` and nowhere before.
pub open spec fn is_first_occurrence(s: Seq<char>, pat: Seq<char>, i: int) -> bool {
    occurs_at(s, pat, i) && forall|j: int| 0 <= j < i ==> !occurs_at(s, pat, j)
}

/// Start of the first occurrence of `pat` in `s`.
pub open spec fn first_occurrence(s: Seq<char>, pat: Seq<char>) -> Option<int> {
    if exists|i: int| is_first_occurrence(s, pat, i) {
        Some(choose|i: int| is_first_occurrence(s, pat, i))
    } else {
        None
    }
}

/// Does `pat` occur at `i`?
fn occurs_at_exec(s: &[char], pat: &[char], i: usize) -> (r: bool)
    requires
        i + pat@.len() <= s@.len(),
    ensures
        r == occurs_at(s@, pat@, i as int),
{
    let m = pat.len();
    let n = s.len();
    let mut k: usize = 0;
    while k < m
        invariant
            m == pat@.len(),
            n == s@.len(),
            i + m <= s@.len(),
            k <= m,
            forall|j: int| 0 <= j < k ==> s@[i + j] == pat@[j],
        decreases m - k,
    {
        if s[i + k] != pat[k] {
            proof {
                assert(s@.subrange(i as int, i + m)[k as int] != pat@[k as int]);
            }
            return false;
        }
        k = k + 1;
    }
    assert(s@.subrange(i as int, i + m) =~= pat@);
    true
}

/// Start of the first occurrence of `pat` in `s`.
pub fn find_chars(s: &[char], pat: &[char]) -> (r: Option<usize>)
    ensures
        r matches Some(i) ==> first_occurrence(s@, pat@) == Some(i as int) && occurs_at(
            s@,
            pat@,
            i as int,
        ),
        r is None ==> first_occurrence(s@, pat@) is None && !contains_seq(s@, pat@),
        r is Some <==> contains_seq(s@, pat@),
{
    let n = s.len();
    let m = pat.len();
    if m > n {
        return None;
    }
    let last = n - m;
    let mut i: usize = 0;
    loop
        invariant
            n == s@.len(),
            m == pat@.len(),
            last == n - m,
            i <= last,
            forall|j: int| 0 <= j < i ==> !occurs_at(s@, pat@, j),
        decreases last - i,
    {
        if occurs_at_exec(s, pat, i) {
            proof {
                assert(is_first_occurrence(s@, pat@, i as int));
                let q = choose|q: int| is_first_occurrence(s@, pat@, q);
                assert(is_first_occurrence(s@, pat@, q));
            }
            return Some(i);
        }
        if i == last {
            proof {
                assert forall|j: int| !occurs_at(s@, pat@, j) by {
                    if occurs_at(s@, pat@, j) {
                        assert(j <= i);
                    }
                }
            }
            return None;
        }
        i = i + 1;
    }
}

/// Index of the first `c` in `s`.
pub open spec fn first_index_of(s: Seq<char>, c: char) -> Option<int> {
    if exists|i: int| 0 <= i < s.len() && s[i] == c {
        Some(choose|i: int| 0 <= i < s.len() && s[i] == c && forall|j: int| 0 <= j < i ==> s[j] != c)
    } else {
        None
    }
}

/// Index of the last `c` in `s`.
pub open spec fn last_index_of(s: Seq<char>, c: char) -> Option<int> {
    if exists|i: int| 0 <= i < s.len() && s[i] == c {
        Some(choose|i: int| 0 <= i < s.len() && s[i] == c && forall|j: int| i < j < s.len() ==> s[j] != c)
    } else {
        None
    }
}

/// The part of `s` before its first `c`, or all of `s`.
pub open spec fn before_first(s: Seq<char>, c: char) -> Seq<char> {
    match first_index_of(s, c) {
        Some(i) => s.subrange(0, i),
        None => s,
    }
}

/// Index of the first `c` in `s[from..]`, counted from the start of `s`.
pub fn find_char_from(s: &[char], c: char, from: usize) -> (r: Option<usize>)
    requires
        from <= s@.len(),
    ensures
        r matches Some(i) ==> from <= i < s@.len() && s@[i as int] == c && forall|j: int|
            from <= j < i ==> s@[j] != c,
        r is None ==> forall|j: int| from <= j < s@.len() ==> s@[j] != c,
{
    let n = s.len();
    let mut i: usize = from;
    while i < n
        invariant
            n == s@.len(),
            from <= i <= n,
            forall|j: int| from <= j < i ==> s@[j] != c,
        decreases n - i,
    {
        if s[i] == c {
            return Some(i);
        }
        i = i + 1;
    }
    None
}

/// Index of the first `c` in `s`.
pub fn first_index_exec(s: &[char], c: char) -> (r: Option<usize>)
    ensures
        r matches Some(i) ==> first_index_of(s@, c) == Some(i as int) && i < s@.len() && s@[i as int]
            == c,
        r is None ==> first_index_of(s@, c) is None,
{
    let r = find_char_from(s, c, 0);
    proof {
        if let Some(i) = r {
            let q = choose|q: int| 0 <= q < s@.len() && s@[q] == c && forall|j: int| 0 <= j < q ==> s@[j] != c;
            assert(0 <= q < s@.len() && s@[q] == c && forall|j: int| 0 <= j < q ==> s@[j] != c);
            if q < i {
                assert(s@[q] != c);
            } else if q > i {
                assert(s@[i as int] != c);
            }
        }
    }
    r
}

/// Index of the last `c` in `s`.
pub fn last_index_exec(s: &[char], c: char) -> (r: Option<usize>)
    ensures
        r matches Some(i) ==> last_index_of(s@, c) == Some(i as int) && i < s@.len() && s@[i as int]
            == c,
        r is None ==> last_index_of(s@, c) is None,
{
    let n = s.len();
    let mut i: usize = n;
    while i > 0
        invariant
            n == s@.len(),
            i <= n,
            forall|j: int| i <= j < n ==> s@[j] != c,
        decreases i,
    {
        if s[i - 1] == c {
            let k = i - 1;
            proof {
                let q = choose|q: int| 0 <= q < s@.len() && s@[q] == c && forall|j: int| q < j < s@.len() ==> s@[j] != c;
                assert(0 <= q < s@.len() && s@[q] == c && forall|j: int| q < j < s@.len() ==> s@[j] != c);
                if q < k {
                    assert(s@[k as int] != c);
                } else if q > k {
                    assert(s@[q] != c);
                }
            }
            return Some(k);
        }
        i = i - 1;
    }
    None
}

/// A decimal digit.
pub open spec fn is_digit(c: char) -> bool {
    '0' <= c <= '9'
}

/// The value of a string of decimal digits.
pub open spec fn digits_value(s: Seq<char>) -> int
    decreases s.len(),
{
    if s.len() == 0 {
        0
    } else {
        digits_value(s.drop_last()) * 10 + (s.last() as int - '0' as int)
    }
}

/// The text after an optional leading `+`.
pub open spec fn unsigned_digits(s: Seq<char>) -> Seq<char> {
    if s.len() > 0 && s[0] == '+' {
        s.subrange(1, s.len() as int)
    } else {
        s
    }
}

/// How `str::parse::<u16>` reads text: an optional `+`, then one or more decimal
/// digits whose value is at most 65535.
pub open spec fn parse_u16(s: Seq<char>) -> Option<u16> {
    let d = unsigned_digits(s);
    if d.len() > 0 && (forall|i: int| 0 <= i < d.len() ==> is_digit(d[i])) && digits_value(d)
        <= 65535 {
        Some(digits_value(d) as u16)
    } else {
        None
    }
}

/// Digit prefixes never have a larger value than the whole.
proof fn lemma_digits_prefix_le(s: Seq<char>, k: int)
    requires
        0 <= k <= s.len(),
        forall|i: int| 0 <= i < s.len() ==> is_digit(s[i]),
    ensures
        0 <= digits_value(s.subrange(0, k)) <= digits_value(s),
    decreases s.len(),
{
    if s.len() == 0 {
        assert(s.subrange(0, k) =~= s);
    } else if k == s.len() {
        assert(s.subrange(0, k) =~= s);
        lemma_digits_prefix_le(s.drop_last(), 0);
        assert(s.drop_last().subrange(0, 0) =~= Seq::<char>::empty());
    } else {
        lemma_digits_prefix_le(s.drop_last(), k);
        assert(s.drop_last().subrange(0, k) =~= s.subrange(0, k));
    }
}

/// Parses text as `str::parse::<u16>` does.
pub fn parse_u16_chars(s: &[char]) -> (r: Option<u16>)
    ensures
        r == parse_u16(s@),
{
    let n = s.len();
    let start: usize = if n > 0 && s[0] == '+' {
        1
    } else {
        0
    };
    let ghost d = unsigned_digits(s@);
    assert(d =~= s@.subrange(start as int, n as int));
    if start == n {
        return None;
    }
    let mut value: u32 = 0;
    let mut i: usize = start;
    while i < n
        invariant
            n == s@.len(),
            start < n,
            d == unsigned_digits(s@),
            d == s@.subrange(start as int, n as int),
            start <= i <= n,
            forall|j: int| start <= j < i ==> is_digit(s@[j]),
            value == digits_value(s@.subrange(start as int, i as int)),
            value <= 65535,
        decreases n - i,
    {
        let c = s[i];
        if c < '0' || c > '9' {
            proof {
                assert(d[i - start] == c);
                assert(!is_digit(d[i - start]));
                assert(parse_u16(s@) is None);
            }
            return None;
        }
        let digit = (c as u32) - ('0' as u32);
        proof {
            let p = s@.subrange(start as int, i + 1);
            assert(p.drop_last() =~= s@.subrange(start as int, i as int));
            assert(p.last() == c);
            assert(digits_value(p) == value * 10 + digit);
        }
        if value * 10 + digit > 65535 {
            proof {
                let p = s@.subrange(start as int, i + 1);
                if forall|t: int| 0 <= t < d.len() ==> is_digit(d[t]) {
                    lemma_digits_prefix_le(d, i + 1 - start);
                    assert(d.subrange(0, i + 1 - start) =~= p);
                    assert(digits_value(d) > 65535);
                }
                assert(parse_u16(s@) is None);
            }
            return None;
        }
        value = value * 10 + digit;
        i = i + 1;
    }
    proof {
        assert(s@.subrange(start as int, n as int) == d);
    }
    Some(value as u16)
}

/// Text that can become a C string: no NUL byte in its UTF-8 encoding.
pub open spec fn c_string_ok(s: Seq<char>) -> bool {
    forall|i: int| 0 <= i < encode_utf8(s).len() ==> encode_utf8(s)[i] != 0
}

/// The bytes of a C string holding `s`, or the position of the first NUL byte
/// that prevents it.
pub fn c_string_bytes(s: &str) -> (r: Result<Vec<u8>, Error>)
    ensures
        r is Ok <==> c_string_ok(s@),
        r matches Ok(b) ==> b@ == encode_utf8(s@) + seq![0u8],
        r matches Err(e) ==> e matches Error::InvalidCString(p) && first_nul(encode_utf8(s@)) == Some(
            p as int,
        ),
{
    let bytes = s.as_bytes();
    match find_nul(bytes, bytes.len()) {
        Some(p) => {
            proof {
                assert(is_first_nul(bytes@, p as int));
                let q = choose|q: int| is_first_nul(bytes@, q);
                assert(is_first_nul(bytes@, q));
                if q < p {
                    assert(bytes@[q] != 0);
                } else if q > p {
                    assert(bytes@[p as int] != 0);
                }
            }
            Err(Error::InvalidCString(p))
        },
        None => {
            let mut out = copy_bytes(bytes);
            out.push(0u8);
            Ok(out)
        },
    }
}

/// Whether two string slices hold the same characters.
pub fn str_equal(a: &str, b: &str) -> (r: bool)
    ensures
        r == (a@ == b@),
{
    let x = chars_of(a);
    let y = chars_of(b);
    if x.len() != y.len() {
        return false;
    }
    let n = x.len();
    let mut i: usize = 0;
    while i < n
        invariant
            x@ == a@,
            y@ == b@,
            n == x@.len(),
            n == y@.len(),
            i <= n,
            forall|j: int| 0 <= j < i ==> x@[j] == y@[j],
        decreases n - i,
    {
        if x[i] != y[i] {
            return false;
        }
        i = i + 1;
    }
    assert(x@ =~= y@);
    true
}

/// `16` to the power `k`.
pub open spec fn pow16(k: nat) -> nat
    decreases k,
{
    if k == 0 {
        1
    } else {
        16 * pow16((k - 1) as nat)
    }
}

/// The upper-case hexadecimal digit of a value below 16.
pub open spec fn hex_char(d: int) -> char {
    if d == 0 { '0' } else if d == 1 { '1' } else if d == 2 { '2' } else if d == 3 { '3' }
    else if d == 4 { '4' } else if d == 5 { '5' } else if d == 6 { '6' } else if d == 7 { '7' }
    else if d == 8 { '8' } else if d == 9 { '9' } else if d == 10 { 'A' } else if d == 11 { 'B' }
    else if d == 12 { 'C' } else if d == 13 { 'D' } else if d == 14 { 'E' } else { 'F' }
}

/// `0x` and the eight upper-case hexadecimal digits of `v`, most significant
/// first.
pub open spec fn hex_u32_text(v: u32) -> Seq<char> {
    seq!['0', 'x'] + Seq::new(8, |i: int| hex_char((v as int / pow16((7 - i) as nat) as int) % 16))
}

/// The upper-case hexadecimal digit of `d`.
fn hex_digit(d: u32) -> (r: &'static str)
    requires
        d < 16,
    ensures
        r@ == seq![hex_char(d as int)],
{
    proof {
        reveal_strlit("0");
        reveal_strlit("1");
        reveal_strlit("2");
        reveal_strlit("3");
        reveal_strlit("4");
        reveal_strlit("5");
        reveal_strlit("6");
        reveal_strlit("7");
        reveal_strlit("8");
        reveal_strlit("9");
        reveal_strlit("A");
        reveal_strlit("B");
        reveal_strlit("C");
        reveal_strlit("D");
        reveal_strlit("E");
        reveal_strlit("F");
    }
    match d {
        0 => "0",
        1 => "1",
        2 => "2",
        3 => "3",
        4 => "4",
        5 => "5",
        6 => "6",
        7 => "7",
        8 => "8",
        9 => "9",
        10 => "A",
        11 => "B",
        12 => "C",
        13 => "D",
        14 => "E",
        _ => "F",
    }
}

/// `text` followed by `0x` and the eight upper-case hexadecimal digits of `v`.
pub fn with_hex_u32(text: &str, v: u32) -> (r: String)
    ensures
        r@ == text@ + hex_u32_text(v),
{
    let mut out = text.to_string();
    out.append("0x");
    proof {
        reveal_strlit("0x");
        reveal_with_fuel(pow16, 8);
        assert(pow16(7) == 0x1000_0000);
    }
    let mut divisor: u32 = 0x1000_0000;
    let mut i: u32 = 0;
    while i < 8
        invariant
            i <= 8,
            divisor as nat == pow16((7 - i) as nat) || (i == 8 && divisor == 0),
            out@ == text@ + seq!['0', 'x'] + Seq::new(
                i as nat,
                |j: int| hex_char((v as int / pow16((7 - j) as nat) as int) % 16),
            ),
        decreases 8 - i,
    {
        proof {
            assert(divisor > 0) by {
                if i < 7 {
                    lemma_pow16_positive((7 - i) as nat);
                }
            }
        }
        let d = (v / divisor) % 16;
        let ghost before = out@;
        out.append(hex_digit(d));
        proof {
            assert(out@ =~= text@ + seq!['0', 'x'] + Seq::new(
                (i + 1) as nat,
                |j: int| hex_char((v as int / pow16((7 - j) as nat) as int) % 16),
            ));
        }
        if i < 7 {
            proof {
                assert(pow16((7 - i) as nat) == 16 * pow16((7 - i - 1) as nat));
            }
            divisor = divisor / 16;
        } else {
            divisor = 0;
        }
        i = i + 1;
    }
    proof {
        assert(text@ + seq!['0', 'x'] + Seq::new(
            8,
            |j: int| hex_char((v as int / pow16((7 - j) as nat) as int) % 16),
        ) =~= text@ + hex_u32_text(v));
    }
    out
}

/// The decimal digits of `n`, most significant first, with no leading zeros.
pub open spec fn nat_text(n: nat) -> Seq<char>
    decreases n,
{
    if n < 10 {
        seq![hex_char(n as int)]
    } else {
        nat_text(n / 10) + seq![hex_char((n % 10) as int)]
    }
}

/// The decimal text of `v`, with a leading `-` when negative.
pub open spec fn int_text(v: int) -> Seq<char> {
    if v < 0 {
        seq!['-'] + nat_text((-v) as nat)
    } else {
        nat_text(v as nat)
    }
}

/// Appends the decimal digits of `n`.
fn append_nat(out: &mut String, n: u128)
    ensures
        final(out)@ == old(out)@ + nat_text(n as nat),
    decreases n,
{
    if n >= 10 {
        append_nat(out, n / 10);
    }
    out.append(hex_digit((n % 10) as u32));
    proof {
        if n >= 10 {
            assert(out@ =~= old(out)@ + nat_text(n as nat));
        } else {
            assert(out@ =~= old(out)@ + nat_text(n as nat));
        }
    }
}

/// Appends the decimal text of `v`, as `Display` writes an integer.
pub fn append_int(out: &mut String, v: i128)
    requires
        v > i128::MIN,
    ensures
        final(out)@ == old(out)@ + int_text(v as int),
{
    if v < 0 {
        out.append("-");
        proof {
            reveal_strlit("-");
        }
        append_nat(out, (-v) as u128);
        proof {
            assert(out@ =~= old(out)@ + int_text(v as int));
        }
    } else {
        append_nat(out, v as u128);
    }
}

/// `text` followed by the decimal text of `v`.
pub fn with_int(text: &str, v: i128) -> (r: String)
    requires
        v > i128::MIN,
    ensures
        r@ == text@ + int_text(v as int),
{
    let mut out = text.to_string();
    append_int(&mut out, v);
    out
}

/// Powers of 16 are positive.
proof fn lemma_pow16_positive(k: nat)
    ensures
        pow16(k) > 0,
    decreases k,
{
    if k > 0 {
        lemma_pow16_positive((k - 1) as nat);
    }
}

} // verus!
