//! Character-level text helpers shared by the tabs: decimal rendering,
//! digit tables and the few `String` operations of std that the rest of
//! the crate builds on.
use vstd::prelude::*;

verus! {

broadcast use vstd::string::group_string_axioms;

/// The character of a decimal digit `d < 10`.
pub open spec fn digit_char(d: nat) -> char {
    if d == 0 { '0' }
    else if d == 1 { '1' }
    else if d == 2 { '2' }
    else if d == 3 { '3' }
    else if d == 4 { '4' }
    else if d == 5 { '5' }
    else if d == 6 { '6' }
    else if d == 7 { '7' }
    else if d == 8 { '8' }
    else { '9' }
}

/// The decimal rendering of a natural number, without leading zeros
/// (`0` is rendered as `"0"`), as `u64::to_string` and `{}` produce it.
pub open spec fn decimal(n: nat) -> Seq<char>
    decreases n,
{
    if n < 10 {
        seq![digit_char(n)]
    } else {
        decimal(n / 10).push(digit_char(n % 10))
    }
}

/// The decimal rendering of `n` left-padded with zeros to exactly `width`
/// digits (`n` must be below `10^width`), as `{:0width$}` produces it.
pub open spec fn padded_decimal(n: nat, width: nat) -> Seq<char>
    decreases width,
{
    if width == 0 {
        Seq::empty()
    } else {
        padded_decimal(n / 10, (width - 1) as nat).push(digit_char(n % 10))
    }
}

/// The upper-case hexadecimal digit of `d < 16`.
pub open spec fn hex_upper(d: nat) -> char {
    if d < 10 { digit_char(d) }
    else if d == 10 { 'A' }
    else if d == 11 { 'B' }
    else if d == 12 { 'C' }
    else if d == 13 { 'D' }
    else if d == 14 { 'E' }
    else { 'F' }
}

/// The lower-case hexadecimal digit of `d < 16`.
pub open spec fn hex_lower(d: nat) -> char {
    if d < 10 { digit_char(d) }
    else if d == 10 { 'a' }
    else if d == 11 { 'b' }
    else if d == 12 { 'c' }
    else if d == 13 { 'd' }
    else if d == 14 { 'e' }
    else { 'f' }
}

/// The value of a hexadecimal digit of either case, if `c` is one.
pub open spec fn hex_value(c: char) -> Option<nat> {
    if '0' <= c && c <= '9' {
        Some((c as nat - '0' as nat) as nat)
    } else if 'a' <= c && c <= 'f' {
        Some((c as nat - 'a' as nat + 10) as nat)
    } else if 'A' <= c && c <= 'F' {
        Some((c as nat - 'A' as nat + 10) as nat)
    } else {
        None
    }
}

/// Appends one character (std `String::push`).
#[verifier::external_body]
pub(crate) fn push_char(s: &mut String, c: char)
    ensures
        final(s)@ == old(s)@.push(c),
{
    s.push(c);
}

/// Appends a string slice (std `String::push_str`).
#[verifier::external_body]
pub(crate) fn push_str(s: &mut String, t: &str)
    ensures
        final(s)@ == old(s)@ + t@,
{
    s.push_str(t);
}

/// The characters of a string slice, in order.
pub fn chars_of(s: &str) -> (v: Vec<char>)
    ensures
        v@ == s@,
{
    let mut v: Vec<char> = Vec::new();
    for c in it: s.chars()
        invariant
            it.seq() == s@,
            v@ == it.seq().take(it.index() as int),
    {
        v.push(c);
    }
    assert(v@ =~= s@);
    v
}

/// The character of a decimal digit.
pub fn digit_to_char(d: u64) -> (c: char)
    requires
        d < 10,
    ensures
        c == digit_char(d as nat),
{
    if d == 0 { '0' }
    else if d == 1 { '1' }
    else if d == 2 { '2' }
    else if d == 3 { '3' }
    else if d == 4 { '4' }
    else if d == 5 { '5' }
    else if d == 6 { '6' }
    else if d == 7 { '7' }
    else if d == 8 { '8' }
    else { '9' }
}

/// Appends the decimal rendering of `n` to `out`.
pub fn push_decimal(out: &mut String, n: u128)
    ensures
        final(out)@ == old(out)@ + decimal(n as nat),
    decreases n,
{
    if n < 10 {
        push_char(out, digit_to_char(n as u64));
    } else {
        push_decimal(out, n / 10);
        push_char(out, digit_to_char((n % 10) as u64));
    }
}

/// The decimal rendering of an integer, with a leading '-' when negative.
pub open spec fn signed_decimal(i: int) -> Seq<char> {
    if i < 0 { seq!['-'] + decimal((-i) as nat) } else { decimal(i as nat) }
}

/// Appends the decimal rendering of a signed integer to `out`.
pub fn push_signed_decimal(out: &mut String, i: i64)
    ensures
        final(out)@ == old(out)@ + signed_decimal(i as int),
{
    if i < 0 {
        push_char(out, '-');
        let m: i128 = -(i as i128);
        push_decimal(out, m as u128);
        assert(final(out)@ =~= old(out)@ + signed_decimal(i as int));
    } else {
        push_decimal(out, i as u128);
    }
}

/// Appends `n` zero-padded to `width` digits.
pub fn push_padded_decimal(out: &mut String, n: u128, width: u32)
    ensures
        final(out)@ == old(out)@ + padded_decimal(n as nat, width as nat),
    decreases width,
{
    if width > 0 {
        push_padded_decimal(out, n / 10, width - 1);
        push_char(out, digit_to_char((n % 10) as u64));
    }
}

/// The decimal rendering of `n` as a new `String` (what `n.to_string()` gives).
pub fn u64_to_decimal(n: u64) -> (s: String)
    ensures
        s@ == decimal(n as nat),
{
    let mut s = String::new();
    push_decimal(&mut s, n as u128);
    s
}


/// Number of bytes of `c` in UTF-8.
pub open spec fn utf8_width(c: char) -> nat {
    if (c as u32) < 0x80 { 1 }
    else if (c as u32) < 0x800 { 2 }
    else if (c as u32) < 0x10000 { 3 }
    else { 4 }
}

/// Length in UTF-8 bytes of a character sequence (what `str::len` returns).
pub open spec fn byte_len(s: Seq<char>) -> nat
    decreases s.len(),
{
    if s.len() == 0 {
        0
    } else {
        utf8_width(s[0]) + byte_len(s.drop_first())
    }
}

/// The number of characters that end exactly at byte offset `b`, if `b` is a
/// character boundary of `s` (`None` when `b` falls inside a character or
/// past the end).
pub open spec fn boundary_index(s: Seq<char>, b: nat) -> Option<nat>
    decreases s.len(),
{
    if b == 0 {
        Some(0)
    } else if s.len() == 0 || utf8_width(s[0]) > b {
        None
    } else {
        match boundary_index(s.drop_first(), (b - utf8_width(s[0])) as nat) {
            Some(i) => Some(i + 1),
            None => None,
        }
    }
}

/// The characters of the byte range `from..to` of `s`, as `&s[from..to]`
/// gives them; `None` where that slicing panics.
pub open spec fn byte_slice(s: Seq<char>, from: nat, to: nat) -> Option<Seq<char>> {
    match (boundary_index(s, from), boundary_index(s, to)) {
        (Some(i), Some(j)) => if i <= j { Some(s.subrange(i as int, j as int)) } else { None },
        _ => None,
    }
}

/// `s` without any leading occurrences of `c` (`str::trim_start_matches`
/// with a character pattern).
pub open spec fn trim_start_char(s: Seq<char>, c: char) -> Seq<char>
    decreases s.len(),
{
    if s.len() > 0 && s[0] == c {
        trim_start_char(s.drop_first(), c)
    } else {
        s
    }
}

/// Trimming leading `c`s a second time changes nothing.
pub proof fn lemma_trim_start_char_idempotent(s: Seq<char>, c: char)
    ensures
        trim_start_char(trim_start_char(s, c), c) == trim_start_char(s, c),
    decreases s.len(),
{
    if s.len() > 0 && s[0] == c {
        lemma_trim_start_char_idempotent(s.drop_first(), c);
    }
}

/// `s` without its leading `c`s, as a new string.
pub fn trim_start_of(s: &str, c: char) -> (t: String)
    ensures
        t@ == trim_start_char(s@, c),
{
    let v = chars_of(s);
    let lo = skip_leading(&v, c);
    let mut t = String::new();
    let mut i: usize = lo;
    while i < v.len()
        invariant
            lo <= i <= v.len(),
            t@ == v@.subrange(lo as int, i as int),
        decreases v.len() - i,
    {
        push_char(&mut t, v[i]);
        i += 1;
        assert(t@ =~= v@.subrange(lo as int, i as int));
    }
    t
}

/// Whether `s` begins with `prefix` (`str::starts_with` with a string
/// pattern).
pub fn starts_with_text(s: &str, prefix: &str) -> (b: bool)
    ensures
        b == prefix@.is_prefix_of(s@),
{
    let v = chars_of(s);
    let p = chars_of(prefix);
    if p.len() > v.len() {
        return false;
    }
    let mut i: usize = 0;
    while i < p.len()
        invariant
            p.len() <= v.len(),
            i <= p.len(),
            v@ == s@,
            p@ == prefix@,
            forall|k: int| 0 <= k < i ==> p@[k] == v@[k],
        decreases p.len() - i,
    {
        if p[i] != v[i] {
            assert(!(prefix@ =~= s@.subrange(0, prefix@.len() as int))) by {
                assert(s@.subrange(0, prefix@.len() as int)[i as int] == v@[i as int]);
            }
            return false;
        }
        i += 1;
    }
    assert(prefix@ =~= s@.subrange(0, prefix@.len() as int));
    true
}

/// The base-16 value of a sequence of hexadecimal digits, if all are digits.
pub open spec fn hex_digits_value(d: Seq<char>) -> Option<nat>
    decreases d.len(),
{
    if d.len() == 0 {
        Some(0)
    } else {
        match (hex_digits_value(d.drop_last()), hex_value(d.last())) {
            (Some(a), Some(b)) => Some(16 * a + b),
            _ => None,
        }
    }
}

/// What `u8::from_str_radix(s, 16)` returns: an optional leading `+`, then one
/// or more hexadecimal digits of either case whose value fits in a byte.
pub open spec fn u8_from_hex(s: Seq<char>) -> Option<nat> {
    if s.len() == 0 || (s.len() == 1 && (s[0] == '+' || s[0] == '-')) {
        None
    } else {
        let digits = if s[0] == '+' { s.drop_first() } else { s };
        match hex_digits_value(digits) {
            Some(v) => if v < 256 { Some(v) } else { None },
            None => None,
        }
    }
}

/// Executable `utf8_width`.
pub fn char_width(c: char) -> (w: usize)
    ensures
        w == utf8_width(c),
{
    let u = c as u32;
    if u < 0x80 { 1 } else if u < 0x800 { 2 } else if u < 0x10000 { 3 } else { 4 }
}

/// The byte length of a concatenation is the sum of the byte lengths.
pub proof fn lemma_byte_len_concat(a: Seq<char>, b: Seq<char>)
    ensures
        byte_len(a + b) == byte_len(a) + byte_len(b),
    decreases a.len(),
{
    if a.len() == 0 {
        assert(a + b =~= b);
    } else {
        assert((a + b).drop_first() =~= a.drop_first() + b);
        lemma_byte_len_concat(a.drop_first(), b);
    }
}

/// The UTF-8 length of all of `v` (what `str::len` gives for these
/// characters).
pub fn byte_len_total(v: &Vec<char>) -> (n: usize)
    requires
        byte_len(v@) <= usize::MAX,
    ensures
        n == byte_len(v@),
{
    let mut n: usize = 0;
    let mut i: usize = 0;
    assert(v@.subrange(0, 0) =~= Seq::<char>::empty());
    while i < v.len()
        invariant
            i <= v.len(),
            byte_len(v@) <= usize::MAX,
            n == byte_len(v@.subrange(0, i as int)),
        decreases v.len() - i,
    {
        let w = char_width(v[i]);
        proof {
            let head = v@.subrange(0, i as int);
            let one = seq![v@[i as int]];
            assert(v@.subrange(0, i + 1) =~= head + one);
            lemma_byte_len_concat(head, one);
            assert(one.drop_first() =~= Seq::<char>::empty());
            assert(byte_len(one.drop_first()) == 0);
            assert(byte_len(one) == utf8_width(v@[i as int]));
            assert(v@ =~= v@.subrange(0, i + 1) + v@.subrange(i + 1, v.len() as int));
            lemma_byte_len_concat(v@.subrange(0, i + 1), v@.subrange(i + 1, v.len() as int));
        }
        n = n + w;
        i += 1;
    }
    assert(v@.subrange(0, v.len() as int) =~= v@);
    n
}

/// A boundary index never passes the end of the sequence.
pub proof fn lemma_boundary_index_le(s: Seq<char>, b: nat)
    ensures
        boundary_index(s, b) is Some ==> boundary_index(s, b).unwrap() <= s.len(),
    decreases s.len(),
{
    if b != 0 && s.len() != 0 && utf8_width(s[0]) <= b {
        lemma_boundary_index_le(s.drop_first(), (b - utf8_width(s[0])) as nat);
    }
}

/// The character index at which byte offset `b` of `v` falls, if it is a
/// character boundary (as `boundary_index`, computed by a loop).
pub fn char_index_at_byte(v: &Vec<char>, b: usize) -> (r: Option<usize>)
    ensures
        match boundary_index(v@, b as nat) {
            Some(i) => r == Some(i as usize) && i <= v.len(),
            None => r is None,
        },
{
    proof {
        lemma_boundary_index_le(v@, b as nat);
    }
    let mut i: usize = 0;
    let mut rest: usize = b;
    assert(v@.subrange(0, v.len() as int) =~= v@);
    while i < v.len() && rest > 0
        invariant
            i <= v.len(),
            rest <= b,
            match boundary_index(v@.subrange(i as int, v.len() as int), rest as nat) {
                Some(k) => boundary_index(v@, b as nat) == Some((k + i) as nat),
                None => boundary_index(v@, b as nat) is None,
            },
        decreases v.len() - i,
    {
        let w = char_width(v[i]);
        let ghost t = v@.subrange(i as int, v.len() as int);
        assert(t[0] == v@[i as int]);
        assert(t.drop_first() =~= v@.subrange(i + 1, v.len() as int));
        if w > rest {
            return None;
        }
        rest = rest - w;
        i += 1;
    }
    if rest == 0 {
        Some(i)
    } else {
        assert(v@.subrange(i as int, v.len() as int).len() == 0);
        None
    }
}

/// Index of the first character of `v` that is not `c`.
pub fn skip_leading(v: &Vec<char>, c: char) -> (i: usize)
    ensures
        i <= v.len(),
        v@.subrange(i as int, v.len() as int) == trim_start_char(v@, c),
{
    let mut i: usize = 0;
    assert(v@.subrange(0, v.len() as int) =~= v@);
    while i < v.len() && v[i] == c
        invariant
            i <= v.len(),
            trim_start_char(v@.subrange(i as int, v.len() as int), c) == trim_start_char(v@, c),
        decreases v.len() - i,
    {
        assert(v@.subrange(i as int, v.len() as int).drop_first() =~= v@.subrange(i + 1, v.len() as int));
        i += 1;
    }
    i
}

/// Byte length of `v[lo..hi]`, saturating once it exceeds `cap`.
pub fn byte_len_of(v: &Vec<char>, lo: usize, hi: usize, cap: usize) -> (n: usize)
    requires
        lo <= hi <= v.len(),
        cap < usize::MAX - 4,
    ensures
        n <= cap ==> n == byte_len(v@.subrange(lo as int, hi as int)),
        n > cap ==> byte_len(v@.subrange(lo as int, hi as int)) > cap,
    decreases hi - lo,
{
    if lo == hi {
        assert(v@.subrange(lo as int, hi as int).len() == 0);
        0
    } else {
        let w = char_width(v[lo]);
        let rest = byte_len_of(v, lo + 1, hi, cap);
        assert(v@.subrange(lo as int, hi as int).drop_first() =~= v@.subrange(lo + 1, hi as int));
        if rest > cap { rest } else { rest + w }
    }
}

/// Index of `v` (counted from `lo`) where byte offset `b` of `v[lo..hi]` falls,
/// if that offset is a character boundary.
pub fn boundary_index_of(v: &Vec<char>, lo: usize, hi: usize, b: usize) -> (r: Option<usize>)
    requires
        lo <= hi <= v.len(),
    ensures
        match boundary_index(v@.subrange(lo as int, hi as int), b as nat) {
            Some(i) => r == Some((lo + i) as usize),
            None => r is None,
        },
    decreases hi - lo,
{
    if b == 0 {
        Some(lo)
    } else if lo == hi {
        None
    } else {
        let w = char_width(v[lo]);
        assert(v@.subrange(lo as int, hi as int).drop_first() =~= v@.subrange(lo + 1, hi as int));
        if w > b {
            None
        } else {
            boundary_index_of(v, lo + 1, hi, b - w)
        }
    }
}

/// Executable `u8_from_hex` on the characters `v[lo..hi]`.
pub fn u8_from_hex_chars(v: &Vec<char>, lo: usize, hi: usize) -> (r: Option<u8>)
    requires
        lo <= hi <= v.len(),
    ensures
        match u8_from_hex(v@.subrange(lo as int, hi as int)) {
            Some(x) => r == Some(x as u8),
            None => r is None,
        },
{
    let ghost s = v@.subrange(lo as int, hi as int);
    if lo == hi || (hi - lo == 1 && (v[lo] == '+' || v[lo] == '-')) {
        return None;
    }
    let start = if v[lo] == '+' { lo + 1 } else { lo };
    let ghost digits = v@.subrange(start as int, hi as int);
    assert(s[0] == v@[lo as int]);
    assert(digits =~= (if s[0] == '+' { s.drop_first() } else { s }));
    assert(!(s.len() == 0 || (s.len() == 1 && (s[0] == '+' || s[0] == '-'))));
    let mut acc: u64 = 0;
    assert(v@.subrange(start as int, start as int) =~= Seq::<char>::empty());
    let mut i = start;
    while i < hi
        invariant
            start <= i <= hi <= v.len(),
            lo <= start,
            s == v@.subrange(lo as int, hi as int),
            digits == v@.subrange(start as int, hi as int),
            s.len() > 0,
            digits == (if s[0] == '+' { s.drop_first() } else { s }),
            !(s.len() == 0 || (s.len() == 1 && (s[0] == '+' || s[0] == '-'))),
            acc < 256,
            hex_digits_value(v@.subrange(start as int, i as int)) == Some(acc as nat),
        decreases hi - i,
    {
        let c = v[i];
        let d: u64 = if '0' <= c && c <= '9' {
            (c as u32 - '0' as u32) as u64
        } else if 'a' <= c && c <= 'f' {
            (c as u32 - 'a' as u32 + 10) as u64
        } else if 'A' <= c && c <= 'F' {
            (c as u32 - 'A' as u32 + 10) as u64
        } else {
            proof { lemma_hex_digits_none_extends(v@, start as int, i as int, hi as int); }
            assert(hex_digits_value(digits) is None);
            return None;
        };
        assert(v@.subrange(start as int, i + 1).drop_last() =~= v@.subrange(start as int, i as int));
        assert(hex_value(c) == Some(d as nat));
        let next = 16 * acc + d;
        if next >= 256 {
            proof { lemma_hex_digits_large_extends(v@, start as int, i + 1, hi as int, next as nat); }
            assert(u8_from_hex(s) is None);
            return None;
        }
        acc = next;
        i += 1;
    }
    Some(acc as u8)
}

proof fn lemma_hex_digits_none_extends(v: Seq<char>, start: int, i: int, hi: int)
    requires
        0 <= start <= i < hi <= v.len(),
        hex_value(v[i]) is None,
    ensures
        hex_digits_value(v.subrange(start, hi)) is None,
    decreases hi - i,
{
    let t = v.subrange(start, hi);
    assert(t.drop_last() =~= v.subrange(start, hi - 1));
    if hi - 1 > i {
        lemma_hex_digits_none_extends(v, start, i, hi - 1);
    } else {
        assert(t.last() == v[i]);
    }
}

proof fn lemma_hex_digits_large_extends(v: Seq<char>, start: int, j: int, hi: int, x: nat)
    requires
        0 <= start <= j <= hi <= v.len(),
        hex_digits_value(v.subrange(start, j)) == Some(x),
        x >= 256,
    ensures
        match hex_digits_value(v.subrange(start, hi)) {
            Some(y) => y >= 256,
            None => true,
        },
    decreases hi - j,
{
    if hi > j {
        let t = v.subrange(start, hi);
        assert(t.drop_last() =~= v.subrange(start, hi - 1));
        lemma_hex_digits_large_extends(v, start, j, hi - 1, x);
    }
}


/// The byte the `k`-th two-byte field of `t` denotes in hexadecimal
/// (`u8::from_str_radix(&t[2k..2k + 2], 16).ok()`), when that slice exists.
pub open spec fn hex_field(t: Seq<char>, k: nat) -> Option<nat> {
    match byte_slice(t, 2 * k, 2 * k + 2) {
        Some(p) => u8_from_hex(p),
        None => None,
    }
}


/// Executable `hex_field` on `v[lo..hi]`; the slice must exist.
pub fn hex_field_of(v: &Vec<char>, lo: usize, hi: usize, k: usize) -> (r: Option<u8>)
    requires
        lo <= hi <= v.len(),
        k < 3,
        byte_slice(v@.subrange(lo as int, hi as int), 2 * k as nat, 2 * k as nat + 2) is Some,
    ensures
        match hex_field(v@.subrange(lo as int, hi as int), k as nat) {
            Some(x) => r == Some(x as u8),
            None => r is None,
        },
{
    let ghost t = v@.subrange(lo as int, hi as int);
    proof {
        lemma_boundary_index_le(t, 2 * k as nat);
        lemma_boundary_index_le(t, 2 * k as nat + 2);
    }
    let a = boundary_index_of(v, lo, hi, 2 * k);
    let b = boundary_index_of(v, lo, hi, 2 * k + 2);
    match (a, b) {
        (Some(i), Some(j)) => {
            assert(t.subrange((i - lo) as int, (j - lo) as int) =~= v@.subrange(i as int, j as int));
            u8_from_hex_chars(v, i, j)
        },
        _ => None,
    }
}


/// Whether two string slices hold the same characters.
pub fn str_eq(a: &str, b: &str) -> (r: bool)
    ensures
        r == (a@ == b@),
{
    let x = chars_of(a);
    let y = chars_of(b);
    if x.len() != y.len() {
        return false;
    }
    let mut i: usize = 0;
    while i < x.len()
        invariant
            x.len() == y.len(),
            x@ == a@,
            y@ == b@,
            i <= x.len(),
            forall|j: int| 0 <= j < i ==> x@[j] == y@[j],
        decreases x.len() - i,
    {
        if x[i] != y[i] {
            assert(a@[i as int] != b@[i as int]);
            return false;
        }
        i += 1;
    }
    assert(x@ =~= y@);
    true
}

/// Whether the three two-byte fields of a six-byte colour can be sliced out
/// (slicing inside a multi-byte character panics).
pub open spec fn hex_fields_sliceable(hex: Seq<char>) -> bool {
    let t = trim_start_char(hex, '#');
    byte_len(t) == 6 ==> {
        &&& byte_slice(t, 0, 2) is Some
        &&& byte_slice(t, 2, 4) is Some
        &&& byte_slice(t, 4, 6) is Some
    }
}


/// Unicode `White_Space` (what `char::is_whitespace` tests).
pub open spec fn is_whitespace(c: char) -> bool {
    let u = c as u32;
    (0x9 <= u && u <= 0xD) || u == 0x20 || u == 0x85 || u == 0xA0 || u == 0x1680
        || (0x2000 <= u && u <= 0x200A) || u == 0x2028 || u == 0x2029 || u == 0x202F
        || u == 0x205F || u == 0x3000
}

/// Executable `is_whitespace`.
pub fn char_is_whitespace(c: char) -> (b: bool)
    ensures
        b == is_whitespace(c),
{
    let u = c as u32;
    (0x9 <= u && u <= 0xD) || u == 0x20 || u == 0x85 || u == 0xA0 || u == 0x1680
        || (0x2000 <= u && u <= 0x200A) || u == 0x2028 || u == 0x2029 || u == 0x202F
        || u == 0x205F || u == 0x3000
}

/// The index of the first non-whitespace character (`s.len()` if none).
pub open spec fn trim_start_index(s: Seq<char>) -> nat
    decreases s.len(),
{
    if s.len() > 0 && is_whitespace(s[0]) {
        1 + trim_start_index(s.drop_first())
    } else {
        0
    }
}

/// The index just after the last non-whitespace character (0 if none).
pub open spec fn trim_end_index(s: Seq<char>) -> nat
    decreases s.len(),
{
    if s.len() > 0 && is_whitespace(s.last()) {
        trim_end_index(s.drop_last())
    } else {
        s.len()
    }
}

/// `s` without leading and trailing whitespace (`str::trim`).
pub open spec fn trimmed(s: Seq<char>) -> Seq<char> {
    let a = trim_start_index(s);
    let b = trim_end_index(s);
    if a < b { s.subrange(a as int, b as int) } else { Seq::empty() }
}

/// The digit value of a decimal digit character.
pub open spec fn decimal_value(c: char) -> Option<nat> {
    if '0' <= c && c <= '9' { Some((c as nat - '0' as nat) as nat) } else { None }
}

/// The base-10 value of a sequence of decimal digits, if all are digits.
pub open spec fn decimal_digits_value(d: Seq<char>) -> Option<nat>
    decreases d.len(),
{
    if d.len() == 0 {
        Some(0)
    } else {
        match (decimal_digits_value(d.drop_last()), decimal_value(d.last())) {
            (Some(a), Some(b)) => Some(10 * a + b),
            _ => None,
        }
    }
}

/// What `s.parse::<u64>()` yields: an optional leading `+`, then one or more
/// decimal digits whose value fits in 64 bits.
pub open spec fn u64_from_decimal(s: Seq<char>) -> Option<nat> {
    if s.len() == 0 || (s.len() == 1 && (s[0] == '+' || s[0] == '-')) {
        None
    } else {
        let digits = if s[0] == '+' { s.drop_first() } else { s };
        match decimal_digits_value(digits) {
            Some(v) => if v <= u64::MAX { Some(v) } else { None },
            None => None,
        }
    }
}

/// A number's decimal rendering is all digits, and its digits read back as
/// the number.
pub proof fn lemma_decimal_digits(n: nat)
    ensures
        decimal(n).len() >= 1,
        forall|k: int| 0 <= k < decimal(n).len() ==> '0' <= #[trigger] decimal(n)[k] <= '9',
        decimal_digits_value(decimal(n)) == Some(n),
    decreases n,
{
    let d = n % 10;
    assert(decimal_value(digit_char(d)) == Some(d)) by {
        if d == 0 {
        } else if d == 1 {
        } else if d == 2 {
        } else if d == 3 {
        } else if d == 4 {
        } else if d == 5 {
        } else if d == 6 {
        } else if d == 7 {
        } else if d == 8 {
        } else {
        }
    }
    if n < 10 {
        assert(decimal(n) =~= seq![digit_char(n)]);
        assert(decimal(n).drop_last() =~= Seq::<char>::empty());
        assert(decimal(n).last() == digit_char(d));
        assert(decimal_digits_value(decimal(n).drop_last()) == Some(0nat));
    } else {
        lemma_decimal_digits(n / 10);
        assert(decimal(n).drop_last() =~= decimal(n / 10));
        assert(decimal(n).last() == digit_char(d));
        assert(n == 10 * (n / 10) + d);
    }
}

/// A number's decimal rendering has no surrounding whitespace and parses
/// back (as `str::parse::<u64>`) to the number, when it fits in 64 bits.
pub proof fn lemma_decimal_parses_back(n: nat)
    requires
        n <= u64::MAX,
    ensures
        trimmed(decimal(n)) == decimal(n),
        u64_from_decimal(decimal(n)) == Some(n),
{
    let s = decimal(n);
    lemma_decimal_digits(n);
    assert(!is_whitespace(s[0]) && !is_whitespace(s.last()));
    assert(trim_start_index(s) == 0);
    assert(trim_end_index(s) == s.len());
    assert(s.subrange(0, s.len() as int) =~= s);
    assert(s[0] != '+' && s[0] != '-');
}

proof fn lemma_trim_start_index_bound(s: Seq<char>)
    ensures
        trim_start_index(s) <= s.len(),
    decreases s.len(),
{
    if s.len() > 0 && is_whitespace(s[0]) {
        lemma_trim_start_index_bound(s.drop_first());
    }
}

proof fn lemma_trim_end_index_bound(s: Seq<char>)
    ensures
        trim_end_index(s) <= s.len(),
    decreases s.len(),
{
    if s.len() > 0 && is_whitespace(s.last()) {
        lemma_trim_end_index_bound(s.drop_last());
    }
}

/// The bounds `(a, b)` of `trimmed(v)` within `v`.
pub fn trim_bounds(v: &Vec<char>) -> (r: (usize, usize))
    ensures
        r.0 <= r.1 <= v.len(),
        v@.subrange(r.0 as int, r.1 as int) == trimmed(v@),
{
    let mut a: usize = 0;
    assert(v@.subrange(0, v.len() as int) =~= v@);
    while a < v.len() && char_is_whitespace(v[a])
        invariant
            a <= v.len(),
            a + trim_start_index(v@.subrange(a as int, v.len() as int)) == trim_start_index(v@),
        decreases v.len() - a,
    {
        assert(v@.subrange(a as int, v.len() as int).drop_first() =~= v@.subrange(a + 1, v.len() as int));
        a += 1;
    }
    let mut b: usize = v.len();
    while b > 0 && char_is_whitespace(v[b - 1])
        invariant
            b <= v.len(),
            trim_end_index(v@.subrange(0, b as int)) == trim_end_index(v@),
        decreases b,
    {
        assert(v@.subrange(0, b as int).drop_last() =~= v@.subrange(0, b - 1));
        b -= 1;
    }
    proof {
        lemma_trim_start_index_bound(v@);
        lemma_trim_end_index_bound(v@);
        assert(trim_end_index(v@.subrange(0, b as int)) == b);
    }
    if a < b {
        (a, b)
    } else {
        assert(v@.subrange(a as int, a as int) =~= Seq::<char>::empty());
        (a, a)
    }
}

/// Executable `u64_from_decimal` on the characters `v[lo..hi]`.
pub fn u64_from_decimal_chars(v: &Vec<char>, lo: usize, hi: usize) -> (r: Option<u64>)
    requires
        lo <= hi <= v.len(),
    ensures
        match u64_from_decimal(v@.subrange(lo as int, hi as int)) {
            Some(x) => r == Some(x as u64),
            None => r is None,
        },
{
    let ghost s = v@.subrange(lo as int, hi as int);
    if lo == hi || (hi - lo == 1 && (v[lo] == '+' || v[lo] == '-')) {
        return None;
    }
    let start = if v[lo] == '+' { lo + 1 } else { lo };
    let ghost digits = v@.subrange(start as int, hi as int);
    assert(s[0] == v@[lo as int]);
    assert(digits =~= (if s[0] == '+' { s.drop_first() } else { s }));
    let mut acc: u64 = 0;
    let mut i = start;
    assert(v@.subrange(start as int, start as int) =~= Seq::<char>::empty());
    while i < hi
        invariant
            start <= i <= hi <= v.len(),
            lo <= start,
            s == v@.subrange(lo as int, hi as int),
            digits == v@.subrange(start as int, hi as int),
            s.len() > 0,
            digits == (if s[0] == '+' { s.drop_first() } else { s }),
            !(s.len() == 0 || (s.len() == 1 && (s[0] == '+' || s[0] == '-'))),
            decimal_digits_value(v@.subrange(start as int, i as int)) == Some(acc as nat),
        decreases hi - i,
    {
        let c = v[i];
        if !('0' <= c && c <= '9') {
            proof { lemma_decimal_digits_none_extends(v@, start as int, i as int, hi as int); }
            assert(decimal_digits_value(digits) is None);
            return None;
        }
        let d = (c as u32 - '0' as u32) as u64;
        assert(v@.subrange(start as int, i + 1).drop_last() =~= v@.subrange(start as int, i as int));
        assert(decimal_value(c) == Some(d as nat));
        if acc > 1844674407370955161 || (acc == 1844674407370955161 && d > 5) {
            proof {
                lemma_decimal_digits_large_extends(v@, start as int, i + 1, hi as int, 10 * acc as nat + d as nat);
            }
            assert(u64_from_decimal(s) is None);
            return None;
        }
        acc = 10 * acc + d;
        i += 1;
    }
    Some(acc)
}

proof fn lemma_decimal_digits_none_extends(v: Seq<char>, start: int, i: int, hi: int)
    requires
        0 <= start <= i < hi <= v.len(),
        decimal_value(v[i]) is None,
    ensures
        decimal_digits_value(v.subrange(start, hi)) is None,
    decreases hi - i,
{
    let t = v.subrange(start, hi);
    assert(t.drop_last() =~= v.subrange(start, hi - 1));
    if hi - 1 > i {
        lemma_decimal_digits_none_extends(v, start, i, hi - 1);
    } else {
        assert(t.last() == v[i]);
    }
}

proof fn lemma_decimal_digits_large_extends(v: Seq<char>, start: int, j: int, hi: int, x: nat)
    requires
        0 <= start <= j <= hi <= v.len(),
        decimal_digits_value(v.subrange(start, j)) == Some(x),
        x > u64::MAX,
    ensures
        match decimal_digits_value(v.subrange(start, hi)) {
            Some(y) => y > u64::MAX,
            None => true,
        },
    decreases hi - j,
{
    if hi > j {
        let t = v.subrange(start, hi);
        assert(t.drop_last() =~= v.subrange(start, hi - 1));
        lemma_decimal_digits_large_extends(v, start, j, hi - 1, x);
    }
}


/// What `str::to_lowercase` returns for the characters `s` (Unicode
/// lower-case mapping).
pub uninterp spec fn lowercase(s: Seq<char>) -> Seq<char>;

/// What `str::to_uppercase` returns for the characters `s` (Unicode
/// upper-case mapping).
pub uninterp spec fn uppercase(s: Seq<char>) -> Seq<char>;

/// Whether every character is ASCII.
pub open spec fn all_ascii(s: Seq<char>) -> bool {
    forall|i: int| 0 <= i < s.len() ==> (#[trigger] s[i] as u32) < 0x80
}

/// The ASCII lower case of a character: 'A'..='Z' become 'a'..='z', every
/// other character stays.
pub open spec fn ascii_lower(c: char) -> char {
    if 'A' <= c && c <= 'Z' { ((c as u32) + 32) as char } else { c }
}

/// The ASCII upper case of a character: 'a'..='z' become 'A'..='Z', every
/// other character stays.
pub open spec fn ascii_upper(c: char) -> char {
    if 'a' <= c && c <= 'z' { ((c as u32) - 32) as char } else { c }
}

/// Unicode lower-casing (std `str::to_lowercase`). The contract names the
/// result; of the Unicode case tables it states only the ASCII part: an
/// ASCII text has its letters 'A'..='Z' lowered and nothing else changed.
#[verifier::external_body]
pub(crate) fn to_lowercase(s: &str) -> (r: String)
    ensures
        r@ == lowercase(s@),
        all_ascii(s@) ==> r@ == s@.map_values(|c: char| ascii_lower(c)),
{
    s.to_lowercase()
}

/// Unicode upper-casing (std `str::to_uppercase`). The contract names the
/// result; of the Unicode case tables it states only the ASCII part: an
/// ASCII text has its letters 'a'..='z' raised and nothing else changed.
#[verifier::external_body]
pub(crate) fn to_uppercase(s: &str) -> (r: String)
    ensures
        r@ == uppercase(s@),
        all_ascii(s@) ==> r@ == s@.map_values(|c: char| ascii_upper(c)),
{
    s.to_uppercase()
}

/// Lexicographic comparison of character sequences by code point (the order
/// of `str`'s `Ord`, since UTF-8 keeps code point order): -1, 0 or 1.
pub open spec fn lex_order(a: Seq<char>, b: Seq<char>) -> int
    decreases a.len(),
{
    if a.len() == 0 && b.len() == 0 {
        0
    } else if a.len() == 0 {
        -1
    } else if b.len() == 0 {
        1
    } else if a[0] < b[0] {
        -1
    } else if a[0] > b[0] {
        1
    } else {
        lex_order(a.drop_first(), b.drop_first())
    }
}

/// `lex_order` is antisymmetric and only says "equal" of equal sequences.
pub proof fn lemma_lex_order_antisym(a: Seq<char>, b: Seq<char>)
    ensures
        lex_order(a, b) == -lex_order(b, a),
        -1 <= lex_order(a, b) <= 1,
        lex_order(a, b) == 0 <==> a == b,
    decreases a.len(),
{
    if a.len() > 0 && b.len() > 0 && a[0] == b[0] {
        lemma_lex_order_antisym(a.drop_first(), b.drop_first());
        if a.drop_first() == b.drop_first() {
            assert(a =~= seq![a[0]] + a.drop_first());
            assert(b =~= seq![b[0]] + b.drop_first());
        }
    } else if a.len() == 0 && b.len() == 0 {
        assert(a =~= b);
    }
}

/// `lex_order` is transitive, strictly where one step is strict.
pub proof fn lemma_lex_order_trans(a: Seq<char>, b: Seq<char>, c: Seq<char>)
    ensures
        lex_order(a, b) <= 0 && lex_order(b, c) <= 0 ==> lex_order(a, c) <= 0,
        lex_order(a, b) < 0 && lex_order(b, c) <= 0 ==> lex_order(a, c) < 0,
        lex_order(a, b) <= 0 && lex_order(b, c) < 0 ==> lex_order(a, c) < 0,
    decreases a.len(),
{
    lemma_lex_order_antisym(a, b);
    lemma_lex_order_antisym(b, c);
    lemma_lex_order_antisym(a, c);
    if a.len() > 0 && b.len() > 0 && c.len() > 0 {
        lemma_lex_order_trans(a.drop_first(), b.drop_first(), c.drop_first());
    }
}

/// Executable `lex_order`.
pub fn lex_order_of(a: &Vec<char>, b: &Vec<char>) -> (r: i8)
    ensures
        r as int == lex_order(a@, b@),
{
    let mut i: usize = 0;
    assert(a@.subrange(0, a.len() as int) =~= a@);
    assert(b@.subrange(0, b.len() as int) =~= b@);
    while i < a.len() && i < b.len() && a[i] == b[i]
        invariant
            i <= a.len(),
            i <= b.len(),
            lex_order(a@.subrange(i as int, a.len() as int), b@.subrange(i as int, b.len() as int))
                == lex_order(a@, b@),
        decreases a.len() - i,
    {
        assert(a@.subrange(i as int, a.len() as int).drop_first() =~= a@.subrange(i + 1, a.len() as int));
        assert(b@.subrange(i as int, b.len() as int).drop_first() =~= b@.subrange(i + 1, b.len() as int));
        i += 1;
    }
    if i == a.len() && i == b.len() {
        0
    } else if i == a.len() {
        -1
    } else if i == b.len() {
        1
    } else if a[i] < b[i] {
        -1
    } else {
        1
    }
}

/// Whether `needle` occurs in `hay` as a contiguous run (`str::contains`
/// with a string pattern; the empty needle occurs everywhere).
pub open spec fn contains_seq(hay: Seq<char>, needle: Seq<char>) -> bool {
    exists|i: int| 0 <= i <= hay.len() - needle.len() && #[trigger] hay.subrange(i, i + needle.len()) == needle
}

/// A text occurs in any text built around it.
pub proof fn lemma_contains_middle(a: Seq<char>, x: Seq<char>, b: Seq<char>)
    ensures
        contains_seq(a + x + b, x),
{
    assert((a + x + b).subrange(a.len() as int, (a.len() + x.len()) as int) =~= x);
}

/// What a filter keeps is taken from the sequence and meets the predicate.
pub proof fn lemma_filter_members<A>(s: Seq<A>, pred: spec_fn(A) -> bool)
    ensures
        forall|k: int| 0 <= k < s.filter(pred).len() ==> s.contains(#[trigger] s.filter(pred)[k]) && pred(s.filter(pred)[k]),
    decreases s.len(),
{
    reveal(Seq::filter);
    s.filter_lemma(pred);
    if s.len() > 0 {
        let t = s.drop_last();
        lemma_filter_members(t, pred);
        let f = s.filter(pred);
        let r = t.filter(pred);
        assert forall|k: int| 0 <= k < f.len() implies s.contains(#[trigger] f[k]) by {
            if k < r.len() {
                assert(f[k] == r[k]);
                assert(t.contains(r[k]));
                let m = choose|m: int| 0 <= m < t.len() && t[m] == r[k];
                assert(s[m] == t[m]);
            } else {
                assert(f[k] == s.last());
                assert(s[s.len() - 1] == s.last());
            }
        }
    }
}

/// A text that starts with the end `p` of `l`, goes on with `v` and ends with
/// the start `q` of `r` occurs in any text built as `a + l + v + r + b`.
pub proof fn lemma_contains_between(
    a: Seq<char>,
    l: Seq<char>,
    v: Seq<char>,
    r: Seq<char>,
    b: Seq<char>,
    p: Seq<char>,
    q: Seq<char>,
)
    requires
        p.len() <= l.len(),
        l.subrange(l.len() - p.len(), l.len() as int) == p,
        q.len() <= r.len(),
        r.subrange(0, q.len() as int) == q,
    ensures
        contains_seq(a + l + v + r + b, p + v + q),
{
    let s = a + l + v + r + b;
    let i = a.len() + l.len() - p.len();
    let n = (p + v + q).len();
    assert(s.subrange(i, i + n) =~= p + v + q);
}

/// A filter that every element passes keeps the sequence as it is.
pub proof fn lemma_filter_keeps_all<A>(s: Seq<A>, pred: spec_fn(A) -> bool)
    requires
        forall|k: int| 0 <= k < s.len() ==> pred(#[trigger] s[k]),
    ensures
        s.filter(pred) == s,
    decreases s.len(),
{
    reveal(Seq::filter);
    if s.len() > 0 {
        let t = s.drop_last();
        assert forall|k: int| 0 <= k < t.len() implies pred(#[trigger] t[k]) by {
            assert(t[k] == s[k]);
        }
        lemma_filter_keeps_all(t, pred);
        assert(pred(s[s.len() - 1]));
        assert(t.push(s.last()) =~= s);
    }
}

/// Whether `needle` occurs in `hay` at position `i`.
fn occurs_at(hay: &Vec<char>, needle: &Vec<char>, i: usize) -> (r: bool)
    requires
        i + needle.len() <= hay.len(),
    ensures
        r == (hay@.subrange(i as int, i + needle.len()) == needle@),
{
    let mut k: usize = 0;
    while k < needle.len()
        invariant
            k <= needle.len(),
            i + needle.len() <= hay.len(),
            forall|j: int| 0 <= j < k ==> hay@[i + j] == needle@[j],
        decreases needle.len() - k,
    {
        if hay[i + k] != needle[k] {
            assert(hay@.subrange(i as int, i + needle.len())[k as int] != needle@[k as int]);
            return false;
        }
        k += 1;
    }
    assert(hay@.subrange(i as int, i + needle.len()) =~= needle@);
    true
}

/// Executable `contains_seq`.
pub fn contains_chars(hay: &Vec<char>, needle: &Vec<char>) -> (r: bool)
    ensures
        r == contains_seq(hay@, needle@),
{
    if needle.len() > hay.len() {
        return false;
    }
    let limit = hay.len() - needle.len();
    let mut i: usize = 0;
    loop
        invariant
            needle.len() <= hay.len(),
            limit == hay.len() - needle.len(),
            i <= limit,
            forall|j: int| 0 <= j < i ==> #[trigger] hay@.subrange(j, j + needle.len()) != needle@,
        ensures
            forall|j: int| 0 <= j <= limit ==> #[trigger] hay@.subrange(j, j + needle.len()) != needle@,
        decreases limit - i,
    {
        if occurs_at(hay, needle, i) {
            return true;
        }
        if i == limit {
            break;
        }
        i += 1;
    }
    false
}

/// Texts joined with a separator between each two.
pub open spec fn joined(parts: Seq<Seq<char>>, sep: Seq<char>) -> Seq<char>
    decreases parts.len(),
{
    if parts.len() == 0 {
        Seq::empty()
    } else if parts.len() == 1 {
        parts[0]
    } else {
        joined(parts.drop_last(), sep) + sep + parts.last()
    }
}

/// Joins texts with a separator (`[String]::join`).
pub fn join_texts(parts: &Vec<String>, sep: &str) -> (s: String)
    ensures
        s@ == joined(parts@.map_values(|p: String| p@), sep@),
{
    let ghost all = parts@.map_values(|p: String| p@);
    let mut s = String::new();
    let mut i: usize = 0;
    assert(all.take(0) =~= Seq::<Seq<char>>::empty());
    while i < parts.len()
        invariant
            i <= parts.len(),
            all == parts@.map_values(|p: String| p@),
            s@ == joined(all.take(i as int), sep@),
        decreases parts.len() - i,
    {
        if i > 0 {
            push_str(&mut s, sep);
        }
        push_str(&mut s, parts[i].as_str());
        proof {
            assert(all.take(i + 1).drop_last() =~= all.take(i as int));
            assert(all.take(i + 1).last() == parts@[i as int]@);
            if i == 0 {
                assert(s@ =~= joined(all.take(1), sep@));
            }
        }
        i += 1;
    }
    assert(all.take(parts.len() as int) =~= all);
    s
}

} // verus!
