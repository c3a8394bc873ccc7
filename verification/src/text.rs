//! Character-level text helpers shared by the services: whitespace trimming
//! as `str::trim` does it, searching, lexicographic order and decimal rendering.
use vstd::prelude::*;

verus! {

/// The Unicode `White_Space` property, the set that `char::is_whitespace`
/// and `str::trim` use.
pub open spec fn is_ws(c: char) -> bool {
    let n = c as u32;
    ||| 0x9 <= n <= 0xD
    ||| n == 0x20
    ||| n == 0x85
    ||| n == 0xA0
    ||| n == 0x1680
    ||| 0x2000 <= n <= 0x200A
    ||| n == 0x2028
    ||| n == 0x2029
    ||| n == 0x202F
    ||| n == 0x205F
    ||| n == 0x3000
}

/// Index of the first non-whitespace character at or after `i` (the length if none).
pub open spec fn first_non_ws(s: Seq<char>, i: int) -> int
    decreases s.len() - i,
{
    if i >= s.len() {
        s.len() as int
    } else if !is_ws(s[i]) {
        i
    } else {
        first_non_ws(s, i + 1)
    }
}

/// End of the text once trailing whitespace down to `lo` is dropped.
pub open spec fn last_non_ws_end(s: Seq<char>, lo: int, j: int) -> int
    decreases j - lo,
{
    if j <= lo {
        lo
    } else if !is_ws(s[j - 1]) {
        j
    } else {
        last_non_ws_end(s, lo, j - 1)
    }
}

/// `s` without leading and trailing whitespace.
pub open spec fn trim(s: Seq<char>) -> Seq<char> {
    let a = first_non_ws(s, 0);
    s.subrange(a, last_non_ws_end(s, a, s.len() as int))
}

/// Index of the first occurrence of `c` at or after `i` (the length if none).
pub open spec fn index_of(s: Seq<char>, c: char, i: int) -> int
    decreases s.len() - i,
{
    if i >= s.len() {
        s.len() as int
    } else if s[i] == c {
        i
    } else {
        index_of(s, c, i + 1)
    }
}

/// Whether `needle` occurs in `s` as a contiguous run of characters.
pub open spec fn contains_seq(s: Seq<char>, needle: Seq<char>) -> bool {
    exists|k: int| 0 <= k && k + needle.len() <= s.len() && #[trigger] s.subrange(k, k + needle.len()) == needle
}

/// Lexicographic order on code points, which is also the byte order of the
/// UTF-8 encodings (how SQLite compares `TEXT` values).
pub open spec fn lex_le(a: Seq<char>, b: Seq<char>) -> bool
    decreases a.len(),
{
    if a.len() == 0 {
        true
    } else if b.len() == 0 {
        false
    } else if (a[0] as u32) < (b[0] as u32) {
        true
    } else if (a[0] as u32) > (b[0] as u32) {
        false
    } else {
        lex_le(a.drop_first(), b.drop_first())
    }
}

/// The decimal digits of `n`, without sign or leading zeros.
pub open spec fn decimal(n: nat) -> Seq<char>
    decreases n,
{
    if n < 10 {
        seq![digit_char(n)]
    } else {
        decimal(n / 10).push(digit_char(n % 10))
    }
}

pub open spec fn digit_char(d: nat) -> char {
    if d == 0 { '0' }
    else if d == 1 { '1' }
    else if d == 2 { '2' }
    else if d == 3 { '3' }
    else if d == 4 { '4' }
    else if d == 5 { '5' }
    else if d == 6 { '6' }
    else if d == 7 { '7' }
    else if d == 8 { '8' }
    else { '9' }
}

/// Decimal rendering of a signed integer, with a leading `-` when negative.
pub open spec fn signed_decimal(n: int) -> Seq<char> {
    if n < 0 {
        seq!['-'] + decimal((-n) as nat)
    } else {
        decimal(n as nat)
    }
}

pub proof fn lemma_first_non_ws_bounds(s: Seq<char>, i: int)
    requires
        0 <= i,
    ensures
        i <= first_non_ws(s, i) <= s.len() || (i > s.len() && first_non_ws(s, i) == s.len()),
        first_non_ws(s, i) < s.len() ==> !is_ws(s[first_non_ws(s, i)]),
        forall|k: int| i <= k < first_non_ws(s, i) ==> is_ws(#[trigger] s[k]),
    decreases s.len() - i,
{
    if i < s.len() && is_ws(s[i]) {
        lemma_first_non_ws_bounds(s, i + 1);
    }
}

pub proof fn lemma_last_non_ws_end_bounds(s: Seq<char>, lo: int, j: int)
    requires
        lo <= j,
    ensures
        lo <= last_non_ws_end(s, lo, j) <= j,
        last_non_ws_end(s, lo, j) > lo ==> !is_ws(s[last_non_ws_end(s, lo, j) - 1]),
        forall|k: int| last_non_ws_end(s, lo, j) <= k < j ==> is_ws(#[trigger] s[k]),
    decreases j - lo,
{
    if j > lo && is_ws(s[j - 1]) {
        lemma_last_non_ws_end_bounds(s, lo, j - 1);
    }
}

/// The first non-whitespace character at or after `i` is the one at `a`
/// when only whitespace lies between.
pub proof fn lemma_first_non_ws_at(s: Seq<char>, i: int, a: int)
    requires
        0 <= i <= a <= s.len(),
        forall|k: int| i <= k < a ==> is_ws(#[trigger] s[k]),
        a == s.len() || !is_ws(s[a]),
    ensures
        first_non_ws(s, i) == a,
    decreases a - i,
{
    if i < a {
        lemma_first_non_ws_at(s, i + 1, a);
    }
}

/// Trailing whitespace of `s[lo..j]` ends at `m` when only whitespace lies
/// in `s[m..j]` and the character before `m` (if any above `lo`) is not.
pub proof fn lemma_last_non_ws_end_at(s: Seq<char>, lo: int, m: int, j: int)
    requires
        lo <= m <= j,
        forall|k: int| m <= k < j ==> is_ws(#[trigger] s[k]),
        m == lo || !is_ws(s[m - 1]),
    ensures
        last_non_ws_end(s, lo, j) == m,
    decreases j - m,
{
    if m < j {
        lemma_last_non_ws_end_at(s, lo, m, j - 1);
    }
}

/// `trim(s)` is the slice of `s` between its leading and its trailing
/// whitespace; when not empty it starts and ends with non-whitespace.
pub proof fn lemma_trim_shape(s: Seq<char>)
    ensures
        0 <= first_non_ws(s, 0) <= last_non_ws_end(s, first_non_ws(s, 0), s.len() as int) <= s.len(),
        trim(s) == s.subrange(first_non_ws(s, 0), last_non_ws_end(s, first_non_ws(s, 0), s.len() as int)),
        trim(s).len() <= s.len(),
        trim(s).len() > 0 ==> !is_ws(trim(s)[0]) && !is_ws(trim(s)[trim(s).len() - 1]),
        forall|k: int| 0 <= k < first_non_ws(s, 0) ==> is_ws(#[trigger] s[k]),
        forall|k: int| last_non_ws_end(s, first_non_ws(s, 0), s.len() as int) <= k < s.len() ==> is_ws(#[trigger] s[k]),
{
    lemma_first_non_ws_bounds(s, 0);
    let a = first_non_ws(s, 0);
    lemma_last_non_ws_end_bounds(s, a, s.len() as int);
}

/// A text whose ends are not whitespace is its own trim.
pub proof fn lemma_trim_of_trimmed(s: Seq<char>)
    requires
        s.len() > 0 ==> !is_ws(s[0]) && !is_ws(s[s.len() - 1]),
    ensures
        trim(s) == s,
{
    if s.len() > 0 {
        lemma_first_non_ws_at(s, 0, 0);
        lemma_last_non_ws_end_at(s, 0, s.len() as int, s.len() as int);
    }
    assert(s.subrange(0, s.len() as int) =~= s);
}

/// The first `c` at or after `i` is at `k` when none lies between.
pub proof fn lemma_index_of_at(s: Seq<char>, c: char, i: int, k: int)
    requires
        0 <= i <= k < s.len(),
        s[k] == c,
        forall|m: int| i <= m < k ==> s[m] != c,
    ensures
        index_of(s, c, i) == k,
    decreases k - i,
{
    if i < k {
        lemma_index_of_at(s, c, i + 1, k);
    }
}

pub proof fn lemma_index_of_bounds(s: Seq<char>, c: char, i: int)
    requires
        0 <= i <= s.len(),
    ensures
        i <= index_of(s, c, i) <= s.len(),
        index_of(s, c, i) < s.len() ==> s[index_of(s, c, i)] == c,
        forall|k: int| i <= k < index_of(s, c, i) ==> s[k] != c,
    decreases s.len() - i,
{
    if i < s.len() && s[i] != c {
        lemma_index_of_bounds(s, c, i + 1);
    }
}

/// An owned copy of `s`.
pub fn str_of(s: &str) -> (r: String)
    ensures
        r@ == s@,
{
    String::from_str(s)
}

/// `s` without any trailing `c` characters (`str::trim_end_matches(c)`).
pub open spec fn strip_trailing(s: Seq<char>, c: char) -> Seq<char>
    decreases s.len(),
{
    if s.len() > 0 && s.last() == c {
        strip_trailing(s.drop_last(), c)
    } else {
        s
    }
}

/// `s` without any trailing `c` characters.
pub fn trim_end_char(s: &str, c: char) -> (r: String)
    ensures
        r@ == strip_trailing(s@, c),
{
    let v = chars_of(s);
    let mut n = v.len();
    assert(v@.subrange(0, n as int) =~= v@);
    while n > 0 && v[n - 1] == c
        invariant
            n <= v.len(),
            v@ == s@,
            strip_trailing(v@.subrange(0, n as int), c) == strip_trailing(s@, c),
        decreases n,
    {
        assert(v@.subrange(0, n as int).drop_last() =~= v@.subrange(0, n - 1));
        n = n - 1;
    }
    string_from_chars(&v, 0, n)
}

/// Whether `s` reads exactly `lit`.
pub fn eq_lit(s: &String, lit: &str) -> (b: bool)
    ensures
        b == (s@ == lit@),
{
    *s == String::from_str(lit)
}

/// `a`, then `b`, then `c`, as one string.
pub fn concat3(a: &str, b: &str, c: &str) -> (r: String)
    ensures
        r@ == a@ + b@ + c@,
{
    let mut r = String::from_str(a);
    r.append(b);
    r.append(c);
    r
}

pub proof fn lemma_lex_le_total(a: Seq<char>, b: Seq<char>)
    ensures
        lex_le(a, b) || lex_le(b, a),
    decreases a.len(),
{
    if a.len() > 0 && b.len() > 0 && (a[0] as u32) == (b[0] as u32) {
        lemma_lex_le_total(a.drop_first(), b.drop_first());
    }
}

pub proof fn lemma_lex_le_trans(a: Seq<char>, b: Seq<char>, c: Seq<char>)
    requires
        lex_le(a, b),
        lex_le(b, c),
    ensures
        lex_le(a, c),
    decreases a.len(),
{
    if a.len() > 0 && b.len() > 0 && c.len() > 0 && (a[0] as u32) == (b[0] as u32) && (b[0] as u32) == (c[0] as u32) {
        lemma_lex_le_trans(a.drop_first(), b.drop_first(), c.drop_first());
    }
}

pub proof fn lemma_lex_le_refl(a: Seq<char>)
    ensures
        lex_le(a, a),
    decreases a.len(),
{
    if a.len() > 0 {
        lemma_lex_le_refl(a.drop_first());
    }
}

/// Appends one character, through std's `String::push`, which its
/// documentation describes as appending the char to the end of the string:
/// the contract claims the characters afterwards are the old ones followed by `c`.
#[verifier::external_body]
pub(crate) fn push_char(s: &mut String, c: char)
    ensures
        final(s)@ == old(s)@.push(c),
{
    s.push(c);
}

/// The characters of `s`, in order.
pub fn chars_of(s: &str) -> (v: Vec<char>)
    ensures
        v@ == s@,
{
    let mut v: Vec<char> = Vec::new();
    for c in it: s.chars()
        invariant
            v@ == it.seq().take(it.index() as int),
    {
        v.push(c);
    }
    v
}

/// A `String` holding the characters `v[from..to]`.
pub fn string_from_chars(v: &Vec<char>, from: usize, to: usize) -> (s: String)
    requires
        from <= to <= v.len(),
    ensures
        s@ == v@.subrange(from as int, to as int),
{
    let mut s = String::new();
    let mut k = from;
    while k < to
        invariant
            from <= k <= to <= v.len(),
            s@ == v@.subrange(from as int, k as int),
        decreases to - k,
    {
        push_char(&mut s, v[k]);
        assert(v@.subrange(from as int, k + 1) =~= v@.subrange(from as int, k as int).push(v@[k as int]));
        k = k + 1;
    }
    s
}

/// Appends the characters `v[from..to]` to `out`.
pub fn append_chars(out: &mut String, v: &Vec<char>, from: usize, to: usize)
    requires
        from <= to <= v.len(),
    ensures
        final(out)@ == old(out)@ + v@.subrange(from as int, to as int),
{
    let ghost start = out@;
    let mut k = from;
    while k < to
        invariant
            from <= k <= to <= v.len(),
            out@ == start + v@.subrange(from as int, k as int),
        decreases to - k,
    {
        push_char(out, v[k]);
        assert(v@.subrange(from as int, k + 1) =~= v@.subrange(from as int, k as int).push(v@[k as int]));
        assert(start + v@.subrange(from as int, k + 1) =~= (start + v@.subrange(from as int, k as int)).push(v@[k as int]));
        k = k + 1;
    }
}

/// Membership in the Unicode `White_Space` set.
pub fn is_whitespace(c: char) -> (b: bool)
    ensures
        b == is_ws(c),
{
    let n = c as u32;
    (0x9 <= n && n <= 0xD) || n == 0x20 || n == 0x85 || n == 0xA0 || n == 0x1680 || (0x2000 <= n
        && n <= 0x200A) || n == 0x2028 || n == 0x2029 || n == 0x202F || n == 0x205F || n == 0x3000
}

/// Bounds `(a, b)` such that `v[a..b]` is `v[from..to]` trimmed of whitespace.
pub fn trim_bounds(v: &Vec<char>, from: usize, to: usize) -> (r: (usize, usize))
    requires
        from <= to <= v.len(),
    ensures
        from <= r.0 <= r.1 <= to,
        v@.subrange(r.0 as int, r.1 as int) == trim(v@.subrange(from as int, to as int)),
{
    let ghost s = v@.subrange(from as int, to as int);
    let mut a = from;
    while a < to && is_whitespace(v[a])
        invariant
            from <= a <= to <= v.len(),
            s == v@.subrange(from as int, to as int),
            first_non_ws(s, (a - from) as int) == first_non_ws(s, 0),
        decreases to - a,
    {
        a = a + 1;
    }
    assert(first_non_ws(s, (a - from) as int) == (a - from) as int);
    let mut b = to;
    while b > a && is_whitespace(v[b - 1])
        invariant
            from <= a <= b <= to <= v.len(),
            s == v@.subrange(from as int, to as int),
            first_non_ws(s, 0) == (a - from) as int,
            last_non_ws_end(s, (a - from) as int, (b - from) as int) == last_non_ws_end(
                s,
                (a - from) as int,
                s.len() as int,
            ),
        decreases b - a,
    {
        b = b - 1;
    }
    assert(last_non_ws_end(s, (a - from) as int, (b - from) as int) == (b - from) as int);
    assert(v@.subrange(a as int, b as int) =~= s.subrange((a - from) as int, (b - from) as int));
    (a, b)
}

/// `s` with leading and trailing whitespace removed (`str::trim`).
pub fn trim_str(s: &str) -> (r: String)
    ensures
        r@ == trim(s@),
{
    let v = chars_of(s);
    let (a, b) = trim_bounds(&v, 0, v.len());
    assert(v@.subrange(0, v.len() as int) =~= v@);
    string_from_chars(&v, a, b)
}

/// The first index `>= from` and `< to` holding `c`, or `to`.
pub fn find_char(v: &Vec<char>, c: char, from: usize, to: usize) -> (r: usize)
    requires
        from <= to <= v.len(),
    ensures
        r as int == from + index_of(v@.subrange(from as int, to as int), c, 0),
        from <= r <= to,
{
    let ghost s = v@.subrange(from as int, to as int);
    let mut k = from;
    while k < to && v[k] != c
        invariant
            from <= k <= to <= v.len(),
            s == v@.subrange(from as int, to as int),
            index_of(s, c, (k - from) as int) == index_of(s, c, 0),
        decreases to - k,
    {
        k = k + 1;
    }
    k
}

/// Whether `v[from..to]` contains the three characters `x y z` in a row.
pub fn contains3(v: &Vec<char>, from: usize, to: usize, x: char, y: char, z: char) -> (b: bool)
    requires
        from <= to <= v.len(),
    ensures
        b == contains_seq(v@.subrange(from as int, to as int), seq![x, y, z]),
{
    let ghost s = v@.subrange(from as int, to as int);
    let ghost needle = seq![x, y, z];
    let mut k = from;
    while to - k >= 3
        invariant
            from <= k <= to <= v.len(),
            s == v@.subrange(from as int, to as int),
            needle == seq![x, y, z],
            forall|j: int| 0 <= j < k - from && j + 3 <= s.len() ==> #[trigger] s.subrange(j, j + 3) != needle,
        decreases to - k,
    {
        if v[k] == x && v[k + 1] == y && v[k + 2] == z {
            let ghost j = (k - from) as int;
            assert(s.subrange(j, j + 3) =~= needle);
            return true;
        }
        let ghost j = (k - from) as int;
        assert(s.subrange(j, j + 3)[0] == v@[k as int]);
        assert(s.subrange(j, j + 3)[1] == v@[k + 1]);
        assert(s.subrange(j, j + 3)[2] == v@[k + 2]);
        k = k + 1;
    }
    assert forall|j: int| 0 <= j && j + needle.len() <= s.len() implies #[trigger] s.subrange(
        j,
        j + needle.len(),
    ) != needle by {
        assert(j < k - from);
    }
    false
}

/// `lex_le(a, b)` on two strings.
pub fn str_lex_le(a: &str, b: &str) -> (r: bool)
    ensures
        r == lex_le(a@, b@),
{
    let x = chars_of(a);
    let y = chars_of(b);
    let mut k: usize = 0;
    assert(x@.skip(0) =~= x@);
    assert(y@.skip(0) =~= y@);
    loop
        invariant
            0 <= k <= x.len(),
            k <= y.len(),
            x@ == a@,
            y@ == b@,
            lex_le(x@, y@) == lex_le(x@.skip(k as int), y@.skip(k as int)),
        decreases x.len() - k,
    {
        if k == x.len() {
            return true;
        }
        if k == y.len() {
            return false;
        }
        let p = x[k] as u32;
        let q = y[k] as u32;
        if p != q {
            return p < q;
        }
        assert(x@.skip(k as int).drop_first() =~= x@.skip(k + 1));
        assert(y@.skip(k as int).drop_first() =~= y@.skip(k + 1));
        k = k + 1;
    }
}

/// Appends the decimal digits of `n` to `out`.
pub fn append_decimal(out: &mut String, n: u64)
    ensures
        final(out)@ == old(out)@ + decimal(n as nat),
    decreases n,
{
    if n >= 10 {
        append_decimal(out, n / 10);
    }
    let c = digit(n % 10);
    push_char(out, c);
    proof {
        if n >= 10 {
            assert(decimal(n as nat) == decimal((n / 10) as nat).push(c));
        } else {
            assert(decimal(n as nat) == seq![c]);
        }
    }
    assert(final(out)@ =~= old(out)@ + decimal(n as nat));
}

/// Appends the decimal rendering of `n`, with a leading `-` when negative.
pub fn append_signed(out: &mut String, n: i64)
    ensures
        final(out)@ == old(out)@ + signed_decimal(n as int),
{
    if n < 0 {
        push_char(out, '-');
        let m: u64 = (-(n as i128)) as u64;
        let ghost mid = out@;
        append_decimal(out, m);
        assert(final(out)@ =~= old(out)@ + signed_decimal(n as int));
    } else {
        append_decimal(out, n as u64);
    }
}

fn digit(d: u64) -> (c: char)
    requires
        d < 10,
    ensures
        c == digit_char(d as nat),
{
    if d == 0 { '0' }
    else if d == 1 { '1' }
    else if d == 2 { '2' }
    else if d == 3 { '3' }
    else if d == 4 { '4' }
    else if d == 5 { '5' }
    else if d == 6 { '6' }
    else if d == 7 { '7' }
    else if d == 8 { '8' }
    else { '9' }
}

} // verus!
